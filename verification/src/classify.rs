//! Threshold classification of raw temperature readings.
//!
//! Temperatures are carried as tenths of a degree Celsius (`temp_deci`),
//! so `80.0 °C` is `800`. The tiers are inclusive at their lower bound:
//! `Critical` from `80.0 °C` up, `Warning` from `70.0 °C` up, `Normal`
//! below that.

use vstd::prelude::*;
use vstd::string::StringExecFns;

use crate::text::{
    lower_of, lowercase, push_decimal, seq_contains, spec_decimal, str_contains,
};

verus! {

/// Tenths of a degree Celsius at and above which a reading is `Critical`.
pub const CRITICAL_THRESHOLD_DECI: i32 = 800;

/// Tenths of a degree Celsius at and above which a reading is `Warning`.
pub const WARNING_THRESHOLD_DECI: i32 = 700;

/// Severity tier of one temperature reading.
#[derive(Clone, Copy, Debug, PartialEq, Eq, Structural)]
pub enum TempStatus {
    Normal,
    Warning,
    Critical,
}

/// The tier a temperature in tenths of a degree Celsius falls under.
pub open spec fn spec_classify(temp_deci: int) -> TempStatus {
    if temp_deci >= CRITICAL_THRESHOLD_DECI {
        TempStatus::Critical
    } else if temp_deci >= WARNING_THRESHOLD_DECI {
        TempStatus::Warning
    } else {
        TempStatus::Normal
    }
}

/// Classify one temperature reading, given in tenths of a degree Celsius.
pub fn classify(temp_deci: i32) -> (status: TempStatus)
    ensures
        status == spec_classify(temp_deci as int),
{
    if temp_deci >= CRITICAL_THRESHOLD_DECI {
        TempStatus::Critical
    } else if temp_deci >= WARNING_THRESHOLD_DECI {
        TempStatus::Warning
    } else {
        TempStatus::Normal
    }
}

/// One raw reading from a metric source: a sensor label and its
/// temperature in tenths of a degree Celsius.
#[derive(Clone, Debug, PartialEq, Eq)]
pub struct RawTemperature {
    pub label: String,
    pub temp_deci: i32,
}

/// One classified reading: the raw reading together with its tier.
#[derive(Clone, Debug, PartialEq, Eq)]
pub struct TemperatureReading {
    pub label: String,
    pub temp_deci: i32,
    pub status: TempStatus,
}

/// The warning text for a reading at or above the warning tier:
/// `<label> temperature is too high: <v>°C` for `Critical` readings and
/// `<label> temperature is getting high: <v>°C` for `Warning` ones, the
/// value printed with one decimal digit.
pub open spec fn spec_warning_message(label: Seq<char>, temp_deci: int) -> Seq<char> {
    label + (if temp_deci >= CRITICAL_THRESHOLD_DECI {
        " temperature is too high: "@
    } else {
        " temperature is getting high: "@
    }) + spec_decimal((temp_deci / 10) as nat) + "."@ + spec_decimal((temp_deci % 10) as nat)
        + "°C"@
}

/// The warning text for a reading, or `None` for a `Normal` one.
pub fn warning_message(label: &str, temp_deci: i32) -> (msg: Option<String>)
    ensures
        (match msg {
            Some(m) => spec_classify(temp_deci as int) != TempStatus::Normal && m@
                == spec_warning_message(label@, temp_deci as int),
            None => spec_classify(temp_deci as int) == TempStatus::Normal,
        }),
{
    let status = classify(temp_deci);
    if status == TempStatus::Normal {
        return None;
    }
    let mut m = label.to_owned();
    if status == TempStatus::Critical {
        m.append(" temperature is too high: ");
    } else {
        m.append(" temperature is getting high: ");
    }
    let t = temp_deci as u32;
    push_decimal(&mut m, t / 10);
    m.append(".");
    push_decimal(&mut m, t % 10);
    m.append("°C");
    proof {
        assert(m@ =~= spec_warning_message(label@, temp_deci as int));
    }
    Some(m)
}

/// The classified form of one raw reading.
pub open spec fn spec_reading_of(raw: RawTemperature) -> TemperatureReading {
    TemperatureReading {
        label: raw.label,
        temp_deci: raw.temp_deci,
        status: spec_classify(raw.temp_deci as int),
    }
}

/// The classified form of a whole readout, in order.
pub open spec fn spec_readings(raws: Seq<RawTemperature>) -> Seq<TemperatureReading> {
    raws.map_values(|raw: RawTemperature| spec_reading_of(raw))
}

/// The warning texts of a readout: one per reading above the warning
/// tier, in reading order.
pub open spec fn spec_warnings(raws: Seq<RawTemperature>) -> Seq<Seq<char>>
    decreases raws.len(),
{
    if raws.len() == 0 {
        Seq::empty()
    } else {
        let rest = spec_warnings(raws.drop_last());
        let raw = raws.last();
        if spec_classify(raw.temp_deci as int) == TempStatus::Normal {
            rest
        } else {
            rest.push(spec_warning_message(raw.label@, raw.temp_deci as int))
        }
    }
}

/// The character sequences of a sequence of strings.
pub open spec fn views_of(strings: Seq<String>) -> Seq<Seq<char>> {
    strings.map_values(|s: String| s@)
}

/// Classify a whole readout: every reading gets its tier, and every
/// reading at or above the warning tier contributes one warning text.
pub fn classify_all(raws: &Vec<RawTemperature>) -> (r: (Vec<TemperatureReading>, Vec<String>))
    ensures
        r.0@ == spec_readings(raws@),
        views_of(r.1@) == spec_warnings(raws@),
{
    let mut readings: Vec<TemperatureReading> = Vec::new();
    let mut warnings: Vec<String> = Vec::new();
    proof {
        assert(readings@ =~= spec_readings(raws@.take(0)));
        assert(views_of(warnings@) =~= spec_warnings(raws@.take(0)));
    }
    let n = raws.len();
    for i in 0..n
        invariant
            n == raws@.len(),
            readings@ == spec_readings(raws@.take(i as int)),
            views_of(warnings@) == spec_warnings(raws@.take(i as int)),
    {
        let raw = &raws[i];
        let status = classify(raw.temp_deci);
        if let Some(m) = warning_message(raw.label.as_str(), raw.temp_deci) {
            proof {
                assert(views_of(warnings@.push(m)) =~= views_of(warnings@).push(m@));
            }
            warnings.push(m);
        }
        let reading = TemperatureReading { label: raw.label.clone(), temp_deci: raw.temp_deci, status };
        proof {
            assert(reading == spec_reading_of(raws@[i as int]));
            assert(raws@.take(i + 1).drop_last() =~= raws@.take(i as int));
            assert(raws@.take(i + 1).last() == raws@[i as int]);
            assert(spec_readings(raws@.take(i + 1)) =~= spec_readings(raws@.take(i as int)).push(
                spec_reading_of(raws@[i as int]),
            ));
        }
        readings.push(reading);
    }
    proof {
        assert(raws@.take(n as int) =~= raws@);
    }
    (readings, warnings)
}

/// The raw reading a classified one came from.
pub open spec fn spec_raw_of(reading: TemperatureReading) -> RawTemperature {
    RawTemperature { label: reading.label, temp_deci: reading.temp_deci }
}

/// The raw readings a classified readout came from.
pub open spec fn spec_raws_of(readings: Seq<TemperatureReading>) -> Seq<RawTemperature> {
    readings.map_values(|reading: TemperatureReading| spec_raw_of(reading))
}

/// Classification keeps the raw readings: stripping the tiers off a
/// classified readout gives back exactly the readout that was
/// classified.
pub proof fn lemma_classified_keeps_raws(raws: Seq<RawTemperature>)
    ensures
        spec_raws_of(spec_readings(raws)) == raws,
{
    assert(spec_raws_of(spec_readings(raws)) =~= raws);
}

/// A label names the CPU when its lower-cased text contains `cpu`.
pub open spec fn spec_is_cpu_label(label: Seq<char>) -> bool {
    seq_contains(lower_of(label), "cpu"@)
}

/// The temperature of the first reading whose label names the CPU.
pub open spec fn spec_cpu_temp(readings: Seq<TemperatureReading>) -> Option<i32>
    decreases readings.len(),
{
    if readings.len() == 0 {
        None
    } else if spec_is_cpu_label(readings.first().label@) {
        Some(readings.first().temp_deci)
    } else {
        spec_cpu_temp(readings.drop_first())
    }
}

/// Select the snapshot's top-level CPU temperature: the first reading
/// whose label contains `cpu`, matched case-insensitively.
pub fn cpu_temp_of(readings: &Vec<TemperatureReading>) -> (r: Option<i32>)
    ensures
        r == spec_cpu_temp(readings@),
{
    let n = readings.len();
    proof {
        assert(readings@.skip(0) =~= readings@);
    }
    for i in 0..n
        invariant
            n == readings@.len(),
            spec_cpu_temp(readings@) == spec_cpu_temp(readings@.skip(i as int)),
    {
        let lowered = lowercase(readings[i].label.as_str());
        proof {
            assert(readings@.skip(i as int).first() == readings@[i as int]);
            assert(readings@.skip(i as int).drop_first() =~= readings@.skip(i + 1));
        }
        if str_contains(lowered.as_str(), "cpu") {
            return Some(readings[i].temp_deci);
        }
    }
    proof {
        assert(readings@.skip(n as int) =~= Seq::<TemperatureReading>::empty());
    }
    None
}

} // verus!
