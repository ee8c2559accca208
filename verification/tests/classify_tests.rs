use hostmon::classify::{
    classify, classify_all, cpu_temp_of, warning_message, RawTemperature, TempStatus,
    TemperatureReading,
};

fn raw(label: &str, temp_deci: i32) -> RawTemperature {
    RawTemperature { label: label.to_string(), temp_deci }
}

#[test]
fn classify_boundaries() {
    // 79.9 °C is neither Normal nor Critical: it is Warning.
    assert_eq!(classify(799), TempStatus::Warning);
    assert_eq!(classify(800), TempStatus::Critical);
    assert_eq!(classify(700), TempStatus::Warning);
    assert_eq!(classify(699), TempStatus::Normal);
}

#[test]
fn classify_extremes() {
    assert_eq!(classify(i32::MIN), TempStatus::Normal);
    assert_eq!(classify(0), TempStatus::Normal);
    assert_eq!(classify(i32::MAX), TempStatus::Critical);
}

#[test]
fn warning_message_critical() {
    let msg = warning_message("CPU Package", 850);
    assert_eq!(msg.unwrap(), "CPU Package temperature is too high: 85.0°C");
}

#[test]
fn warning_message_warning_tier() {
    let msg = warning_message("gpu", 723);
    assert_eq!(msg.unwrap(), "gpu temperature is getting high: 72.3°C");
}

#[test]
fn warning_message_normal_is_none() {
    assert_eq!(warning_message("cpu", 699), None);
    assert_eq!(warning_message("cpu", 0), None);
}

#[test]
fn warning_message_boundary_values() {
    assert_eq!(
        warning_message("x", 800).unwrap(),
        "x temperature is too high: 80.0°C"
    );
    assert_eq!(
        warning_message("x", 700).unwrap(),
        "x temperature is getting high: 70.0°C"
    );
    assert_eq!(
        warning_message("x", 799).unwrap(),
        "x temperature is getting high: 79.9°C"
    );
}

#[test]
fn classify_all_statuses_and_warnings() {
    let raws = vec![raw("CPU", 850), raw("board", 400), raw("nvme", 710)];
    let (readings, warnings) = classify_all(&raws);
    assert_eq!(readings.len(), 3);
    assert_eq!(readings[0].status, TempStatus::Critical);
    assert_eq!(readings[0].label, "CPU");
    assert_eq!(readings[0].temp_deci, 850);
    assert_eq!(readings[1].status, TempStatus::Normal);
    assert_eq!(readings[2].status, TempStatus::Warning);
    assert_eq!(
        warnings,
        vec![
            "CPU temperature is too high: 85.0°C".to_string(),
            "nvme temperature is getting high: 71.0°C".to_string(),
        ]
    );
}

#[test]
fn classify_all_empty() {
    let (readings, warnings) = classify_all(&Vec::new());
    assert!(readings.is_empty());
    assert!(warnings.is_empty());
}

fn reading(label: &str, temp_deci: i32, status: TempStatus) -> TemperatureReading {
    TemperatureReading { label: label.to_string(), temp_deci, status }
}

#[test]
fn cpu_temp_picks_first_cpu_label_case_insensitively() {
    // The label matches only after real lower-casing, so this fails if
    // the lower-casing step hands its input back unchanged.
    let readings = vec![
        reading("Sys Fan", 400, TempStatus::Normal),
        reading("CPU Package", 612, TempStatus::Normal),
        reading("cpu core", 655, TempStatus::Normal),
    ];
    assert_eq!(cpu_temp_of(&readings), Some(612));
}

#[test]
fn cpu_temp_absent_when_no_label_matches() {
    let readings = vec![reading("board", 300, TempStatus::Normal)];
    assert_eq!(cpu_temp_of(&readings), None);
    assert_eq!(cpu_temp_of(&Vec::new()), None);
}
