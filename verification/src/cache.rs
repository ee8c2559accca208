//! The snapshot cache and freshness controller.
//!
//! The controller owns the last computed snapshot and its capture time,
//! and decides per request whether to reuse it (a hit) or to recompute
//! (a miss). It is driven through an exclusive `&mut` borrow, so within
//! one controller no two recomputations can interleave; a process wraps
//! it in its native exclusive lock to share it across request handlers.

use vstd::prelude::*;
use vstd::pervasive::unreached;

use crate::classify::{
    spec_classify, spec_cpu_temp, spec_raws_of, spec_warnings, views_of, TemperatureReading,
};
use crate::history::{lemma_ring_append, spec_ring_append, HistoryEntry, TempHistory};
use crate::metrics::MetricSource;
use crate::snapshot::{assemble_snapshot, Snapshot};

verus! {

/// How long a stored snapshot stays fresh, in milliseconds.
pub const CACHE_DURATION_MS: u64 = 1000;

/// Whether a request reused the stored snapshot or forced a
/// recomputation.
#[derive(Clone, Copy, Debug, PartialEq, Eq, Structural)]
pub enum CacheStatus {
    Hit,
    Miss,
}

/// The snapshot cache: the authoritative last computed snapshot and
/// its capture timestamp.
pub struct SnapshotCache {
    cached: Option<Snapshot>,
    last_update_ms: u64,
}

/// An exact copy of one classified reading.
fn copy_reading(reading: &TemperatureReading) -> (copy: TemperatureReading)
    ensures
        copy == *reading,
{
    TemperatureReading {
        label: reading.label.clone(),
        temp_deci: reading.temp_deci,
        status: reading.status,
    }
}

/// An exact copy of a list of classified readings.
fn copy_readings(readings: &Vec<TemperatureReading>) -> (copy: Vec<TemperatureReading>)
    ensures
        copy@ == readings@,
{
    let mut out: Vec<TemperatureReading> = Vec::new();
    let n = readings.len();
    for i in 0..n
        invariant
            n == readings@.len(),
            out@ == readings@.take(i as int),
    {
        out.push(copy_reading(&readings[i]));
        proof {
            assert(out@ =~= readings@.take(i + 1));
        }
    }
    proof {
        assert(readings@.take(n as int) =~= readings@);
    }
    out
}

impl SnapshotCache {
    /// The stored snapshot, if any recomputation has happened yet.
    pub closed spec fn spec_cached(&self) -> Option<Snapshot> {
        self.cached
    }

    /// When the stored snapshot was captured, in milliseconds.
    pub closed spec fn spec_last_update_ms(&self) -> u64 {
        self.last_update_ms
    }

    /// A stored snapshot exists and is younger than the freshness
    /// window, as seen at time `now_ms`.
    pub open spec fn is_fresh(&self, now_ms: u64) -> bool {
        &&& self.spec_cached() is Some
        &&& (now_ms as int) < self.spec_last_update_ms() + CACHE_DURATION_MS
    }

    /// A controller with nothing cached yet: the first request always
    /// recomputes.
    pub fn new() -> (cache: SnapshotCache)
        ensures
            cache.spec_cached() is None,
            cache.spec_last_update_ms() == 0,
    {
        SnapshotCache { cached: None, last_update_ms: 0 }
    }

    /// Serve one request at time `now_ms`.
    ///
    /// A hit returns without touching anything. A miss queries every
    /// metric category of `source`, assembles the new snapshot (see
    /// [`assemble_snapshot`] for what each category holds), stores it,
    /// and appends exactly one history entry carrying the snapshot's
    /// timestamp and its classified readings.
    pub fn get_snapshot<S: MetricSource>(
        &mut self,
        now_ms: u64,
        source: &S,
        history: &mut TempHistory,
    ) -> (status: CacheStatus)
        requires
            old(history).wf(),
        ensures
            final(history).wf(),
            final(self).spec_cached() is Some,
            (status == CacheStatus::Hit <==> old(self).is_fresh(now_ms)),
            status == CacheStatus::Hit ==> *final(self) == *old(self) && *final(history) == *old(
                history,
            ),
            status == CacheStatus::Miss ==> {
                &&& final(self).spec_last_update_ms() == now_ms
                &&& final(self).spec_cached() matches Some(snap) && {
                    &&& snap.timestamp_ms == now_ms
                    &&& forall|i: int|
                        0 <= i < snap.temperatures@.len() ==> (
                        #[trigger] snap.temperatures@[i]).status == spec_classify(
                            snap.temperatures@[i].temp_deci as int,
                        )
                    &&& views_of(snap.temp_warnings@) == spec_warnings(
                        spec_raws_of(snap.temperatures@),
                    )
                    &&& snap.cpu_temp_deci == spec_cpu_temp(snap.temperatures@)
                    &&& final(history)@.len() >= 1
                    &&& final(history)@ == spec_ring_append(
                        old(history)@,
                        final(history)@.last(),
                    )
                    &&& final(history)@.last().timestamp_ms == now_ms
                    &&& final(history)@.last().readings@ == snap.temperatures@
                }
            },
    {
        let fresh = if self.cached.is_some() {
            if now_ms < self.last_update_ms {
                true
            } else {
                now_ms - self.last_update_ms < CACHE_DURATION_MS
            }
        } else {
            false
        };
        if fresh {
            return CacheStatus::Hit;
        }
        let cpu = source.cpu();
        let memory = source.memory();
        let disks = source.disks();
        let disk_io = source.disk_io();
        let identity = source.identity();
        let processes = source.processes();
        let temperatures = source.temperatures();
        let networks = source.networks();
        let tcp_sockets = source.tcp_sockets();
        let udp_ports = source.udp_ports();
        let power = source.power();
        let proc_self = source.proc_self();
        let gpu = source.gpu();
        let snap = assemble_snapshot(
            now_ms,
            cpu,
            memory,
            disks,
            disk_io,
            identity,
            processes,
            temperatures,
            networks,
            tcp_sockets,
            udp_ports,
            power,
            proc_self,
            gpu,
        );
        let entry = HistoryEntry { timestamp_ms: now_ms, readings: copy_readings(&snap.temperatures) };
        proof {
            lemma_ring_append(old(history)@, entry);
        }
        history.append(entry);
        self.cached = Some(snap);
        self.last_update_ms = now_ms;
        CacheStatus::Miss
    }

    /// The stored snapshot; callable after any request has been served.
    pub fn cached_snapshot(&self) -> (snap: &Snapshot)
        requires
            self.spec_cached() is Some,
        ensures
            self.spec_cached() matches Some(s) && *snap == s,
    {
        match &self.cached {
            Some(s) => s,
            None => unreached(),
        }
    }
}

/// The freshness law: after a miss at time `t0` stored the snapshot,
/// every request at a time `t1` less than a freshness window later is
/// fresh — so it reports a hit, changes nothing, and returns the stored
/// snapshot's content unchanged (the hit case of
/// [`SnapshotCache::get_snapshot`]).
pub proof fn lemma_hit_within_window(cache: SnapshotCache, t1: u64)
    requires
        cache.spec_cached() is Some,
        (t1 as int) < cache.spec_last_update_ms() + CACHE_DURATION_MS,
    ensures
        cache.is_fresh(t1),
{
}

} // verus!
