//! The temperature history ring buffer: a fixed-capacity, append-only,
//! oldest-evicted sequence of timestamped classified readouts.

use vstd::prelude::*;
use std::collections::VecDeque;

use crate::classify::TemperatureReading;

verus! {

/// Most entries the history ever holds.
pub const HISTORY_CAPACITY: usize = 60;

/// One timestamped batch of classified temperature readings.
#[derive(Debug)]
pub struct HistoryEntry {
    pub timestamp_ms: u64,
    pub readings: Vec<TemperatureReading>,
}

/// The history after appending one entry: the entry goes to the tail,
/// and when that would exceed the capacity the head is evicted.
pub open spec fn spec_ring_append(entries: Seq<HistoryEntry>, entry: HistoryEntry) -> Seq<
    HistoryEntry,
> {
    if entries.len() < HISTORY_CAPACITY {
        entries.push(entry)
    } else {
        entries.push(entry).drop_first()
    }
}

/// The temperature history, at most [`HISTORY_CAPACITY`] entries, oldest
/// first.
pub struct TempHistory {
    entries: VecDeque<HistoryEntry>,
}

impl View for TempHistory {
    type V = Seq<HistoryEntry>;

    closed spec fn view(&self) -> Seq<HistoryEntry> {
        self.entries@
    }
}

impl TempHistory {
    /// The capacity bound that every history operation preserves.
    pub open spec fn wf(&self) -> bool {
        self@.len() <= HISTORY_CAPACITY
    }

    /// An empty history.
    pub fn new() -> (h: TempHistory)
        ensures
            h@ == Seq::<HistoryEntry>::empty(),
            h.wf(),
    {
        TempHistory { entries: VecDeque::with_capacity(HISTORY_CAPACITY) }
    }

    /// Append one entry at the tail; evict the oldest entry first once
    /// the capacity would be exceeded.
    pub fn append(&mut self, entry: HistoryEntry)
        requires
            old(self).wf(),
        ensures
            final(self)@ == spec_ring_append(old(self)@, entry),
            final(self).wf(),
    {
        self.entries.push_back(entry);
        if self.entries.len() > HISTORY_CAPACITY {
            self.entries.pop_front();
        }
    }

    /// Every entry, oldest to newest; reading does not mutate.
    pub fn snapshot_all(&self) -> (entries: &VecDeque<HistoryEntry>)
        ensures
            entries@ == self@,
    {
        &self.entries
    }

    /// How many entries the history holds.
    pub fn len(&self) -> (n: usize)
        ensures
            n == self@.len(),
    {
        self.entries.len()
    }
}

/// The ring buffer's bound and eviction rule: an append never grows the
/// history beyond its capacity, the appended entry is always the newest,
/// and an append to a full history evicts exactly the oldest entry.
pub proof fn lemma_ring_append(entries: Seq<HistoryEntry>, entry: HistoryEntry)
    requires
        entries.len() <= HISTORY_CAPACITY,
    ensures
        spec_ring_append(entries, entry).len() <= HISTORY_CAPACITY,
        spec_ring_append(entries, entry).last() == entry,
        entries.len() < HISTORY_CAPACITY ==> spec_ring_append(entries, entry)
            =~= entries.push(entry),
        entries.len() == HISTORY_CAPACITY ==> spec_ring_append(entries, entry)
            =~= entries.drop_first().push(entry),
{
    if entries.len() == HISTORY_CAPACITY {
        assert(entries.push(entry).drop_first() =~= entries.drop_first().push(entry));
    }
}

} // verus!
