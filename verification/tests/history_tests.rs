use hostmon::history::{HistoryEntry, TempHistory, HISTORY_CAPACITY};

fn entry(timestamp_ms: u64) -> HistoryEntry {
    HistoryEntry { timestamp_ms, readings: Vec::new() }
}

#[test]
fn capacity_is_sixty() {
    assert_eq!(HISTORY_CAPACITY, 60);
}

#[test]
fn append_keeps_order_below_capacity() {
    let mut history = TempHistory::new();
    assert_eq!(history.len(), 0);
    for t in 0..10u64 {
        history.append(entry(t));
    }
    assert_eq!(history.len(), 10);
    let entries = history.snapshot_all();
    for (i, e) in entries.iter().enumerate() {
        assert_eq!(e.timestamp_ms, i as u64);
    }
}

#[test]
fn never_exceeds_capacity_and_evicts_oldest() {
    let mut history = TempHistory::new();
    for t in 0..61u64 {
        history.append(entry(t));
        assert!(history.len() <= 60);
    }
    assert_eq!(history.len(), 60);
    let entries = history.snapshot_all();
    // After 61 appends the oldest entry (timestamp 0) is absent and the
    // newest (timestamp 60) is present.
    assert_eq!(entries[0].timestamp_ms, 1);
    assert_eq!(entries[59].timestamp_ms, 60);
}

#[test]
fn long_run_stays_bounded() {
    let mut history = TempHistory::new();
    for t in 0..500u64 {
        history.append(entry(t));
    }
    assert_eq!(history.len(), 60);
    let entries = history.snapshot_all();
    assert_eq!(entries[0].timestamp_ms, 440);
    assert_eq!(entries[59].timestamp_ms, 499);
}
