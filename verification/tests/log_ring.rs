use sidecar_supervisor::log_ring::{LogRing, LogStream, MAX_LOG_ENTRIES};

#[test]
fn empty_ring_has_an_empty_snapshot() {
    let ring = LogRing::new(MAX_LOG_ENTRIES);
    assert_eq!(ring.capacity(), 200);
    assert_eq!(ring.len(), 0);
    assert_eq!(ring.snapshot(), "");
}

#[test]
fn snapshot_tags_and_concatenates_in_order() {
    let mut ring = LogRing::new(10);
    ring.append(LogStream::Stdout, "one\n".to_string());
    ring.append(LogStream::Stderr, "two\n".to_string());
    ring.append(LogStream::Stdout, "three".to_string());
    assert_eq!(ring.len(), 3);
    assert_eq!(ring.snapshot(), "[STDOUT] one\n[STDERR] two\n[STDOUT] three");
}

#[test]
fn more_entries_than_the_bound_leave_the_last_ones() {
    let bound = 5;
    let total = 12;
    let mut ring = LogRing::new(bound);
    for i in 0..total {
        ring.append(LogStream::Stdout, format!("{i};"));
    }
    assert_eq!(ring.len(), bound);
    let expected: String = (total - bound..total).map(|i| format!("[STDOUT] {i};")).collect();
    assert_eq!(ring.snapshot(), expected);
}

#[test]
fn default_bound_keeps_two_hundred() {
    let mut ring = LogRing::new(MAX_LOG_ENTRIES);
    for i in 0..201 {
        ring.append(LogStream::Stderr, format!("{i}\n"));
    }
    assert_eq!(ring.len(), 200);
    let snapshot = ring.snapshot();
    assert!(snapshot.starts_with("[STDERR] 1\n"));
    assert!(snapshot.ends_with("[STDERR] 200\n"));
}

#[test]
fn entries_at_the_bound_all_stay() {
    let mut ring = LogRing::new(2);
    ring.append(LogStream::Stdout, "a".to_string());
    ring.append(LogStream::Stdout, "b".to_string());
    assert_eq!(ring.snapshot(), "[STDOUT] a[STDOUT] b");
    ring.append(LogStream::Stdout, "c".to_string());
    assert_eq!(ring.snapshot(), "[STDOUT] b[STDOUT] c");
}

#[test]
fn ring_with_bound_zero_keeps_nothing() {
    let mut ring = LogRing::new(0);
    ring.append(LogStream::Stdout, "a".to_string());
    assert_eq!(ring.len(), 0);
    assert_eq!(ring.snapshot(), "");
}
