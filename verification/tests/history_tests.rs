use gpu_governor::history::SampleHistory;

fn filled(capacity: usize, samples: &[bool]) -> SampleHistory {
    let mut h = SampleHistory::new(capacity);
    for &s in samples {
        h.push(s);
    }
    h
}

#[test]
fn empty_history_has_no_samples() {
    let h = SampleHistory::new(8);
    assert_eq!(h.len(), 0);
    let (count, n) = h.busy_window(4);
    assert_eq!((count, n), (0, 0));
}

#[test]
fn push_keeps_samples_until_capacity() {
    let h = filled(4, &[true, false, true]);
    assert_eq!(h.len(), 3);
}

#[test]
fn push_evicts_oldest_when_full() {
    let mut h = filled(3, &[true, true, true]);
    h.push(false);
    h.push(false);
    assert_eq!(h.len(), 3);
    // remaining samples are [true, false, false]
    let (count, n) = h.busy_window(3);
    assert_eq!((count, n), (1, 3));
}

#[test]
fn zero_capacity_history_stays_empty() {
    let h = filled(0, &[true, true]);
    assert_eq!(h.len(), 0);
}

#[test]
fn busy_window_counts_trailing_window() {
    // oldest..newest = [true, true, false, false, true]
    let h = filled(8, &[true, true, false, false, true]);
    let (count, n) = h.busy_window(2);
    assert_eq!((count, n), (1, 2));
    let (count, n) = h.busy_window(4);
    assert_eq!((count, n), (2, 4));
}

#[test]
fn busy_window_shorter_history_uses_all_samples() {
    let h = filled(8, &[true, false, true]);
    let (count, n) = h.busy_window(6);
    assert_eq!((count, n), (2, 3));
}

#[test]
fn busy_fraction_stays_within_unit_interval() {
    let h = filled(8, &[true, true, true, true]);
    let (count, n) = h.busy_window(3);
    assert!(count <= n);
    assert_eq!((count, n), (3, 3));
}

#[test]
fn burst_when_last_window_all_busy() {
    let h = filled(8, &[false, true, true, true]);
    assert!(h.is_burst(3));
}

#[test]
fn no_burst_when_any_recent_sample_idle() {
    let h = filled(8, &[true, true, false, true]);
    assert!(!h.is_burst(3));
}

#[test]
fn no_burst_when_history_shorter_than_window() {
    let h = filled(8, &[true, true]);
    assert!(!h.is_burst(3));
}

#[test]
fn no_burst_for_zero_window() {
    let h = filled(8, &[true, true, true]);
    assert!(!h.is_burst(0));
}
