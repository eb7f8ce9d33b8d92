use bitt::metrics::FrameCollector;

fn collector_of(samples: &[u64]) -> FrameCollector {
    let mut c = FrameCollector::new();
    for s in samples {
        c.record(true, *s);
    }
    c
}

#[test]
fn too_few_samples_yield_no_summary() {
    assert!(FrameCollector::new().summarize().is_none());
    assert!(collector_of(&[7]).summarize().is_none());
}

#[test]
fn warm_up_sample_is_discarded() {
    // The huge first sample must not reach the summary.
    let m = collector_of(&[1_000_000, 10, 20, 30]).summarize().unwrap();
    assert_eq!(m.frames, vec![10, 20, 30]);
    assert_eq!(m.average_nanos, 20);
    assert_eq!(m.best, vec![10, 20, 30]);
    assert_eq!(m.worst, vec![10, 20, 30]);
}

#[test]
fn mean_is_the_integer_quotient() {
    // (5 + 6) / 2 = 5 in integer nanoseconds.
    let m = collector_of(&[0, 5, 6]).summarize().unwrap();
    assert_eq!(m.average_nanos, 5);
}

#[test]
fn unanchored_ticks_are_not_collected() {
    let mut c = FrameCollector::new();
    c.record(false, 100);
    c.record(true, 1);
    c.record(false, 100);
    c.record(true, 2);
    assert_eq!(c.samples, vec![1, 2]);
}

#[test]
fn best_and_worst_pick_the_ten_extremes() {
    // Warm-up 0, then samples 1..=14 shuffled.
    let samples = [0, 7, 3, 14, 1, 9, 12, 5, 2, 11, 8, 4, 13, 6, 10];
    let m = collector_of(&samples).summarize().unwrap();
    assert_eq!(m.best, vec![1, 2, 3, 4, 5, 6, 7, 8, 9, 10]);
    assert_eq!(m.worst, vec![5, 6, 7, 8, 9, 10, 11, 12, 13, 14]);
    assert_eq!(m.frames.len(), 14);
}

#[test]
fn duplicates_count_with_multiplicity() {
    let samples = [0, 5, 5, 5, 5, 5, 5, 1, 9, 9, 9, 9, 9, 9];
    let m = collector_of(&samples).summarize().unwrap();
    // Thirteen samples remain: six 5s, one 1, six 9s.
    assert_eq!(m.best, vec![1, 5, 5, 5, 5, 5, 5, 9, 9, 9]);
    assert_eq!(m.worst, vec![5, 5, 5, 5, 9, 9, 9, 9, 9, 9]);
}

#[test]
fn short_runs_keep_everything_sorted() {
    let m = collector_of(&[0, 3, 1, 2]).summarize().unwrap();
    assert_eq!(m.best, vec![1, 2, 3]);
    assert_eq!(m.worst, vec![1, 2, 3]);
}
