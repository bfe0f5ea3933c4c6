use gwent::deadline::{exceeds_budget, indicator_after, BUDGET_SECS};

#[test]
fn the_budget_is_four_seconds() {
    assert_eq!(BUDGET_SECS, 4);
}

#[test]
fn calls_within_the_budget() {
    assert!(!exceeds_budget(0, 0));
    assert!(!exceeds_budget(3, 999_999_999));
    assert!(!exceeds_budget(4, 0));
}

#[test]
fn calls_over_the_budget() {
    assert!(exceeds_budget(4, 1));
    assert!(exceeds_budget(4, 500_000_000));
    assert!(exceeds_budget(5, 0));
    assert!(exceeds_budget(u64::MAX, 0));
}

#[test]
fn nanoseconds_beyond_a_second_count_in_full() {
    assert!(!exceeds_budget(3, 1_000_000_000));
    assert!(exceeds_budget(3, 1_000_000_001));
    assert!(exceeds_budget(3, 2_000_000_000));
    assert!(!exceeds_budget(0, 4_000_000_000));
    assert!(exceeds_budget(0, 4_000_000_001));
    assert!(exceeds_budget(0, u32::MAX));
    assert!(!exceeds_budget(2, 2_000_000_000));
    assert!(exceeds_budget(2, 2_000_000_001));
}

#[test]
fn the_budget_agrees_with_durations() {
    let budget = std::time::Duration::from_millis(4_000);
    for (secs, nanos) in [(0u64, 0u32), (3, 999_999_999), (4, 0), (4, 1), (5, 0), (3, 1_500_000_000)] {
        let took = std::time::Duration::new(secs, nanos);
        assert_eq!(exceeds_budget(secs, nanos), took > budget);
        assert_eq!(exceeds_budget(took.as_secs(), took.subsec_nanos()), took > budget);
    }
}

#[test]
fn the_indicator_is_set_by_a_slow_call() {
    assert!(!indicator_after(false, 1, 0));
    assert!(indicator_after(false, 4, 1));
}

#[test]
fn the_indicator_stays_set() {
    assert!(indicator_after(true, 0, 0));
    assert!(indicator_after(true, 9, 0));
}
