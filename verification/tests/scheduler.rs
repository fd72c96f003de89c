use rusttop::scheduler::{RefreshScheduler, DEFAULT_INTERVAL};

#[test]
fn default_interval_is_one_second() {
    assert_eq!(DEFAULT_INTERVAL, 1_000_000_000);
}

#[test]
fn new_scheduler_keeps_interval_and_tick() {
    let scheduler = RefreshScheduler::new(1_000, 250);
    assert_eq!(scheduler.interval(), 1_000);
    assert_eq!(scheduler.last_tick(), 250);
}

#[test]
fn remaining_is_interval_minus_elapsed() {
    let scheduler = RefreshScheduler::new(1_000_000_000, 5_000_000_000);
    assert_eq!(scheduler.remaining(5_000_000_000), 1_000_000_000);
    assert_eq!(scheduler.remaining(5_250_000_000), 750_000_000);
    assert_eq!(scheduler.remaining(5_999_999_999), 1);
}

#[test]
fn remaining_is_floored_at_zero() {
    let scheduler = RefreshScheduler::new(1_000, 100);
    assert_eq!(scheduler.remaining(1_100), 0);
    assert_eq!(scheduler.remaining(1_101), 0);
    assert_eq!(scheduler.remaining(u64::MAX), 0);
}

#[test]
fn clock_that_reads_less_counts_as_no_time_elapsed() {
    let scheduler = RefreshScheduler::new(1_000, 500);
    assert_eq!(scheduler.remaining(200), 1_000);
    assert!(!scheduler.is_due(200));
}

#[test]
fn due_once_elapsed_reaches_interval() {
    let scheduler = RefreshScheduler::new(1_000, 100);
    assert!(!scheduler.is_due(100));
    assert!(!scheduler.is_due(1_099));
    assert!(scheduler.is_due(1_100));
    assert!(scheduler.is_due(1_101));
    assert!(scheduler.is_due(u64::MAX));
}

#[test]
fn due_exactly_when_nothing_remains() {
    let scheduler = RefreshScheduler::new(40, 10);
    for now in 0..120u64 {
        assert_eq!(scheduler.is_due(now), scheduler.remaining(now) == 0);
        assert!(scheduler.remaining(now) <= 40);
    }
}

#[test]
fn zero_interval_is_always_due() {
    let scheduler = RefreshScheduler::new(0, 10);
    assert!(scheduler.is_due(0));
    assert!(scheduler.is_due(10));
    assert_eq!(scheduler.remaining(10), 0);
}

#[test]
fn largest_interval_does_not_overflow() {
    let scheduler = RefreshScheduler::new(u64::MAX, 0);
    assert_eq!(scheduler.remaining(0), u64::MAX);
    assert_eq!(scheduler.remaining(1), u64::MAX - 1);
    assert!(!scheduler.is_due(u64::MAX - 1));
    assert!(scheduler.is_due(u64::MAX));
}

#[test]
fn reset_restarts_the_interval() {
    let mut scheduler = RefreshScheduler::new(1_000, 0);
    assert!(scheduler.is_due(1_500));
    scheduler.reset(1_500);
    assert_eq!(scheduler.last_tick(), 1_500);
    assert_eq!(scheduler.interval(), 1_000);
    assert!(!scheduler.is_due(1_500));
    assert_eq!(scheduler.remaining(1_500), 1_000);
    assert_eq!(scheduler.remaining(2_000), 500);
    assert!(scheduler.is_due(2_500));
}
