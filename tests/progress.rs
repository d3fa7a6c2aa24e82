use devtools_core::progress::{percentage, throttle, ProgressTracker};
use devtools_core::watchdog::Watchdog;

#[test]
fn percentage_floors_and_clamps() {
    assert_eq!(percentage(0, 1000), 0);
    assert_eq!(percentage(999, 1000), 99);
    assert_eq!(percentage(1000, 1000), 100);
    assert_eq!(percentage(5000, 1000), 100);
    assert_eq!(percentage(1, 3), 33);
    assert_eq!(percentage(u64::MAX, u64::MAX), 100);
    assert_eq!(percentage(u64::MAX / 2, u64::MAX), 49);
}

#[test]
fn throttle_reports_only_increases() {
    assert_eq!(throttle(10, 11), Some(11));
    assert_eq!(throttle(10, 10), None);
    assert_eq!(throttle(10, 9), None);
    assert_eq!(throttle(0, 0), None);
}

#[test]
fn tracker_suppresses_repeats() {
    let mut t = ProgressTracker::new();
    assert_eq!(t.observe(100, Some(1000)), Some(10));
    assert_eq!(t.observe(101, Some(1000)), None);
    assert_eq!(t.observe(50, Some(1000)), None);
    assert_eq!(t.observe(250, Some(1000)), Some(25));
    assert_eq!(t.last_reported(), 25);
    assert_eq!(t.finish(Some(1000)), Some(100));
    assert_eq!(t.finish(Some(1000)), None);
}

#[test]
fn tracker_without_total_is_silent() {
    let mut t = ProgressTracker::new();
    assert_eq!(t.observe(100, None), None);
    assert_eq!(t.observe(100, Some(0)), None);
    assert_eq!(t.finish(None), None);
    assert_eq!(t.last_reported(), 0);
}

#[test]
fn watchdog_staleness() {
    let mut w = Watchdog::new(100, 30);
    assert!(!w.is_stale(130));
    assert!(w.is_stale(131));
    assert!(!w.is_stale(50));
    w.touch(131);
    assert!(!w.is_stale(161));
    assert_eq!(w.deadline(), 161);
    assert_eq!(w.last_activity(), 131);
    assert_eq!(w.threshold(), 30);
    assert_eq!(Watchdog::new(u64::MAX - 1, 30).deadline(), u64::MAX);
}
