use std::sync::Arc;
use std::time::Instant;

use unified_trading::clock::{monotonic_time_ns, wall_time_ns, Clock, Span, TestClock, WallClock};

#[test]
fn test_wall_clock() {
    let clock = WallClock::new();
    let now = clock.now_ns();
    assert!(now > 0, "Wall time should be positive");
}

#[test]
fn test_wall_clock_monotonic() {
    let clock = WallClock::new();
    let t1 = clock.now_monotonic_ns();
    let mut t2 = clock.now_monotonic_ns();
    let mut tries = 0;
    while t2 <= t1 && tries < 10_000_000 {
        t2 = clock.now_monotonic_ns();
        tries += 1;
    }
    assert!(t2 > t1, "Monotonic time should increase");
}

#[test]
fn test_test_clock_initial() {
    let clock = TestClock::new(1_000_000_000);
    assert_eq!(clock.now_ns(), 1_000_000_000);
}

#[test]
fn test_test_clock_advance() {
    let mut clock = TestClock::new(0);
    assert_eq!(clock.now_ns(), 0);

    clock.advance(1_000_000_000);
    assert_eq!(clock.now_ns(), 1_000_000_000);

    clock.advance(500_000_000);
    assert_eq!(clock.now_ns(), 1_500_000_000);
}

#[test]
fn test_test_clock_advance_duration() {
    let mut clock = TestClock::new(0);
    clock.advance_duration(Span::from_secs(5));
    assert_eq!(clock.now_ns(), 5_000_000_000);
}

#[test]
fn test_test_clock_set_time() {
    let mut clock = TestClock::new(0);
    clock.set_time(10_000_000_000);
    assert_eq!(clock.now_ns(), 10_000_000_000);
}

#[test]
fn test_test_clock_monotonic() {
    let mut clock = TestClock::new(0);
    let t1 = clock.now_monotonic_ns();
    clock.advance(1_000_000);
    let t2 = clock.now_monotonic_ns();
    assert_eq!(t2 - t1, 1_000_000);
}

#[test]
fn test_test_clock_saturating_add() {
    let mut clock = TestClock::new(u64::MAX - 100);
    clock.advance(200);
    assert_eq!(clock.now_ns(), u64::MAX);
}

#[test]
fn test_clock_trait_object() {
    let clock: Arc<dyn Clock> = Arc::new(TestClock::new(1_000_000));
    assert_eq!(clock.now_ns(), 1_000_000);
    assert_eq!(clock.now_monotonic_ns(), 1_000_000);
}

#[test]
fn test_wall_time_ns_helper() {
    let now = wall_time_ns();
    assert!(now > 0);
}

#[test]
fn the_wall_clock_agrees_with_the_machine() {
    let before = std::time::SystemTime::now()
        .duration_since(std::time::UNIX_EPOCH)
        .unwrap()
        .as_nanos() as u64;
    let now = wall_time_ns();
    let after = std::time::SystemTime::now()
        .duration_since(std::time::UNIX_EPOCH)
        .unwrap()
        .as_nanos() as u64;
    assert!(before <= now && now <= after);
    assert!(TestClock::from_system_time().get_time() >= before);
}

#[test]
fn spans_are_compared_by_their_length() {
    assert!(Span::from_secs(2).at_least(&Span::from_millis(2000)));
    assert!(!Span::from_millis(1999).at_least(&Span::from_secs(2)));
    assert_eq!(Span::from_millis(1500).total_ns(), 1_500_000_000);
}

#[test]
fn test_monotonic_time_ns_helper() {
    let start = Instant::now();
    let t1 = monotonic_time_ns(&start);
    let mut t2 = monotonic_time_ns(&start);
    let mut tries = 0;
    while t2 <= t1 && tries < 10_000_000 {
        t2 = monotonic_time_ns(&start);
        tries += 1;
    }
    assert!(t2 > t1);
}

#[test]
fn clocks_start_from_the_machine_by_default() {
    let before = wall_time_ns();
    assert!(TestClock::default().get_time() >= before);
    assert!(WallClock::default().now_ns() >= before);
}
