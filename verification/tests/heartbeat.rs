use unified_trading::clock::TestClock;
use unified_trading::heartbeat::{HeartbeatHandle, ThreadHeartbeatMonitor};
use unified_trading::kill_switch::KillSwitch;
use unified_trading::metrics::GlobalMetrics;

#[test]
fn test_heartbeat_handle_pulse() {
    let clock = TestClock::new(1_000_000_000);
    let mut handle = HeartbeatHandle::new(clock);
    assert_eq!(handle.timestamp_ns, 0);
    handle.pulse();
    assert_eq!(handle.timestamp_ns, 1_000_000_000);
}

#[test]
fn test_monitor_register_thread() {
    let mut monitor = ThreadHeartbeatMonitor::new(2_000_000_000);

    monitor.register_thread("test_thread");
    monitor.record_pulse("test_thread", 7);
    assert_eq!(monitor.heartbeats().get("test_thread"), Some(&7));

    monitor.shutdown();
    assert!(!monitor.is_running());
}

#[test]
fn test_monitor_stale_heartbeat_triggers_killswitch() {
    let mut ks = KillSwitch::new();
    let mut metrics = GlobalMetrics::new();
    let mut monitor = ThreadHeartbeatMonitor::new(100_000_000);

    monitor.register_thread("stale_thread");
    monitor.record_pulse("stale_thread", 1_000_000_000);

    monitor.check(1_000_000_000 + 50_000_000, &mut ks, &mut metrics);
    assert!(!ks.is_active());
    assert_eq!(metrics.heartbeat_misses.load(), 0);

    monitor.check(1_000_000_000 + 500_000_000, &mut ks, &mut metrics);
    assert!(ks.is_active(), "Kill switch should be active after heartbeat timeout");
    assert!(metrics.heartbeat_misses.load() > 0);

    monitor.shutdown();
}

#[test]
fn a_handle_takes_up_a_known_time() {
    let mut handle = HeartbeatHandle::with_timestamp(5, TestClock::new(9));
    assert_eq!(handle.timestamp_ns, 5);
    handle.pulse();
    assert_eq!(handle.timestamp_ns, 9);
}
