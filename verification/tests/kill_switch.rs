use unified_trading::clock::TestClock;
use unified_trading::config::EngineConfig;
use unified_trading::kill_switch::KillSwitch;
use unified_trading::system_state::SystemState;

#[test]
fn test_kill_switch_initial_state() {
    let ks = KillSwitch::new();
    assert!(!ks.is_active());
    assert_eq!(ks.activation_count(), 0);
    assert_eq!(ks.open_order_count(), 0);
}

#[test]
fn test_kill_switch_activate() {
    let mut ks = KillSwitch::new();
    ks.activate();
    assert!(ks.is_active());
    assert_eq!(ks.activation_count(), 1);
    assert!(ks.activated_at_ns() > 0);
}

#[test]
fn test_kill_switch_clear() {
    let mut ks = KillSwitch::new();
    ks.activate();
    ks.clear();
    assert!(!ks.is_active());
}

#[test]
fn test_kill_switch_tracks_orders() {
    let mut ks = KillSwitch::new();
    assert!(ks.track_open_order("order-1"));
    assert!(ks.track_open_order("order-2"));
    assert!(!ks.track_open_order("order-1"));
    assert_eq!(ks.open_order_count(), 2);
    assert!(ks.is_order_tracked("order-1"));
    assert!(ks.is_order_tracked("order-2"));
    assert!(!ks.is_order_tracked("order-3"));
}

#[test]
fn test_kill_switch_removes_orders() {
    let mut ks = KillSwitch::new();
    ks.track_open_order("order-1");
    assert!(ks.remove_open_order("order-1"));
    assert!(!ks.remove_open_order("order-1"));
    assert_eq!(ks.open_order_count(), 0);
}

#[test]
fn test_kill_switch_activate_returns_order_count() {
    let mut ks = KillSwitch::new();
    ks.track_open_order("order-1");
    ks.track_open_order("order-2");
    let count = ks.activate();
    assert_eq!(count, 2);
}

#[test]
fn test_kill_switch_with_custom_clock() {
    let clock = TestClock::new(1_000_000_000_000);
    let mut ks = KillSwitch::with_clock(clock);
    ks.activate();
    assert!(ks.is_active());
    assert_eq!(ks.activated_at_ns(), 1_000_000_000_000);
}

#[test]
fn removing_undoes_tracking() {
    let mut ks = KillSwitch::with_clock(TestClock::new(5));
    ks.track_open_order("a");
    ks.track_open_order("b");
    assert!(ks.remove_open_order("b"));
    assert_eq!(ks.get_open_orders(), vec!["a".to_string()]);
    assert_eq!(ks.activation_latency_ns(), 0);
}

#[test]
fn test_system_state_new() {
    let state = SystemState::new(EngineConfig::default());
    assert!(state.is_running());
}

#[test]
fn test_system_state_shutdown() {
    let mut state = SystemState::new(EngineConfig::default());
    state.shutdown();
    assert!(!state.is_running());
}

#[test]
fn test_system_state_config_update() {
    let mut state = SystemState::new(EngineConfig::default());
    let new_config = EngineConfig { max_assets: 4, ..EngineConfig::default() };
    state.update_config(new_config);
    assert_eq!(state.config.max_assets, 4);
}

#[test]
fn a_shut_down_state_stays_down() {
    let mut state = SystemState::new(EngineConfig::default());
    state.shutdown();
    state.update_config(EngineConfig::default());
    assert!(!state.is_running());
}
