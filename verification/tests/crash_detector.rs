use unified_trading::crash_detector::{next_startup, CrashDetector, CrashState};

const NOW_NS: u64 = 1_700_000_000_000_000_000;

fn make_detector() -> CrashDetector {
    CrashDetector::new("crash_state.json".to_string())
}

#[test]
fn test_first_startup_no_safe_mode() {
    let detector = make_detector();
    let s = detector.check_and_record_startup(None, NOW_NS);
    assert!(!s.enter_safe_mode);
    assert!(s.new_state.is_some());
}

#[test]
fn test_rapid_crashes_trigger_safe_mode() {
    let detector = make_detector();
    let s = detector.check_and_record_startup(None, NOW_NS);
    assert!(!s.enter_safe_mode);
    let s = detector.check_and_record_startup(s.new_state, NOW_NS + 1_000_000);
    assert!(!s.enter_safe_mode);
    let s = detector.check_and_record_startup(s.new_state, NOW_NS + 2_000_000);
    assert!(s.enter_safe_mode);
}

#[test]
fn test_clear_resets_counter() {
    let detector = make_detector();
    assert!(!detector.check_and_record_startup(None, NOW_NS).enter_safe_mode);
    assert!(!detector.check_and_record_startup(None, NOW_NS + 1).enter_safe_mode);
}

#[test]
fn test_slow_startup_resets_counter() {
    let detector = make_detector();
    let s = detector.check_and_record_startup(None, NOW_NS);
    assert!(!s.enter_safe_mode);

    let mut state: CrashState = s.new_state.unwrap();
    state.startup_timestamp_ms -= 120_000;
    state.first_crash_timestamp_ms -= 120_000;

    let s = detector.check_and_record_startup(Some(state), NOW_NS);
    assert!(!s.enter_safe_mode);
    assert_eq!(s.new_state.unwrap().crash_count, 1);
}

#[test]
fn a_clock_that_goes_back_counts_as_no_time() {
    let s = next_startup(None, 1_000_000);
    let s = next_startup(s.new_state, 999_999);
    assert!(!s.enter_safe_mode);
    assert_eq!(s.new_state.unwrap().crash_count, 2);
}

#[test]
fn a_slow_start_counts_anew_from_any_number() {
    let state = CrashState {
        startup_timestamp_ms: 1_000,
        crash_count: u32::MAX,
        first_crash_timestamp_ms: 1_000,
        last_known_good_config: None,
    };
    let s = next_startup(Some(state), 100_000);
    assert!(!s.enter_safe_mode);
    assert_eq!(s.new_state.unwrap().crash_count, 1);
}
