use unified_trading::clock::{Span, TestClock};
use unified_trading::command_channel::{ControlCommand, ControlResponse};
use unified_trading::config::{EngineConfig, ExposureCheck, SecretString};
use unified_trading::engine::{
    asset_values, preset_thresholds, switch_asset, EngineEffect, RolloutError, RolloutPhase,
    UnifiedEngine,
};
use unified_trading::quantity::Real;

fn num(x: f64) -> Real {
    Real::from_bits(x.to_bits())
}

fn exposure(cfg: &EngineConfig) -> ExposureCheck {
    let per_symbol = f64::from_bits(cfg.risk_config.max_position_per_symbol.bits);
    let max = f64::from_bits(cfg.risk_config.max_portfolio_exposure.bits);
    let implied = per_symbol * cfg.asset_configs.len() as f64;
    ExposureCheck {
        implied_max: num(implied),
        exposure_limit: num(max * 10.0),
        implied_max_text: format!("{}", implied),
        max_exposure_text: format!("{}", max),
    }
}

fn new_engine() -> UnifiedEngine<TestClock> {
    UnifiedEngine::new(EngineConfig::default(), TestClock::new(1_000))
}

fn command(e: &mut UnifiedEngine<TestClock>, c: ControlCommand) -> (ControlResponse, EngineEffect) {
    let x = exposure(&e.config);
    e.handle_command(c, &x)
}

fn begin(
    e: &mut UnifiedEngine<TestClock>,
    pending: EngineConfig,
    secs: Option<u64>,
) -> Result<(), RolloutError> {
    let x = exposure(&pending);
    e.begin_staged_rollout(pending, secs, &x)
}

#[test]
fn test_dynamic_subscribe_unsubscribe() {
    let mut engine = new_engine();
    engine.reactor_running = true;
    engine.lifecycle_running = true;
    engine.port_ready = true;

    let (resp, effect) =
        command(&mut engine, ControlCommand::SubscribeFeed { symbol: "TSLA".to_string() });
    assert!(matches!(resp, ControlResponse::Done), "Subscribe should succeed");
    assert!(matches!(effect, EngineEffect::StartPipeline(_)));
    assert!(engine.asset_pipelines.contains_key("TSLA"));
    assert!(engine.execution_states.contains_key("TSLA"));

    let (resp2, _) =
        command(&mut engine, ControlCommand::SubscribeFeed { symbol: "TSLA".to_string() });
    assert!(matches!(resp2, ControlResponse::Error(_)), "Duplicate subscribe should error");

    let (resp3, effect3) =
        command(&mut engine, ControlCommand::UnsubscribeFeed { symbol: "TSLA".to_string() });
    assert!(matches!(resp3, ControlResponse::Done), "Unsubscribe should succeed");
    assert!(matches!(effect3, EngineEffect::StopPipeline(_)));
    assert!(!engine.asset_pipelines.contains_key("TSLA"));
    assert!(!engine.execution_states.contains_key("TSLA"));

    let (resp4, _) =
        command(&mut engine, ControlCommand::UnsubscribeFeed { symbol: "NONEXISTENT".to_string() });
    assert!(matches!(resp4, ControlResponse::Error(_)), "Unsubscribe of missing symbol should error");
}

#[test]
fn test_safe_mode_skips_asset_spawning() {
    let mut config = EngineConfig::default();
    config.safe_mode = true;
    let mut engine = UnifiedEngine::new(config, TestClock::new(0));
    let plan = engine.start();
    assert!(plan.pipelines.is_empty());
    assert!(engine.asset_pipelines.is_empty(), "Safe mode should not spawn asset pipelines");
    assert!(engine.execution_states.is_empty(), "Safe mode should not create execution states");
    assert!(!engine.reactor_running, "Safe mode should not start tick reactor");
    engine.shutdown();
    assert!(engine.kill_switch.is_active());
}

#[test]
fn test_staged_rollout_rejects_invalid_config() {
    let mut engine = new_engine();

    let mut bad = EngineConfig::default();
    bad.risk_config.max_leverage = num(-2.0);

    let result = begin(&mut engine, bad, None);
    assert!(result.is_err(), "staged rollout must reject invalid config");
    match result.unwrap_err() {
        RolloutError::ValidationFailed(msg) => assert!(msg.contains("rejected")),
        _ => panic!("expected ValidationFailed error"),
    }
    assert!(engine.staged_rollout.is_none(), "no rollout state should exist after rejection");
}

#[test]
fn test_staged_rollout_applies_canary_then_global() {
    let mut engine = new_engine();

    let mut pending = EngineConfig::default();
    pending.risk_config.max_leverage = num(2.5);
    pending.max_assets = 4;
    pending.asset_configs[0].max_position = num(200.0);

    begin(&mut engine, pending.clone(), Some(0)).unwrap();

    assert!(engine.staged_rollout.is_some());
    assert_eq!(engine.staged_rollout.as_ref().unwrap().phase, RolloutPhase::Monitoring);
    assert_eq!(engine.staged_rollout.as_ref().unwrap().canary_symbol, "AAPL");

    assert_eq!(engine.config.risk_config.max_leverage, num(2.5));

    let completed = engine.complete_staged_rollout();
    assert!(completed.is_ok());
    assert!(completed.unwrap());

    assert_eq!(engine.config.risk_config.max_leverage, num(2.5));
    assert_eq!(engine.config.max_assets, 4);
    assert_eq!(engine.config.asset_configs[0].max_position, num(200.0));

    assert!(engine.staged_rollout.is_none());
}

#[test]
fn test_cancel_staged_rollout_reverts() {
    let mut engine = new_engine();
    let leverage_before = engine.config.risk_config.max_leverage;
    let position_before = engine.config.asset_configs[0].max_position;

    let mut pending = EngineConfig::default();
    pending.risk_config.max_leverage = num(99.0);
    pending.asset_configs[0].max_position = num(7.0);

    begin(&mut engine, pending, Some(30)).unwrap();
    assert_eq!(engine.config.risk_config.max_leverage, num(99.0));

    engine.cancel_staged_rollout("test abort").unwrap();
    assert!(engine.staged_rollout.is_none());
    assert_eq!(engine.config.risk_config.max_leverage, leverage_before);
    assert_eq!(engine.config.asset_configs[0].max_position, position_before);
}

#[test]
fn test_poll_staged_rollout_within_window() {
    let mut engine = new_engine();
    begin(&mut engine, EngineConfig::default(), Some(60)).unwrap();

    let still_watching = engine.poll_staged_rollout();
    assert!(still_watching.is_ok());
    assert!(!still_watching.unwrap(), "should still be monitoring");
}

#[test]
fn test_poll_staged_rollout_after_deadline_completes() {
    let mut engine = new_engine();
    let mut pending = EngineConfig::default();
    pending.risk_config.max_drawdown_pct = num(3.0);

    begin(&mut engine, pending, Some(0)).unwrap();

    let done = engine.poll_staged_rollout();
    assert!(done.is_ok());
    assert!(done.unwrap(), "should auto-complete after deadline");

    assert_eq!(engine.config.risk_config.max_drawdown_pct, num(3.0));
}

#[test]
fn test_complete_without_rollout_errors() {
    let mut engine = new_engine();
    assert!(engine.complete_staged_rollout().is_err());
}

#[test]
fn test_cancel_without_rollout_errors() {
    let mut engine = new_engine();
    assert!(engine.cancel_staged_rollout("no-op").is_err());
}

#[test]
fn the_window_ends_on_time() {
    let mut engine = new_engine();
    begin(&mut engine, EngineConfig::default(), Some(60)).unwrap();
    assert_eq!(engine.poll_after(&Span::from_millis(59_999)), Ok(false));
    assert_eq!(engine.poll_after(&Span::from_secs(60)), Ok(true));
    assert_eq!(engine.poll_after(&Span::from_secs(61)), Err(RolloutError::NotInProgress));
    assert_eq!(RolloutError::NotInProgress.to_text(), "no staged rollout in progress");
}

#[test]
fn a_rollout_needs_an_asset() {
    let mut engine = new_engine();
    for a in engine.config.asset_configs.iter_mut() {
        a.enabled = false;
    }
    let pending = EngineConfig::default();
    assert_eq!(begin(&mut engine, pending, None), Err(RolloutError::NoCanaryAsset));
}

#[test]
fn assets_get_cores_in_turn() {
    let mut engine = new_engine();
    let cores: Vec<usize> = (0..5)
        .map(|i| engine.plan_asset_pipeline(&format!("S{}", i), i).core_id)
        .collect();
    for w in cores.windows(4) {
        assert_eq!(w[0], w[3]);
    }
    assert!(cores.iter().all(|c| (1..=3).contains(c)));
}

#[test]
fn the_enabled_assets_are_started() {
    let mut config = EngineConfig::default();
    config.broker_config.api_key = SecretString::new("k");
    config.broker_config.api_secret = SecretString::new("s");
    let mut engine = UnifiedEngine::new(config, TestClock::new(0));
    let plan = engine.start();
    assert!(plan.feed);
    let names: Vec<&str> = plan.pipelines.iter().map(|p| p.symbol.as_str()).collect();
    assert_eq!(names, engine.config.enabled_assets());
    assert!(engine.asset_pipelines.contains_key(names[0]));
}

#[test]
fn commands_change_what_they_name() {
    let mut engine = new_engine();
    command(&mut engine, ControlCommand::SetKillSwitch(true));
    assert!(engine.kill_switch.is_active());
    command(&mut engine, ControlCommand::SetKillSwitch(false));
    assert!(!engine.kill_switch.is_active());

    let (r, _) = command(&mut engine, ControlCommand::PauseAsset("AAPL".to_string()));
    assert!(matches!(r, ControlResponse::Done));
    assert!(!engine.config.asset_configs[0].enabled);
    command(&mut engine, ControlCommand::ResumeAsset("AAPL".to_string()));
    assert!(engine.config.asset_configs[0].enabled);
    let (r, _) = command(&mut engine, ControlCommand::PauseAsset("XXXX".to_string()));
    assert!(matches!(r, ControlResponse::Error(_)));

    let (_, e) = command(&mut engine, ControlCommand::CircuitBreakerTrip);
    assert!(matches!(e, EngineEffect::TripBreakers));
    let (_, e) = command(&mut engine, ControlCommand::CircuitBreakerReset);
    assert!(matches!(e, EngineEffect::ResetBreakers));
    let (r, _) = command(&mut engine, ControlCommand::GetStatus);
    match r {
        ControlResponse::Status(s) => assert!(s.contains("ticks_processed: 0"), "{}", s),
        other => panic!("expected a status, got {:?}", other),
    }
}

#[test]
fn strategies_have_presets() {
    assert!(preset_thresholds("hysteresis").is_some());
    assert!(preset_thresholds("no such thing").is_none());
    let mut cfg = EngineConfig::default();
    assert!(switch_asset(&mut cfg, "AAPL", false));
    assert!(!switch_asset(&mut cfg, "none", false));
    assert!(!asset_values(&cfg, "AAPL").unwrap().enabled);
}
