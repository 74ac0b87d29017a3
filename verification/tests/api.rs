use crossbeam_channel::bounded;

use unified_trading::api::{
    all_orders, authorized, client_key, get_active_model, get_asset_config, get_reactor_params,
    get_risk_params, health, heartbeats, idempotency_status, kill_switch_status, list_models,
    per_symbol_stats, rate_limiter_status, screen_request, send_command, set_asset_config,
    set_kill_switch, set_paper_trading, set_reactor_params, set_strategy_params, status,
    status_of_send, strategy_swap, swap_response, tracked_orders, ApiMethod, ApiStatus, ModelInfo,
    SimpleRateLimiter,
};
use unified_trading::api_types::{
    AssetConfigRequest, KillSwitchRequest, PaperTradingRequest, ReactorConfigRequest,
    StrategyParamsRequest, StrategySwapRequest,
};
use unified_trading::clock::TestClock;
use unified_trading::command_channel::ControlCommand;
use unified_trading::config::EngineConfig;
use unified_trading::kill_switch::KillSwitch;
use unified_trading::metrics::GlobalMetrics;
use unified_trading::prometheus::{basic_prometheus_text, prometheus_text};
use unified_trading::quantity::Real;
use unified_trading::str_map::StrMap;
use unified_trading::telemetry::{
    after_metrics, kill_switch_event, metrics_event, TelemetryStep,
};

fn num(x: f64) -> Real {
    Real::from_bits(x.to_bits())
}

fn custom_params() -> StrategyParamsRequest {
    StrategyParamsRequest {
        long_entry_threshold: num(0.7),
        short_entry_threshold: num(-0.7),
        exit_threshold: num(0.2),
        confidence_minimum: num(0.6),
        hysteresis_deadband: num(0.2),
        entry_cooldown_ms: 3000,
        exit_cooldown_ms: 1500,
        prediction_staleness_ns: 100000000,
        allow_short: false,
        max_long_units: num(100.0),
        max_short_units: num(100.0),
        trade_intent_ttl_ns: 30000000000,
        urgency_aggressive_threshold: num(0.85),
        urgency_normal_threshold: num(0.5),
    }
}

#[test]
fn test_health_endpoint() {
    let h = health(false);
    assert_eq!(h.status, "running");
    assert!(!h.kill_switch_active);
    assert_eq!(h.uptime, "unknown");
    assert_eq!(health(true).status, "stopped");
    assert_eq!(ApiStatus::Success.code(), 200);
}

#[test]
fn test_metrics_endpoint() {
    let mut metrics = GlobalMetrics::new();
    metrics.ticks_processed.fetch_add(42);
    let ks = KillSwitch::with_clock(TestClock::new(0));
    assert_eq!(status(&ks, &metrics).metrics.ticks_processed, 42);
}

#[test]
fn test_prometheus_endpoint() {
    let mut metrics = GlobalMetrics::new();
    metrics.ticks_processed.fetch_add(42);
    metrics.orders_filled.fetch_add(10);
    let text = prometheus_text(&metrics.snapshot(), &StrMap::new(), false);
    assert!(text.starts_with(
        "# HELP ticks_processed Total number of ticks processed\n\
         # TYPE ticks_processed counter\nticks_processed 42\n"
    ));
    assert!(text.contains("\norders_filled 10\n"));
    assert!(text.contains("\ntick_to_intent_latency_bucket{le=\"0\"} 0\n"));
    assert!(text.contains("(tick timestamp → decision send)\n"));
    assert!(text.ends_with("\nkill_switch_active 0\n"));
}

#[test]
fn the_text_of_the_metrics_names_each_symbol() {
    let mut metrics = GlobalMetrics::new();
    for _ in 0..3 {
        metrics.increment_per_symbol_tick("AAPL");
    }
    metrics.risk_channel_depth = -4;
    let mut breakers: StrMap<bool> = StrMap::new();
    breakers.insert("AAPL".to_string(), true);
    breakers.insert("MSFT".to_string(), false);
    let text = prometheus_text(&metrics.snapshot(), &breakers, true);
    assert!(text.contains("\nrisk_channel_depth -4\n"));
    assert!(text.contains(
        "# TYPE circuit_breaker_state gauge\ncircuit_breaker_state{symbol=\"AAPL\"} 1\n\
         circuit_breaker_state{symbol=\"MSFT\"} 0\n\
         # HELP per_symbol_ticks Ticks processed per symbol\n# TYPE per_symbol_ticks counter\n\
         per_symbol_ticks{symbol=\"AAPL\"} 3\n"
    ));
    assert!(text.ends_with("kill_switch_active 1\n"));
    let basic = basic_prometheus_text(&metrics.snapshot(), true);
    assert!(basic.ends_with("# TYPE errors counter\nerrors 0\nkill_switch_active 1\n"));
    assert_eq!(basic.matches("# HELP ").count(), 18);
}

#[test]
fn test_kill_switch_status() {
    let mut ks = KillSwitch::with_clock(TestClock::new(9));
    ks.track_open_order("o");
    ks.activate();
    let s = kill_switch_status(&ks);
    assert!(s.active);
    assert_eq!(s.activated_at_ns, 9);
    assert_eq!(s.activation_count, 1);
    assert_eq!(s.open_orders, vec!["o".to_string()]);
    assert_eq!(tracked_orders(&ks).open_orders, vec!["o".to_string()]);
}

#[test]
fn test_set_kill_switch() {
    let (tx, rx) = bounded::<ControlCommand>(100);
    let mut metrics = GlobalMetrics::new();
    let cmd = set_kill_switch(KillSwitchRequest { active: true });
    assert_eq!(send_command(&tx, cmd, &mut metrics), ApiStatus::Success);
    let cmd = rx.try_recv().unwrap();
    assert!(matches!(cmd, ControlCommand::SetKillSwitch(true)));
    assert_eq!(metrics.command_channel_depth, 1);
}

#[test]
fn test_status_endpoint() {
    let ks = KillSwitch::with_clock(TestClock::new(0));
    let s = status(&ks, &GlobalMetrics::new());
    assert!(!s.kill_switch.active);
    assert_eq!(s.metrics.errors, 0);
}

#[test]
fn test_shutdown_endpoint() {
    let (tx, rx) = bounded::<ControlCommand>(100);
    let mut metrics = GlobalMetrics::new();
    assert_eq!(send_command(&tx, ControlCommand::Shutdown, &mut metrics), ApiStatus::Success);
    assert!(matches!(rx.try_recv().unwrap(), ControlCommand::Shutdown));
}

#[test]
fn test_strategy_swap_endpoint() {
    let (tx, rx) = bounded::<ControlCommand>(100);
    let mut metrics = GlobalMetrics::new();
    let req = StrategySwapRequest {
        symbol: "AAPL".to_string(),
        strategy_type: "aggressive".to_string(),
        params: None,
    };
    let (code, reply) = strategy_swap(&tx, req, &mut metrics);
    assert_eq!(code, ApiStatus::Success);
    assert_eq!(reply.status, "swap_requested");
    match rx.try_recv().unwrap() {
        ControlCommand::SwapStrategy { symbol, strategy_type, params } => {
            assert_eq!(symbol, "AAPL");
            assert_eq!(strategy_type, "aggressive");
            assert!(params.is_none());
        }
        _ => panic!("Expected SwapStrategy command"),
    }
}

#[test]
fn test_strategy_swap_with_custom_params() {
    let (tx, rx) = bounded::<ControlCommand>(100);
    let mut metrics = GlobalMetrics::new();
    let req = StrategySwapRequest {
        symbol: "AAPL".to_string(),
        strategy_type: "custom".to_string(),
        params: Some(custom_params()),
    };
    assert_eq!(strategy_swap(&tx, req, &mut metrics).0, ApiStatus::Success);
    match rx.try_recv().unwrap() {
        ControlCommand::SwapStrategy { symbol, strategy_type, params } => {
            assert_eq!(symbol, "AAPL");
            assert_eq!(strategy_type, "custom");
            assert!(params.is_some());
            let p = params.unwrap();
            assert_eq!(p.long_entry_threshold, num(0.7));
            assert_eq!(p.allow_short, false);
        }
        _ => panic!("Expected SwapStrategy command"),
    }
}

#[test]
fn test_auth_rejects_without_key() {
    let mut limiter = SimpleRateLimiter::new(10, 1);
    assert_eq!(
        screen_request("secret-key", ApiMethod::Post, None, None, &mut limiter, 0),
        Some(ApiStatus::Unauthorized)
    );
    assert_eq!(ApiStatus::Unauthorized.code(), 401);
    assert!(!authorized("secret-key", ApiMethod::Put, Some("Bearer other")));
    assert!(!authorized("secret-key", ApiMethod::Delete, Some("secret-key")));
}

#[test]
fn test_auth_allows_with_valid_key() {
    let mut limiter = SimpleRateLimiter::new(10, 1);
    assert_eq!(
        screen_request(
            "secret-key",
            ApiMethod::Post,
            Some("Bearer secret-key"),
            None,
            &mut limiter,
            0
        ),
        None
    );
    assert!(authorized("secret-key", ApiMethod::Get, None));
    assert!(authorized("", ApiMethod::Post, None));
}

#[test]
fn test_rate_limit_throttles_requests() {
    let mut limiter = SimpleRateLimiter::new(1, 60);
    let go = |l: &mut SimpleRateLimiter, m: ApiMethod, at: u64| {
        screen_request("", m, None, Some("1.2.3.4, 5.6.7.8"), l, at)
    };
    assert_eq!(go(&mut limiter, ApiMethod::Post, 5), None);
    assert_eq!(go(&mut limiter, ApiMethod::Post, 6), Some(ApiStatus::TooManyRequests));
    assert_eq!(go(&mut limiter, ApiMethod::Get, 6), None);
    assert_eq!(ApiStatus::TooManyRequests.code(), 429);
    assert!(limiter.check("another", 7));
    assert!(!limiter.check("1.2.3.4", 60_000_000_005));
    assert!(limiter.check("1.2.3.4", 60_000_000_006));
}

#[test]
fn a_window_lets_its_number_through() {
    let mut limiter = SimpleRateLimiter::new(3, 1);
    let passed = (0..10).filter(|i| limiter.check("k", 100 + i)).count();
    assert_eq!(passed, 3);
    let again = (0..10).filter(|i| limiter.check("k", 2_000_000_000 + i)).count();
    assert_eq!(again, 3);
    let mut none = SimpleRateLimiter::new(0, 1);
    assert!(!none.check("k", 1));
}

#[test]
fn clients_go_by_their_first_address() {
    assert_eq!(client_key(Some("10.0.0.1, 10.0.0.2")), "10.0.0.1");
    assert_eq!(client_key(Some("")), "");
    assert_eq!(client_key(None), "unknown");
}

#[test]
fn a_command_that_nobody_takes_is_an_error() {
    let (tx, rx) = bounded::<ControlCommand>(1);
    drop(rx);
    let mut metrics = GlobalMetrics::new();
    assert_eq!(
        send_command(&tx, ControlCommand::ReloadConfig, &mut metrics),
        ApiStatus::ServerError
    );
    assert_eq!(status_of_send(false).code(), 500);
    let (code, reply) = swap_response("S".to_string(), "t".to_string(), false);
    assert_eq!(code, ApiStatus::ServerError);
    assert_eq!(reply.status, "failed");
}

#[test]
fn requests_stand_for_commands() {
    match set_paper_trading(PaperTradingRequest { paper_trading: false }) {
        ControlCommand::SetMode(m) => assert_eq!(m, "live"),
        other => panic!("unexpected {:?}", other),
    }
    match set_strategy_params("AAPL".to_string(), custom_params()) {
        ControlCommand::SwapStrategy { strategy_type, params, .. } => {
            assert_eq!(strategy_type, "custom");
            assert_eq!(params.unwrap().exit_cooldown_ms, 1500);
        }
        other => panic!("unexpected {:?}", other),
    }
    let req = AssetConfigRequest { enabled: true, max_position: num(5.0), tick_size: num(0.5) };
    match set_asset_config("AAPL".to_string(), req) {
        ControlCommand::SetAssetConfig { symbol, config } => {
            assert_eq!(symbol, "AAPL");
            assert_eq!(config.max_position, num(5.0));
        }
        other => panic!("unexpected {:?}", other),
    }
    let req = ReactorConfigRequest {
        max_batch_size: 1,
        control_batch_size: 2,
        sleep_on_empty_us: 3,
        backpressure_log_interval: 4,
    };
    match set_reactor_params(req) {
        ControlCommand::SetReactorParams(u) => {
            assert_eq!((u.max_batch_size, u.control_batch_size), (1, 2));
            assert_eq!((u.sleep_on_empty_us, u.backpressure_log_interval), (3, 4));
        }
        other => panic!("unexpected {:?}", other),
    }
}

#[test]
fn settings_are_shown() {
    let cfg = EngineConfig::default();
    let a = get_asset_config(&cfg, "AAPL").unwrap();
    assert_eq!(a.symbol, "AAPL");
    assert_eq!(a.tick_size, cfg.asset_configs[0].tick_size);
    assert_eq!(get_asset_config(&cfg, "XXXX").unwrap_err(), ApiStatus::NotFound);
    assert_eq!(get_risk_params(&cfg.risk_config).max_drawdown_pct, num(5.0));
    assert_eq!(get_reactor_params(&cfg.reactor_config).max_batch_size, 64);
}

#[test]
fn models_are_shown() {
    let info = |id: &str| ModelInfo {
        model_id: id.to_string(),
        version: 3,
        input_features: vec!["a".to_string()],
        applicable_regimes: vec![1],
        priority: 2,
    };
    assert_eq!(get_active_model(None).model_id, "");
    assert_eq!(get_active_model(Some(info("m"))).version, 3);
    let list = list_models(vec![info("x"), info("y")]);
    assert_eq!(list.models.len(), 2);
    assert_eq!(list.models[1].model_id, "y");
}

#[test]
fn sums_and_lists_are_put_together() {
    let s = idempotency_status(&vec![1, 2], &vec![100, 200]);
    assert_eq!((s.store_size, s.store_capacity), (3, 300));
    assert!(all_orders(vec![Vec::new(), Vec::new()]).orders.is_empty());
    let mut beats: StrMap<u64> = StrMap::new();
    beats.insert("a".to_string(), 5);
    let h = heartbeats(Some(&beats));
    assert_eq!(h.status, "ok");
    assert_eq!(h.threads[0].thread, "a");
    assert_eq!(h.threads[0].last_timestamp_ns, 5);
    assert!(heartbeats(None).threads.is_empty());
    let r = rate_limiter_status("S".to_string(), num(1.0), None);
    assert_eq!(r.symbol_tokens, num(0.0));
    let r = rate_limiter_status("S".to_string(), num(1.0), Some((num(2.0), num(3.0))));
    assert_eq!(r.symbol_percent_remaining, num(3.0));
    let mut metrics = GlobalMetrics::new();
    metrics.increment_per_symbol_feature("A");
    metrics.increment_per_symbol_feature("A");
    assert_eq!(per_symbol_stats(metrics.snapshot()).per_symbol_features.get("A"), Some(&2));
}

#[test]
fn telemetry_ends_with_the_kill_switch() {
    assert_eq!(after_metrics(false, true, 3), TelemetryStep::Stop);
    assert_eq!(after_metrics(true, true, 3), TelemetryStep::Farewell { activated_at_ns: 3 });
    assert_eq!(after_metrics(true, false, 3), TelemetryStep::Wait);
    assert_eq!(metrics_event(), "metrics");
    assert_eq!(kill_switch_event(), "kill_switch");
}
