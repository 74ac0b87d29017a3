use unified_trading::config::{
    check, check_non_hot_swappable_config_changes, default_check_severities, BrokerConfig,
    CheckSeverity, ConfigValidationError, ConfigViolation, EngineConfig, ExposureCheck,
    RiskConfig, SecretString, StrategyConfig,
};
use unified_trading::quantity::Real;

fn num(x: f64) -> Real {
    Real::from_bits(x.to_bits())
}

fn exposure(cfg: &EngineConfig) -> ExposureCheck {
    let per_symbol = f64::from_bits(cfg.risk_config.max_position_per_symbol.bits);
    let max = f64::from_bits(cfg.risk_config.max_portfolio_exposure.bits);
    let implied = per_symbol * cfg.asset_configs.len() as f64;
    ExposureCheck {
        implied_max: num(implied),
        exposure_limit: num(max * 10.0),
        implied_max_text: format!("{}", implied),
        max_exposure_text: format!("{}", max),
    }
}

fn validate(cfg: &EngineConfig) -> Result<(), ConfigValidationError> {
    cfg.validate(&exposure(cfg))
}

#[test]
fn test_default_config() {
    let config = EngineConfig::default();
    assert_eq!(config.max_assets, 2);
    assert_eq!(config.asset_configs.len(), 2);
    assert_eq!(config.asset_configs[0].symbol, "AAPL");
}

#[test]
fn test_risk_config_defaults() {
    let risk = RiskConfig::default();
    assert_eq!(risk.max_drawdown_pct, num(5.0));
    assert!(risk.allow_short);
    assert!(risk.kill_switch_on_drawdown);
}

#[test]
fn test_strategy_config_defaults() {
    let strat = StrategyConfig::default();
    assert_eq!(strat.prediction_staleness_ns, 150_000_000);
    assert_eq!(strat.confidence_minimum, num(0.5));
}

#[test]
fn test_secret_string_debug_masking() {
    let secret = SecretString::new("my-secret-key");
    let debug_output = secret.debug_text();
    assert_eq!(debug_output, "SecretString(\"********\")");
    assert!(!debug_output.contains("my-secret-key"));
}

#[test]
fn test_secret_string_expose_secret() {
    let secret = SecretString::new("my-secret-key");
    assert_eq!(secret.expose_secret(), "my-secret-key");
}

#[test]
fn test_secret_string_serialization_masking() {
    let secret = SecretString::new("my-secret-key");
    let json = serde_json::to_string(secret.masked_text()).unwrap();
    assert_eq!(json, "\"********\"");
    assert!(!json.contains("my-secret-key"));
}

fn broker() -> BrokerConfig {
    BrokerConfig {
        broker_type: "alpaca".to_string(),
        api_key: SecretString::new("test-key-123"),
        api_secret: SecretString::new("test-secret-456"),
        paper_trading: true,
        ws_url: "wss://example.com".to_string(),
        rest_url: "https://example.com".to_string(),
        max_retries: 3,
        retry_backoff_ms: 1000,
    }
}

#[test]
fn test_broker_config_debug_masking() {
    let debug_output = broker().debug_text();
    assert!(!debug_output.contains("test-key-123"));
    assert!(!debug_output.contains("test-secret-456"));
    assert!(debug_output.contains("********"));
}

#[test]
fn the_text_of_a_broker_quotes_its_strings() {
    let mut b = broker();
    b.ws_url = "a\"b\\c\n".to_string();
    let text = b.debug_text();
    assert!(text.contains("ws_url: \"a\\\"b\\\\c\\n\""), "got {}", text);
    assert_eq!(
        broker().debug_text(),
        "BrokerConfig { broker_type: \"alpaca\", api_key: SecretString(\"********\"), \
         api_secret: SecretString(\"********\"), paper_trading: true, \
         ws_url: \"wss://example.com\", rest_url: \"https://example.com\", max_retries: 3, \
         retry_backoff_ms: 1000 }"
    );
    assert!(b.has_credentials());
}

#[test]
fn test_validate_default_config_passes() {
    let cfg = EngineConfig::default();
    assert!(validate(&cfg).is_ok(), "default config should pass validation");
}

#[test]
fn test_validate_rejects_negative_leverage() {
    let mut cfg = EngineConfig::default();
    cfg.risk_config.max_leverage = num(-1.0);
    let err = validate(&cfg).unwrap_err();
    let msgs = err.to_text();
    assert!(msgs.contains("leverage"), "error should mention leverage, got: {}", msgs);
}

#[test]
fn test_validate_rejects_zero_leverage() {
    let mut cfg = EngineConfig::default();
    cfg.risk_config.max_leverage = num(0.0);
    let err = validate(&cfg).unwrap_err();
    assert!(err.violations.iter().any(|v| v.field.contains("leverage")));
}

#[test]
fn test_validate_rejects_inconsistent_asset_count() {
    let mut cfg = EngineConfig::default();
    cfg.max_assets = 0;
    let err = validate(&cfg).unwrap_err();
    assert!(err.violations.iter().any(|v| v.field == "max_assets"));
}

#[test]
fn test_validate_rejects_negative_position() {
    let mut cfg = EngineConfig::default();
    cfg.asset_configs[0].max_position = num(-50.0);
    let err = validate(&cfg).unwrap_err();
    assert!(err.violations.iter().any(|v| v.field.contains("max_position")));
}

#[test]
fn test_validate_rejects_zero_tick_size() {
    let mut cfg = EngineConfig::default();
    cfg.asset_configs[1].tick_size = num(0.0);
    let err = validate(&cfg).unwrap_err();
    assert!(err.violations.iter().any(|v| v.field.contains("tick_size")));
}

#[test]
fn test_validate_rejects_drawdown_out_of_range() {
    let mut cfg = EngineConfig::default();
    cfg.risk_config.max_drawdown_pct = num(150.0);
    let err = validate(&cfg).unwrap_err();
    assert!(err.violations.iter().any(|v| v.field.contains("drawdown")));
}

#[test]
fn test_validate_rejects_confidence_out_of_range() {
    let mut cfg = EngineConfig::default();
    cfg.strategy_config.confidence_minimum = num(2.0);
    let err = validate(&cfg).unwrap_err();
    assert!(err.violations.iter().any(|v| v.field.contains("confidence_minimum")));
}

#[test]
fn test_validate_multiple_violations_reported_at_once() {
    let mut cfg = EngineConfig::default();
    cfg.risk_config.max_leverage = num(-5.0);
    cfg.risk_config.max_portfolio_exposure = num(-1.0);
    cfg.asset_configs[0].tick_size = num(0.0);
    cfg.channel_config.feature_channel_capacity = 0;
    let err = validate(&cfg).unwrap_err();
    assert!(err.violations.len() >= 3, "expected >=3 violations, got {}", err.violations.len());
}

#[test]
fn test_validation_error_display_format() {
    let violations = vec![
        ConfigViolation { field: "foo".into(), message: "bad value".into() },
        ConfigViolation { field: "bar".into(), message: "must be positive".into() },
    ];
    let err = ConfigValidationError::new(violations);
    let display = err.to_text();
    assert!(display.contains("2 violation(s)"));
    assert!(display.contains("foo"));
    assert!(display.contains("bad value"));
    assert!(display.contains("bar"));
}

#[test]
fn a_failed_check_is_noted() {
    let mut out: Vec<ConfigViolation> = Vec::new();
    check(true, "a", "b", &mut out);
    assert!(out.is_empty());
    check(false, "a", "b", &mut out);
    assert_eq!(out.len(), 1);
    assert_eq!(out[0].field, "a");
    assert_eq!(out[0].message, "b");
}

#[test]
fn an_implied_exposure_that_is_too_large_is_refused() {
    let mut cfg = EngineConfig::default();
    cfg.risk_config.max_position_per_symbol = num(5_000_001.0);
    cfg.risk_config.max_portfolio_exposure = num(1_000_000.0);
    let err = validate(&cfg).unwrap_err();
    assert_eq!(err.violations.len(), 1);
    assert_eq!(err.violations[0].field, "risk_config.max_position_per_symbol");
    assert_eq!(
        err.violations[0].message,
        "per-symbol position (10000002) × asset count exceeds 10× portfolio exposure (1000000)"
    );
}

#[test]
fn a_nan_is_refused_wherever_a_bound_is() {
    let mut cfg = EngineConfig::default();
    cfg.risk_config.max_leverage = num(f64::NAN);
    assert!(validate(&cfg).is_err());
}

#[test]
fn severities_have_defaults() {
    let m = default_check_severities();
    assert!(m.len() > 0);
    assert_eq!(CheckSeverity::default(), CheckSeverity::Veto);
}

#[test]
fn changes_that_need_a_restart_are_found() {
    let a = EngineConfig::default();
    let mut b = EngineConfig::default();
    let none = check_non_hot_swappable_config_changes(&a, &b);
    assert!(!none.feature && !none.model && !none.assets);
    assert!(!none.threading && !none.channel && !none.broker);
    b.channel_config.risk_channel_capacity += 1;
    b.broker_config.api_key = SecretString::new("another");
    b.asset_configs[0].enabled = !b.asset_configs[0].enabled;
    let some = check_non_hot_swappable_config_changes(&a, &b);
    assert!(some.channel && some.assets);
    assert!(!some.feature && !some.model && !some.threading);
}

#[test]
fn overrides_replace_what_they_name() {
    let mut cfg = EngineConfig::default();
    cfg.apply_overrides(
        Some("k".to_string()),
        None,
        Some("false".to_string()),
        Some("TSLA, NVDA".to_string()),
    );
    assert_eq!(cfg.broker_config.api_key.expose_secret(), "k");
    assert!(!cfg.broker_config.paper_trading);
    assert_eq!(cfg.enabled_assets(), vec!["TSLA".to_string(), "NVDA".to_string()]);
    assert_eq!(cfg.find_asset("NVDA"), Some(1));
    assert_eq!(cfg.find_asset("AAPL"), None);
    cfg.apply_overrides(None, Some("s".to_string()), Some("no".to_string()), None);
    assert!(cfg.broker_config.paper_trading);
    assert_eq!(cfg.broker_config.api_secret.expose_secret(), "s");
}

#[test]
fn safe_mode_trades_nothing() {
    let mut cfg = EngineConfig::default();
    cfg.enter_safe_mode();
    assert!(cfg.safe_mode);
    assert!(cfg.enabled_assets().is_empty());
}
