use unified_trading::config::{EngineConfig, ExposureCheck};
use unified_trading::config_watcher::{
    first_toml, parse_failure, read_failure, ConfigWatcher, ConfigWatcherError,
};
use unified_trading::quantity::Real;

fn num(x: f64) -> Real {
    Real::from_bits(x.to_bits())
}

fn exposure(cfg: &EngineConfig) -> ExposureCheck {
    let per_symbol = f64::from_bits(cfg.risk_config.max_position_per_symbol.bits);
    let max = f64::from_bits(cfg.risk_config.max_portfolio_exposure.bits);
    let implied = per_symbol * cfg.asset_configs.len() as f64;
    ExposureCheck {
        implied_max: num(implied),
        exposure_limit: num(max * 10.0),
        implied_max_text: format!("{}", implied),
        max_exposure_text: format!("{}", max),
    }
}

#[test]
fn test_config_watcher_reload() {
    let mut watcher = ConfigWatcher::new(EngineConfig::default());

    let mut new_config = EngineConfig::default();
    new_config.max_assets = 8;
    let e = exposure(&new_config);
    watcher.on_change(Ok(new_config), &e);

    assert!(watcher.reload_count() > 0 || watcher.config().max_assets == 8);
    watcher.stop();
}

#[test]
fn test_config_watcher_rejects_invalid_config() {
    let started = EngineConfig::default();
    let mut watcher = ConfigWatcher::new(started.clone());

    let mut invalid = EngineConfig::default();
    invalid.risk_config.max_leverage = num(-3.0);
    invalid.max_assets = 99;
    let e = exposure(&invalid);
    watcher.on_change(Ok(invalid), &e);

    assert_eq!(watcher.config().risk_config.max_leverage, started.risk_config.max_leverage);
    assert_eq!(watcher.config().max_assets, started.max_assets);
    assert!(watcher.rejected_count() >= 1 || watcher.reload_count() == 0);

    watcher.stop();
}

#[test]
fn test_reload_config_rejects_negative_leverage_directly() {
    let started = EngineConfig::default();
    let mut watcher = ConfigWatcher::new(started.clone());

    let mut bad = EngineConfig::default();
    bad.risk_config.max_leverage = num(-1.0);
    let e = exposure(&bad);

    let result = watcher.reload_config(Ok(bad), &e);
    assert!(result.is_err(), "reload should fail on negative leverage");
    match result.unwrap_err() {
        ConfigWatcherError::Validation(msg) => assert!(msg.contains("validation failed")),
        _ => panic!("expected Validation error"),
    }

    assert_eq!(watcher.config().risk_config.max_leverage, started.risk_config.max_leverage);
}

#[test]
fn failures_name_the_file() {
    assert_eq!(
        read_failure("a.toml", "gone").to_text(),
        "IO error: Failed to read a.toml: gone"
    );
    assert_eq!(
        parse_failure("a.toml", "bad").to_text(),
        "Parse error: Failed to parse a.toml: bad"
    );
    assert_eq!(
        ConfigWatcherError::WatcherSetup("x".to_string()).to_text(),
        "Watcher setup: x"
    );
}

#[test]
fn the_first_settings_file_is_taken() {
    let ext = |s: &str| Some(s.to_string());
    assert_eq!(first_toml(&vec![None, ext("json"), ext("toml"), ext("toml")]), Some(2));
    assert_eq!(first_toml(&vec![None, ext("TOML")]), None);
}

#[test]
fn a_stopped_watcher_ignores_changes() {
    let mut watcher = ConfigWatcher::new(EngineConfig::default());
    watcher.stop();
    let mut new_config = EngineConfig::default();
    new_config.max_assets = 8;
    let e = exposure(&new_config);
    watcher.on_change(Ok(new_config), &e);
    assert_eq!(watcher.config().max_assets, 2);
    assert_eq!(watcher.reload_count(), 0);
}
