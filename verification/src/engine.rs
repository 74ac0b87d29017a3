//! The engine: its configuration, its assets, and the commands that change them.

use std::time::Instant;
use vstd::prelude::*;
use vstd::string::StringExecFns;

use crate::clock::{instant_elapsed, instant_now, Clock, Span};
use crate::command_channel::{
    CircuitBreakerConfigUpdate, ControlCommand, ControlResponse, RateLimitConfigUpdate,
    StrategyParams,
};
use crate::config::{
    check_non_hot_swappable_config_changes, AssetConfig, ConfigChanges, EngineConfig,
    ExposureCheck, FeatureConfig, ModelConfig, RiskConfig, StrategyConfig, ThreadingConfig,
};
use crate::kill_switch::KillSwitch;
use crate::metrics::GlobalMetrics;
use crate::quantity::Real;
use crate::status_text::snapshot_debug_text;
use crate::str_map::StrMap;
use crate::symbol_registry::{SymbolId, SymbolRegistry};
use crate::text::str_eq;

verus! {

/// Where a staged rollout stands.
#[derive(Debug, Clone, Copy, PartialEq, Eq, Structural)]
pub enum RolloutPhase {
    Monitoring,
    Completed,
}

/// Why a staged rollout does not go on.
#[derive(Debug, Clone, PartialEq)]
pub enum RolloutError {
    NotInProgress,
    ValidationFailed(String),
    NoCanaryAsset,
}

impl RolloutError {
    pub open spec fn text(self) -> Seq<char> {
        match self {
            RolloutError::NotInProgress => "no staged rollout in progress"@,
            RolloutError::ValidationFailed(msg) => "validation failed: "@ + msg@,
            RolloutError::NoCanaryAsset => "no enabled assets for canary rollout"@,
        }
    }

    pub fn to_text(&self) -> (s: String)
        ensures
            s@ == self.text(),
    {
        match self {
            RolloutError::NotInProgress => "no staged rollout in progress".to_owned(),
            RolloutError::ValidationFailed(msg) => {
                let mut s = "validation failed: ".to_owned();
                s.append(msg.as_str());
                s
            },
            RolloutError::NoCanaryAsset => "no enabled assets for canary rollout".to_owned(),
        }
    }
}

/// The settings of an asset that can change while it is traded.
#[derive(Debug, Clone, Copy, PartialEq, Eq, Structural)]
pub struct AssetValues {
    pub max_position: Real,
    pub tick_size: Real,
    pub enabled: bool,
}

/// The settings that a staged rollout tries out first.
#[derive(Debug, Clone, Copy, PartialEq, Eq, Structural)]
pub struct CanaryValues {
    pub asset: Option<AssetValues>,
    pub max_leverage: Real,
    pub max_position_per_symbol: Real,
    pub max_drawdown_pct: Real,
}

/// A rollout that is under way.
pub struct StagedRolloutState {
    pub pending_config: EngineConfig,
    pub canary_symbol: String,
    pub phase: RolloutPhase,
    pub started: Instant,
    /// How long the canary is watched before the configuration goes to all assets.
    pub monitoring_duration_secs: u64,
    /// The settings of the canary before the rollout.
    pub previous: CanaryValues,
}

/// The place of the first asset with a symbol; the number of assets where there is none.
pub open spec fn first_place(a: Seq<AssetConfig>, symbol: Seq<char>) -> int
    decreases a.len(),
{
    if a.len() == 0 {
        0
    } else if a[0].symbol@ == symbol {
        0
    } else {
        1 + first_place(a.skip(1), symbol)
    }
}

proof fn lemma_first_place(a: Seq<AssetConfig>, symbol: Seq<char>, k: int)
    requires
        0 <= k <= a.len(),
        forall|j: int| 0 <= j < k ==> (#[trigger] a[j]).symbol@ != symbol,
        k < a.len() ==> a[k].symbol@ == symbol,
    ensures
        first_place(a, symbol) == k,
    decreases a.len(),
{
    if k > 0 {
        let t = a.skip(1);
        assert(a[0].symbol@ != symbol);
        assert forall|j: int| 0 <= j < k - 1 implies (#[trigger] t[j]).symbol@ != symbol by {
            assert(t[j] == a[j + 1]);
        }
        lemma_first_place(t, symbol, k - 1);
    }
}

proof fn lemma_first_place_is(a: Seq<AssetConfig>, symbol: Seq<char>)
    ensures
        0 <= first_place(a, symbol) <= a.len(),
        first_place(a, symbol) < a.len() ==> a[first_place(a, symbol)].symbol@ == symbol,
        forall|j: int|
            0 <= j < first_place(a, symbol) ==> (#[trigger] a[j]).symbol@ != symbol,
    decreases a.len(),
{
    if a.len() > 0 && a[0].symbol@ != symbol {
        let t = a.skip(1);
        lemma_first_place_is(t, symbol);
        assert forall|j: int| 0 <= j < first_place(a, symbol) implies (#[trigger] a[j]).symbol@
            != symbol by {
            if j > 0 {
                assert(t[j - 1] == a[j]);
            }
        }
    }
}

/// Whether an asset has the symbol.
pub open spec fn has_asset(a: Seq<AssetConfig>, symbol: Seq<char>) -> bool {
    first_place(a, symbol) < a.len()
}

/// The assets with other values for the first one with a symbol.
pub open spec fn assets_with(
    a: Seq<AssetConfig>,
    symbol: Seq<char>,
    v: AssetValues,
) -> Seq<AssetConfig> {
    let i = first_place(a, symbol);
    if i < a.len() {
        a.update(
            i,
            AssetConfig {
                max_position: v.max_position,
                tick_size: v.tick_size,
                enabled: v.enabled,
                ..a[i]
            },
        )
    } else {
        a
    }
}

/// The values of the first asset with a symbol.
pub open spec fn values_of(a: Seq<AssetConfig>, symbol: Seq<char>) -> Option<AssetValues> {
    let i = first_place(a, symbol);
    if i < a.len() {
        Some(
            AssetValues {
                max_position: a[i].max_position,
                tick_size: a[i].tick_size,
                enabled: a[i].enabled,
            },
        )
    } else {
        None
    }
}

/// The values of the first asset with a symbol.
pub fn asset_values(cfg: &EngineConfig, symbol: &str) -> (r: Option<AssetValues>)
    ensures
        r == values_of(cfg.asset_configs@, symbol@),
{
    match cfg.find_asset(symbol) {
        Some(i) => {
            proof {
                lemma_first_place(cfg.asset_configs@, symbol@, i as int);
            }
            Some(
                AssetValues {
                    max_position: cfg.asset_configs[i].max_position,
                    tick_size: cfg.asset_configs[i].tick_size,
                    enabled: cfg.asset_configs[i].enabled,
                },
            )
        },
        None => {
            proof {
                lemma_first_place(
                    cfg.asset_configs@,
                    symbol@,
                    cfg.asset_configs@.len() as int,
                );
            }
            None
        },
    }
}

/// Sets the values of the first asset with a symbol; the result tells whether there is one.
pub fn set_asset_values(cfg: &mut EngineConfig, symbol: &str, v: AssetValues) -> (found: bool)
    ensures
        found == has_asset(old(cfg).asset_configs@, symbol@),
        final(cfg).asset_configs@ == assets_with(old(cfg).asset_configs@, symbol@, v),
        *final(cfg) == (EngineConfig { asset_configs: final(cfg).asset_configs, ..*old(cfg) }),
{
    match cfg.find_asset(symbol) {
        Some(i) => {
            proof {
                lemma_first_place(cfg.asset_configs@, symbol@, i as int);
            }
            cfg.asset_configs[i].max_position = v.max_position;
            cfg.asset_configs[i].tick_size = v.tick_size;
            cfg.asset_configs[i].enabled = v.enabled;
            assert(cfg.asset_configs@ =~= assets_with(old(cfg).asset_configs@, symbol@, v));
            true
        },
        None => {
            proof {
                lemma_first_place(
                    cfg.asset_configs@,
                    symbol@,
                    cfg.asset_configs@.len() as int,
                );
            }
            false
        },
    }
}

/// The assets with the first one of a symbol switched on or off.
pub open spec fn assets_switched(
    a: Seq<AssetConfig>,
    symbol: Seq<char>,
    enabled: bool,
) -> Seq<AssetConfig> {
    let i = first_place(a, symbol);
    if i < a.len() {
        a.update(i, AssetConfig { enabled, ..a[i] })
    } else {
        a
    }
}

/// Switches the first asset with a symbol on or off; the result tells whether there is one.
pub fn switch_asset(cfg: &mut EngineConfig, symbol: &str, enabled: bool) -> (found: bool)
    ensures
        found == has_asset(old(cfg).asset_configs@, symbol@),
        final(cfg).asset_configs@ == assets_switched(old(cfg).asset_configs@, symbol@, enabled),
        *final(cfg) == (EngineConfig { asset_configs: final(cfg).asset_configs, ..*old(cfg) }),
{
    match cfg.find_asset(symbol) {
        Some(i) => {
            proof {
                lemma_first_place(cfg.asset_configs@, symbol@, i as int);
            }
            cfg.asset_configs[i].enabled = enabled;
            assert(cfg.asset_configs@ =~= assets_switched(
                old(cfg).asset_configs@,
                symbol@,
                enabled,
            ));
            true
        },
        None => {
            proof {
                lemma_first_place(
                    cfg.asset_configs@,
                    symbol@,
                    cfg.asset_configs@.len() as int,
                );
            }
            false
        },
    }
}

/// Whether `after` is `before` with the given settings of the canary.
pub open spec fn canary_set(
    before: EngineConfig,
    symbol: Seq<char>,
    v: CanaryValues,
    after: EngineConfig,
) -> bool {
    &&& after.asset_configs@ == (match v.asset {
        Some(a) => assets_with(before.asset_configs@, symbol, a),
        None => before.asset_configs@,
    })
    &&& after == (EngineConfig {
        asset_configs: after.asset_configs,
        risk_config: RiskConfig {
            max_leverage: v.max_leverage,
            max_position_per_symbol: v.max_position_per_symbol,
            max_drawdown_pct: v.max_drawdown_pct,
            ..before.risk_config
        },
        ..before
    })
}

/// The settings of a canary in a configuration.
pub open spec fn canary_values(c: EngineConfig, symbol: Seq<char>) -> CanaryValues {
    CanaryValues {
        asset: values_of(c.asset_configs@, symbol),
        max_leverage: c.risk_config.max_leverage,
        max_position_per_symbol: c.risk_config.max_position_per_symbol,
        max_drawdown_pct: c.risk_config.max_drawdown_pct,
    }
}

fn read_canary(c: &EngineConfig, symbol: &str) -> (v: CanaryValues)
    ensures
        v == canary_values(*c, symbol@),
{
    CanaryValues {
        asset: asset_values(c, symbol),
        max_leverage: c.risk_config.max_leverage,
        max_position_per_symbol: c.risk_config.max_position_per_symbol,
        max_drawdown_pct: c.risk_config.max_drawdown_pct,
    }
}

fn set_canary(c: &mut EngineConfig, symbol: &str, v: &CanaryValues)
    ensures
        canary_set(*old(c), symbol@, *v, *final(c)),
{
    match v.asset {
        Some(a) => {
            let _ = set_asset_values(c, symbol, a);
        },
        None => {},
    }
    c.risk_config.max_leverage = v.max_leverage;
    c.risk_config.max_position_per_symbol = v.max_position_per_symbol;
    c.risk_config.max_drawdown_pct = v.max_drawdown_pct;
}

/// Setting a canary and setting its former values again leaves all settings as they were.
pub proof fn law_canary_is_reverted(
    c: EngineConfig,
    symbol: Seq<char>,
    v: CanaryValues,
    during: EngineConfig,
    after: EngineConfig,
)
    requires
        canary_set(c, symbol, v, during),
        canary_set(during, symbol, canary_values(c, symbol), after),
    ensures
        after.asset_configs@ == c.asset_configs@,
        after == (EngineConfig { asset_configs: after.asset_configs, ..c }),
{
    let a = c.asset_configs@;
    let b = during.asset_configs@;
    lemma_first_place_is(a, symbol);
    let i = first_place(a, symbol);
    if i < a.len() {
        assert forall|j: int| 0 <= j < i implies (#[trigger] b[j]).symbol@ != symbol by {
            assert(b[j] == a[j]);
        }
        lemma_first_place(b, symbol, i);
        let x = after.asset_configs@;
        assert(x[i] == a[i]);
        assert(x =~= a);
    }
}

/// The values that tell one strategy from another.
#[derive(Debug, Clone, Copy, PartialEq, Eq, Structural)]
pub struct Thresholds {
    pub long_entry: Real,
    pub short_entry: Real,
    pub confidence: Real,
    pub deadband: Real,
    pub entry_cooldown_ms: u64,
    pub exit_cooldown_ms: u64,
    pub staleness_ns: u64,
    pub allow_short: bool,
    pub intent_ttl_ns: u64,
    pub max_long: Real,
    pub max_short: Real,
    pub urgency_aggressive: Real,
    pub urgency_normal: Real,
}

/// The thresholds of a strategy that is known by name.
pub open spec fn preset(name: Seq<char>) -> Option<Thresholds> {
    if name == "hysteresis"@ {
        Some(Thresholds {
            long_entry: Real { bits: 0x3fe3_3333_3333_3333 },
            short_entry: Real { bits: 0xbfe3_3333_3333_3333 },
            confidence: Real { bits: 0x3fe0_0000_0000_0000 },
            deadband: Real { bits: 0x3fc3_3333_3333_3333 },
            entry_cooldown_ms: 5000,
            exit_cooldown_ms: 2000,
            staleness_ns: 150_000_000,
            allow_short: true,
            intent_ttl_ns: 30_000_000_000,
            max_long: Real { bits: 0x4059_0000_0000_0000 },
            max_short: Real { bits: 0x4059_0000_0000_0000 },
            urgency_aggressive: Real { bits: 0x3feb_3333_3333_3333 },
            urgency_normal: Real { bits: 0x3fe0_0000_0000_0000 },
        })
    } else if name == "conservative"@ {
        Some(Thresholds {
            long_entry: Real { bits: 0x3fe9_9999_9999_999a },
            short_entry: Real { bits: 0xbfe9_9999_9999_999a },
            confidence: Real { bits: 0x3fe3_3333_3333_3333 },
            deadband: Real { bits: 0x3fc9_9999_9999_999a },
            entry_cooldown_ms: 10000,
            exit_cooldown_ms: 5000,
            staleness_ns: 200_000_000,
            allow_short: false,
            intent_ttl_ns: 60_000_000_000,
            max_long: Real { bits: 0x4049_0000_0000_0000 },
            max_short: Real { bits: 0x4049_0000_0000_0000 },
            urgency_aggressive: Real { bits: 0x3fec_cccc_cccc_cccd },
            urgency_normal: Real { bits: 0x3fe3_3333_3333_3333 },
        })
    } else if name == "aggressive"@ {
        Some(Thresholds {
            long_entry: Real { bits: 0x3fd9_9999_9999_999a },
            short_entry: Real { bits: 0xbfd9_9999_9999_999a },
            confidence: Real { bits: 0x3fd3_3333_3333_3333 },
            deadband: Real { bits: 0x3fb9_9999_9999_999a },
            entry_cooldown_ms: 2000,
            exit_cooldown_ms: 1000,
            staleness_ns: 100_000_000,
            allow_short: true,
            intent_ttl_ns: 15_000_000_000,
            max_long: Real { bits: 0x4069_0000_0000_0000 },
            max_short: Real { bits: 0x4069_0000_0000_0000 },
            urgency_aggressive: Real { bits: 0x3fe8_0000_0000_0000 },
            urgency_normal: Real { bits: 0x3fd9_9999_9999_999a },
        })
    } else {
        None
    }
}

/// The thresholds of a strategy that is known by name.
pub fn preset_thresholds(name: &str) -> (r: Option<Thresholds>)
    ensures
        r == preset(name@),
{
    if str_eq(name, "hysteresis") {
        Some(Thresholds {
            long_entry: Real { bits: 0x3fe3_3333_3333_3333 },
            short_entry: Real { bits: 0xbfe3_3333_3333_3333 },
            confidence: Real { bits: 0x3fe0_0000_0000_0000 },
            deadband: Real { bits: 0x3fc3_3333_3333_3333 },
            entry_cooldown_ms: 5000,
            exit_cooldown_ms: 2000,
            staleness_ns: 150_000_000,
            allow_short: true,
            intent_ttl_ns: 30_000_000_000,
            max_long: Real { bits: 0x4059_0000_0000_0000 },
            max_short: Real { bits: 0x4059_0000_0000_0000 },
            urgency_aggressive: Real { bits: 0x3feb_3333_3333_3333 },
            urgency_normal: Real { bits: 0x3fe0_0000_0000_0000 },
        })
    } else if str_eq(name, "conservative") {
        Some(Thresholds {
            long_entry: Real { bits: 0x3fe9_9999_9999_999a },
            short_entry: Real { bits: 0xbfe9_9999_9999_999a },
            confidence: Real { bits: 0x3fe3_3333_3333_3333 },
            deadband: Real { bits: 0x3fc9_9999_9999_999a },
            entry_cooldown_ms: 10000,
            exit_cooldown_ms: 5000,
            staleness_ns: 200_000_000,
            allow_short: false,
            intent_ttl_ns: 60_000_000_000,
            max_long: Real { bits: 0x4049_0000_0000_0000 },
            max_short: Real { bits: 0x4049_0000_0000_0000 },
            urgency_aggressive: Real { bits: 0x3fec_cccc_cccc_cccd },
            urgency_normal: Real { bits: 0x3fe3_3333_3333_3333 },
        })
    } else if str_eq(name, "aggressive") {
        Some(Thresholds {
            long_entry: Real { bits: 0x3fd9_9999_9999_999a },
            short_entry: Real { bits: 0xbfd9_9999_9999_999a },
            confidence: Real { bits: 0x3fd3_3333_3333_3333 },
            deadband: Real { bits: 0x3fb9_9999_9999_999a },
            entry_cooldown_ms: 2000,
            exit_cooldown_ms: 1000,
            staleness_ns: 100_000_000,
            allow_short: true,
            intent_ttl_ns: 15_000_000_000,
            max_long: Real { bits: 0x4069_0000_0000_0000 },
            max_short: Real { bits: 0x4069_0000_0000_0000 },
            urgency_aggressive: Real { bits: 0x3fe8_0000_0000_0000 },
            urgency_normal: Real { bits: 0x3fd9_9999_9999_999a },
        })
    } else {
        None
    }
}

/// The thresholds of given parameters. The exit threshold is not among them.
pub open spec fn thresholds_of(p: StrategyParams) -> Thresholds {
    Thresholds {
        long_entry: p.long_entry_threshold,
        short_entry: p.short_entry_threshold,
        confidence: p.confidence_minimum,
        deadband: p.hysteresis_deadband,
        entry_cooldown_ms: p.entry_cooldown_ms,
        exit_cooldown_ms: p.exit_cooldown_ms,
        staleness_ns: p.prediction_staleness_ns,
        allow_short: p.allow_short,
        intent_ttl_ns: p.trade_intent_ttl_ns,
        max_long: p.max_long_units,
        max_short: p.max_short_units,
        urgency_aggressive: p.urgency_aggressive_threshold,
        urgency_normal: p.urgency_normal_threshold,
    }
}

/// The settings of a strategy: its thresholds, the weights of the model, and the exit threshold
/// that all strategies share.
pub open spec fn strategy_settings(
    t: Thresholds,
    m: ModelConfig,
    f: FeatureConfig,
) -> StrategyConfig {
    StrategyConfig {
        long_entry_threshold: t.long_entry,
        short_entry_threshold: t.short_entry,
        exit_threshold: Real { bits: 0x3fb9_9999_9999_999a },
        confidence_minimum: t.confidence,
        hysteresis_deadband: t.deadband,
        entry_cooldown_ms: t.entry_cooldown_ms,
        exit_cooldown_ms: t.exit_cooldown_ms,
        prediction_staleness_ns: t.staleness_ns,
        trade_intent_ttl_ns: t.intent_ttl_ns,
        max_long_units: t.max_long,
        max_short_units: t.max_short,
        urgency_aggressive_threshold: t.urgency_aggressive,
        urgency_normal_threshold: t.urgency_normal,
        allow_short: t.allow_short,
        action_score_rsi_weight: m.action_score_rsi_weight,
        action_score_macd_weight: m.action_score_macd_weight,
        action_score_volatility_weight: m.action_score_volatility_weight,
        atr_penalty_threshold: m.atr_penalty_threshold,
        atr_penalty_value: m.atr_penalty_value,
        rsi_overbought: m.rsi_overbought,
        rsi_oversold: m.rsi_oversold,
        rsi_neutral: m.rsi_neutral,
        confidence_rsi_weight: m.confidence_rsi_weight,
        confidence_macd_weight: m.confidence_macd_weight,
        confidence_regime_weight: m.confidence_regime_weight,
        volume_ratio_clamp: f.volume_ratio_clamp,
    }
}

/// The settings of a strategy, see `strategy_settings`.
pub fn build_strategy_settings(t: Thresholds, m: &ModelConfig, f: &FeatureConfig) -> (c:
    StrategyConfig)
    ensures
        c == strategy_settings(t, *m, *f),
{
    let mut c = StrategyConfig::default();
    c.long_entry_threshold = t.long_entry;
    c.short_entry_threshold = t.short_entry;
    c.confidence_minimum = t.confidence;
    c.hysteresis_deadband = t.deadband;
    c.entry_cooldown_ms = t.entry_cooldown_ms;
    c.exit_cooldown_ms = t.exit_cooldown_ms;
    c.prediction_staleness_ns = t.staleness_ns;
    c.allow_short = t.allow_short;
    c.trade_intent_ttl_ns = t.intent_ttl_ns;
    c.max_long_units = t.max_long;
    c.max_short_units = t.max_short;
    c.urgency_aggressive_threshold = t.urgency_aggressive;
    c.urgency_normal_threshold = t.urgency_normal;
    c.action_score_rsi_weight = m.action_score_rsi_weight;
    c.action_score_macd_weight = m.action_score_macd_weight;
    c.action_score_volatility_weight = m.action_score_volatility_weight;
    c.atr_penalty_threshold = m.atr_penalty_threshold;
    c.atr_penalty_value = m.atr_penalty_value;
    c.rsi_overbought = m.rsi_overbought;
    c.rsi_oversold = m.rsi_oversold;
    c.rsi_neutral = m.rsi_neutral;
    c.confidence_rsi_weight = m.confidence_rsi_weight;
    c.confidence_macd_weight = m.confidence_macd_weight;
    c.confidence_regime_weight = m.confidence_regime_weight;
    c.volume_ratio_clamp = f.volume_ratio_clamp;
    c
}

/// What it takes to start the threads of an asset.
#[derive(Debug, Clone)]
pub struct PipelinePlan {
    pub symbol: String,
    pub symbol_id: SymbolId,
    pub core_id: usize,
    pub prediction_core_id: usize,
    pub risk_core_id: usize,
    pub execution_core_id: usize,
    pub thread_name: String,
    pub idempotency_file: String,
}

/// The core after `core` for the next asset: cores one to three in turn.
pub open spec fn next_core(core: usize) -> usize {
    if core >= 3 {
        1
    } else {
        (core + 1) as usize
    }
}

/// The core of the asset number `i`, where the first one gets `core`.
pub open spec fn core_after(core: usize, i: nat) -> usize
    decreases i,
{
    if i == 0 {
        core
    } else {
        next_core(core_after(core, (i - 1) as nat))
    }
}

/// Assets take the cores one to three in turn.
pub proof fn law_cores_in_turn(core: usize, i: nat)
    requires
        1 <= core <= 3,
    ensures
        1 <= core_after(core, i) <= 3,
        core_after(core, i + 3) == core_after(core, i),
        core_after(core, i + 1) != core_after(core, i),
    decreases i,
{
    reveal_with_fuel(core_after, 4);
    if i > 0 {
        law_cores_in_turn(core, (i - 1) as nat);
    }
}

/// The core `base + idx`, counted round four cores.
pub open spec fn shifted_core(base: usize, idx: usize) -> int {
    (base + idx) % 4
}

fn shift_core(base: usize, idx: usize) -> (c: usize)
    ensures
        c == shifted_core(base, idx),
{
    let sum: u128 = base as u128 + idx as u128;
    (sum % 4) as usize
}

impl PipelinePlan {
    /// Whether this is the plan for asset number `idx`.
    pub open spec fn is_for(
        &self,
        symbol: Seq<char>,
        core: usize,
        idx: usize,
        threading: ThreadingConfig,
    ) -> bool {
        &&& self.symbol@ == symbol
        &&& self.core_id == core
        &&& self.prediction_core_id == shifted_core(threading.prediction_core_id, idx)
        &&& self.risk_core_id == shifted_core(threading.risk_core_id, idx)
        &&& self.execution_core_id == shifted_core(threading.execution_core_id, idx)
        &&& self.thread_name@ == "asset-"@ + symbol
        &&& self.idempotency_file@ == "idempotency_"@ + symbol + ".log"@
    }
}

/// Whether `id` is the number of a symbol in a registry: its own where it has one, else zero.
pub open spec fn numbered(registry: Seq<Seq<char>>, symbol: Seq<char>, id: SymbolId) -> bool {
    if registry.contains(symbol) {
        id.raw() < registry.len() && registry[id.raw() as int] == symbol
    } else {
        id.raw() == 0
    }
}

/// The registry after a symbol was registered.
pub open spec fn registry_with(registry: Seq<Seq<char>>, symbol: Seq<char>) -> Seq<Seq<char>> {
    if registry.contains(symbol) || registry.len() >= crate::symbol_registry::MAX_SYMBOLS {
        registry
    } else {
        registry.push(symbol)
    }
}

/// What a reload of the configuration sets in the running parts.
#[derive(Debug)]
pub struct ReloadEffect {
    /// The changes that take effect only later, where an earlier configuration is known.
    pub changes: Option<ConfigChanges>,
    /// What the running assets are to use.
    pub live: Option<(CircuitBreakerConfigUpdate, RateLimitConfigUpdate)>,
    /// What came of the staged rollout, where there are assets to try it on.
    pub rollout: Option<Result<(), RolloutError>>,
}

/// What is to be done outside the engine's own state after a command.
#[derive(Debug)]
pub enum EngineEffect {
    Nothing,
    SwapStrategy { symbol: String, symbol_id: SymbolId, settings: StrategyConfig },
    SetBreakers(CircuitBreakerConfigUpdate),
    SetRateLimits(RateLimitConfigUpdate),
    TripBreakers,
    ResetBreakers,
    Reload(ReloadEffect),
    FlushJournal,
    StartPipeline(PipelinePlan),
    StopPipeline(String),
}

/// What is to be started.
#[derive(Debug)]
pub struct StartPlan {
    pub safe_mode: bool,
    /// Whether the live feed runs, and with it the tick reactor.
    pub feed: bool,
    /// Whether orders go to the broker; otherwise they go to a stand-in.
    pub live_port: bool,
    pub pipelines: Vec<PipelinePlan>,
}

/// The engine's own state.
pub struct UnifiedEngine<C: Clock> {
    pub config: EngineConfig,
    pub kill_switch: KillSwitch<C>,
    pub metrics: GlobalMetrics,
    pub symbol_registry: SymbolRegistry,
    /// The symbols with a strategy.
    pub strategy_registry: StrMap<()>,
    /// The symbols that are traded, with their numbers.
    pub asset_pipelines: StrMap<SymbolId>,
    /// The symbols with an execution state.
    pub execution_states: StrMap<()>,
    pub reactor_running: bool,
    pub lifecycle_running: bool,
    pub port_ready: bool,
    pub journal_running: bool,
    pub next_asset_core: usize,
    /// The rollout that is under way, where there is one.
    pub staged_rollout: Option<StagedRolloutState>,
    /// The configuration at the last reload.
    pub last_config: Option<EngineConfig>,
}

/// The registry after symbols came in, in their order.
pub open spec fn registry_after(
    registry: Seq<Seq<char>>,
    symbols: Seq<Seq<char>>,
) -> Seq<Seq<char>>
    decreases symbols.len(),
{
    if symbols.len() == 0 {
        registry
    } else {
        registry_with(registry_after(registry, symbols.drop_last()), symbols.last())
    }
}

/// Whether `after` is `before` but for what it holds for `names`: something for each of them.
pub open spec fn same_but_for<V>(
    before: Map<Seq<char>, V>,
    after: Map<Seq<char>, V>,
    names: Seq<Seq<char>>,
) -> bool {
    &&& forall|i: int| 0 <= i < names.len() ==> after.dom().contains(#[trigger] names[i])
    &&& forall|k: Seq<char>| #[trigger]
        after.dom().contains(k) ==> before.dom().contains(k) || names.contains(k)
    &&& forall|k: Seq<char>| #[trigger]
        before.dom().contains(k) ==> after.dom().contains(k) && (names.contains(k) || after[k]
            == before[k])
}

proof fn lemma_one_more<V>(
    first: Map<Seq<char>, V>,
    before: Map<Seq<char>, V>,
    after: Map<Seq<char>, V>,
    shorter: Seq<Seq<char>>,
    longer: Seq<Seq<char>>,
)
    requires
        longer.len() == shorter.len() + 1,
        longer.drop_last() == shorter,
        same_but_for(first, before, shorter),
        after.dom().contains(longer.last()),
        after == before.insert(longer.last(), after[longer.last()]),
    ensures
        same_but_for(first, after, longer),
{
    assert(after.dom() =~= before.dom().insert(longer.last()));
    assert forall|i: int| 0 <= i < longer.len() implies after.dom().contains(
        #[trigger] longer[i],
    ) by {
        if i < shorter.len() {
            assert(longer[i] == shorter[i]);
        }
    }
    assert forall|k: Seq<char>| shorter.contains(k) implies longer.contains(k) by {
        let i = choose|i: int| 0 <= i < shorter.len() && shorter[i] == k;
        assert(longer[i] == k);
    }
    assert(longer[longer.len() - 1] == longer.last());
    assert(longer.contains(longer.last()));
    assert forall|k: Seq<char>| #[trigger] after.dom().contains(k) implies first.dom().contains(k)
        || longer.contains(k) by {
        if k != longer.last() {
            assert(before.dom().contains(k));
        }
    }
    assert forall|k: Seq<char>| #[trigger] first.dom().contains(k) implies after.dom().contains(k)
        && (longer.contains(k) || after[k] == first[k]) by {
        assert(before.dom().contains(k));
    }
}

/// Whether an answer is an error with the given text.
pub open spec fn is_error(r: ControlResponse, text: Seq<char>) -> bool {
    r matches ControlResponse::Error(m) && m@ == text
}

/// Whether `after` is a kill switch that was thrown.
pub open spec fn thrown<C: Clock>(before: KillSwitch<C>, after: KillSwitch<C>) -> bool {
    &&& after.on()
    &&& after.orders() == before.orders()
    &&& after.clock_of() == before.clock_of()
    &&& before.on() ==> after.at_ns() == before.at_ns() && after.count() == before.count()
    &&& !before.on() ==> after.count() == crate::metrics::wrap_u64(before.count(), 1)
        && call_ensures(C::now_ns, (&before.clock_of(),), after.at_ns())
    &&& crate::clock::measured(after.latency())
}

/// Whether `after` is a kill switch that was cleared.
pub open spec fn cleared<C: Clock>(before: KillSwitch<C>, after: KillSwitch<C>) -> bool {
    &&& !after.on()
    &&& after.orders() == before.orders()
    &&& after.clock_of() == before.clock_of()
    &&& after.at_ns() == before.at_ns()
    &&& after.count() == before.count()
    &&& after.latency() == before.latency()
}

fn error_with(head: &str, name: &str, tail: &str) -> (r: ControlResponse)
    ensures
        is_error(r, head@ + name@ + tail@),
{
    let mut s = head.to_owned();
    s.append(name);
    s.append(tail);
    ControlResponse::Error(s)
}

fn symbol_not_found(symbol: &str) -> (r: ControlResponse)
    ensures
        is_error(r, "Symbol not found: "@ + symbol@),
{
    let mut s = "Symbol not found: ".to_owned();
    s.append(symbol);
    ControlResponse::Error(s)
}

impl<C: Clock> UnifiedEngine<C> {
    pub open spec fn wf(&self) -> bool {
        &&& self.kill_switch.wf()
        &&& self.metrics.wf()
        &&& self.symbol_registry.wf()
        &&& self.strategy_registry.wf()
        &&& self.asset_pipelines.wf()
        &&& self.execution_states.wf()
        &&& 1 <= self.next_asset_core <= 3
    }

    /// An engine that has not started.
    pub fn new(config: EngineConfig, clock: C) -> (e: Self)
        ensures
            e.wf(),
            e.config == config,
            !e.kill_switch.on(),
            e.kill_switch.count() == 0,
            e.kill_switch.at_ns() == 0,
            e.kill_switch.latency() == 0,
            e.kill_switch.orders().len() == 0,
            e.kill_switch.clock_of() == clock,
            e.metrics.is_zero(),
            e.symbol_registry@ == Seq::<Seq<char>>::empty(),
            e.strategy_registry@ == Map::<Seq<char>, ()>::empty(),
            e.asset_pipelines@ == Map::<Seq<char>, SymbolId>::empty(),
            e.execution_states@ == Map::<Seq<char>, ()>::empty(),
            !e.reactor_running,
            !e.lifecycle_running,
            !e.port_ready,
            !e.journal_running,
            e.next_asset_core == 1,
            e.staged_rollout is None,
            e.last_config is None,
    {
        UnifiedEngine {
            config,
            kill_switch: KillSwitch::with_clock(clock),
            metrics: GlobalMetrics::new(),
            symbol_registry: SymbolRegistry::new(),
            strategy_registry: StrMap::new(),
            asset_pipelines: StrMap::new(),
            execution_states: StrMap::new(),
            reactor_running: false,
            lifecycle_running: false,
            port_ready: false,
            journal_running: false,
            next_asset_core: 1,
            staged_rollout: None,
            last_config: None,
        }
    }

    // -----------------------------------------------------------------------
    // Staged rollout
    // -----------------------------------------------------------------------

    /// Whether `after` is the engine after a rollout was begun, with the result `r`.
    pub open spec fn rollout_begun(
        &self,
        pending: EngineConfig,
        duration_secs: u64,
        exposure: ExposureCheck,
        after: &Self,
        r: Result<(), RolloutError>,
    ) -> bool {
        let violations = crate::config::config_violations(&pending, &exposure);
        let enabled = EngineConfig::enabled_symbols(self.config.asset_configs@);
        if violations.len() > 0 {
            &&& *after == *self
            &&& r matches Err(RolloutError::ValidationFailed(m)) && m@
                == "staged rollout rejected — "@ + crate::config::violation_report(violations)
        } else if enabled.len() == 0 {
            &&& *after == *self
            &&& r == Err::<(), RolloutError>(RolloutError::NoCanaryAsset)
        } else {
            let symbol = enabled[0];
            &&& r == Ok::<(), RolloutError>(())
            &&& canary_set(
                self.config,
                symbol,
                canary_values(pending, symbol),
                after.config,
            )
            &&& after.staged_rollout matches Some(s) && s.pending_config == pending
                && s.canary_symbol@ == symbol && s.phase == RolloutPhase::Monitoring
                && s.monitoring_duration_secs == duration_secs && s.previous == canary_values(
                self.config,
                symbol,
            ) && crate::clock::begun_at(s.started)
            &&& *after == (UnifiedEngine {
                config: after.config,
                staged_rollout: after.staged_rollout,
                ..*self
            })
        }
    }

    /// Begins a rollout: a valid configuration is tried out on the first asset that is traded,
    /// for thirty seconds unless another time is given.
    pub fn begin_staged_rollout(
        &mut self,
        pending: EngineConfig,
        monitoring_duration_secs: Option<u64>,
        exposure: &ExposureCheck,
    ) -> (r: Result<(), RolloutError>)
        requires
            old(self).wf(),
        ensures
            final(self).wf(),
            old(self).rollout_begun(
                pending,
                match monitoring_duration_secs {
                    Some(s) => s,
                    None => 30,
                },
                *exposure,
                final(self),
                r,
            ),
    {
        match pending.validate(exposure) {
            Ok(()) => {},
            Err(e) => {
                let mut m = "staged rollout rejected — ".to_owned();
                m.append(e.to_text().as_str());
                return Err(RolloutError::ValidationFailed(m));
            },
        }
        let enabled = self.config.enabled_assets();
        if enabled.len() == 0 {
            return Err(RolloutError::NoCanaryAsset);
        }
        let canary_symbol = enabled[0].clone();
        let duration: u64 = match monitoring_duration_secs {
            Some(s) => s,
            None => 30,
        };
        let previous = read_canary(&self.config, canary_symbol.as_str());
        let wanted = read_canary(&pending, canary_symbol.as_str());
        set_canary(&mut self.config, canary_symbol.as_str(), &wanted);
        let started = instant_now();
        proof {
            crate::clock::lemma_begun_at(started);
        }
        self.staged_rollout = Some(
            StagedRolloutState {
                pending_config: pending,
                canary_symbol,
                phase: RolloutPhase::Monitoring,
                started,
                monitoring_duration_secs: duration,
                previous,
            },
        );
        Ok(())
    }

    /// Whether `after` is the engine after a rollout was completed, with the result `r`.
    pub open spec fn rollout_completed(&self, after: &Self, r: Result<bool, RolloutError>) -> bool {
        match self.staged_rollout {
            None => *after == *self && r == Err::<bool, RolloutError>(RolloutError::NotInProgress),
            Some(s) => r == Ok::<bool, RolloutError>(true) && *after == (UnifiedEngine {
                config: s.pending_config,
                staged_rollout: None,
                ..*self
            }),
        }
    }

    /// Puts the pending configuration in force for all assets.
    pub fn complete_staged_rollout(&mut self) -> (r: Result<bool, RolloutError>)
        requires
            old(self).wf(),
        ensures
            final(self).wf(),
            old(self).rollout_completed(final(self), r),
    {
        match self.staged_rollout.take() {
            None => Err(RolloutError::NotInProgress),
            Some(state) => {
                self.config = state.pending_config;
                Ok(true)
            },
        }
    }

    /// Whether `after` is the engine after a look at its rollout, with the result `r`, where
    /// `elapsed` has passed since the rollout was begun: it is completed where the canary was
    /// watched long enough.
    pub open spec fn rollout_polled(
        &self,
        elapsed: Span,
        after: &Self,
        r: Result<bool, RolloutError>,
    ) -> bool {
        if self.staged_rollout matches Some(s) && elapsed.ns() < s.monitoring_duration_secs
            * 1_000_000_000 && s.phase == RolloutPhase::Monitoring {
            r == Ok::<bool, RolloutError>(false) && *after == *self
        } else {
            self.rollout_completed(after, r)
        }
    }

    /// Completes the rollout where `elapsed` shows that the canary was watched long enough.
    pub fn poll_after(&mut self, elapsed: &Span) -> (r: Result<bool, RolloutError>)
        requires
            old(self).wf(),
        ensures
            final(self).wf(),
            old(self).rollout_polled(*elapsed, final(self), r),
    {
        let watching = match &self.staged_rollout {
            None => false,
            Some(state) => !elapsed.at_least(&Span::from_secs(state.monitoring_duration_secs))
                && state.phase == RolloutPhase::Monitoring,
        };
        if watching {
            return Ok(false);
        }
        self.complete_staged_rollout()
    }

    /// Completes the rollout where its time is up: `Ok(false)` while the canary is watched.
    pub fn poll_staged_rollout(&mut self) -> (r: Result<bool, RolloutError>)
        requires
            old(self).wf(),
        ensures
            final(self).wf(),
            match old(self).staged_rollout {
                None => *final(self) == *old(self) && r == Err::<bool, RolloutError>(
                    RolloutError::NotInProgress,
                ),
                Some(s) => exists|elapsed: Span| #[trigger]
                    crate::clock::passed_since(s.started, elapsed) && old(self).rollout_polled(
                        elapsed,
                        final(self),
                        r,
                    ),
            },
    {
        let elapsed = match &self.staged_rollout {
            None => return Err(RolloutError::NotInProgress),
            Some(state) => {
                let elapsed = instant_elapsed(&state.started);
                proof {
                    crate::clock::lemma_passed_since(state.started, elapsed);
                }
                elapsed
            },
        };
        self.poll_after(&elapsed)
    }

    /// Whether `after` is `self` after its rollout was cancelled, with the result `r`.
    pub open spec fn rollout_cancelled(&self, after: &Self, r: Result<(), RolloutError>) -> bool {
        match self.staged_rollout {
            None => *after == *self && r == Err::<(), RolloutError>(RolloutError::NotInProgress),
            Some(s) => {
                &&& r == Ok::<(), RolloutError>(())
                &&& canary_set(self.config, s.canary_symbol@, s.previous, after.config)
                &&& *after == (UnifiedEngine {
                    config: after.config,
                    staged_rollout: None,
                    ..*self
                })
            },
        }
    }

    /// Gives a rollout up: the canary gets its former settings back.
    pub fn cancel_staged_rollout(&mut self, reason: &str) -> (r: Result<(), RolloutError>)
        requires
            old(self).wf(),
        ensures
            final(self).wf(),
            old(self).rollout_cancelled(final(self), r),
    {
        match self.staged_rollout.take() {
            None => Err(RolloutError::NotInProgress),
            Some(state) => {
                set_canary(&mut self.config, state.canary_symbol.as_str(), &state.previous);
                Ok(())
            },
        }
    }

    // -----------------------------------------------------------------------
    // Assets
    // -----------------------------------------------------------------------

    /// Whether `after` is the engine after the threads of an asset were planned.
    pub open spec fn planned(
        &self,
        symbol: Seq<char>,
        idx: usize,
        after: &Self,
        plan: PipelinePlan,
    ) -> bool {
        &&& plan.is_for(symbol, self.next_asset_core, idx, self.config.threading_config)
        &&& after.symbol_registry@ == registry_with(self.symbol_registry@, symbol)
        &&& numbered(after.symbol_registry@, symbol, plan.symbol_id)
        &&& after.strategy_registry@ == self.strategy_registry@.insert(symbol, ())
        &&& after.execution_states@ == self.execution_states@.insert(symbol, ())
        &&& after.next_asset_core == next_core(self.next_asset_core)
        &&& *after == (UnifiedEngine {
            symbol_registry: after.symbol_registry,
            strategy_registry: after.strategy_registry,
            execution_states: after.execution_states,
            next_asset_core: after.next_asset_core,
            ..*self
        })
    }

    /// Plans the threads of asset number `asset_idx`: they get a core in turn and cores shifted
    /// by the number, and the symbol gets a number, a strategy and an execution state.
    pub fn plan_asset_pipeline(&mut self, symbol: &str, asset_idx: usize) -> (plan: PipelinePlan)
        requires
            old(self).wf(),
        ensures
            final(self).wf(),
            old(self).planned(symbol@, asset_idx, final(self), plan),
    {
        let core_id: usize = self.next_asset_core;
        self.next_asset_core = if core_id >= 3 {
            1
        } else {
            core_id + 1
        };
        let t = self.config.threading_config;
        let symbol_id = match self.symbol_registry.register(symbol) {
            Some(id) => {
                assert(self.symbol_registry@.contains(symbol@));
                id
            },
            None => SymbolId::from_raw(0),
        };
        self.strategy_registry.insert(symbol.to_owned(), ());
        self.execution_states.insert(symbol.to_owned(), ());
        let mut thread_name = "asset-".to_owned();
        thread_name.append(symbol);
        let mut idempotency_file = "idempotency_".to_owned();
        idempotency_file.append(symbol);
        idempotency_file.append(".log");
        PipelinePlan {
            symbol: symbol.to_owned(),
            symbol_id,
            core_id,
            prediction_core_id: shift_core(t.prediction_core_id, asset_idx),
            risk_core_id: shift_core(t.risk_core_id, asset_idx),
            execution_core_id: shift_core(t.execution_core_id, asset_idx),
            thread_name,
            idempotency_file,
        }
    }

    /// Whether `after` is `self` with the assets `names` planned, in their order.
    pub open spec fn assets_started(
        &self,
        names: Seq<Seq<char>>,
        after: &Self,
        plans: Seq<PipelinePlan>,
    ) -> bool {
        &&& plans.len() == names.len()
        &&& forall|i: int|
            0 <= i < names.len() ==> (#[trigger] plans[i]).is_for(
                names[i],
                core_after(self.next_asset_core, i as nat),
                i as usize,
                self.config.threading_config,
            ) && numbered(after.symbol_registry@, names[i], plans[i].symbol_id)
                && after.asset_pipelines@.dom().contains(names[i])
                && after.asset_pipelines@[names[i]] == plans[i].symbol_id
        &&& after.symbol_registry@ == registry_after(self.symbol_registry@, names)
        &&& same_but_for(self.asset_pipelines@, after.asset_pipelines@, names)
        &&& same_but_for(self.strategy_registry@, after.strategy_registry@, names)
        &&& same_but_for(self.execution_states@, after.execution_states@, names)
        &&& after.next_asset_core == core_after(self.next_asset_core, names.len())
        &&& *after == (UnifiedEngine {
            symbol_registry: after.symbol_registry,
            asset_pipelines: after.asset_pipelines,
            strategy_registry: after.strategy_registry,
            execution_states: after.execution_states,
            next_asset_core: after.next_asset_core,
            lifecycle_running: true,
            port_ready: true,
            ..*self
        })
    }

    /// Plans the threads of all assets that are traded, in their order. In safe mode there are
    /// none. No asset may be listed twice.
    pub fn start_assets(&mut self) -> (plans: Vec<PipelinePlan>)
        requires
            old(self).wf(),
            !old(self).config.safe_mode ==> EngineConfig::enabled_symbols(
                old(self).config.asset_configs@,
            ).no_duplicates(),
        ensures
            final(self).wf(),
            old(self).config.safe_mode ==> plans@.len() == 0 && *final(self) == *old(self),
            !old(self).config.safe_mode ==> old(self).assets_started(
                EngineConfig::enabled_symbols(old(self).config.asset_configs@),
                final(self),
                plans@,
            ),
    {
        let mut plans: Vec<PipelinePlan> = Vec::new();
        if self.config.safe_mode {
            return plans;
        }
        self.lifecycle_running = true;
        self.port_ready = true;
        let enabled = self.config.enabled_assets();
        let ghost names = EngineConfig::enabled_symbols(old(self).config.asset_configs@);
        let mut i: usize = 0;
        while i < enabled.len()
            invariant
                self.wf(),
                i <= enabled@.len(),
                crate::text::views(enabled@) == names,
                enabled@.len() == names.len(),
                names.no_duplicates(),
                old(self).assets_started(names.take(i as int), self, plans@),
                forall|j: int|
                    0 <= j < i ==> self.symbol_registry@.contains(#[trigger] names[j])
                        || self.symbol_registry@.len() >= crate::symbol_registry::MAX_SYMBOLS,
            decreases enabled@.len() - i,
        {
            assert(names[i as int] == enabled@[i as int]@);
            let ghost before = *self;
            let ghost planned = plans@;
            let plan = self.plan_asset_pipeline(enabled[i].as_str(), i);
            let ghost registry = self.symbol_registry@;
            self.asset_pipelines.insert(enabled[i].clone(), plan.symbol_id);
            plans.push(plan);
            proof {
                let shorter = names.take(i as int);
                let longer = names.take(i + 1);
                assert(longer.drop_last() =~= shorter);
                assert(longer.last() == names[i as int]);
                assert forall|j: int| 0 <= j < i + 1 implies self.symbol_registry@.contains(
                    #[trigger] names[j],
                ) || self.symbol_registry@.len() >= crate::symbol_registry::MAX_SYMBOLS by {
                    if j < i && before.symbol_registry@.contains(names[j]) {
                        let k = choose|k: int|
                            0 <= k < before.symbol_registry@.len() && before.symbol_registry@[k]
                                == names[j];
                        assert(registry[k] == names[j]);
                    }
                    if j == i && registry.len() > before.symbol_registry@.len() {
                        assert(registry[registry.len() - 1] == names[j]);
                    }
                }
                assert forall|j: int| 0 <= j < i + 1 implies (#[trigger] plans@[j]).is_for(
                    longer[j],
                    core_after(old(self).next_asset_core, j as nat),
                    j as usize,
                    old(self).config.threading_config,
                ) && numbered(registry, longer[j], plans@[j].symbol_id)
                    && self.asset_pipelines@.dom().contains(longer[j])
                    && self.asset_pipelines@[longer[j]] == plans@[j].symbol_id by {
                    if j < i {
                        assert(plans@[j] == planned[j]);
                        assert(longer[j] == shorter[j]);
                        assert(names[j] != names[i as int]);
                        if before.symbol_registry@.contains(names[j]) {
                            let k = planned[j].symbol_id.raw() as int;
                            assert(registry[k] == names[j]);
                        }
                    }
                }
                lemma_one_more(
                    old(self).asset_pipelines@,
                    before.asset_pipelines@,
                    self.asset_pipelines@,
                    shorter,
                    longer,
                );
                lemma_one_more(
                    old(self).strategy_registry@,
                    before.strategy_registry@,
                    self.strategy_registry@,
                    shorter,
                    longer,
                );
                lemma_one_more(
                    old(self).execution_states@,
                    before.execution_states@,
                    self.execution_states@,
                    shorter,
                    longer,
                );
            }
            i += 1;
        }
        assert(names.take(names.len() as int) =~= names);
        plans
    }

    /// Starts the engine: the journal always, and outside safe mode the feed where there are
    /// credentials and symbols for it, and the assets.
    pub fn start(&mut self) -> (plan: StartPlan)
        requires
            old(self).wf(),
            !old(self).config.safe_mode ==> EngineConfig::enabled_symbols(
                old(self).config.asset_configs@,
            ).no_duplicates(),
        ensures
            final(self).wf(),
            plan.safe_mode == old(self).config.safe_mode,
            plan.live_port == (!plan.safe_mode
                && old(self).config.broker_config.credentials_given()),
            plan.feed == (plan.live_port && EngineConfig::enabled_symbols(
                old(self).config.asset_configs@,
            ).len() > 0),
            plan.safe_mode ==> plan.pipelines@.len() == 0 && *final(self) == (UnifiedEngine {
                journal_running: true,
                ..*old(self)
            }),
            !plan.safe_mode ==> (UnifiedEngine {
                journal_running: true,
                reactor_running: old(self).reactor_running || plan.feed,
                ..*old(self)
            }).assets_started(
                EngineConfig::enabled_symbols(old(self).config.asset_configs@),
                final(self),
                plan.pipelines@,
            ),
    {
        self.journal_running = true;
        let safe_mode = self.config.safe_mode;
        let credentials = self.config.broker_config.has_credentials();
        let symbols = self.config.enabled_assets();
        let feed = !safe_mode && credentials && symbols.len() > 0;
        if feed {
            self.reactor_running = true;
        }
        let pipelines = self.start_assets();
        StartPlan { safe_mode, feed, live_port: !safe_mode && credentials, pipelines }
    }

    /// Stops trading and all that runs.
    pub fn shutdown(&mut self)
        requires
            old(self).wf(),
        ensures
            final(self).wf(),
            thrown(old(self).kill_switch, final(self).kill_switch),
            *final(self) == (UnifiedEngine {
                kill_switch: final(self).kill_switch,
                reactor_running: false,
                journal_running: false,
                ..*old(self)
            }),
    {
        let _ = self.kill_switch.activate();
        self.reactor_running = false;
        self.journal_running = false;
    }

    // -----------------------------------------------------------------------
    // Commands
    // -----------------------------------------------------------------------

    /// Whether `r` and `effect` answer the request for another strategy.
    pub open spec fn strategy_swapped(
        &self,
        symbol: Seq<char>,
        kind: Seq<char>,
        params: Option<StrategyParams>,
        r: ControlResponse,
        effect: EngineEffect,
    ) -> bool {
        let t = match params {
            Some(p) => Some(thresholds_of(p)),
            None => preset(kind),
        };
        if !self.strategy_registry@.dom().contains(symbol) {
            effect is Nothing && is_error(r, "Symbol not found: "@ + symbol)
        } else {
            match t {
                None => effect is Nothing && is_error(r, "Unknown strategy type: "@ + kind),
                Some(t) => {
                    &&& r is Done
                    &&& effect matches EngineEffect::SwapStrategy { symbol: s, symbol_id, settings }
                        && s@ == symbol && numbered(self.symbol_registry@, symbol, symbol_id)
                        && settings == strategy_settings(
                        t,
                        self.config.model_config,
                        self.config.feature_config,
                    )
                },
            }
        }
    }

    fn swap_strategy(
        &self,
        symbol: String,
        strategy_type: String,
        params: Option<StrategyParams>,
    ) -> (r: (ControlResponse, EngineEffect))
        requires
            self.wf(),
        ensures
            self.strategy_swapped(symbol@, strategy_type@, params, r.0, r.1),
    {
        if !self.strategy_registry.contains_key(symbol.as_str()) {
            return (symbol_not_found(symbol.as_str()), EngineEffect::Nothing);
        }
        let thresholds = match params {
            Some(p) => Some(
                Thresholds {
                    long_entry: p.long_entry_threshold,
                    short_entry: p.short_entry_threshold,
                    confidence: p.confidence_minimum,
                    deadband: p.hysteresis_deadband,
                    entry_cooldown_ms: p.entry_cooldown_ms,
                    exit_cooldown_ms: p.exit_cooldown_ms,
                    staleness_ns: p.prediction_staleness_ns,
                    allow_short: p.allow_short,
                    intent_ttl_ns: p.trade_intent_ttl_ns,
                    max_long: p.max_long_units,
                    max_short: p.max_short_units,
                    urgency_aggressive: p.urgency_aggressive_threshold,
                    urgency_normal: p.urgency_normal_threshold,
                },
            ),
            None => preset_thresholds(strategy_type.as_str()),
        };
        match thresholds {
            None => {
                let mut s = "Unknown strategy type: ".to_owned();
                s.append(strategy_type.as_str());
                (ControlResponse::Error(s), EngineEffect::Nothing)
            },
            Some(t) => {
                let symbol_id = match self.symbol_registry.lookup(symbol.as_str()) {
                    Some(id) => {
                        assert(self.symbol_registry@.contains(symbol@));
                        id
                    },
                    None => SymbolId::from_raw(0),
                };
                let settings = build_strategy_settings(
                    t,
                    &self.config.model_config,
                    &self.config.feature_config,
                );
                (ControlResponse::Done, EngineEffect::SwapStrategy { symbol, symbol_id, settings })
            },
        }
    }

    /// Whether `after`, `r` and `effect` follow from the request to trade a symbol.
    pub open spec fn subscribed(
        &self,
        symbol: Seq<char>,
        after: &Self,
        r: ControlResponse,
        effect: EngineEffect,
    ) -> bool {
        if self.asset_pipelines@.dom().contains(symbol) {
            &&& *after == *self
            &&& effect is Nothing
            &&& is_error(r, "Symbol "@ + symbol + " already subscribed"@)
        } else if !self.reactor_running {
            *after == *self && effect is Nothing && is_error(r, "Tick reactor not running"@)
        } else if !self.lifecycle_running {
            *after == *self && effect is Nothing && is_error(r, "Lifecycle handler not running"@)
        } else if !self.port_ready {
            *after == *self && effect is Nothing && is_error(r, "Execution port not initialized"@)
        } else {
            &&& r is Done
            &&& effect matches EngineEffect::StartPipeline(plan)
            &&& after.asset_pipelines@ == self.asset_pipelines@.insert(symbol, plan.symbol_id)
            &&& self.planned(
                symbol,
                self.asset_pipelines@.dom().len() as usize,
                &(UnifiedEngine { asset_pipelines: self.asset_pipelines, ..*after }),
                plan,
            )
        }
    }

    fn subscribe(&mut self, symbol: String) -> (r: (ControlResponse, EngineEffect))
        requires
            old(self).wf(),
        ensures
            final(self).wf(),
            old(self).subscribed(symbol@, final(self), r.0, r.1),
    {
        if self.asset_pipelines.contains_key(symbol.as_str()) {
            return (
                error_with("Symbol ", symbol.as_str(), " already subscribed"),
                EngineEffect::Nothing,
            );
        }
        if !self.reactor_running {
            return (
                ControlResponse::Error("Tick reactor not running".to_owned()),
                EngineEffect::Nothing,
            );
        }
        if !self.lifecycle_running {
            return (
                ControlResponse::Error("Lifecycle handler not running".to_owned()),
                EngineEffect::Nothing,
            );
        }
        if !self.port_ready {
            return (
                ControlResponse::Error("Execution port not initialized".to_owned()),
                EngineEffect::Nothing,
            );
        }
        proof {
            self.asset_pipelines.lemma_len();
        }
        let asset_idx: usize = self.asset_pipelines.len();
        let plan = self.plan_asset_pipeline(symbol.as_str(), asset_idx);
        let ghost mid = *self;
        self.asset_pipelines.insert(symbol, plan.symbol_id);
        assert(mid == (UnifiedEngine { asset_pipelines: old(self).asset_pipelines, ..*self }));
        (ControlResponse::Done, EngineEffect::StartPipeline(plan))
    }

    /// Whether `after`, `r` and `effect` follow from the request to trade a symbol no longer.
    pub open spec fn unsubscribed(
        &self,
        symbol: Seq<char>,
        after: &Self,
        r: ControlResponse,
        effect: EngineEffect,
    ) -> bool {
        if self.asset_pipelines@.dom().contains(symbol) {
            &&& r is Done
            &&& effect matches EngineEffect::StopPipeline(s) && s@ == symbol
            &&& after.asset_pipelines@ == self.asset_pipelines@.remove(symbol)
            &&& after.execution_states@ == self.execution_states@.remove(symbol)
            &&& after.strategy_registry@ == self.strategy_registry@.remove(symbol)
            &&& *after == (UnifiedEngine {
                asset_pipelines: after.asset_pipelines,
                execution_states: after.execution_states,
                strategy_registry: after.strategy_registry,
                ..*self
            })
        } else {
            *after == *self && effect is Nothing && is_error(r, "Symbol not found: "@ + symbol)
        }
    }

    fn unsubscribe(&mut self, symbol: String) -> (r: (ControlResponse, EngineEffect))
        requires
            old(self).wf(),
        ensures
            final(self).wf(),
            old(self).unsubscribed(symbol@, final(self), r.0, r.1),
    {
        if !self.asset_pipelines.contains_key(symbol.as_str()) {
            return (symbol_not_found(symbol.as_str()), EngineEffect::Nothing);
        }
        let _ = self.asset_pipelines.remove(symbol.as_str());
        let _ = self.execution_states.remove(symbol.as_str());
        let _ = self.strategy_registry.remove(symbol.as_str());
        (ControlResponse::Done, EngineEffect::StopPipeline(symbol))
    }

    /// Whether `after` and `effect` follow from the request to take over the configuration.
    pub open spec fn reloaded(
        &self,
        exposure: ExposureCheck,
        after: &Self,
        effect: ReloadEffect,
    ) -> bool {
        &&& after.last_config matches Some(kept) && self.config.same(&kept)
        &&& match self.last_config {
            None => effect.changes is None,
            Some(old_cfg) => effect.changes matches Some(c) && c.feature
                == !crate::config::feature_alike(
                &old_cfg.feature_config,
                &self.config.feature_config,
            ) && c.model == !crate::config::model_alike(
                &old_cfg.model_config,
                &self.config.model_config,
            ) && c.assets == !crate::config::assets_alike(
                old_cfg.asset_configs@,
                self.config.asset_configs@,
            ) && c.threading == (old_cfg.threading_config != self.config.threading_config)
                && c.channel == (old_cfg.channel_config != self.config.channel_config) && c.broker
                == !old_cfg.broker_config.same_visible(&self.config.broker_config),
        }
        &&& if self.execution_states@.dom().len() == 0 {
            effect.live is None
        } else {
            effect.live matches Some(l) && l.0.failure_threshold
                == self.config.circuit_breaker_config.failure_threshold && l.0.cooldown_ms
                == self.config.circuit_breaker_config.cooldown_ms && l.1.global_rate
                == self.config.execution_defaults.default_order_quantity && l.1.per_symbol_rate
                == self.config.execution_defaults.execution_per_symbol_rate_divisor
        }
        &&& if self.asset_pipelines@.dom().len() == 0 {
            effect.rollout is None && *after == (UnifiedEngine {
                last_config: after.last_config,
                ..*self
            })
        } else {
            exists|pending: EngineConfig|
                #![trigger self.config.same(&pending)]
                self.config.same(&pending) && effect.rollout is Some && self.rollout_begun(
                    pending,
                    30,
                    exposure,
                    &(UnifiedEngine { last_config: self.last_config, ..*after }),
                    effect.rollout->Some_0,
                )
        }
    }

    fn reload(&mut self, exposure: &ExposureCheck) -> (effect: ReloadEffect)
        requires
            old(self).wf(),
        ensures
            final(self).wf(),
            old(self).reloaded(*exposure, final(self), effect),
    {
        proof {
            self.execution_states.lemma_len();
            self.asset_pipelines.lemma_len();
        }
        let cfg = self.config.clone();
        let changes = match &self.last_config {
            Some(old_cfg) => Some(check_non_hot_swappable_config_changes(old_cfg, &self.config)),
            None => None,
        };
        let live = if self.execution_states.is_empty() {
            None
        } else {
            Some(
                (
                    CircuitBreakerConfigUpdate {
                        failure_threshold: self.config.circuit_breaker_config.failure_threshold,
                        cooldown_ms: self.config.circuit_breaker_config.cooldown_ms,
                    },
                    RateLimitConfigUpdate {
                        global_rate: self.config.execution_defaults.default_order_quantity,
                        per_symbol_rate: self.config.execution_defaults.execution_per_symbol_rate_divisor,
                    },
                ),
            )
        };
        let rollout = if self.asset_pipelines.is_empty() {
            None
        } else {
            let pending = self.config.clone();
            Some(self.begin_staged_rollout(pending, Some(30), exposure))
        };
        let ghost mid = *self;
        self.last_config = Some(cfg);
        assert(mid == (UnifiedEngine { last_config: old(self).last_config, ..*self }));
        ReloadEffect { changes, live, rollout }
    }

    /// Whether a command that only sets a part of the configuration sets it so.
    pub open spec fn config_set(c: EngineConfig, cmd: ControlCommand, after: EngineConfig) -> bool {
        match cmd {
            ControlCommand::SetMode(mode) => after == (EngineConfig {
                broker_config: crate::config::BrokerConfig {
                    paper_trading: mode@ == "paper"@,
                    ..c.broker_config
                },
                ..c
            }),
            ControlCommand::SetRiskParams(u) => after == (EngineConfig {
                risk_config: RiskConfig {
                    max_portfolio_exposure: u.max_portfolio_exposure,
                    max_leverage: u.max_leverage,
                    max_drawdown_pct: u.max_drawdown_pct,
                    max_order_rate_per_sec: u.max_order_rate_per_sec,
                    max_position_per_symbol: u.max_position_per_symbol,
                    max_volatility: u.max_volatility,
                    max_spread_bps: u.max_spread_bps,
                    max_slippage_bps: u.max_slippage_bps,
                    allow_short: u.allow_short,
                    kill_switch_on_drawdown: u.kill_switch_on_drawdown,
                    ..c.risk_config
                },
                ..c
            }),
            ControlCommand::SetBrokerParams(u) => after == (EngineConfig {
                broker_config: crate::config::BrokerConfig {
                    broker_type: u.broker_type,
                    paper_trading: u.paper_trading,
                    ws_url: u.ws_url,
                    rest_url: u.rest_url,
                    max_retries: u.max_retries,
                    retry_backoff_ms: u.retry_backoff_ms,
                    ..c.broker_config
                },
                ..c
            }),
            ControlCommand::SetFeatureParams(u) => after == (EngineConfig {
                feature_config: FeatureConfig {
                    rsi_period: u.rsi_period,
                    macd_fast: u.macd_fast,
                    macd_slow: u.macd_slow,
                    macd_signal: u.macd_signal,
                    atr_period: u.atr_period,
                    ema_periods: u.ema_periods,
                    rolling_window_sizes: u.rolling_window_sizes,
                    ..c.feature_config
                },
                ..c
            }),
            ControlCommand::SetModelParams(u) => after == (EngineConfig {
                model_config: ModelConfig {
                    model_dir: u.model_dir,
                    inference_threads: u.inference_threads,
                    max_inference_latency_ms: u.max_inference_latency_ms,
                    feature_vector_size: u.feature_vector_size,
                    rsi_overbought: u.inference_rsi_bearish_threshold,
                    rsi_oversold: u.inference_rsi_bullish_threshold,
                    rsi_neutral: u.inference_rsi_center,
                    atr_penalty_threshold: u.inference_atr_penalty_threshold,
                    volume_confirmation_threshold: u.inference_volume_confirmation_threshold,
                    action_score_rsi_weight: u.action_score_rsi_weight,
                    action_score_macd_weight: u.action_score_macd_weight,
                    action_score_volatility_weight: u.action_score_volatility_weight,
                    confidence_rsi_weight: u.confidence_rsi_weight,
                    confidence_macd_weight: u.confidence_macd_weight,
                    confidence_regime_weight: u.confidence_regime_weight,
                    ..c.model_config
                },
                ..c
            }),
            ControlCommand::SetJournalParams(u) => after == (EngineConfig {
                journal_config: crate::config::JournalConfig {
                    journal_dir: u.journal_dir,
                    flush_interval_ms: u.flush_interval_ms,
                    snapshot_interval_sec: u.snapshot_interval_sec,
                    max_file_size_mb: u.max_file_size_mb,
                    ..c.journal_config
                },
                ..c
            }),
            ControlCommand::SetExecutionDefaults(u) => after == (EngineConfig {
                execution_defaults: crate::config::ExecutionDefaults {
                    default_order_quantity: u.default_order_quantity,
                    execution_per_symbol_rate_divisor: u.execution_per_symbol_rate_divisor,
                    ..c.execution_defaults
                },
                ..c
            }),
            ControlCommand::SetCircuitBreakerParams(u) => after == (EngineConfig {
                circuit_breaker_config: crate::config::CircuitBreakerConfig {
                    failure_threshold: u.failure_threshold,
                    cooldown_ms: u.cooldown_ms,
                    ..c.circuit_breaker_config
                },
                ..c
            }),
            ControlCommand::SetChannelParams(u) => after == (EngineConfig {
                channel_config: crate::config::ChannelConfig {
                    per_asset_tick_channel_capacity: u.per_asset_tick_channel_capacity,
                    feature_channel_capacity: u.feature_channel_capacity,
                    risk_channel_capacity: u.risk_channel_capacity,
                    decision_channel_capacity: u.decision_channel_capacity,
                    lifecycle_channel_capacity: u.lifecycle_channel_capacity,
                    command_channel_capacity: u.command_channel_capacity,
                    journal_channel_capacity: u.journal_channel_capacity,
                    ..c.channel_config
                },
                ..c
            }),
            ControlCommand::SetReactorParams(u) => after == (EngineConfig {
                reactor_config: crate::config::ReactorConfig {
                    max_batch_size: u.max_batch_size,
                    control_batch_size: u.control_batch_size,
                    sleep_on_empty_us: u.sleep_on_empty_us,
                    backpressure_log_interval: u.backpressure_log_interval,
                    ..c.reactor_config
                },
                ..c
            }),
            ControlCommand::SetValidatorParams(u) => after == (EngineConfig {
                validator_config: crate::config::ValidatorConfig {
                    max_symbol_length: u.max_symbol_length,
                    max_quantity: u.max_quantity,
                    max_order_id_length: u.max_order_id_length,
                    ..c.validator_config
                },
                ..c
            }),
            _ => after == c,
        }
    }

    /// Whether `after`, `r` and `effect` follow from a command.
    pub open spec fn commanded(
        &self,
        cmd: ControlCommand,
        exposure: ExposureCheck,
        after: &Self,
        r: ControlResponse,
        effect: EngineEffect,
    ) -> bool {
        let config_only = *after == (UnifiedEngine { config: after.config, ..*self });
        let switch_only = *after == (UnifiedEngine { kill_switch: after.kill_switch, ..*self });
        match cmd {
            ControlCommand::SetKillSwitch(active) => {
                &&& r is Done
                &&& effect is Nothing
                &&& switch_only
                &&& if active {
                    thrown(self.kill_switch, after.kill_switch)
                } else {
                    cleared(self.kill_switch, after.kill_switch)
                }
            },
            ControlCommand::Shutdown => {
                &&& r is Done
                &&& effect is Nothing
                &&& switch_only
                &&& thrown(self.kill_switch, after.kill_switch)
            },
            ControlCommand::GetStatus => {
                &&& *after == *self
                &&& effect is Nothing
                &&& r matches ControlResponse::Status(s) && exists|snap:
                    crate::metrics::MetricsSnapshot|
                    snap.values_of(&self.metrics) && s@ == #[trigger]
                    crate::status_text::snapshot_text(snap)
            },
            ControlCommand::SwapStrategy { symbol, strategy_type, params } => {
                &&& *after == *self
                &&& self.strategy_swapped(symbol@, strategy_type@, params, r, effect)
            },
            ControlCommand::PauseAsset(symbol) => {
                &&& effect is Nothing
                &&& config_only
                &&& self.asset_switched(symbol@, false, after, r)
            },
            ControlCommand::ResumeAsset(symbol) => {
                &&& effect is Nothing
                &&& config_only
                &&& self.asset_switched(symbol@, true, after, r)
            },
            ControlCommand::SetAssetConfig { symbol, config } => {
                &&& effect is Nothing
                &&& config_only
                &&& after.config.asset_configs@ == assets_with(
                    self.config.asset_configs@,
                    symbol@,
                    AssetValues {
                        max_position: config.max_position,
                        tick_size: config.tick_size,
                        enabled: config.enabled,
                    },
                )
                &&& after.config == (EngineConfig {
                    asset_configs: after.config.asset_configs,
                    ..self.config
                })
                &&& if has_asset(self.config.asset_configs@, symbol@) {
                    r is Done
                } else {
                    is_error(r, "Symbol not found: "@ + symbol@)
                }
            },
            ControlCommand::SetCircuitBreakerParams(u) => {
                &&& r is Done
                &&& effect == EngineEffect::SetBreakers(u)
                &&& config_only
                &&& Self::config_set(self.config, cmd, after.config)
            },
            ControlCommand::SetRateLimits(u) => {
                r is Done && effect == EngineEffect::SetRateLimits(u) && *after == *self
            },
            ControlCommand::CircuitBreakerTrip => r is Done && effect is TripBreakers && *after
                == *self,
            ControlCommand::CircuitBreakerReset => r is Done && effect is ResetBreakers && *after
                == *self,
            ControlCommand::ReloadConfig => {
                &&& r is Done
                &&& effect matches EngineEffect::Reload(e) && self.reloaded(exposure, after, e)
            },
            ControlCommand::FlushJournal => {
                &&& r is Done
                &&& *after == *self
                &&& if self.journal_running {
                    effect is FlushJournal
                } else {
                    effect is Nothing
                }
            },
            ControlCommand::SubscribeFeed { symbol } => self.subscribed(symbol@, after, r, effect),
            ControlCommand::UnsubscribeFeed { symbol } => self.unsubscribed(
                symbol@,
                after,
                r,
                effect,
            ),
            _ => {
                &&& r is Done
                &&& effect is Nothing
                &&& config_only
                &&& Self::config_set(self.config, cmd, after.config)
            },
        }
    }

    /// Whether `after` and `r` follow from the request to switch an asset on or off.
    pub open spec fn asset_switched(
        &self,
        symbol: Seq<char>,
        enabled: bool,
        after: &Self,
        r: ControlResponse,
    ) -> bool {
        &&& after.config.asset_configs@ == assets_switched(
            self.config.asset_configs@,
            symbol,
            enabled,
        )
        &&& after.config == (EngineConfig {
            asset_configs: after.config.asset_configs,
            ..self.config
        })
        &&& if has_asset(self.config.asset_configs@, symbol) {
            r is Done
        } else {
            is_error(r, "Symbol not found: "@ + symbol)
        }
    }

    fn switch(&mut self, symbol: &str, enabled: bool) -> (r: ControlResponse)
        ensures
            old(self).asset_switched(symbol@, enabled, final(self), r),
            *final(self) == (UnifiedEngine { config: final(self).config, ..*old(self) }),
    {
        if switch_asset(&mut self.config, symbol, enabled) {
            ControlResponse::Done
        } else {
            symbol_not_found(symbol)
        }
    }

    fn set_config(c: &mut EngineConfig, cmd: ControlCommand)
        ensures
            Self::config_set(*old(c), cmd, *final(c)),
    {
        match cmd {
            ControlCommand::SetMode(mode) => {
                c.broker_config.paper_trading = str_eq(mode.as_str(), "paper");
            },
            ControlCommand::SetRiskParams(u) => {
                c.risk_config.max_portfolio_exposure = u.max_portfolio_exposure;
                c.risk_config.max_leverage = u.max_leverage;
                c.risk_config.max_drawdown_pct = u.max_drawdown_pct;
                c.risk_config.max_order_rate_per_sec = u.max_order_rate_per_sec;
                c.risk_config.max_position_per_symbol = u.max_position_per_symbol;
                c.risk_config.max_volatility = u.max_volatility;
                c.risk_config.max_spread_bps = u.max_spread_bps;
                c.risk_config.max_slippage_bps = u.max_slippage_bps;
                c.risk_config.allow_short = u.allow_short;
                c.risk_config.kill_switch_on_drawdown = u.kill_switch_on_drawdown;
            },
            ControlCommand::SetBrokerParams(u) => {
                c.broker_config.broker_type = u.broker_type;
                c.broker_config.paper_trading = u.paper_trading;
                c.broker_config.ws_url = u.ws_url;
                c.broker_config.rest_url = u.rest_url;
                c.broker_config.max_retries = u.max_retries;
                c.broker_config.retry_backoff_ms = u.retry_backoff_ms;
            },
            ControlCommand::SetFeatureParams(u) => {
                c.feature_config.rsi_period = u.rsi_period;
                c.feature_config.macd_fast = u.macd_fast;
                c.feature_config.macd_slow = u.macd_slow;
                c.feature_config.macd_signal = u.macd_signal;
                c.feature_config.atr_period = u.atr_period;
                c.feature_config.ema_periods = u.ema_periods;
                c.feature_config.rolling_window_sizes = u.rolling_window_sizes;
            },
            ControlCommand::SetModelParams(u) => {
                c.model_config.model_dir = u.model_dir;
                c.model_config.inference_threads = u.inference_threads;
                c.model_config.max_inference_latency_ms = u.max_inference_latency_ms;
                c.model_config.feature_vector_size = u.feature_vector_size;
                c.model_config.rsi_overbought = u.inference_rsi_bearish_threshold;
                c.model_config.rsi_oversold = u.inference_rsi_bullish_threshold;
                c.model_config.rsi_neutral = u.inference_rsi_center;
                c.model_config.atr_penalty_threshold = u.inference_atr_penalty_threshold;
                c.model_config.volume_confirmation_threshold =
                u.inference_volume_confirmation_threshold;
                c.model_config.action_score_rsi_weight = u.action_score_rsi_weight;
                c.model_config.action_score_macd_weight = u.action_score_macd_weight;
                c.model_config.action_score_volatility_weight = u.action_score_volatility_weight;
                c.model_config.confidence_rsi_weight = u.confidence_rsi_weight;
                c.model_config.confidence_macd_weight = u.confidence_macd_weight;
                c.model_config.confidence_regime_weight = u.confidence_regime_weight;
            },
            ControlCommand::SetJournalParams(u) => {
                c.journal_config.journal_dir = u.journal_dir;
                c.journal_config.flush_interval_ms = u.flush_interval_ms;
                c.journal_config.snapshot_interval_sec = u.snapshot_interval_sec;
                c.journal_config.max_file_size_mb = u.max_file_size_mb;
            },
            ControlCommand::SetExecutionDefaults(u) => {
                c.execution_defaults.default_order_quantity = u.default_order_quantity;
                c.execution_defaults.execution_per_symbol_rate_divisor =
                u.execution_per_symbol_rate_divisor;
            },
            ControlCommand::SetCircuitBreakerParams(u) => {
                c.circuit_breaker_config.failure_threshold = u.failure_threshold;
                c.circuit_breaker_config.cooldown_ms = u.cooldown_ms;
            },
            ControlCommand::SetChannelParams(u) => {
                c.channel_config.per_asset_tick_channel_capacity =
                u.per_asset_tick_channel_capacity;
                c.channel_config.feature_channel_capacity = u.feature_channel_capacity;
                c.channel_config.risk_channel_capacity = u.risk_channel_capacity;
                c.channel_config.decision_channel_capacity = u.decision_channel_capacity;
                c.channel_config.lifecycle_channel_capacity = u.lifecycle_channel_capacity;
                c.channel_config.command_channel_capacity = u.command_channel_capacity;
                c.channel_config.journal_channel_capacity = u.journal_channel_capacity;
            },
            ControlCommand::SetReactorParams(u) => {
                c.reactor_config.max_batch_size = u.max_batch_size;
                c.reactor_config.control_batch_size = u.control_batch_size;
                c.reactor_config.sleep_on_empty_us = u.sleep_on_empty_us;
                c.reactor_config.backpressure_log_interval = u.backpressure_log_interval;
            },
            ControlCommand::SetValidatorParams(u) => {
                c.validator_config.max_symbol_length = u.max_symbol_length;
                c.validator_config.max_quantity = u.max_quantity;
                c.validator_config.max_order_id_length = u.max_order_id_length;
            },
            _ => {},
        }
    }

    /// Carries out a command: the answer, and what is to be done outside the engine's own state.
    /// `exposure` holds the figures of the configuration in force.
    pub fn handle_command(&mut self, cmd: ControlCommand, exposure: &ExposureCheck) -> (r: (
        ControlResponse,
        EngineEffect,
    ))
        requires
            old(self).wf(),
        ensures
            final(self).wf(),
            old(self).commanded(cmd, *exposure, final(self), r.0, r.1),
    {
        match cmd {
            ControlCommand::SetKillSwitch(active) => {
                if active {
                    let _ = self.kill_switch.activate();
                } else {
                    self.kill_switch.clear();
                }
                (ControlResponse::Done, EngineEffect::Nothing)
            },
            ControlCommand::Shutdown => {
                let _ = self.kill_switch.activate();
                (ControlResponse::Done, EngineEffect::Nothing)
            },
            ControlCommand::GetStatus => {
                let snap = self.metrics.snapshot();
                let text = snapshot_debug_text(&snap);
                assert(text@ == crate::status_text::snapshot_text(snap));
                (ControlResponse::Status(text), EngineEffect::Nothing)
            },
            ControlCommand::SwapStrategy { symbol, strategy_type, params } => self.swap_strategy(
                symbol,
                strategy_type,
                params,
            ),
            ControlCommand::PauseAsset(symbol) => (
                self.switch(symbol.as_str(), false),
                EngineEffect::Nothing,
            ),
            ControlCommand::ResumeAsset(symbol) => (
                self.switch(symbol.as_str(), true),
                EngineEffect::Nothing,
            ),
            ControlCommand::SetAssetConfig { symbol, config } => {
                let v = AssetValues {
                    max_position: config.max_position,
                    tick_size: config.tick_size,
                    enabled: config.enabled,
                };
                let r = if set_asset_values(&mut self.config, symbol.as_str(), v) {
                    ControlResponse::Done
                } else {
                    symbol_not_found(symbol.as_str())
                };
                (r, EngineEffect::Nothing)
            },
            ControlCommand::SetCircuitBreakerParams(u) => {
                self.config.circuit_breaker_config.failure_threshold = u.failure_threshold;
                self.config.circuit_breaker_config.cooldown_ms = u.cooldown_ms;
                (ControlResponse::Done, EngineEffect::SetBreakers(u))
            },
            ControlCommand::SetRateLimits(u) => (
                ControlResponse::Done,
                EngineEffect::SetRateLimits(u),
            ),
            ControlCommand::CircuitBreakerTrip => (
                ControlResponse::Done,
                EngineEffect::TripBreakers,
            ),
            ControlCommand::CircuitBreakerReset => (
                ControlResponse::Done,
                EngineEffect::ResetBreakers,
            ),
            ControlCommand::ReloadConfig => {
                let effect = self.reload(exposure);
                (ControlResponse::Done, EngineEffect::Reload(effect))
            },
            ControlCommand::FlushJournal => {
                if self.journal_running {
                    (ControlResponse::Done, EngineEffect::FlushJournal)
                } else {
                    (ControlResponse::Done, EngineEffect::Nothing)
                }
            },
            ControlCommand::SubscribeFeed { symbol } => self.subscribe(symbol),
            ControlCommand::UnsubscribeFeed { symbol } => self.unsubscribe(symbol),
            other => {
                Self::set_config(&mut self.config, other);
                (ControlResponse::Done, EngineEffect::Nothing)
            },
        }
    }
}

/// A rollout that was begun and then cancelled leaves the configuration as it was.
pub proof fn law_cancel_undoes_begin<C: Clock>(
    e: &UnifiedEngine<C>,
    pending: EngineConfig,
    duration_secs: u64,
    exposure: ExposureCheck,
    during: &UnifiedEngine<C>,
    r1: Result<(), RolloutError>,
    after: &UnifiedEngine<C>,
    r2: Result<(), RolloutError>,
)
    requires
        e.rollout_begun(pending, duration_secs, exposure, during, r1),
        r1 is Ok,
        during.rollout_cancelled(after, r2),
    ensures
        r2 is Ok,
        after.config.asset_configs@ == e.config.asset_configs@,
        after.config == (EngineConfig { asset_configs: after.config.asset_configs, ..e.config }),
        *after == (UnifiedEngine { config: after.config, staged_rollout: None, ..*e }),
{
    let symbol = EngineConfig::enabled_symbols(e.config.asset_configs@)[0];
    law_canary_is_reverted(
        e.config,
        symbol,
        canary_values(pending, symbol),
        during.config,
        after.config,
    );
}

/// A symbol that is subscribed and then unsubscribed is traded no more, and the other symbols are
/// traded as before.
pub proof fn law_unsubscribe_undoes_subscribe<C: Clock>(
    e: &UnifiedEngine<C>,
    symbol: Seq<char>,
    during: &UnifiedEngine<C>,
    r1: ControlResponse,
    effect1: EngineEffect,
    after: &UnifiedEngine<C>,
    r2: ControlResponse,
    effect2: EngineEffect,
)
    requires
        e.subscribed(symbol, during, r1, effect1),
        r1 is Done,
        during.unsubscribed(symbol, after, r2, effect2),
    ensures
        r2 is Done,
        after.asset_pipelines@ == e.asset_pipelines@,
        after.strategy_registry@ == e.strategy_registry@.remove(symbol),
        after.execution_states@ == e.execution_states@.remove(symbol),
        after.config == e.config,
{
    assert(e.strategy_registry@.insert(symbol, ()).remove(symbol)
        =~= e.strategy_registry@.remove(symbol));
    assert(e.execution_states@.insert(symbol, ()).remove(symbol)
        =~= e.execution_states@.remove(symbol));
    assert(e.asset_pipelines@.insert(symbol, during.asset_pipelines@[symbol]).remove(symbol)
        =~= e.asset_pipelines@);
    assert(e.asset_pipelines@.remove(symbol) =~= e.asset_pipelines@);
}

/// A symbol that is traded cannot be subscribed a second time.
pub proof fn law_no_double_subscription<C: Clock>(
    e: &UnifiedEngine<C>,
    symbol: Seq<char>,
    after: &UnifiedEngine<C>,
    r: ControlResponse,
    effect: EngineEffect,
)
    requires
        e.asset_pipelines@.dom().contains(symbol),
        e.subscribed(symbol, after, r, effect),
    ensures
        r is Error,
        *after == *e,
{
}

} // verus!
