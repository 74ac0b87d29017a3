//! The engine's settings, their defaults, and the checks that they have to pass.

use vstd::prelude::*;
use vstd::string::StringExecFns;

use crate::quantity::{Real, HUNDRED_BITS, ONE_BITS};
use crate::str_map::StrMap;
use crate::text::{push_u64, push_usize, split, str_eq, trim};

verus! {

/// A string whose text is masked wherever it is shown.
#[derive(Clone)]
pub struct SecretString(String);

impl View for SecretString {
    type V = Seq<char>;

    /// The secret itself.
    closed spec fn view(&self) -> Seq<char> {
        self.0@
    }
}

/// The mask that is shown in place of a secret.
pub open spec fn mask() -> Seq<char> {
    "********"@
}

impl SecretString {
    pub fn new(value: &str) -> (s: Self)
        ensures
            s@ == value@,
    {
        SecretString(value.to_owned())
    }

    /// The secret itself.
    pub fn expose_secret(&self) -> (s: &str)
        ensures
            s@ == self@,
    {
        self.0.as_str()
    }

    /// A second string with the same secret.
    pub fn duplicate(&self) -> (s: Self)
        ensures
            s@ == self@,
    {
        SecretString(self.0.clone())
    }

    /// The form that is shown to a reader: the mask, whatever the secret.
    pub fn debug_text(&self) -> (s: String)
        ensures
            s@ == "SecretString(\"********\")"@,
    {
        "SecretString(\"********\")".to_owned()
    }

    /// The form that is written out: the mask, whatever the secret.
    pub fn masked_text(&self) -> (s: &'static str)
        ensures
            s@ == mask(),
    {
        "********"
    }
}

/// What a failed risk check does.
#[derive(Debug, Clone, Copy, PartialEq, Eq, Structural)]
pub enum CheckSeverity {
    Veto,
    Advisory,
    Info,
}

impl Default for CheckSeverity {
    fn default() -> (s: Self)
        ensures
            s == CheckSeverity::Veto,
    {
        CheckSeverity::Veto
    }
}

/// What a sender does when a channel is full.
#[derive(Debug, Clone, Copy, PartialEq, Eq, Structural)]
pub enum BackpressurePolicy {
    DropOldest,
    DropNewest,
    BlockWithTimeoutMs(u64),
    PrioritizeCritical,
}

/// The names of the built-in risk checks.
pub open spec fn check_names() -> Seq<Seq<char>> {
    seq![
        "kill_switch"@,
        "idempotency"@,
        "staleness"@,
        "order_rate"@,
        "position_limit"@,
        "portfolio_exposure"@,
        "leverage"@,
        "drawdown"@,
        "volatility"@,
        "spread"@,
    ]
}

/// The severity of each built-in risk check: a veto, but for volatility and spread.
pub open spec fn default_severity(name: Seq<char>) -> CheckSeverity {
    if name == "volatility"@ || name == "spread"@ {
        CheckSeverity::Advisory
    } else {
        CheckSeverity::Veto
    }
}

/// Whether `m` holds the default severities of the built-in risk checks and nothing else.
pub open spec fn default_severities(m: StrMap<CheckSeverity>) -> bool {
    &&& m.wf()
    &&& m.key_seq() == check_names()
    &&& forall|k: Seq<char>| m@.dom().contains(k) <==> check_names().contains(k)
    &&& forall|k: Seq<char>| m@.dom().contains(k) ==> #[trigger] m@[k] == default_severity(k)
}

/// The default severity of each built-in risk check.
pub fn default_check_severities() -> (m: StrMap<CheckSeverity>)
    ensures
        default_severities(m),
{
    let mut m: StrMap<CheckSeverity> = StrMap::new();
    proof {
        reveal_strlit("kill_switch");
        reveal_strlit("idempotency");
        reveal_strlit("staleness");
        reveal_strlit("order_rate");
        reveal_strlit("position_limit");
        reveal_strlit("portfolio_exposure");
        reveal_strlit("leverage");
        reveal_strlit("drawdown");
        reveal_strlit("volatility");
        reveal_strlit("spread");
        assert("kill_switch"@.len() == 11 && "kill_switch"@[0] == 'k');
        assert("idempotency"@.len() == 11 && "idempotency"@[0] == 'i');
        assert("staleness"@.len() == 9 && "staleness"@[0] == 's');
        assert("order_rate"@.len() == 10 && "order_rate"@[0] == 'o');
        assert("position_limit"@.len() == 14 && "position_limit"@[0] == 'p');
        assert("portfolio_exposure"@.len() == 18 && "portfolio_exposure"@[0] == 'p');
        assert("leverage"@.len() == 8 && "leverage"@[0] == 'l');
        assert("drawdown"@.len() == 8 && "drawdown"@[0] == 'd');
        assert("volatility"@.len() == 10 && "volatility"@[0] == 'v');
        assert("spread"@.len() == 6 && "spread"@[0] == 's');
    }
    m.insert("kill_switch".to_owned(), CheckSeverity::Veto);
    m.insert("idempotency".to_owned(), CheckSeverity::Veto);
    m.insert("staleness".to_owned(), CheckSeverity::Veto);
    m.insert("order_rate".to_owned(), CheckSeverity::Veto);
    m.insert("position_limit".to_owned(), CheckSeverity::Veto);
    m.insert("portfolio_exposure".to_owned(), CheckSeverity::Veto);
    m.insert("leverage".to_owned(), CheckSeverity::Veto);
    m.insert("drawdown".to_owned(), CheckSeverity::Veto);
    m.insert("volatility".to_owned(), CheckSeverity::Advisory);
    m.insert("spread".to_owned(), CheckSeverity::Advisory);
    proof {
        m.lemma_entries();
        assert(m.key_seq() =~= check_names());
    }
    m
}

/// The time in microseconds that the processing of one tick may take by default.
pub fn default_tick_processing_budget_us() -> (n: u64)
    ensures
        n == 500,
{
    500
}

fn copy_sizes(v: &Vec<usize>) -> (r: Vec<usize>)
    ensures
        r@ == v@,
{
    let mut r: Vec<usize> = Vec::new();
    let mut i: usize = 0;
    while i < v.len()
        invariant
            i <= v@.len(),
            r@ == v@.take(i as int),
        decreases v@.len() - i,
    {
        r.push(v[i]);
        i += 1;
        assert(v@.take(i as int) == v@.take(i - 1).push(v@[i - 1]));
    }
    assert(v@.take(i as int) == v@);
    r
}

/// The limits of the risk checks.
#[derive(Debug)]
pub struct RiskConfig {
    pub max_portfolio_exposure: Real,
    pub max_leverage: Real,
    pub max_drawdown_pct: Real,
    pub max_order_rate_per_sec: u32,
    pub max_position_per_symbol: Real,
    pub max_volatility: Real,
    pub max_spread_bps: Real,
    pub max_slippage_bps: Real,
    pub allow_short: bool,
    pub kill_switch_on_drawdown: bool,
    pub risk_intent_staleness_ns: u64,
    pub portfolio_flat_threshold: Real,
    pub initial_equity: Real,
    pub severity_overrides: StrMap<CheckSeverity>,
}

impl Default for RiskConfig {
    fn default() -> (r: Self)
        ensures
            r.max_portfolio_exposure.bits == 0x412e_8480_0000_0000,
            r.max_leverage.bits == 0x4010_0000_0000_0000,
            r.max_drawdown_pct.bits == 0x4014_0000_0000_0000,
            r.max_order_rate_per_sec == 10,
            r.max_position_per_symbol.bits == 0x40e8_6a00_0000_0000,
            r.max_volatility.bits == 0x3fa9_9999_9999_999a,
            r.max_spread_bps.bits == 0x4049_0000_0000_0000,
            r.max_slippage_bps.bits == 0x4024_0000_0000_0000,
            r.allow_short,
            r.kill_switch_on_drawdown,
            r.risk_intent_staleness_ns == 2_000_000_000,
            r.portfolio_flat_threshold.bits == 0x3f50_624d_d2f1_a9fc,
            r.initial_equity.bits == 0x40f8_6a00_0000_0000,
            default_severities(r.severity_overrides),
    {
        RiskConfig {
            max_portfolio_exposure: Real { bits: 0x412e_8480_0000_0000 },
            max_leverage: Real { bits: 0x4010_0000_0000_0000 },
            max_drawdown_pct: Real { bits: 0x4014_0000_0000_0000 },
            max_order_rate_per_sec: 10,
            max_position_per_symbol: Real { bits: 0x40e8_6a00_0000_0000 },
            max_volatility: Real { bits: 0x3fa9_9999_9999_999a },
            max_spread_bps: Real { bits: 0x4049_0000_0000_0000 },
            max_slippage_bps: Real { bits: 0x4024_0000_0000_0000 },
            allow_short: true,
            kill_switch_on_drawdown: true,
            risk_intent_staleness_ns: 2_000_000_000,
            portfolio_flat_threshold: Real { bits: 0x3f50_624d_d2f1_a9fc },
            initial_equity: Real { bits: 0x40f8_6a00_0000_0000 },
            severity_overrides: default_check_severities(),
        }
    }
}

impl RiskConfig {
    /// Whether both hold the same settings.
    pub open spec fn same(&self, other: &Self) -> bool {
        &&& self.max_portfolio_exposure == other.max_portfolio_exposure
        &&& self.max_leverage == other.max_leverage
        &&& self.max_drawdown_pct == other.max_drawdown_pct
        &&& self.max_order_rate_per_sec == other.max_order_rate_per_sec
        &&& self.max_position_per_symbol == other.max_position_per_symbol
        &&& self.max_volatility == other.max_volatility
        &&& self.max_spread_bps == other.max_spread_bps
        &&& self.max_slippage_bps == other.max_slippage_bps
        &&& self.allow_short == other.allow_short
        &&& self.kill_switch_on_drawdown == other.kill_switch_on_drawdown
        &&& self.risk_intent_staleness_ns == other.risk_intent_staleness_ns
        &&& self.portfolio_flat_threshold == other.portfolio_flat_threshold
        &&& self.initial_equity == other.initial_equity
        &&& self.severity_overrides@ == other.severity_overrides@
            && self.severity_overrides.key_seq() == other.severity_overrides.key_seq()
            && (self.severity_overrides.wf() ==> other.severity_overrides.wf())
    }
}

impl Clone for RiskConfig {
    fn clone(&self) -> (r: Self)
        ensures
            self.same(&r),
    {
        RiskConfig {
            max_portfolio_exposure: self.max_portfolio_exposure,
            max_leverage: self.max_leverage,
            max_drawdown_pct: self.max_drawdown_pct,
            max_order_rate_per_sec: self.max_order_rate_per_sec,
            max_position_per_symbol: self.max_position_per_symbol,
            max_volatility: self.max_volatility,
            max_spread_bps: self.max_spread_bps,
            max_slippage_bps: self.max_slippage_bps,
            allow_short: self.allow_short,
            kill_switch_on_drawdown: self.kill_switch_on_drawdown,
            risk_intent_staleness_ns: self.risk_intent_staleness_ns,
            portfolio_flat_threshold: self.portfolio_flat_threshold,
            initial_equity: self.initial_equity,
            severity_overrides: self.severity_overrides.clone(),
        }
    }
}

/// The thresholds of the strategy.
#[derive(Debug, Clone, Copy, PartialEq, Eq, Structural)]
pub struct StrategyConfig {
    pub long_entry_threshold: Real,
    pub short_entry_threshold: Real,
    pub exit_threshold: Real,
    pub confidence_minimum: Real,
    pub hysteresis_deadband: Real,
    pub entry_cooldown_ms: u64,
    pub exit_cooldown_ms: u64,
    pub prediction_staleness_ns: u64,
    pub trade_intent_ttl_ns: u64,
    pub max_long_units: Real,
    pub max_short_units: Real,
    pub urgency_aggressive_threshold: Real,
    pub urgency_normal_threshold: Real,
    pub allow_short: bool,
    pub action_score_rsi_weight: Real,
    pub action_score_macd_weight: Real,
    pub action_score_volatility_weight: Real,
    pub atr_penalty_threshold: Real,
    pub atr_penalty_value: Real,
    pub rsi_overbought: Real,
    pub rsi_oversold: Real,
    pub rsi_neutral: Real,
    pub confidence_rsi_weight: Real,
    pub confidence_macd_weight: Real,
    pub confidence_regime_weight: Real,
    pub volume_ratio_clamp: Real,
}

impl Default for StrategyConfig {
    fn default() -> (r: Self)
        ensures
            r.long_entry_threshold.bits == 0x3fe3_3333_3333_3333,
            r.short_entry_threshold.bits == 0xbfe3_3333_3333_3333,
            r.exit_threshold.bits == 0x3fb9_9999_9999_999a,
            r.confidence_minimum.bits == 0x3fe0_0000_0000_0000,
            r.hysteresis_deadband.bits == 0x3fc3_3333_3333_3333,
            r.entry_cooldown_ms == 5000,
            r.exit_cooldown_ms == 2000,
            r.prediction_staleness_ns == 150_000_000,
            r.trade_intent_ttl_ns == 30_000_000_000,
            r.max_long_units.bits == 0x4059_0000_0000_0000,
            r.max_short_units.bits == 0x4059_0000_0000_0000,
            r.urgency_aggressive_threshold.bits == 0x3feb_3333_3333_3333,
            r.urgency_normal_threshold.bits == 0x3fe0_0000_0000_0000,
            r.allow_short,
            r.action_score_rsi_weight.bits == 0x3fd9_9999_9999_999a,
            r.action_score_macd_weight.bits == 0x3fd9_9999_9999_999a,
            r.action_score_volatility_weight.bits == 0x3fc9_9999_9999_999a,
            r.atr_penalty_threshold.bits == 0x4000_0000_0000_0000,
            r.atr_penalty_value.bits == 0xbfc9_9999_9999_999a,
            r.rsi_overbought.bits == 0x4051_8000_0000_0000,
            r.rsi_oversold.bits == 0x403e_0000_0000_0000,
            r.rsi_neutral.bits == 0x4049_0000_0000_0000,
            r.confidence_rsi_weight.bits == 0x3fd3_3333_3333_3333,
            r.confidence_macd_weight.bits == 0x3fd9_9999_9999_999a,
            r.confidence_regime_weight.bits == 0x3fd3_3333_3333_3333,
            r.volume_ratio_clamp.bits == 0x3fd3_3333_3333_3333,
    {
        StrategyConfig {
            long_entry_threshold: Real { bits: 0x3fe3_3333_3333_3333 },
            short_entry_threshold: Real { bits: 0xbfe3_3333_3333_3333 },
            exit_threshold: Real { bits: 0x3fb9_9999_9999_999a },
            confidence_minimum: Real { bits: 0x3fe0_0000_0000_0000 },
            hysteresis_deadband: Real { bits: 0x3fc3_3333_3333_3333 },
            entry_cooldown_ms: 5000,
            exit_cooldown_ms: 2000,
            prediction_staleness_ns: 150_000_000,
            trade_intent_ttl_ns: 30_000_000_000,
            max_long_units: Real { bits: 0x4059_0000_0000_0000 },
            max_short_units: Real { bits: 0x4059_0000_0000_0000 },
            urgency_aggressive_threshold: Real { bits: 0x3feb_3333_3333_3333 },
            urgency_normal_threshold: Real { bits: 0x3fe0_0000_0000_0000 },
            allow_short: true,
            action_score_rsi_weight: Real { bits: 0x3fd9_9999_9999_999a },
            action_score_macd_weight: Real { bits: 0x3fd9_9999_9999_999a },
            action_score_volatility_weight: Real { bits: 0x3fc9_9999_9999_999a },
            atr_penalty_threshold: Real { bits: 0x4000_0000_0000_0000 },
            atr_penalty_value: Real { bits: 0xbfc9_9999_9999_999a },
            rsi_overbought: Real { bits: 0x4051_8000_0000_0000 },
            rsi_oversold: Real { bits: 0x403e_0000_0000_0000 },
            rsi_neutral: Real { bits: 0x4049_0000_0000_0000 },
            confidence_rsi_weight: Real { bits: 0x3fd3_3333_3333_3333 },
            confidence_macd_weight: Real { bits: 0x3fd9_9999_9999_999a },
            confidence_regime_weight: Real { bits: 0x3fd3_3333_3333_3333 },
            volume_ratio_clamp: Real { bits: 0x3fd3_3333_3333_3333 },
        }
    }
}

/// The windows of the feature computation.
#[derive(Debug)]
pub struct FeatureConfig {
    pub rsi_period: usize,
    pub macd_fast: usize,
    pub macd_slow: usize,
    pub macd_signal: usize,
    pub atr_period: usize,
    pub ema_periods: Vec<usize>,
    pub rolling_window_sizes: Vec<usize>,
    pub volume_ratio_clamp: Real,
    pub regime_volatile_atr_threshold: Real,
    pub regime_strength_atr_divisor: Real,
    pub regime_trending_threshold: Real,
    pub price_window_size: usize,
    pub volume_window_size: usize,
    pub spread_window_size: usize,
    pub return_1_window: usize,
    pub return_5_window: usize,
    pub return_20_window: usize,
    pub feature_capacity: usize,
}

impl Default for FeatureConfig {
    fn default() -> (r: Self)
        ensures
            r.rsi_period == 14,
            r.macd_fast == 12,
            r.macd_slow == 26,
            r.macd_signal == 9,
            r.atr_period == 14,
            r.ema_periods@ == seq![9usize, 21usize, 50usize],
            r.rolling_window_sizes@ == seq![5usize, 20usize],
            r.volume_ratio_clamp.bits == 0x3fd3_3333_3333_3333,
            r.regime_volatile_atr_threshold.bits == 0x3f94_7ae1_47ae_147b,
            r.regime_strength_atr_divisor.bits == 0x3fa9_9999_9999_999a,
            r.regime_trending_threshold.bits == 0x3fe0_0000_0000_0000,
            r.price_window_size == 50,
            r.volume_window_size == 20,
            r.spread_window_size == 20,
            r.return_1_window == 1,
            r.return_5_window == 5,
            r.return_20_window == 20,
            r.feature_capacity == 20,
    {
        FeatureConfig {
            rsi_period: 14,
            macd_fast: 12,
            macd_slow: 26,
            macd_signal: 9,
            atr_period: 14,
            ema_periods: vec![9, 21, 50],
            rolling_window_sizes: vec![5, 20],
            volume_ratio_clamp: Real { bits: 0x3fd3_3333_3333_3333 },
            regime_volatile_atr_threshold: Real { bits: 0x3f94_7ae1_47ae_147b },
            regime_strength_atr_divisor: Real { bits: 0x3fa9_9999_9999_999a },
            regime_trending_threshold: Real { bits: 0x3fe0_0000_0000_0000 },
            price_window_size: 50,
            volume_window_size: 20,
            spread_window_size: 20,
            return_1_window: 1,
            return_5_window: 5,
            return_20_window: 20,
            feature_capacity: 20,
        }
    }
}

impl FeatureConfig {
    /// Whether both hold the same settings.
    pub open spec fn same(&self, other: &Self) -> bool {
        &&& self.rsi_period == other.rsi_period
        &&& self.macd_fast == other.macd_fast
        &&& self.macd_slow == other.macd_slow
        &&& self.macd_signal == other.macd_signal
        &&& self.atr_period == other.atr_period
        &&& self.ema_periods@ == other.ema_periods@
        &&& self.rolling_window_sizes@ == other.rolling_window_sizes@
        &&& self.volume_ratio_clamp == other.volume_ratio_clamp
        &&& self.regime_volatile_atr_threshold == other.regime_volatile_atr_threshold
        &&& self.regime_strength_atr_divisor == other.regime_strength_atr_divisor
        &&& self.regime_trending_threshold == other.regime_trending_threshold
        &&& self.price_window_size == other.price_window_size
        &&& self.volume_window_size == other.volume_window_size
        &&& self.spread_window_size == other.spread_window_size
        &&& self.return_1_window == other.return_1_window
        &&& self.return_5_window == other.return_5_window
        &&& self.return_20_window == other.return_20_window
        &&& self.feature_capacity == other.feature_capacity
    }
}

impl Clone for FeatureConfig {
    fn clone(&self) -> (r: Self)
        ensures
            self.same(&r),
    {
        FeatureConfig {
            rsi_period: self.rsi_period,
            macd_fast: self.macd_fast,
            macd_slow: self.macd_slow,
            macd_signal: self.macd_signal,
            atr_period: self.atr_period,
            ema_periods: copy_sizes(&self.ema_periods),
            rolling_window_sizes: copy_sizes(&self.rolling_window_sizes),
            volume_ratio_clamp: self.volume_ratio_clamp,
            regime_volatile_atr_threshold: self.regime_volatile_atr_threshold,
            regime_strength_atr_divisor: self.regime_strength_atr_divisor,
            regime_trending_threshold: self.regime_trending_threshold,
            price_window_size: self.price_window_size,
            volume_window_size: self.volume_window_size,
            spread_window_size: self.spread_window_size,
            return_1_window: self.return_1_window,
            return_5_window: self.return_5_window,
            return_20_window: self.return_20_window,
            feature_capacity: self.feature_capacity,
        }
    }
}

/// The weights of the model.
#[derive(Debug)]
pub struct ModelConfig {
    pub model_dir: String,
    pub inference_threads: usize,
    pub max_inference_latency_ms: u64,
    pub feature_vector_size: usize,
    pub action_score_rsi_weight: Real,
    pub action_score_macd_weight: Real,
    pub action_score_volatility_weight: Real,
    pub atr_penalty_threshold: Real,
    pub atr_penalty_value: Real,
    pub rsi_overbought: Real,
    pub rsi_oversold: Real,
    pub rsi_neutral: Real,
    pub forecast_trend_weight: Real,
    pub forecast_momentum_weight: Real,
    pub forecast_volume_weight: Real,
    pub confidence_rsi_weight: Real,
    pub confidence_macd_weight: Real,
    pub confidence_regime_weight: Real,
    pub volume_confirmation_threshold: Real,
}

impl Default for ModelConfig {
    fn default() -> (r: Self)
        ensures
            r.model_dir@ == "models"@,
            r.inference_threads == 1,
            r.max_inference_latency_ms == 5,
            r.feature_vector_size == 128,
            r.action_score_rsi_weight.bits == 0x3fd9_9999_9999_999a,
            r.action_score_macd_weight.bits == 0x3fd9_9999_9999_999a,
            r.action_score_volatility_weight.bits == 0x3fc9_9999_9999_999a,
            r.atr_penalty_threshold.bits == 0x4000_0000_0000_0000,
            r.atr_penalty_value.bits == 0xbfc9_9999_9999_999a,
            r.rsi_overbought.bits == 0x4051_8000_0000_0000,
            r.rsi_oversold.bits == 0x403e_0000_0000_0000,
            r.rsi_neutral.bits == 0x4049_0000_0000_0000,
            r.forecast_trend_weight.bits == 0x3ff0_0000_0000_0000,
            r.forecast_momentum_weight.bits == 0x3fd3_3333_3333_3333,
            r.forecast_volume_weight.bits == 0x3fc9_9999_9999_999a,
            r.confidence_rsi_weight.bits == 0x3fd3_3333_3333_3333,
            r.confidence_macd_weight.bits == 0x3fd9_9999_9999_999a,
            r.confidence_regime_weight.bits == 0x3fd3_3333_3333_3333,
            r.volume_confirmation_threshold.bits == 0x3ff3_3333_3333_3333,
    {
        ModelConfig {
            model_dir: "models".to_owned(),
            inference_threads: 1,
            max_inference_latency_ms: 5,
            feature_vector_size: 128,
            action_score_rsi_weight: Real { bits: 0x3fd9_9999_9999_999a },
            action_score_macd_weight: Real { bits: 0x3fd9_9999_9999_999a },
            action_score_volatility_weight: Real { bits: 0x3fc9_9999_9999_999a },
            atr_penalty_threshold: Real { bits: 0x4000_0000_0000_0000 },
            atr_penalty_value: Real { bits: 0xbfc9_9999_9999_999a },
            rsi_overbought: Real { bits: 0x4051_8000_0000_0000 },
            rsi_oversold: Real { bits: 0x403e_0000_0000_0000 },
            rsi_neutral: Real { bits: 0x4049_0000_0000_0000 },
            forecast_trend_weight: Real { bits: 0x3ff0_0000_0000_0000 },
            forecast_momentum_weight: Real { bits: 0x3fd3_3333_3333_3333 },
            forecast_volume_weight: Real { bits: 0x3fc9_9999_9999_999a },
            confidence_rsi_weight: Real { bits: 0x3fd3_3333_3333_3333 },
            confidence_macd_weight: Real { bits: 0x3fd9_9999_9999_999a },
            confidence_regime_weight: Real { bits: 0x3fd3_3333_3333_3333 },
            volume_confirmation_threshold: Real { bits: 0x3ff3_3333_3333_3333 },
        }
    }
}

impl ModelConfig {
    /// Whether both hold the same settings.
    pub open spec fn same(&self, other: &Self) -> bool {
        &&& self.model_dir@ == other.model_dir@
        &&& self.inference_threads == other.inference_threads
        &&& self.max_inference_latency_ms == other.max_inference_latency_ms
        &&& self.feature_vector_size == other.feature_vector_size
        &&& self.action_score_rsi_weight == other.action_score_rsi_weight
        &&& self.action_score_macd_weight == other.action_score_macd_weight
        &&& self.action_score_volatility_weight == other.action_score_volatility_weight
        &&& self.atr_penalty_threshold == other.atr_penalty_threshold
        &&& self.atr_penalty_value == other.atr_penalty_value
        &&& self.rsi_overbought == other.rsi_overbought
        &&& self.rsi_oversold == other.rsi_oversold
        &&& self.rsi_neutral == other.rsi_neutral
        &&& self.forecast_trend_weight == other.forecast_trend_weight
        &&& self.forecast_momentum_weight == other.forecast_momentum_weight
        &&& self.forecast_volume_weight == other.forecast_volume_weight
        &&& self.confidence_rsi_weight == other.confidence_rsi_weight
        &&& self.confidence_macd_weight == other.confidence_macd_weight
        &&& self.confidence_regime_weight == other.confidence_regime_weight
        &&& self.volume_confirmation_threshold == other.volume_confirmation_threshold
    }
}

impl Clone for ModelConfig {
    fn clone(&self) -> (r: Self)
        ensures
            self.same(&r),
    {
        ModelConfig {
            model_dir: self.model_dir.clone(),
            inference_threads: self.inference_threads,
            max_inference_latency_ms: self.max_inference_latency_ms,
            feature_vector_size: self.feature_vector_size,
            action_score_rsi_weight: self.action_score_rsi_weight,
            action_score_macd_weight: self.action_score_macd_weight,
            action_score_volatility_weight: self.action_score_volatility_weight,
            atr_penalty_threshold: self.atr_penalty_threshold,
            atr_penalty_value: self.atr_penalty_value,
            rsi_overbought: self.rsi_overbought,
            rsi_oversold: self.rsi_oversold,
            rsi_neutral: self.rsi_neutral,
            forecast_trend_weight: self.forecast_trend_weight,
            forecast_momentum_weight: self.forecast_momentum_weight,
            forecast_volume_weight: self.forecast_volume_weight,
            confidence_rsi_weight: self.confidence_rsi_weight,
            confidence_macd_weight: self.confidence_macd_weight,
            confidence_regime_weight: self.confidence_regime_weight,
            volume_confirmation_threshold: self.volume_confirmation_threshold,
        }
    }
}

/// Where and how the journal is kept.
#[derive(Debug)]
pub struct JournalConfig {
    pub journal_dir: String,
    pub flush_interval_ms: u64,
    pub snapshot_interval_sec: u64,
    pub max_file_size_mb: u64,
    pub retention_hours: u32,
    pub max_size_mb: u64,
}

impl Default for JournalConfig {
    fn default() -> (r: Self)
        ensures
            r.journal_dir@ == "journal"@,
            r.flush_interval_ms == 100,
            r.snapshot_interval_sec == 60,
            r.max_file_size_mb == 100,
            r.retention_hours == 168,
            r.max_size_mb == 10_000,
    {
        JournalConfig {
            journal_dir: "journal".to_owned(),
            flush_interval_ms: 100,
            snapshot_interval_sec: 60,
            max_file_size_mb: 100,
            retention_hours: 168,
            max_size_mb: 10_000,
        }
    }
}

impl JournalConfig {
    /// Whether both hold the same settings.
    pub open spec fn same(&self, other: &Self) -> bool {
        &&& self.journal_dir@ == other.journal_dir@
        &&& self.flush_interval_ms == other.flush_interval_ms
        &&& self.snapshot_interval_sec == other.snapshot_interval_sec
        &&& self.max_file_size_mb == other.max_file_size_mb
        &&& self.retention_hours == other.retention_hours
        &&& self.max_size_mb == other.max_size_mb
    }
}

impl Clone for JournalConfig {
    fn clone(&self) -> (r: Self)
        ensures
            self.same(&r),
    {
        JournalConfig {
            journal_dir: self.journal_dir.clone(),
            flush_interval_ms: self.flush_interval_ms,
            snapshot_interval_sec: self.snapshot_interval_sec,
            max_file_size_mb: self.max_file_size_mb,
            retention_hours: self.retention_hours,
            max_size_mb: self.max_size_mb,
        }
    }
}

/// The cores and deadlines of the threads.
#[derive(Debug, Clone, Copy, PartialEq, Eq, Structural)]
pub struct ThreadingConfig {
    pub prediction_core_id: usize,
    pub risk_core_id: usize,
    pub journal_core_id: usize,
    pub alpaca_feed_core_id: usize,
    pub tick_reactor_core_id: usize,
    pub execution_core_id: usize,
    pub heartbeat_core_id: usize,
    pub command_core_id: usize,
    pub heartbeat_timeout_ns: u64,
    pub heartbeat_check_interval_ms: u64,
    pub tick_processing_budget_us: u64,
}

impl Default for ThreadingConfig {
    fn default() -> (r: Self)
        ensures
            r.prediction_core_id == 3,
            r.risk_core_id == 2,
            r.journal_core_id == 0,
            r.alpaca_feed_core_id == 0,
            r.tick_reactor_core_id == 0,
            r.execution_core_id == 0,
            r.heartbeat_core_id == 0,
            r.command_core_id == 0,
            r.heartbeat_timeout_ns == 2_000_000_000,
            r.heartbeat_check_interval_ms == 500,
            r.tick_processing_budget_us == 500,
    {
        ThreadingConfig {
            prediction_core_id: 3,
            risk_core_id: 2,
            journal_core_id: 0,
            alpaca_feed_core_id: 0,
            tick_reactor_core_id: 0,
            execution_core_id: 0,
            heartbeat_core_id: 0,
            command_core_id: 0,
            heartbeat_timeout_ns: 2_000_000_000,
            heartbeat_check_interval_ms: 500,
            tick_processing_budget_us: 500,
        }
    }
}

/// The defaults of order execution.
#[derive(Debug, Clone, Copy, PartialEq, Eq, Structural)]
pub struct ExecutionDefaults {
    pub default_order_quantity: Real,
    pub execution_per_symbol_rate_divisor: Real,
}

impl Default for ExecutionDefaults {
    fn default() -> (r: Self)
        ensures
            r.default_order_quantity.bits == 0x3ff0_0000_0000_0000,
            r.execution_per_symbol_rate_divisor.bits == 0x4000_0000_0000_0000,
    {
        ExecutionDefaults {
            default_order_quantity: Real { bits: 0x3ff0_0000_0000_0000 },
            execution_per_symbol_rate_divisor: Real { bits: 0x4000_0000_0000_0000 },
        }
    }
}

/// When a circuit breaker opens, and for how long.
#[derive(Debug, Clone, Copy, PartialEq, Eq, Structural)]
pub struct CircuitBreakerConfig {
    pub failure_threshold: u64,
    pub cooldown_ms: u64,
}

impl Default for CircuitBreakerConfig {
    fn default() -> (r: Self)
        ensures
            r.failure_threshold == 5,
            r.cooldown_ms == 30_000,
    {
        CircuitBreakerConfig {
            failure_threshold: 5,
            cooldown_ms: 30_000,
        }
    }
}

/// The channels between the stages.
#[derive(Debug, Clone, Copy, PartialEq, Eq, Structural)]
pub struct ChannelConfig {
    pub per_asset_tick_channel_capacity: usize,
    pub feature_channel_capacity: usize,
    pub risk_channel_capacity: usize,
    pub decision_channel_capacity: usize,
    pub lifecycle_channel_capacity: usize,
    pub command_channel_capacity: usize,
    pub journal_channel_capacity: usize,
    pub per_asset_tick_backpressure_policy: BackpressurePolicy,
    pub feature_backpressure_policy: BackpressurePolicy,
    pub risk_backpressure_policy: BackpressurePolicy,
    pub decision_backpressure_policy: BackpressurePolicy,
}

impl Default for ChannelConfig {
    fn default() -> (r: Self)
        ensures
            r.per_asset_tick_channel_capacity == 10_000,
            r.feature_channel_capacity == 1_000,
            r.risk_channel_capacity == 1_000,
            r.decision_channel_capacity == 1_000,
            r.lifecycle_channel_capacity == 1_000,
            r.command_channel_capacity == 1_000,
            r.journal_channel_capacity == 10_000,
            r.per_asset_tick_backpressure_policy == BackpressurePolicy::DropOldest,
            r.feature_backpressure_policy == BackpressurePolicy::DropNewest,
            r.risk_backpressure_policy == BackpressurePolicy::DropNewest,
            r.decision_backpressure_policy == BackpressurePolicy::BlockWithTimeoutMs(10),
    {
        ChannelConfig {
            per_asset_tick_channel_capacity: 10_000,
            feature_channel_capacity: 1_000,
            risk_channel_capacity: 1_000,
            decision_channel_capacity: 1_000,
            lifecycle_channel_capacity: 1_000,
            command_channel_capacity: 1_000,
            journal_channel_capacity: 10_000,
            per_asset_tick_backpressure_policy: BackpressurePolicy::DropOldest,
            feature_backpressure_policy: BackpressurePolicy::DropNewest,
            risk_backpressure_policy: BackpressurePolicy::DropNewest,
            decision_backpressure_policy: BackpressurePolicy::BlockWithTimeoutMs(10),
        }
    }
}

/// The batches of the tick reactor.
#[derive(Debug, Clone, Copy, PartialEq, Eq, Structural)]
pub struct ReactorConfig {
    pub max_batch_size: usize,
    pub control_batch_size: usize,
    pub sleep_on_empty_us: u64,
    pub backpressure_log_interval: u64,
}

impl Default for ReactorConfig {
    fn default() -> (r: Self)
        ensures
            r.max_batch_size == 64,
            r.control_batch_size == 16,
            r.sleep_on_empty_us == 10,
            r.backpressure_log_interval == 1000,
    {
        ReactorConfig {
            max_batch_size: 64,
            control_batch_size: 16,
            sleep_on_empty_us: 10,
            backpressure_log_interval: 1000,
        }
    }
}

/// The limits of request validation.
#[derive(Debug, Clone, Copy, PartialEq, Eq, Structural)]
pub struct ValidatorConfig {
    pub max_symbol_length: usize,
    pub max_quantity: Real,
    pub max_order_id_length: usize,
}

impl Default for ValidatorConfig {
    fn default() -> (r: Self)
        ensures
            r.max_symbol_length == 20,
            r.max_quantity.bits == 0x412e_8480_0000_0000,
            r.max_order_id_length == 100,
    {
        ValidatorConfig {
            max_symbol_length: 20,
            max_quantity: Real { bits: 0x412e_8480_0000_0000 },
            max_order_id_length: 100,
        }
    }
}

/// The settings of one asset.
#[derive(Debug)]
pub struct AssetConfig {
    pub symbol: String,
    pub enabled: bool,
    pub max_position: Real,
    pub tick_size: Real,
}

impl AssetConfig {
    /// Whether both hold the same settings.
    pub open spec fn same(&self, other: &Self) -> bool {
        &&& self.symbol@ == other.symbol@
        &&& self.enabled == other.enabled
        &&& self.max_position == other.max_position
        &&& self.tick_size == other.tick_size
    }
}

impl Clone for AssetConfig {
    fn clone(&self) -> (r: Self)
        ensures
            self.same(&r),
    {
        AssetConfig {
            symbol: self.symbol.clone(),
            enabled: self.enabled,
            max_position: self.max_position,
            tick_size: self.tick_size,
        }
    }
}

/// The broker's endpoints and credentials.
pub struct BrokerConfig {
    pub broker_type: String,
    pub api_key: SecretString,
    pub api_secret: SecretString,
    pub paper_trading: bool,
    pub ws_url: String,
    pub rest_url: String,
    pub max_retries: u32,
    pub retry_backoff_ms: u64,
}

/// The form in which a reader sees a string: in quotes, with the escapes of `Debug`.
pub uninterp spec fn quoted(s: Seq<char>) -> Seq<char>;

/// The quoted form of a string, by the `Debug` impl of `str`. The result is a function of the
/// text alone; how a character is escaped is left unsaid.
#[verifier::external_body]
pub(crate) fn quoted_text(s: &str) -> (r: String)
    ensures
        r@ == quoted(s@),
{
    format!("{:?}", s)
}

/// The text of a truth value.
pub open spec fn bool_word(b: bool) -> Seq<char> {
    if b {
        "true"@
    } else {
        "false"@
    }
}

impl BrokerConfig {
    /// Whether both hold the same settings.
    pub open spec fn same(&self, other: &Self) -> bool {
        &&& self.api_key@ == other.api_key@
        &&& self.api_secret@ == other.api_secret@
        &&& self.same_visible(other)
    }

    /// Whether both hold the same settings, secrets aside.
    pub open spec fn same_visible(&self, other: &Self) -> bool {
        &&& self.broker_type@ == other.broker_type@
        &&& self.paper_trading == other.paper_trading
        &&& self.ws_url@ == other.ws_url@
        &&& self.rest_url@ == other.rest_url@
        &&& self.max_retries == other.max_retries
        &&& self.retry_backoff_ms == other.retry_backoff_ms
    }

    /// The form that is shown to a reader; both secrets appear as the mask.
    pub open spec fn shown(&self) -> Seq<char> {
        "BrokerConfig { broker_type: "@ + quoted(self.broker_type@)
            + ", api_key: SecretString(\"********\"), api_secret: SecretString(\"********\"), paper_trading: "@
            + bool_word(self.paper_trading) + ", ws_url: "@ + quoted(self.ws_url@) + ", rest_url: "@
            + quoted(self.rest_url@) + ", max_retries: "@ + crate::text::decimal(
                self.max_retries as nat,
            )
            + ", retry_backoff_ms: "@ + crate::text::decimal(self.retry_backoff_ms as nat) + " }"@
    }

    /// The form that is shown to a reader; both secrets appear as the mask.
    pub fn debug_text(&self) -> (s: String)
        ensures
            s@ == self.shown(),
    {
        let mut s = "BrokerConfig { broker_type: ".to_owned();
        s.append(quoted_text(self.broker_type.as_str()).as_str());
        s.append(
            ", api_key: SecretString(\"********\"), api_secret: SecretString(\"********\"), paper_trading: ",
        );
        s.append(
            if self.paper_trading {
                "true"
            } else {
                "false"
            },
        );
        s.append(", ws_url: ");
        s.append(quoted_text(self.ws_url.as_str()).as_str());
        s.append(", rest_url: ");
        s.append(quoted_text(self.rest_url.as_str()).as_str());
        s.append(", max_retries: ");
        push_u64(&mut s, self.max_retries as u64);
        s.append(", retry_backoff_ms: ");
        push_u64(&mut s, self.retry_backoff_ms);
        s.append(" }");
        s
    }

    /// Whether both credentials are there.
    pub open spec fn credentials_given(&self) -> bool {
        self.api_key@.len() > 0 && self.api_secret@.len() > 0
    }

    /// Whether both credentials are there.
    pub fn has_credentials(&self) -> (r: bool)
        ensures
            r == self.credentials_given(),
    {
        !self.api_key.expose_secret().is_empty() && !self.api_secret.expose_secret().is_empty()
    }
}

impl Default for BrokerConfig {
    fn default() -> (r: Self)
        ensures
            r.broker_type@ == "alpaca"@,
            r.api_key@ == ""@,
            r.api_secret@ == ""@,
            r.paper_trading,
            r.ws_url@ == "wss://stream.data.alpaca.markets/v2/iex"@,
            r.rest_url@ == "https://paper-api.alpaca.markets"@,
            r.max_retries == 3,
            r.retry_backoff_ms == 1000,
    {
        BrokerConfig {
            broker_type: "alpaca".to_owned(),
            api_key: SecretString::new(""),
            api_secret: SecretString::new(""),
            paper_trading: true,
            ws_url: "wss://stream.data.alpaca.markets/v2/iex".to_owned(),
            rest_url: "https://paper-api.alpaca.markets".to_owned(),
            max_retries: 3,
            retry_backoff_ms: 1000,
        }
    }
}

impl Clone for BrokerConfig {
    fn clone(&self) -> (r: Self)
        ensures
            self.same(&r),
    {
        BrokerConfig {
            broker_type: self.broker_type.clone(),
            api_key: self.api_key.duplicate(),
            api_secret: self.api_secret.duplicate(),
            paper_trading: self.paper_trading,
            ws_url: self.ws_url.clone(),
            rest_url: self.rest_url.clone(),
            max_retries: self.max_retries,
            retry_backoff_ms: self.retry_backoff_ms,
        }
    }
}

/// All settings of the engine.
pub struct EngineConfig {
    pub max_assets: usize,
    pub asset_configs: Vec<AssetConfig>,
    pub risk_config: RiskConfig,
    pub strategy_config: StrategyConfig,
    pub broker_config: BrokerConfig,
    pub feature_config: FeatureConfig,
    pub model_config: ModelConfig,
    pub journal_config: JournalConfig,
    pub threading_config: ThreadingConfig,
    pub execution_defaults: ExecutionDefaults,
    pub circuit_breaker_config: CircuitBreakerConfig,
    pub channel_config: ChannelConfig,
    pub reactor_config: ReactorConfig,
    pub validator_config: ValidatorConfig,
    pub api_key: String,
    pub control_plane_rate_limit: u32,
    pub safe_mode: bool,
}

/// Whether both lists hold the same assets in the same order.
pub open spec fn same_assets(a: Seq<AssetConfig>, b: Seq<AssetConfig>) -> bool {
    &&& a.len() == b.len()
    &&& forall|i: int| 0 <= i < a.len() ==> (#[trigger] a[i]).same(&b[i])
}

fn copy_assets(v: &Vec<AssetConfig>) -> (r: Vec<AssetConfig>)
    ensures
        same_assets(v@, r@),
{
    let mut r: Vec<AssetConfig> = Vec::new();
    let mut i: usize = 0;
    while i < v.len()
        invariant
            i <= v@.len(),
            r@.len() == i,
            forall|j: int| 0 <= j < i ==> (#[trigger] v@[j]).same(&r@[j]),
        decreases v@.len() - i,
    {
        r.push(v[i].clone());
        i += 1;
    }
    r
}

fn default_asset(symbol: &str) -> (a: AssetConfig)
    ensures
        default_asset_of(a, symbol@),
{
    AssetConfig {
        symbol: symbol.to_owned(),
        enabled: true,
        max_position: Real { bits: HUNDRED_BITS },
        tick_size: Real { bits: 0x3f84_7ae1_47ae_147b },
    }
}

/// An enabled asset with a position limit of 100 and a tick size of one hundredth.
pub open spec fn default_asset_of(a: AssetConfig, symbol: Seq<char>) -> bool {
    &&& a.symbol@ == symbol
    &&& a.enabled
    &&& a.max_position.bits == HUNDRED_BITS
    &&& a.tick_size.bits == 0x3f84_7ae1_47ae_147b
}

impl Default for EngineConfig {
    fn default() -> (r: Self)
        ensures
            r.max_assets == 2,
            r.asset_configs@.len() == 2,
            default_asset_of(r.asset_configs@[0], "AAPL"@),
            default_asset_of(r.asset_configs@[1], "MSFT"@),
            call_ensures(RiskConfig::default, (), r.risk_config),
            call_ensures(StrategyConfig::default, (), r.strategy_config),
            call_ensures(BrokerConfig::default, (), r.broker_config),
            call_ensures(FeatureConfig::default, (), r.feature_config),
            call_ensures(ModelConfig::default, (), r.model_config),
            call_ensures(JournalConfig::default, (), r.journal_config),
            call_ensures(ThreadingConfig::default, (), r.threading_config),
            call_ensures(ExecutionDefaults::default, (), r.execution_defaults),
            call_ensures(CircuitBreakerConfig::default, (), r.circuit_breaker_config),
            call_ensures(ChannelConfig::default, (), r.channel_config),
            call_ensures(ReactorConfig::default, (), r.reactor_config),
            call_ensures(ValidatorConfig::default, (), r.validator_config),
            r.api_key@ == Seq::<char>::empty(),
            r.control_plane_rate_limit == 10,
            !r.safe_mode,
    {
        let mut assets: Vec<AssetConfig> = Vec::new();
        assets.push(default_asset("AAPL"));
        assets.push(default_asset("MSFT"));
        EngineConfig {
            max_assets: 2,
            asset_configs: assets,
            risk_config: RiskConfig::default(),
            strategy_config: StrategyConfig::default(),
            broker_config: BrokerConfig::default(),
            feature_config: FeatureConfig::default(),
            model_config: ModelConfig::default(),
            journal_config: JournalConfig::default(),
            threading_config: ThreadingConfig::default(),
            execution_defaults: ExecutionDefaults::default(),
            circuit_breaker_config: CircuitBreakerConfig::default(),
            channel_config: ChannelConfig::default(),
            reactor_config: ReactorConfig::default(),
            validator_config: ValidatorConfig::default(),
            api_key: String::new(),
            control_plane_rate_limit: 10,
            safe_mode: false,
        }
    }
}

impl Clone for EngineConfig {
    fn clone(&self) -> (r: Self)
        ensures
            self.same(&r),
    {
        EngineConfig {
            max_assets: self.max_assets,
            asset_configs: copy_assets(&self.asset_configs),
            risk_config: self.risk_config.clone(),
            strategy_config: self.strategy_config,
            broker_config: self.broker_config.clone(),
            feature_config: self.feature_config.clone(),
            model_config: self.model_config.clone(),
            journal_config: self.journal_config.clone(),
            threading_config: self.threading_config,
            execution_defaults: self.execution_defaults,
            circuit_breaker_config: self.circuit_breaker_config,
            channel_config: self.channel_config,
            reactor_config: self.reactor_config,
            validator_config: self.validator_config,
            api_key: self.api_key.clone(),
            control_plane_rate_limit: self.control_plane_rate_limit,
            safe_mode: self.safe_mode,
        }
    }
}

// ---------------------------------------------------------------------------
// Validation
// ---------------------------------------------------------------------------

/// One setting that is not acceptable, and why.
#[derive(Debug, Clone)]
pub struct ConfigViolation {
    pub field: String,
    pub message: String,
}

impl ConfigViolation {
    /// The setting and the reason.
    pub open spec fn pair(&self) -> (Seq<char>, Seq<char>) {
        (self.field@, self.message@)
    }

    /// The form `field: message`.
    pub fn to_text(&self) -> (s: String)
        ensures
            s@ == violation_text(self.pair()),
    {
        let mut s = self.field.clone();
        s.append(": ");
        s.append(self.message.as_str());
        s
    }
}

/// The form `field: message`.
pub open spec fn violation_text(v: (Seq<char>, Seq<char>)) -> Seq<char> {
    v.0 + ": "@ + v.1
}

/// The settings and reasons of a list of violations.
pub open spec fn pairs(v: Seq<ConfigViolation>) -> Seq<(Seq<char>, Seq<char>)> {
    Seq::new(v.len(), |i: int| v[i].pair())
}

/// All that a validation found.
#[derive(Debug, Clone)]
pub struct ConfigValidationError {
    pub violations: Vec<ConfigViolation>,
}

/// One line for each violation.
pub open spec fn violation_lines(v: Seq<(Seq<char>, Seq<char>)>) -> Seq<char>
    decreases v.len(),
{
    if v.len() == 0 {
        Seq::empty()
    } else {
        violation_lines(v.drop_last()) + "  • "@ + violation_text(v.last()) + "\n"@
    }
}

/// The report on a list of violations: a heading with their number and one line for each; empty
/// where there is none.
pub open spec fn violation_report(v: Seq<(Seq<char>, Seq<char>)>) -> Seq<char> {
    if v.len() == 0 {
        Seq::empty()
    } else {
        "config validation failed ("@ + crate::text::decimal(v.len()) + " violation(s)):\n"@
            + violation_lines(v)
    }
}

impl ConfigValidationError {
    pub fn new(violations: Vec<ConfigViolation>) -> (e: Self)
        ensures
            e.violations == violations,
    {
        ConfigValidationError { violations }
    }

    /// Whether nothing was found.
    pub fn is_empty(&self) -> (r: bool)
        ensures
            r == (self.violations@.len() == 0),
    {
        self.violations.len() == 0
    }

    /// The report on the violations.
    pub fn to_text(&self) -> (s: String)
        ensures
            s@ == violation_report(pairs(self.violations@)),
    {
        let mut s = String::new();
        if self.violations.len() == 0 {
            return s;
        }
        s.append("config validation failed (");
        push_usize(&mut s, self.violations.len());
        s.append(" violation(s)):\n");
        let ghost all = pairs(self.violations@);
        let ghost head = s@;
        let mut i: usize = 0;
        assert(all.take(0) =~= Seq::<(Seq<char>, Seq<char>)>::empty());
        assert(head + violation_lines(all.take(0)) =~= head);
        while i < self.violations.len()
            invariant
                i <= self.violations@.len(),
                all == pairs(self.violations@),
                s@ == head + violation_lines(all.take(i as int)),
            decreases self.violations@.len() - i,
        {
            let ghost before = s@;
            s.append("  • ");
            s.append(self.violations[i].to_text().as_str());
            s.append("\n");
            proof {
                let t = all.take(i + 1);
                assert(t.drop_last() =~= all.take(i as int));
                assert(t.last() == self.violations@[i as int].pair());
                assert(s@ =~= head + violation_lines(t));
            }
            i += 1;
        }
        assert(all.take(i as int) =~= all);
        s
    }
}

/// A violation where `ok` does not hold.
pub open spec fn flag(ok: bool, field: Seq<char>, message: Seq<char>) -> Seq<
    (Seq<char>, Seq<char>),
> {
    if ok {
        Seq::empty()
    } else {
        seq![(field, message)]
    }
}

/// Adds a violation where `cond` does not hold.
pub fn check(cond: bool, field: &str, msg: &str, out: &mut Vec<ConfigViolation>)
    ensures
        pairs(final(out)@) == pairs(old(out)@) + flag(cond, field@, msg@),
{
    if !cond {
        out.push(ConfigViolation { field: field.to_owned(), message: msg.to_owned() });
    }
    assert(pairs(out@) =~= pairs(old(out)@) + flag(cond, field@, msg@));
}

/// The figures of the exposure check, which need arithmetic on floating-point numbers.
pub struct ExposureCheck {
    /// The position limit per symbol times the number of assets.
    pub implied_max: Real,
    /// Ten times the portfolio exposure.
    pub exposure_limit: Real,
    /// The text of `implied_max`.
    pub implied_max_text: String,
    /// The text of the portfolio exposure.
    pub max_exposure_text: String,
}

/// What the checks find in the risk limits.
pub open spec fn risk_violations(c: &EngineConfig, e: &ExposureCheck) -> Seq<
    (Seq<char>, Seq<char>),
> {
    flag(
        c.risk_config.max_leverage.positive(),
        "risk_config.max_leverage"@,
        "must be positive (got negative or zero leverage)"@,
    ) + flag(
        c.risk_config.max_position_per_symbol.positive(),
        "risk_config.max_position_per_symbol"@,
        "must be positive"@,
    ) + flag(
        c.risk_config.max_portfolio_exposure.positive(),
        "risk_config.max_portfolio_exposure"@,
        "must be positive"@,
    ) + flag(
        c.risk_config.max_drawdown_pct.between_zero_and(Real { bits: HUNDRED_BITS }),
        "risk_config.max_drawdown_pct"@,
        "must be in [0, 100]"@,
    ) + flag(
        e.implied_max.less_eq(e.exposure_limit),
        "risk_config.max_position_per_symbol"@,
        "per-symbol position ("@ + e.implied_max_text@
            + ") × asset count exceeds 10× portfolio exposure ("@ + e.max_exposure_text@ + ")"@,
    )
}

/// The name of a setting of asset `i`.
pub open spec fn asset_field(i: int, symbol: Seq<char>, part: Seq<char>) -> Seq<char> {
    "asset_configs["@ + crate::text::decimal(i as nat) + "]."@ + symbol + part
}

/// What the checks find in asset `i`.
pub open spec fn one_asset_violations(a: AssetConfig, i: int) -> Seq<(Seq<char>, Seq<char>)> {
    flag(
        !a.max_position.is_nan() && a.max_position.rank() >= 0,
        asset_field(i, a.symbol@, ".max_position"@),
        "must be non-negative"@,
    ) + flag(
        a.tick_size.positive(),
        asset_field(i, a.symbol@, ".tick_size"@),
        "must be positive"@,
    ) + flag(
        a.symbol@.len() > 0,
        asset_field(i, a.symbol@, ".symbol"@),
        "must not be empty"@,
    )
}

/// What the checks find in the assets.
pub open spec fn asset_violations(assets: Seq<AssetConfig>) -> Seq<(Seq<char>, Seq<char>)>
    decreases assets.len(),
{
    if assets.len() == 0 {
        Seq::empty()
    } else {
        asset_violations(assets.drop_last()) + one_asset_violations(
            assets.last(),
            assets.len() - 1,
        )
    }
}

/// What the checks find in the number of assets and the strategy.
pub open spec fn strategy_violations(c: &EngineConfig) -> Seq<(Seq<char>, Seq<char>)> {
    flag(
        c.max_assets >= c.asset_configs@.len(),
        "max_assets"@,
        "is "@ + crate::text::decimal(c.max_assets as nat) + " but only "@ + crate::text::decimal(
            c.asset_configs@.len(),
        )
            + " asset_configs provided (max_assets must be ≥ count)"@,
    ) + flag(
        c.strategy_config.confidence_minimum.between_zero_and(Real { bits: ONE_BITS }),
        "strategy_config.confidence_minimum"@,
        "must be in [0, 1]"@,
    ) + flag(
        c.strategy_config.long_entry_threshold.between_zero_and(Real { bits: ONE_BITS })
            || c.strategy_config.long_entry_threshold.not_positive(),
        "strategy_config.long_entry_threshold"@,
        "must be in [-1, 1] range"@,
    ) + flag(
        c.strategy_config.volume_ratio_clamp.between_zero_and(Real { bits: ONE_BITS }),
        "strategy_config.volume_ratio_clamp"@,
        "must be in [0, 1]"@,
    )
}

/// What the checks find in the channels.
pub open spec fn channel_violations(c: &EngineConfig) -> Seq<(Seq<char>, Seq<char>)> {
    flag(
        c.channel_config.per_asset_tick_channel_capacity > 0,
        "channel_config.per_asset_tick_channel_capacity"@,
        "must be > 0"@,
    ) + flag(
        c.channel_config.feature_channel_capacity > 0,
        "channel_config.feature_channel_capacity"@,
        "must be > 0"@,
    ) + flag(
        c.channel_config.risk_channel_capacity > 0,
        "channel_config.risk_channel_capacity"@,
        "must be > 0"@,
    ) + flag(
        c.channel_config.decision_channel_capacity > 0,
        "channel_config.decision_channel_capacity"@,
        "must be > 0"@,
    )
}

/// What the checks find in the execution defaults, the reactor and the threads.
pub open spec fn runtime_violations(c: &EngineConfig) -> Seq<(Seq<char>, Seq<char>)> {
    flag(
        c.execution_defaults.default_order_quantity.positive(),
        "execution_defaults.default_order_quantity"@,
        "must be positive"@,
    ) + flag(
        c.execution_defaults.execution_per_symbol_rate_divisor.positive(),
        "execution_defaults.execution_per_symbol_rate_divisor"@,
        "must be positive"@,
    ) + flag(
        c.reactor_config.max_batch_size > 0,
        "reactor_config.max_batch_size"@,
        "must be > 0"@,
    ) + flag(
        c.threading_config.tick_processing_budget_us > 0,
        "threading_config.tick_processing_budget_us"@,
        "must be > 0"@,
    )
}

/// Everything that the checks find, in order.
pub open spec fn config_violations(c: &EngineConfig, e: &ExposureCheck) -> Seq<
    (Seq<char>, Seq<char>),
> {
    risk_violations(c, e) + asset_violations(c.asset_configs@) + strategy_violations(c)
        + channel_violations(c) + runtime_violations(c)
}

impl EngineConfig {
    /// Whether both hold the same settings.
    pub open spec fn same(&self, other: &Self) -> bool {
        &&& self.max_assets == other.max_assets
        &&& same_assets(self.asset_configs@, other.asset_configs@)
        &&& self.risk_config.same(&other.risk_config)
        &&& self.strategy_config == other.strategy_config
        &&& self.broker_config.same(&other.broker_config)
        &&& self.feature_config.same(&other.feature_config)
        &&& self.model_config.same(&other.model_config)
        &&& self.journal_config.same(&other.journal_config)
        &&& self.threading_config == other.threading_config
        &&& self.execution_defaults == other.execution_defaults
        &&& self.circuit_breaker_config == other.circuit_breaker_config
        &&& self.channel_config == other.channel_config
        &&& self.reactor_config == other.reactor_config
        &&& self.validator_config == other.validator_config
        &&& self.api_key@ == other.api_key@
        &&& self.control_plane_rate_limit == other.control_plane_rate_limit
        &&& self.safe_mode == other.safe_mode
    }

    /// Checks that the settings are consistent and safe. All violations are reported at once.
    pub fn validate(&self, exposure: &ExposureCheck) -> (r: Result<(), ConfigValidationError>)
        ensures
            match r {
                Ok(()) => config_violations(self, exposure).len() == 0,
                Err(e) => e.violations@.len() > 0 && pairs(e.violations@) == config_violations(
                    self,
                    exposure,
                ),
            },
    {
        let mut v: Vec<ConfigViolation> = Vec::new();
        assert(pairs(v@) =~= Seq::<(Seq<char>, Seq<char>)>::empty());
        self.check_risk(exposure, &mut v);
        self.check_assets(&mut v);
        self.check_strategy(&mut v);
        self.check_channels(&mut v);
        self.check_runtime(&mut v);
        proof {
            assert(pairs(v@) =~= config_violations(self, exposure));
            assert(pairs(v@).len() == v@.len());
        }
        if v.len() == 0 {
            Ok(())
        } else {
            Err(ConfigValidationError::new(v))
        }
    }

    fn check_risk(&self, exposure: &ExposureCheck, v: &mut Vec<ConfigViolation>)
        ensures
            pairs(final(v)@) == pairs(old(v)@) + risk_violations(self, exposure),
    {
        check(
            self.risk_config.max_leverage.is_positive(),
            "risk_config.max_leverage",
            "must be positive (got negative or zero leverage)",
            v,
        );
        check(
            self.risk_config.max_position_per_symbol.is_positive(),
            "risk_config.max_position_per_symbol",
            "must be positive",
            v,
        );
        check(
            self.risk_config.max_portfolio_exposure.is_positive(),
            "risk_config.max_portfolio_exposure",
            "must be positive",
            v,
        );
        check(
            self.risk_config.max_drawdown_pct.in_zero_to(&Real { bits: HUNDRED_BITS }),
            "risk_config.max_drawdown_pct",
            "must be in [0, 100]",
            v,
        );
        let mut msg = "per-symbol position (".to_owned();
        msg.append(exposure.implied_max_text.as_str());
        msg.append(") × asset count exceeds 10× portfolio exposure (");
        msg.append(exposure.max_exposure_text.as_str());
        msg.append(")");
        check(
            exposure.implied_max.le(&exposure.exposure_limit),
            "risk_config.max_position_per_symbol",
            msg.as_str(),
            v,
        );
        assert(pairs(v@) =~= pairs(old(v)@) + risk_violations(self, exposure));
    }

    fn check_assets(&self, v: &mut Vec<ConfigViolation>)
        ensures
            pairs(final(v)@) == pairs(old(v)@) + asset_violations(self.asset_configs@),
    {
        let ghost all = self.asset_configs@;
        let mut i: usize = 0;
        assert(all.take(0) =~= Seq::<AssetConfig>::empty());
        assert(pairs(v@) + asset_violations(all.take(0)) =~= pairs(v@));
        while i < self.asset_configs.len()
            invariant
                all == self.asset_configs@,
                i <= all.len(),
                pairs(v@) == pairs(old(v)@) + asset_violations(all.take(i as int)),
            decreases all.len() - i,
        {
            let ghost before = pairs(v@);
            let a = &self.asset_configs[i];
            check(
                !a.max_position.nan() && a.max_position.in_zero_to(
                    &Real { bits: 0x7ff0_0000_0000_0000 },
                ),
                asset_field_text(i, a.symbol.as_str(), ".max_position").as_str(),
                "must be non-negative",
                v,
            );
            check(
                a.tick_size.is_positive(),
                asset_field_text(i, a.symbol.as_str(), ".tick_size").as_str(),
                "must be positive",
                v,
            );
            check(
                !a.symbol.as_str().is_empty(),
                asset_field_text(i, a.symbol.as_str(), ".symbol").as_str(),
                "must not be empty",
                v,
            );
            proof {
                let t = all.take(i + 1);
                assert(t.drop_last() =~= all.take(i as int));
                assert(t.last() == *a);
                assert(pairs(v@) =~= before + one_asset_violations(*a, i as int));
                assert(pairs(v@) =~= pairs(old(v)@) + asset_violations(t));
            }
            i += 1;
        }
        assert(all.take(i as int) =~= all);
    }

    fn check_strategy(&self, v: &mut Vec<ConfigViolation>)
        ensures
            pairs(final(v)@) == pairs(old(v)@) + strategy_violations(self),
    {
        let mut msg = "is ".to_owned();
        push_usize(&mut msg, self.max_assets);
        msg.append(" but only ");
        push_usize(&mut msg, self.asset_configs.len());
        msg.append(" asset_configs provided (max_assets must be ≥ count)");
        check(self.max_assets >= self.asset_configs.len(), "max_assets", msg.as_str(), v);
        let one = Real { bits: ONE_BITS };
        check(
            self.strategy_config.confidence_minimum.in_zero_to(&one),
            "strategy_config.confidence_minimum",
            "must be in [0, 1]",
            v,
        );
        check(
            self.strategy_config.long_entry_threshold.in_zero_to(&one)
                || self.strategy_config.long_entry_threshold.is_not_positive(),
            "strategy_config.long_entry_threshold",
            "must be in [-1, 1] range",
            v,
        );
        check(
            self.strategy_config.volume_ratio_clamp.in_zero_to(&one),
            "strategy_config.volume_ratio_clamp",
            "must be in [0, 1]",
            v,
        );
        assert(pairs(v@) =~= pairs(old(v)@) + strategy_violations(self));
    }

    fn check_channels(&self, v: &mut Vec<ConfigViolation>)
        ensures
            pairs(final(v)@) == pairs(old(v)@) + channel_violations(self),
    {
        check(
            self.channel_config.per_asset_tick_channel_capacity > 0,
            "channel_config.per_asset_tick_channel_capacity",
            "must be > 0",
            v,
        );
        check(
            self.channel_config.feature_channel_capacity > 0,
            "channel_config.feature_channel_capacity",
            "must be > 0",
            v,
        );
        check(
            self.channel_config.risk_channel_capacity > 0,
            "channel_config.risk_channel_capacity",
            "must be > 0",
            v,
        );
        check(
            self.channel_config.decision_channel_capacity > 0,
            "channel_config.decision_channel_capacity",
            "must be > 0",
            v,
        );
        assert(pairs(v@) =~= pairs(old(v)@) + channel_violations(self));
    }

    fn check_runtime(&self, v: &mut Vec<ConfigViolation>)
        ensures
            pairs(final(v)@) == pairs(old(v)@) + runtime_violations(self),
    {
        check(
            self.execution_defaults.default_order_quantity.is_positive(),
            "execution_defaults.default_order_quantity",
            "must be positive",
            v,
        );
        check(
            self.execution_defaults.execution_per_symbol_rate_divisor.is_positive(),
            "execution_defaults.execution_per_symbol_rate_divisor",
            "must be positive",
            v,
        );
        check(
            self.reactor_config.max_batch_size > 0,
            "reactor_config.max_batch_size",
            "must be > 0",
            v,
        );
        check(
            self.threading_config.tick_processing_budget_us > 0,
            "threading_config.tick_processing_budget_us",
            "must be > 0",
            v,
        );
        assert(pairs(v@) =~= pairs(old(v)@) + runtime_violations(self));
    }
}

fn asset_field_text(i: usize, symbol: &str, part: &str) -> (s: String)
    ensures
        s@ == asset_field(i as int, symbol@, part@),
{
    let mut s = "asset_configs[".to_owned();
    push_usize(&mut s, i);
    s.append("].");
    s.append(symbol);
    s.append(part);
    s
}

/// A configuration without violations has a positive leverage, position limit and exposure, a
/// drawdown between 0 and 100, and room for all its assets, each of which has a name, a positive
/// tick size and a position limit that is not negative.
pub proof fn law_valid_config_is_safe(c: &EngineConfig, e: &ExposureCheck)
    requires
        config_violations(c, e).len() == 0,
    ensures
        c.risk_config.max_leverage.positive(),
        c.risk_config.max_position_per_symbol.positive(),
        c.risk_config.max_portfolio_exposure.positive(),
        c.risk_config.max_drawdown_pct.between_zero_and(Real { bits: HUNDRED_BITS }),
        c.max_assets >= c.asset_configs@.len(),
        forall|i: int|
            0 <= i < c.asset_configs@.len() ==> (#[trigger] c.asset_configs@[i]).symbol@.len() > 0
                && c.asset_configs@[i].tick_size.positive() && c.asset_configs@[i].max_position.rank()
                >= 0,
{
    assert forall|i: int| 0 <= i < c.asset_configs@.len() implies (
    #[trigger] c.asset_configs@[i]).symbol@.len() > 0 && c.asset_configs@[i].tick_size.positive()
        && c.asset_configs@[i].max_position.rank() >= 0 by {
        lemma_asset_ok(c.asset_configs@, i);
    }
}

proof fn lemma_asset_ok(assets: Seq<AssetConfig>, i: int)
    requires
        asset_violations(assets).len() == 0,
        0 <= i < assets.len(),
    ensures
        one_asset_violations(assets[i], i).len() == 0,
    decreases assets.len(),
{
    if i < assets.len() - 1 {
        lemma_asset_ok(assets.drop_last(), i);
    }
}

// ---------------------------------------------------------------------------
// Overrides
// ---------------------------------------------------------------------------

/// The assets that a comma-separated list of symbols names.
pub open spec fn listed_assets(assets: Seq<AssetConfig>, symbols: Seq<char>) -> bool {
    let parts = crate::text::split_all(symbols, ',');
    &&& assets.len() == parts.len()
    &&& forall|i: int| 0 <= i < parts.len()
        ==> default_asset_of(#[trigger] assets[i], crate::text::trimmed(parts[i]))
}

/// Whether a text asks for paper trading: all but the word `false` do.
pub open spec fn paper_wanted(s: Seq<char>) -> bool {
    s != "false"@
}

impl EngineConfig {
    /// Replaces settings by those given from outside: the broker's credentials, the trading mode
    /// and a comma-separated list of symbols.
    pub fn apply_overrides(
        &mut self,
        api_key: Option<String>,
        api_secret: Option<String>,
        paper: Option<String>,
        symbols: Option<String>,
    )
        ensures
            final(self).broker_config.api_key@ == (match api_key {
                Some(k) => k@,
                None => old(self).broker_config.api_key@,
            }),
            final(self).broker_config.api_secret@ == (match api_secret {
                Some(k) => k@,
                None => old(self).broker_config.api_secret@,
            }),
            final(self).broker_config.paper_trading == (match paper {
                Some(p) => paper_wanted(p@),
                None => old(self).broker_config.paper_trading,
            }),
            match symbols {
                Some(s) => listed_assets(final(self).asset_configs@, s@),
                None => final(self).asset_configs == old(self).asset_configs,
            },
            *final(self) == (EngineConfig {
                asset_configs: final(self).asset_configs,
                broker_config: BrokerConfig {
                    api_key: final(self).broker_config.api_key,
                    api_secret: final(self).broker_config.api_secret,
                    paper_trading: final(self).broker_config.paper_trading,
                    ..old(self).broker_config
                },
                ..*old(self)
            }),
    {
        match api_key {
            Some(k) => {
                self.broker_config.api_key = SecretString::new(k.as_str());
            },
            None => {},
        }
        match api_secret {
            Some(k) => {
                self.broker_config.api_secret = SecretString::new(k.as_str());
            },
            None => {},
        }
        match paper {
            Some(p) => {
                self.broker_config.paper_trading = !str_eq(p.as_str(), "false");
            },
            None => {},
        }
        match symbols {
            Some(s) => {
                let parts = split(s.as_str(), ',');
                let mut assets: Vec<AssetConfig> = Vec::new();
                let mut i: usize = 0;
                assert(crate::text::views(parts@).len() == parts@.len());
                while i < parts.len()
                    invariant
                        i <= parts@.len(),
                        assets@.len() == i,
                        forall|j: int|
                            0 <= j < i ==> default_asset_of(
                                #[trigger] assets@[j],
                                crate::text::trimmed(crate::text::views(parts@)[j]),
                            ),
                    decreases parts@.len() - i,
                {
                    assert(crate::text::views(parts@)[i as int] == parts@[i as int]@);
                    assets.push(default_asset(trim(parts[i].as_str()).as_str()));
                    i += 1;
                }
                self.asset_configs = assets;
            },
            None => {},
        }
    }

    /// Switches to safe mode: no asset stays enabled.
    pub fn enter_safe_mode(&mut self)
        ensures
            final(self).safe_mode,
            final(self).asset_configs@.len() == old(self).asset_configs@.len(),
            forall|i: int|
                0 <= i < final(self).asset_configs@.len()
                    ==> #[trigger] final(self).asset_configs@[i] == (AssetConfig {
                    enabled: false,
                    ..old(self).asset_configs@[i]
                }),
            *final(self) == (EngineConfig {
                safe_mode: true,
                asset_configs: final(self).asset_configs,
                ..*old(self)
            }),
    {
        self.safe_mode = true;
        let n: usize = self.asset_configs.len();
        let mut i: usize = 0;
        while i < n
            invariant
                i <= n,
                n == self.asset_configs@.len(),
                n == old(self).asset_configs@.len(),
                forall|j: int|
                    0 <= j < i ==> #[trigger] self.asset_configs@[j] == (AssetConfig {
                        enabled: false,
                        ..old(self).asset_configs@[j]
                    }),
                forall|j: int|
                    i <= j < n ==> #[trigger] self.asset_configs@[j] == old(self).asset_configs@[j],
                *self == (EngineConfig {
                    safe_mode: true,
                    asset_configs: self.asset_configs,
                    ..*old(self)
                }),
            decreases n - i,
        {
            self.asset_configs[i].enabled = false;
            i += 1;
        }
    }

    /// The place of the asset with a symbol, the first one where there are several.
    pub open spec fn asset_place(&self, symbol: Seq<char>, i: int) -> bool {
        &&& 0 <= i < self.asset_configs@.len()
        &&& self.asset_configs@[i].symbol@ == symbol
        &&& forall|j: int| 0 <= j < i ==> (#[trigger] self.asset_configs@[j]).symbol@ != symbol
    }

    /// Whether no asset has the symbol.
    pub open spec fn lacks_asset(&self, symbol: Seq<char>) -> bool {
        forall|j: int|
            0 <= j < self.asset_configs@.len() ==> (#[trigger] self.asset_configs@[j]).symbol@
                != symbol
    }

    /// The place of the first asset with a symbol.
    pub fn find_asset(&self, symbol: &str) -> (r: Option<usize>)
        ensures
            match r {
                Some(i) => self.asset_place(symbol@, i as int),
                None => self.lacks_asset(symbol@),
            },
    {
        let mut i: usize = 0;
        while i < self.asset_configs.len()
            invariant
                i <= self.asset_configs@.len(),
                forall|j: int|
                    0 <= j < i ==> (#[trigger] self.asset_configs@[j]).symbol@ != symbol@,
            decreases self.asset_configs@.len() - i,
        {
            if str_eq(self.asset_configs[i].symbol.as_str(), symbol) {
                return Some(i);
            }
            i += 1;
        }
        None
    }

    /// The symbols of the enabled assets, in order.
    pub open spec fn enabled_symbols(assets: Seq<AssetConfig>) -> Seq<Seq<char>>
        decreases assets.len(),
    {
        if assets.len() == 0 {
            Seq::empty()
        } else if assets.last().enabled {
            Self::enabled_symbols(assets.drop_last()).push(assets.last().symbol@)
        } else {
            Self::enabled_symbols(assets.drop_last())
        }
    }

    /// The symbols of the enabled assets, in order.
    pub fn enabled_assets(&self) -> (out: Vec<String>)
        ensures
            crate::text::views(out@) == Self::enabled_symbols(self.asset_configs@),
    {
        let mut out: Vec<String> = Vec::new();
        let ghost all = self.asset_configs@;
        let mut i: usize = 0;
        assert(all.take(0) =~= Seq::<AssetConfig>::empty());
        assert(crate::text::views(out@) =~= Seq::<Seq<char>>::empty());
        while i < self.asset_configs.len()
            invariant
                all == self.asset_configs@,
                i <= all.len(),
                crate::text::views(out@) == Self::enabled_symbols(all.take(i as int)),
            decreases all.len() - i,
        {
            let ghost before = out@;
            proof {
                assert(all.take(i + 1).drop_last() =~= all.take(i as int));
                assert(all.take(i + 1).last() == all[i as int]);
            }
            if self.asset_configs[i].enabled {
                out.push(self.asset_configs[i].symbol.clone());
                assert(
                    crate::text::views(out@)
                        =~= crate::text::views(before).push(all[i as int].symbol@)
                );
            }
            i += 1;
        }
        assert(all.take(i as int) =~= all);
        out
    }
}

// ---------------------------------------------------------------------------
// Changes
// ---------------------------------------------------------------------------

/// Which settings changed that take effect only after a restart or a rebuild.
#[derive(Debug, Clone, Copy, PartialEq, Eq, Structural)]
pub struct ConfigChanges {
    pub feature: bool,
    pub model: bool,
    pub assets: bool,
    pub threading: bool,
    pub channel: bool,
    pub broker: bool,
}

/// Whether two numbers are shown alike: the same pattern, or both no number.
pub open spec fn shown_alike(a: Real, b: Real) -> bool {
    a == b || (a.is_nan() && b.is_nan())
}

fn alike(a: &Real, b: &Real) -> (r: bool)
    ensures
        r == shown_alike(*a, *b),
{
    a.bits == b.bits || (a.nan() && b.nan())
}

fn sizes_eq(a: &Vec<usize>, b: &Vec<usize>) -> (r: bool)
    ensures
        r == (a@ == b@),
{
    if a.len() != b.len() {
        return false;
    }
    let mut i: usize = 0;
    while i < a.len()
        invariant
            a@.len() == b@.len(),
            i <= a@.len(),
            forall|j: int| 0 <= j < i ==> a@[j] == b@[j],
        decreases a@.len() - i,
    {
        if a[i] != b[i] {
            return false;
        }
        i += 1;
    }
    assert(a@ =~= b@);
    true
}

/// Whether both are shown alike.
pub open spec fn feature_alike(a: &FeatureConfig, b: &FeatureConfig) -> bool {
    &&& a.rsi_period == b.rsi_period
    &&& a.macd_fast == b.macd_fast
    &&& a.macd_slow == b.macd_slow
    &&& a.macd_signal == b.macd_signal
    &&& a.atr_period == b.atr_period
    &&& a.ema_periods@ == b.ema_periods@
    &&& a.rolling_window_sizes@ == b.rolling_window_sizes@
    &&& shown_alike(a.volume_ratio_clamp, b.volume_ratio_clamp)
    &&& shown_alike(a.regime_volatile_atr_threshold, b.regime_volatile_atr_threshold)
    &&& shown_alike(a.regime_strength_atr_divisor, b.regime_strength_atr_divisor)
    &&& shown_alike(a.regime_trending_threshold, b.regime_trending_threshold)
    &&& a.price_window_size == b.price_window_size
    &&& a.volume_window_size == b.volume_window_size
    &&& a.spread_window_size == b.spread_window_size
    &&& a.return_1_window == b.return_1_window
    &&& a.return_5_window == b.return_5_window
    &&& a.return_20_window == b.return_20_window
    &&& a.feature_capacity == b.feature_capacity
}

fn feature_eq(a: &FeatureConfig, b: &FeatureConfig) -> (r: bool)
    ensures
        r == feature_alike(a, b),
{
    a.rsi_period == b.rsi_period
        && a.macd_fast == b.macd_fast
        && a.macd_slow == b.macd_slow
        && a.macd_signal == b.macd_signal
        && a.atr_period == b.atr_period
        && sizes_eq(&a.ema_periods, &b.ema_periods)
        && sizes_eq(&a.rolling_window_sizes, &b.rolling_window_sizes)
        && alike(&a.volume_ratio_clamp, &b.volume_ratio_clamp)
        && alike(&a.regime_volatile_atr_threshold, &b.regime_volatile_atr_threshold)
        && alike(&a.regime_strength_atr_divisor, &b.regime_strength_atr_divisor)
        && alike(&a.regime_trending_threshold, &b.regime_trending_threshold)
        && a.price_window_size == b.price_window_size
        && a.volume_window_size == b.volume_window_size
        && a.spread_window_size == b.spread_window_size
        && a.return_1_window == b.return_1_window
        && a.return_5_window == b.return_5_window
        && a.return_20_window == b.return_20_window
        && a.feature_capacity == b.feature_capacity
}

/// Whether both are shown alike.
pub open spec fn model_alike(a: &ModelConfig, b: &ModelConfig) -> bool {
    &&& a.model_dir@ == b.model_dir@
    &&& a.inference_threads == b.inference_threads
    &&& a.max_inference_latency_ms == b.max_inference_latency_ms
    &&& a.feature_vector_size == b.feature_vector_size
    &&& shown_alike(a.action_score_rsi_weight, b.action_score_rsi_weight)
    &&& shown_alike(a.action_score_macd_weight, b.action_score_macd_weight)
    &&& shown_alike(a.action_score_volatility_weight, b.action_score_volatility_weight)
    &&& shown_alike(a.atr_penalty_threshold, b.atr_penalty_threshold)
    &&& shown_alike(a.atr_penalty_value, b.atr_penalty_value)
    &&& shown_alike(a.rsi_overbought, b.rsi_overbought)
    &&& shown_alike(a.rsi_oversold, b.rsi_oversold)
    &&& shown_alike(a.rsi_neutral, b.rsi_neutral)
    &&& shown_alike(a.forecast_trend_weight, b.forecast_trend_weight)
    &&& shown_alike(a.forecast_momentum_weight, b.forecast_momentum_weight)
    &&& shown_alike(a.forecast_volume_weight, b.forecast_volume_weight)
    &&& shown_alike(a.confidence_rsi_weight, b.confidence_rsi_weight)
    &&& shown_alike(a.confidence_macd_weight, b.confidence_macd_weight)
    &&& shown_alike(a.confidence_regime_weight, b.confidence_regime_weight)
    &&& shown_alike(a.volume_confirmation_threshold, b.volume_confirmation_threshold)
}

fn model_eq(a: &ModelConfig, b: &ModelConfig) -> (r: bool)
    ensures
        r == model_alike(a, b),
{
    str_eq(a.model_dir.as_str(), b.model_dir.as_str())
        && a.inference_threads == b.inference_threads
        && a.max_inference_latency_ms == b.max_inference_latency_ms
        && a.feature_vector_size == b.feature_vector_size
        && alike(&a.action_score_rsi_weight, &b.action_score_rsi_weight)
        && alike(&a.action_score_macd_weight, &b.action_score_macd_weight)
        && alike(&a.action_score_volatility_weight, &b.action_score_volatility_weight)
        && alike(&a.atr_penalty_threshold, &b.atr_penalty_threshold)
        && alike(&a.atr_penalty_value, &b.atr_penalty_value)
        && alike(&a.rsi_overbought, &b.rsi_overbought)
        && alike(&a.rsi_oversold, &b.rsi_oversold)
        && alike(&a.rsi_neutral, &b.rsi_neutral)
        && alike(&a.forecast_trend_weight, &b.forecast_trend_weight)
        && alike(&a.forecast_momentum_weight, &b.forecast_momentum_weight)
        && alike(&a.forecast_volume_weight, &b.forecast_volume_weight)
        && alike(&a.confidence_rsi_weight, &b.confidence_rsi_weight)
        && alike(&a.confidence_macd_weight, &b.confidence_macd_weight)
        && alike(&a.confidence_regime_weight, &b.confidence_regime_weight)
        && alike(&a.volume_confirmation_threshold, &b.volume_confirmation_threshold)
}

/// Whether both lists of assets are shown alike.
pub open spec fn assets_alike(a: Seq<AssetConfig>, b: Seq<AssetConfig>) -> bool {
    &&& a.len() == b.len()
    &&& forall|i: int|
        0 <= i < a.len() ==> (#[trigger] a[i]).symbol@ == b[i].symbol@ && a[i].enabled
            == b[i].enabled && shown_alike(a[i].max_position, b[i].max_position) && shown_alike(
            a[i].tick_size,
            b[i].tick_size,
        )
}

fn assets_eq(a: &Vec<AssetConfig>, b: &Vec<AssetConfig>) -> (r: bool)
    ensures
        r == assets_alike(a@, b@),
{
    if a.len() != b.len() {
        return false;
    }
    let mut i: usize = 0;
    while i < a.len()
        invariant
            a@.len() == b@.len(),
            i <= a@.len(),
            forall|j: int|
                0 <= j < i ==> (#[trigger] a@[j]).symbol@ == b@[j].symbol@ && a@[j].enabled
                    == b@[j].enabled && shown_alike(a@[j].max_position, b@[j].max_position)
                    && shown_alike(a@[j].tick_size, b@[j].tick_size),
        decreases a@.len() - i,
    {
        if !(str_eq(a[i].symbol.as_str(), b[i].symbol.as_str()) && a[i].enabled == b[i].enabled
            && alike(&a[i].max_position, &b[i].max_position) && alike(
            &a[i].tick_size,
            &b[i].tick_size,
        )) {
            return false;
        }
        i += 1;
    }
    true
}

fn broker_eq(a: &BrokerConfig, b: &BrokerConfig) -> (r: bool)
    ensures
        r == a.same_visible(b),
{
    str_eq(a.broker_type.as_str(), b.broker_type.as_str()) && a.paper_trading == b.paper_trading
        && str_eq(a.ws_url.as_str(), b.ws_url.as_str()) && str_eq(
        a.rest_url.as_str(),
        b.rest_url.as_str(),
    ) && a.max_retries == b.max_retries && a.retry_backoff_ms == b.retry_backoff_ms
}

/// The settings that changed and take effect only after a restart or a rebuild. A change of the
/// broker's secrets alone does not show.
pub fn check_non_hot_swappable_config_changes(old_cfg: &EngineConfig, new_cfg: &EngineConfig) -> (r:
    ConfigChanges)
    ensures
        r.feature == !feature_alike(&old_cfg.feature_config, &new_cfg.feature_config),
        r.model == !model_alike(&old_cfg.model_config, &new_cfg.model_config),
        r.assets == !assets_alike(old_cfg.asset_configs@, new_cfg.asset_configs@),
        r.threading == (old_cfg.threading_config != new_cfg.threading_config),
        r.channel == (old_cfg.channel_config != new_cfg.channel_config),
        r.broker == !old_cfg.broker_config.same_visible(&new_cfg.broker_config),
{
    ConfigChanges {
        feature: !feature_eq(&old_cfg.feature_config, &new_cfg.feature_config),
        model: !model_eq(&old_cfg.model_config, &new_cfg.model_config),
        assets: !assets_eq(&old_cfg.asset_configs, &new_cfg.asset_configs),
        threading: old_cfg.threading_config != new_cfg.threading_config,
        channel: old_cfg.channel_config != new_cfg.channel_config,
        broker: !broker_eq(&old_cfg.broker_config, &new_cfg.broker_config),
    }
}

/// A configuration is valid just where every rule holds: the limits of risk are above zero, the
/// drawdown lies between 0 and 100 and the positions within ten times the exposure; every asset has a
/// name, a tick size above zero and a position limit that is not below it, and there is room for all;
/// the strategy's figures lie in their ranges; no channel, batch or time is of size zero; and the
/// defaults of orders are above zero.
pub proof fn law_config_is_valid_by_its_rules(c: &EngineConfig, e: &ExposureCheck)
    ensures
        config_violations(c, e).len() == 0 <==> {
            let hundred: int = 0x4059_0000_0000_0000;
            let one: int = 0x3ff0_0000_0000_0000;
            &&& above_zero(c.risk_config.max_leverage)
            &&& above_zero(c.risk_config.max_position_per_symbol)
            &&& above_zero(c.risk_config.max_portfolio_exposure)
            &&& !c.risk_config.max_drawdown_pct.is_nan()
            &&& 0 <= c.risk_config.max_drawdown_pct.rank() <= hundred
            &&& !e.implied_max.is_nan() && !e.exposure_limit.is_nan() && e.implied_max.rank()
                <= e.exposure_limit.rank()
            &&& forall|i: int|
                0 <= i < c.asset_configs@.len() ==> (#[trigger] c.asset_configs@[i]).symbol@.len()
                    > 0 && above_zero(c.asset_configs@[i].tick_size)
                    && !c.asset_configs@[i].max_position.is_nan()
                    && c.asset_configs@[i].max_position.rank() >= 0
            &&& c.asset_configs@.len() <= c.max_assets
            &&& !c.strategy_config.confidence_minimum.is_nan()
            &&& 0 <= c.strategy_config.confidence_minimum.rank() <= one
            &&& !c.strategy_config.long_entry_threshold.is_nan()
            &&& c.strategy_config.long_entry_threshold.rank() <= one
            &&& !c.strategy_config.volume_ratio_clamp.is_nan()
            &&& 0 <= c.strategy_config.volume_ratio_clamp.rank() <= one
            &&& c.channel_config.per_asset_tick_channel_capacity > 0
            &&& c.channel_config.feature_channel_capacity > 0
            &&& c.channel_config.risk_channel_capacity > 0
            &&& c.channel_config.decision_channel_capacity > 0
            &&& above_zero(c.execution_defaults.default_order_quantity)
            &&& above_zero(c.execution_defaults.execution_per_symbol_rate_divisor)
            &&& c.reactor_config.max_batch_size > 0
            &&& c.threading_config.tick_processing_budget_us > 0
        },
{
    let a = c.asset_configs@;
    if asset_violations(a).len() == 0 {
        assert forall|i: int| 0 <= i < a.len() implies (#[trigger] a[i]).symbol@.len() > 0
            && above_zero(a[i].tick_size) && !a[i].max_position.is_nan() && a[i].max_position.rank()
            >= 0 by {
            lemma_asset_ok(a, i);
        }
    }
    if forall|i: int|
        0 <= i < a.len() ==> (#[trigger] a[i]).symbol@.len() > 0 && above_zero(a[i].tick_size)
            && !a[i].max_position.is_nan() && a[i].max_position.rank() >= 0 {
        lemma_assets_all_ok(a);
    }
}

/// Whether a figure is a number above zero.
pub open spec fn above_zero(r: Real) -> bool {
    !r.is_nan() && r.rank() > 0
}

proof fn lemma_assets_all_ok(assets: Seq<AssetConfig>)
    requires
        forall|i: int|
            0 <= i < assets.len() ==> (#[trigger] assets[i]).symbol@.len() > 0 && above_zero(
                assets[i].tick_size,
            ) && !assets[i].max_position.is_nan() && assets[i].max_position.rank() >= 0,
    ensures
        asset_violations(assets).len() == 0,
    decreases assets.len(),
{
    if assets.len() > 0 {
        let front = assets.drop_last();
        assert forall|i: int| 0 <= i < front.len() implies (#[trigger] front[i]).symbol@.len() > 0
            && above_zero(front[i].tick_size) && !front[i].max_position.is_nan()
            && front[i].max_position.rank() >= 0 by {
            assert(front[i] == assets[i]);
        }
        lemma_assets_all_ok(front);
        let last = assets[assets.len() - 1];
        assert(last.symbol@.len() > 0);
    }
}

/// Which rule is reported first where rules of risk are broken: the first of leverage, position,
/// exposure and drawdown, under its name.
pub proof fn law_broken_rules_of_risk_are_named(c: &EngineConfig, e: &ExposureCheck)
    ensures
        ({
            let v = config_violations(c, e);
            let leverage = above_zero(c.risk_config.max_leverage);
            let position = above_zero(c.risk_config.max_position_per_symbol);
            let exposure = above_zero(c.risk_config.max_portfolio_exposure);
            let drawdown = !c.risk_config.max_drawdown_pct.is_nan() && 0
                <= c.risk_config.max_drawdown_pct.rank() <= 0x4059_0000_0000_0000;
            &&& !leverage ==> v.len() > 0 && v[0] == (
                "risk_config.max_leverage"@,
                "must be positive (got negative or zero leverage)"@,
            )
            &&& leverage && !position ==> v.len() > 0 && v[0] == (
                "risk_config.max_position_per_symbol"@,
                "must be positive"@,
            )
            &&& leverage && position && !exposure ==> v.len() > 0 && v[0] == (
                "risk_config.max_portfolio_exposure"@,
                "must be positive"@,
            )
            &&& leverage && position && exposure && !drawdown ==> v.len() > 0 && v[0] == (
                "risk_config.max_drawdown_pct"@,
                "must be in [0, 100]"@,
            )
        }),
{
}

/// Which rule is reported of one asset, under its place and its name.
pub proof fn law_broken_rules_of_an_asset_are_named(a: AssetConfig, i: int)
    ensures
        ({
            let v = one_asset_violations(a, i);
            let limit = !a.max_position.is_nan() && a.max_position.rank() >= 0;
            let tick = above_zero(a.tick_size);
            let at = "asset_configs["@ + crate::text::decimal(i as nat) + "]."@ + a.symbol@;
            &&& !limit ==> v.len() > 0 && v[0] == (at + ".max_position"@, "must be non-negative"@)
            &&& limit && !tick ==> v.len() > 0 && v[0] == (at + ".tick_size"@, "must be positive"@)
            &&& limit && tick && a.symbol@.len() == 0 ==> v.len() > 0 && v[0] == (
                at + ".symbol"@,
                "must not be empty"@,
            )
        }),
{
}

/// Which rule is reported first of the channels and of the sizes at run time, under its name.
pub proof fn law_broken_sizes_are_named(c: &EngineConfig)
    ensures
        ({
            let v = channel_violations(c);
            let k = c.channel_config;
            let tick = k.per_asset_tick_channel_capacity > 0;
            let feature = k.feature_channel_capacity > 0;
            let risk = k.risk_channel_capacity > 0;
            let decision = k.decision_channel_capacity > 0;
            &&& !tick ==> v[0] == (
                "channel_config.per_asset_tick_channel_capacity"@,
                "must be > 0"@,
            )
            &&& tick && !feature ==> v[0] == (
                "channel_config.feature_channel_capacity"@,
                "must be > 0"@,
            )
            &&& tick && feature && !risk ==> v[0] == (
                "channel_config.risk_channel_capacity"@,
                "must be > 0"@,
            )
            &&& tick && feature && risk && !decision ==> v[0] == (
                "channel_config.decision_channel_capacity"@,
                "must be > 0"@,
            )
        }),
        ({
            let v = runtime_violations(c);
            let quantity = above_zero(c.execution_defaults.default_order_quantity);
            let divisor = above_zero(c.execution_defaults.execution_per_symbol_rate_divisor);
            let batch = c.reactor_config.max_batch_size > 0;
            let budget = c.threading_config.tick_processing_budget_us > 0;
            &&& !quantity ==> v[0] == (
                "execution_defaults.default_order_quantity"@,
                "must be positive"@,
            )
            &&& quantity && !divisor ==> v[0] == (
                "execution_defaults.execution_per_symbol_rate_divisor"@,
                "must be positive"@,
            )
            &&& quantity && divisor && !batch ==> v[0] == (
                "reactor_config.max_batch_size"@,
                "must be > 0"@,
            )
            &&& quantity && divisor && batch && !budget ==> v[0] == (
                "threading_config.tick_processing_budget_us"@,
                "must be > 0"@,
            )
        }),
        ({
            let v = strategy_violations(c);
            let s = c.strategy_config;
            let one: int = 0x3ff0_0000_0000_0000;
            let room = c.max_assets >= c.asset_configs@.len();
            let sure = !s.confidence_minimum.is_nan() && 0 <= s.confidence_minimum.rank() <= one;
            let entry = !s.long_entry_threshold.is_nan() && s.long_entry_threshold.rank() <= one;
            let clamp = !s.volume_ratio_clamp.is_nan() && 0 <= s.volume_ratio_clamp.rank() <= one;
            &&& !room ==> v[0].0 == "max_assets"@
            &&& room && !sure ==> v[0] == (
                "strategy_config.confidence_minimum"@,
                "must be in [0, 1]"@,
            )
            &&& room && sure && !entry ==> v[0] == (
                "strategy_config.long_entry_threshold"@,
                "must be in [-1, 1] range"@,
            )
            &&& room && sure && entry && !clamp ==> v[0] == (
                "strategy_config.volume_ratio_clamp"@,
                "must be in [0, 1]"@,
            )
        }),
{
}

/// The report of broken rules tells how many there are and then each on a line of its own, by its
/// field and what is wrong with it.
pub proof fn law_report_lists_every_broken_rule(
    v: Seq<(Seq<char>, Seq<char>)>,
    field: Seq<char>,
    message: Seq<char>,
)
    ensures
        violation_report(Seq::empty()) == Seq::<char>::empty(),
        v.len() > 0 ==> violation_report(v) == "config validation failed ("@ + crate::text::decimal(
            v.len(),
        ) + " violation(s)):\n"@ + violation_lines(v),
        violation_lines(Seq::empty()) == Seq::<char>::empty(),
        violation_lines(v.push((field, message))) == violation_lines(v) + "  • "@ + (field + ": "@
            + message) + "\n"@,
{
    assert(v.push((field, message)).drop_last() =~= v);
}

/// What is shown of the broker's settings does not tell the key or the secret: settings that differ
/// in these alone are shown alike.
pub proof fn law_secrets_are_not_shown(a: &BrokerConfig, b: &BrokerConfig)
    requires
        a.broker_type@ == b.broker_type@,
        a.paper_trading == b.paper_trading,
        a.ws_url@ == b.ws_url@,
        a.rest_url@ == b.rest_url@,
        a.max_retries == b.max_retries,
        a.retry_backoff_ms == b.retry_backoff_ms,
    ensures
        a.shown() == b.shown(),
        a.same_visible(b),
        mask() == "********"@,
        a.credentials_given() <==> a.api_key@.len() > 0 && a.api_secret@.len() > 0,
{
}

/// The enabled assets are those that are switched on, in their order.
pub proof fn law_enabled_are_switched_on(assets: Seq<AssetConfig>, a: AssetConfig)
    ensures
        EngineConfig::enabled_symbols(Seq::empty()) == Seq::<Seq<char>>::empty(),
        a.enabled ==> EngineConfig::enabled_symbols(assets.push(a))
            == EngineConfig::enabled_symbols(assets).push(a.symbol@),
        !a.enabled ==> EngineConfig::enabled_symbols(assets.push(a))
            == EngineConfig::enabled_symbols(assets),
{
    assert(assets.push(a).drop_last() =~= assets);
}

/// Assets that are only named are enabled, with a position limit of 100 and a tick size of 0.01, and
/// stand in the order of the list; what is not the word for it leaves paper trading on.
pub proof fn law_listed_assets_have_defaults(assets: Seq<AssetConfig>, symbols: Seq<char>, i: int)
    requires
        listed_assets(assets, symbols),
        0 <= i < assets.len(),
    ensures
        assets.len() == crate::text::split_all(symbols, ',').len(),
        assets[i].symbol@ == crate::text::trimmed(crate::text::split_all(symbols, ',')[i]),
        assets[i].enabled,
        assets[i].max_position.bits == 0x4059_0000_0000_0000,
        assets[i].tick_size.bits == 0x3f84_7ae1_47ae_147b,
        forall|s: Seq<char>| #[trigger] paper_wanted(s) <==> s != "false"@,
{
}

/// The checks that only advise are those of volatility and spread; all others veto.
pub proof fn law_checks_have_their_severity(m: StrMap<CheckSeverity>)
    requires
        default_severities(m),
    ensures
        m@["volatility"@] is Advisory,
        m@["spread"@] is Advisory,
        m@["kill_switch"@] is Veto,
        m@["idempotency"@] is Veto,
        m@["staleness"@] is Veto,
        m@["order_rate"@] is Veto,
        m@["position_limit"@] is Veto,
        m@["portfolio_exposure"@] is Veto,
        m@["leverage"@] is Veto,
        m@["drawdown"@] is Veto,
        m@.dom().contains("kill_switch"@),
        m@.dom().contains("spread"@),
{
    let n = check_names();
    assert(n[0] == "kill_switch"@ && n[1] == "idempotency"@ && n[2] == "staleness"@ && n[3]
        == "order_rate"@ && n[4] == "position_limit"@ && n[5] == "portfolio_exposure"@ && n[6]
        == "leverage"@ && n[7] == "drawdown"@ && n[8] == "volatility"@ && n[9] == "spread"@);
    assert forall|i: int| 0 <= i < 10 implies m@.dom().contains(#[trigger] n[i]) by {
        assert(n.contains(n[i]));
    }
    reveal_strlit("volatility");
    reveal_strlit("spread");
    reveal_strlit("kill_switch");
    reveal_strlit("idempotency");
    reveal_strlit("staleness");
    reveal_strlit("order_rate");
    reveal_strlit("position_limit");
    reveal_strlit("portfolio_exposure");
    reveal_strlit("leverage");
    reveal_strlit("drawdown");
    assert("volatility"@[0] == 'v' && "spread"@[0] == 's' && "kill_switch"@[0] == 'k'
        && "idempotency"@[0] == 'i' && "staleness"@[1] == 't' && "spread"@[1] == 'p'
        && "order_rate"@[0] == 'o' && "position_limit"@[0] == 'p' && "portfolio_exposure"@[0] == 'p'
        && "leverage"@[0] == 'l' && "drawdown"@[0] == 'd');
}

/// Two figures are shown alike just where they have the same pattern, or where neither is a number.
pub proof fn law_figures_are_shown_alike(a: Real, b: Real)
    ensures
        shown_alike(a, a),
        shown_alike(a, b) == shown_alike(b, a),
        shown_alike(a, b) && !a.is_nan() ==> a.bits == b.bits,
        a.is_nan() && !b.is_nan() ==> !shown_alike(a, b),
        a.is_nan() && b.is_nan() ==> shown_alike(a, b),
{
}

/// The settings of the features are alike just where each of them is, and always like themselves.
pub proof fn law_features_are_compared_field_by_field(a: &FeatureConfig, b: &FeatureConfig)
    ensures
        feature_alike(a, a),
        feature_alike(a, b) <==> {
            &&& b.rsi_period == a.rsi_period
            &&& b.macd_fast == a.macd_fast
            &&& b.macd_slow == a.macd_slow
            &&& b.macd_signal == a.macd_signal
            &&& b.atr_period == a.atr_period
            &&& b.ema_periods@ == a.ema_periods@
            &&& b.rolling_window_sizes@ == a.rolling_window_sizes@
            &&& shown_alike(b.volume_ratio_clamp, a.volume_ratio_clamp)
            &&& shown_alike(b.regime_volatile_atr_threshold, a.regime_volatile_atr_threshold)
            &&& shown_alike(b.regime_strength_atr_divisor, a.regime_strength_atr_divisor)
            &&& shown_alike(b.regime_trending_threshold, a.regime_trending_threshold)
            &&& b.price_window_size == a.price_window_size
            &&& b.volume_window_size == a.volume_window_size
            &&& b.spread_window_size == a.spread_window_size
            &&& b.return_1_window == a.return_1_window
            &&& b.return_5_window == a.return_5_window
            &&& b.return_20_window == a.return_20_window
            &&& b.feature_capacity == a.feature_capacity
        },
{
}

/// The settings of the model are alike just where each of them is, and always like themselves.
pub proof fn law_models_are_compared_field_by_field(a: &ModelConfig, b: &ModelConfig)
    ensures
        model_alike(a, a),
        model_alike(a, b) <==> {
            &&& b.model_dir@ == a.model_dir@
            &&& b.inference_threads == a.inference_threads
            &&& b.max_inference_latency_ms == a.max_inference_latency_ms
            &&& b.feature_vector_size == a.feature_vector_size
            &&& shown_alike(b.action_score_rsi_weight, a.action_score_rsi_weight)
            &&& shown_alike(b.action_score_macd_weight, a.action_score_macd_weight)
            &&& shown_alike(b.action_score_volatility_weight, a.action_score_volatility_weight)
            &&& shown_alike(b.atr_penalty_threshold, a.atr_penalty_threshold)
            &&& shown_alike(b.atr_penalty_value, a.atr_penalty_value)
            &&& shown_alike(b.rsi_overbought, a.rsi_overbought)
            &&& shown_alike(b.rsi_oversold, a.rsi_oversold)
            &&& shown_alike(b.rsi_neutral, a.rsi_neutral)
            &&& shown_alike(b.forecast_trend_weight, a.forecast_trend_weight)
            &&& shown_alike(b.forecast_momentum_weight, a.forecast_momentum_weight)
            &&& shown_alike(b.forecast_volume_weight, a.forecast_volume_weight)
            &&& shown_alike(b.confidence_rsi_weight, a.confidence_rsi_weight)
            &&& shown_alike(b.confidence_macd_weight, a.confidence_macd_weight)
            &&& shown_alike(b.confidence_regime_weight, a.confidence_regime_weight)
            &&& shown_alike(b.volume_confirmation_threshold, a.volume_confirmation_threshold)
        },
{
}

/// Assets are alike just where each is like the one at its place, and always like themselves.
pub proof fn law_assets_are_compared_one_by_one(a: Seq<AssetConfig>, b: Seq<AssetConfig>, i: int)
    ensures
        assets_alike(a, a),
        assets_alike(a, b) ==> a.len() == b.len(),
        assets_alike(a, b) && 0 <= i < a.len() ==> a[i].symbol@ == b[i].symbol@ && a[i].enabled
            == b[i].enabled && shown_alike(a[i].max_position, b[i].max_position) && shown_alike(
            a[i].tick_size,
            b[i].tick_size,
        ),
        a.len() == b.len() && 0 <= i < a.len() && (a[i].symbol@ != b[i].symbol@ || a[i].enabled
            != b[i].enabled) ==> !assets_alike(a, b),
{
}

/// A copy of a configuration is the same in every part, and a configuration is the same as itself.
pub proof fn law_copies_are_the_same(a: &EngineConfig, b: &EngineConfig)
    ensures
        a.same(a),
        a.same(b) ==> {
            &&& b.max_assets == a.max_assets
            &&& b.asset_configs@.len() == a.asset_configs@.len()
            &&& forall|i: int|
                0 <= i < a.asset_configs@.len() ==> (#[trigger] b.asset_configs@[i]).symbol@
                    == a.asset_configs@[i].symbol@ && b.asset_configs@[i].enabled
                    == a.asset_configs@[i].enabled && b.asset_configs@[i].max_position
                    == a.asset_configs@[i].max_position && b.asset_configs@[i].tick_size
                    == a.asset_configs@[i].tick_size
            &&& b.strategy_config == a.strategy_config
            &&& b.broker_config.api_key@ == a.broker_config.api_key@
            &&& b.broker_config.api_secret@ == a.broker_config.api_secret@
            &&& b.broker_config.broker_type@ == a.broker_config.broker_type@
            &&& b.broker_config.paper_trading == a.broker_config.paper_trading
            &&& b.broker_config.ws_url@ == a.broker_config.ws_url@
            &&& b.broker_config.rest_url@ == a.broker_config.rest_url@
            &&& b.broker_config.max_retries == a.broker_config.max_retries
            &&& b.broker_config.retry_backoff_ms == a.broker_config.retry_backoff_ms
            &&& b.threading_config == a.threading_config
            &&& b.execution_defaults == a.execution_defaults
            &&& b.circuit_breaker_config == a.circuit_breaker_config
            &&& b.channel_config == a.channel_config
            &&& b.reactor_config == a.reactor_config
            &&& b.validator_config == a.validator_config
            &&& b.api_key@ == a.api_key@
            &&& b.control_plane_rate_limit == a.control_plane_rate_limit
            &&& b.safe_mode == a.safe_mode
            &&& b.risk_config.max_portfolio_exposure == a.risk_config.max_portfolio_exposure
            &&& b.risk_config.max_leverage == a.risk_config.max_leverage
            &&& b.risk_config.max_drawdown_pct == a.risk_config.max_drawdown_pct
            &&& b.risk_config.max_order_rate_per_sec == a.risk_config.max_order_rate_per_sec
            &&& b.risk_config.max_position_per_symbol == a.risk_config.max_position_per_symbol
            &&& b.risk_config.max_volatility == a.risk_config.max_volatility
            &&& b.risk_config.max_spread_bps == a.risk_config.max_spread_bps
            &&& b.risk_config.max_slippage_bps == a.risk_config.max_slippage_bps
            &&& b.risk_config.allow_short == a.risk_config.allow_short
            &&& b.risk_config.kill_switch_on_drawdown == a.risk_config.kill_switch_on_drawdown
            &&& b.risk_config.risk_intent_staleness_ns == a.risk_config.risk_intent_staleness_ns
            &&& b.risk_config.portfolio_flat_threshold == a.risk_config.portfolio_flat_threshold
            &&& b.risk_config.initial_equity == a.risk_config.initial_equity
            &&& b.risk_config.severity_overrides@ == a.risk_config.severity_overrides@
            &&& b.feature_config.rsi_period == a.feature_config.rsi_period
            &&& b.feature_config.macd_fast == a.feature_config.macd_fast
            &&& b.feature_config.macd_slow == a.feature_config.macd_slow
            &&& b.feature_config.macd_signal == a.feature_config.macd_signal
            &&& b.feature_config.atr_period == a.feature_config.atr_period
            &&& b.feature_config.ema_periods@ == a.feature_config.ema_periods@
            &&& b.feature_config.rolling_window_sizes@ == a.feature_config.rolling_window_sizes@
            &&& b.feature_config.volume_ratio_clamp == a.feature_config.volume_ratio_clamp
            &&& b.feature_config.regime_volatile_atr_threshold == a.feature_config.regime_volatile_atr_threshold
            &&& b.feature_config.regime_strength_atr_divisor == a.feature_config.regime_strength_atr_divisor
            &&& b.feature_config.regime_trending_threshold == a.feature_config.regime_trending_threshold
            &&& b.feature_config.price_window_size == a.feature_config.price_window_size
            &&& b.feature_config.volume_window_size == a.feature_config.volume_window_size
            &&& b.feature_config.spread_window_size == a.feature_config.spread_window_size
            &&& b.feature_config.return_1_window == a.feature_config.return_1_window
            &&& b.feature_config.return_5_window == a.feature_config.return_5_window
            &&& b.feature_config.return_20_window == a.feature_config.return_20_window
            &&& b.feature_config.feature_capacity == a.feature_config.feature_capacity
            &&& b.model_config.model_dir@ == a.model_config.model_dir@
            &&& b.model_config.inference_threads == a.model_config.inference_threads
            &&& b.model_config.max_inference_latency_ms == a.model_config.max_inference_latency_ms
            &&& b.model_config.feature_vector_size == a.model_config.feature_vector_size
            &&& b.model_config.action_score_rsi_weight == a.model_config.action_score_rsi_weight
            &&& b.model_config.action_score_macd_weight == a.model_config.action_score_macd_weight
            &&& b.model_config.action_score_volatility_weight == a.model_config.action_score_volatility_weight
            &&& b.model_config.atr_penalty_threshold == a.model_config.atr_penalty_threshold
            &&& b.model_config.atr_penalty_value == a.model_config.atr_penalty_value
            &&& b.model_config.rsi_overbought == a.model_config.rsi_overbought
            &&& b.model_config.rsi_oversold == a.model_config.rsi_oversold
            &&& b.model_config.rsi_neutral == a.model_config.rsi_neutral
            &&& b.model_config.forecast_trend_weight == a.model_config.forecast_trend_weight
            &&& b.model_config.forecast_momentum_weight == a.model_config.forecast_momentum_weight
            &&& b.model_config.forecast_volume_weight == a.model_config.forecast_volume_weight
            &&& b.model_config.confidence_rsi_weight == a.model_config.confidence_rsi_weight
            &&& b.model_config.confidence_macd_weight == a.model_config.confidence_macd_weight
            &&& b.model_config.confidence_regime_weight == a.model_config.confidence_regime_weight
            &&& b.model_config.volume_confirmation_threshold == a.model_config.volume_confirmation_threshold
            &&& b.journal_config.journal_dir@ == a.journal_config.journal_dir@
            &&& b.journal_config.flush_interval_ms == a.journal_config.flush_interval_ms
            &&& b.journal_config.snapshot_interval_sec == a.journal_config.snapshot_interval_sec
            &&& b.journal_config.max_file_size_mb == a.journal_config.max_file_size_mb
            &&& b.journal_config.retention_hours == a.journal_config.retention_hours
            &&& b.journal_config.max_size_mb == a.journal_config.max_size_mb
        },
{
    if a.same(b) {
        assert forall|i: int| 0 <= i < a.asset_configs@.len() implies (#[trigger]
        b.asset_configs@[i]).symbol@ == a.asset_configs@[i].symbol@ && b.asset_configs@[i].enabled
            == a.asset_configs@[i].enabled && b.asset_configs@[i].max_position
            == a.asset_configs@[i].max_position && b.asset_configs@[i].tick_size
            == a.asset_configs@[i].tick_size by {
            assert(a.asset_configs@[i].same(&b.asset_configs@[i]));
        }
    }
}

/// A setting that is given from outside replaces the one of the file, and one that is not given
/// leaves it. The broker trades on paper unless the word for it is "false".
pub proof fn law_given_settings_replace_the_file(
    key: Option<String>,
    secret: Option<String>,
    paper: Option<String>,
    symbols: Option<String>,
)
    ensures
        forall|c: &mut EngineConfig, u: ()|
            #![trigger call_ensures(EngineConfig::apply_overrides, (c, key, secret, paper, symbols), u)]
            call_ensures(EngineConfig::apply_overrides, (c, key, secret, paper, symbols), u) ==> {
                let b = c.broker_config;
                let d = final(c).broker_config;
                &&& key matches Some(k) ==> d.api_key@ == k@
                &&& key is None ==> d.api_key@ == b.api_key@
                &&& secret matches Some(k) ==> d.api_secret@ == k@
                &&& secret is None ==> d.api_secret@ == b.api_secret@
                &&& paper matches Some(p) ==> (d.paper_trading <==> p@ != "false"@)
                &&& paper is None ==> d.paper_trading == b.paper_trading
                &&& symbols is None ==> final(c).asset_configs == c.asset_configs
                &&& d.broker_type == b.broker_type && d.ws_url == b.ws_url && d.rest_url
                    == b.rest_url && d.max_retries == b.max_retries
                &&& final(c).risk_config == c.risk_config
                &&& final(c).safe_mode == c.safe_mode
            },
{
}

/// In safe mode every asset is switched off, and nothing else of it changes.
pub proof fn law_safe_mode_switches_all_off()
    ensures
        forall|c: &mut EngineConfig, u: (), i: int|
            #![trigger call_ensures(EngineConfig::enter_safe_mode, (c,), u), c.asset_configs@[i]]
            call_ensures(EngineConfig::enter_safe_mode, (c,), u) ==> {
                &&& final(c).safe_mode
                &&& final(c).asset_configs@.len() == c.asset_configs@.len()
                &&& 0 <= i < c.asset_configs@.len() ==> {
                    &&& !final(c).asset_configs@[i].enabled
                    &&& final(c).asset_configs@[i].symbol == c.asset_configs@[i].symbol
                    &&& final(c).asset_configs@[i].max_position == c.asset_configs@[i].max_position
                    &&& final(c).asset_configs@[i].tick_size == c.asset_configs@[i].tick_size
                }
                &&& final(c).risk_config == c.risk_config
                &&& final(c).broker_config == c.broker_config
            },
{
}

/// The place of an asset is the first that has its symbol, and there is none just where no asset has
/// it.
pub proof fn law_asset_is_found_where_it_is(
    c: &EngineConfig,
    symbol: &str,
    r: Option<usize>,
    i: int,
)
    requires
        call_ensures(EngineConfig::find_asset, (c, symbol), r),
        0 <= i < c.asset_configs@.len(),
        c.asset_configs@[i].symbol@ == symbol@,
    ensures
        r matches Some(n) && n <= i && c.asset_configs@[n as int].symbol@ == symbol@,
{
}

} // verus!
