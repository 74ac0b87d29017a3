//! What is asked of the control interface, and what it answers.

use vstd::prelude::*;

use crate::metrics::MetricsSnapshot;
use crate::order_tracker::Order;
use crate::portfolio::Position;
use crate::quantity::Real;
use crate::str_map::StrMap;

verus! {

/// Whether the engine runs.
#[derive(Debug)]
pub struct HealthResponse {
    pub status: String,
    pub kill_switch_active: bool,
    pub uptime: String,
}

/// The kill switch.
#[derive(Debug)]
pub struct KillSwitchResponse {
    pub active: bool,
    pub activated_at_ns: u64,
    pub activation_count: u64,
    pub open_orders: Vec<String>,
}

/// Asks for the kill switch to be set.
#[derive(Debug)]
pub struct KillSwitchRequest {
    pub active: bool,
}

/// The counters.
pub struct MetricsResponse {
    pub metrics: MetricsSnapshot,
}

/// New parameters of a strategy.
#[derive(Debug)]
pub struct StrategyParamsRequest {
    pub long_entry_threshold: Real,
    pub short_entry_threshold: Real,
    pub exit_threshold: Real,
    pub confidence_minimum: Real,
    pub hysteresis_deadband: Real,
    pub entry_cooldown_ms: u64,
    pub exit_cooldown_ms: u64,
    pub prediction_staleness_ns: u64,
    pub allow_short: bool,
    pub max_long_units: Real,
    pub max_short_units: Real,
    pub trade_intent_ttl_ns: u64,
    pub urgency_aggressive_threshold: Real,
    pub urgency_normal_threshold: Real,
}

/// Asks for another strategy for a symbol.
#[derive(Debug)]
pub struct StrategySwapRequest {
    pub symbol: String,
    pub strategy_type: String,
    pub params: Option<StrategyParamsRequest>,
}

/// Whether the strategy will be swapped.
#[derive(Debug)]
pub struct StrategySwapResponse {
    pub status: String,
    pub symbol: String,
    pub strategy_type: String,
}

/// The kill switch and the counters.
pub struct StatusResponse {
    pub kill_switch: KillSwitchResponse,
    pub metrics: MetricsSnapshot,
}

/// A circuit breaker in full.
#[derive(Debug)]
pub struct CircuitBreakerResponse {
    pub is_open: bool,
    pub failure_count: u64,
    pub success_count: u64,
    pub last_failure_ns: u64,
    pub state: String,
}

/// The circuit breaker of a symbol.
#[derive(Debug)]
pub struct CircuitBreakerStatusResponse {
    pub symbol: String,
    pub state: String,
    pub is_open: bool,
    pub failure_count: u64,
}

/// Names an asset.
#[derive(Debug)]
pub struct AssetControlRequest {
    pub symbol: String,
}

/// New settings of an asset.
#[derive(Debug)]
pub struct AssetConfigRequest {
    pub enabled: bool,
    pub max_position: Real,
    pub tick_size: Real,
}

/// The settings of an asset.
#[derive(Debug)]
pub struct AssetConfigResponse {
    pub symbol: String,
    pub enabled: bool,
    pub max_position: Real,
    pub tick_size: Real,
}

/// Asks for a mode.
#[derive(Debug)]
pub struct ModeRequest {
    pub mode: String,
}

/// Asks for paper trading, or for live trading.
#[derive(Debug)]
pub struct PaperTradingRequest {
    pub paper_trading: bool,
}

/// New risk settings.
#[derive(Debug)]
pub struct RiskParamsRequest {
    pub max_portfolio_exposure: Real,
    pub max_leverage: Real,
    pub max_drawdown_pct: Real,
    pub max_order_rate_per_sec: u32,
    pub max_position_per_symbol: Real,
    pub max_volatility: Real,
    pub max_spread_bps: Real,
    pub max_slippage_bps: Real,
    pub allow_short: bool,
    pub kill_switch_on_drawdown: bool,
    pub risk_intent_staleness_ns: u64,
    pub initial_equity: Real,
}

/// The risk settings.
#[derive(Debug)]
pub struct RiskParamsResponse {
    pub max_portfolio_exposure: Real,
    pub max_leverage: Real,
    pub max_drawdown_pct: Real,
    pub max_order_rate_per_sec: u32,
    pub max_position_per_symbol: Real,
    pub max_volatility: Real,
    pub max_spread_bps: Real,
    pub max_slippage_bps: Real,
    pub allow_short: bool,
    pub kill_switch_on_drawdown: bool,
    pub risk_intent_staleness_ns: u64,
    pub initial_equity: Real,
}

/// New broker settings.
#[derive(Debug)]
pub struct BrokerParamsRequest {
    pub broker_type: String,
    pub paper_trading: bool,
    pub ws_url: String,
    pub rest_url: String,
    pub max_retries: u32,
    pub retry_backoff_ms: u64,
}

/// The broker settings.
#[derive(Debug)]
pub struct BrokerParamsResponse {
    pub broker_type: String,
    pub paper_trading: bool,
    pub ws_url: String,
    pub rest_url: String,
    pub max_retries: u32,
    pub retry_backoff_ms: u64,
}

/// New feature settings.
#[derive(Debug)]
pub struct FeatureParamsRequest {
    pub rsi_period: usize,
    pub macd_fast: usize,
    pub macd_slow: usize,
    pub macd_signal: usize,
    pub atr_period: usize,
    pub ema_periods: Vec<usize>,
    pub rolling_window_sizes: Vec<usize>,
    pub price_window_size: usize,
    pub volume_window_size: usize,
    pub regime_volatile_atr_threshold: Real,
    pub regime_trending_threshold: Real,
}

/// The feature settings.
#[derive(Debug)]
pub struct FeatureParamsResponse {
    pub rsi_period: usize,
    pub macd_fast: usize,
    pub macd_slow: usize,
    pub macd_signal: usize,
    pub atr_period: usize,
    pub ema_periods: Vec<usize>,
    pub rolling_window_sizes: Vec<usize>,
    pub price_window_size: usize,
    pub volume_window_size: usize,
    pub regime_volatile_atr_threshold: Real,
    pub regime_trending_threshold: Real,
}

/// New model settings.
#[derive(Debug)]
pub struct ModelParamsRequest {
    pub model_dir: String,
    pub inference_threads: usize,
    pub max_inference_latency_ms: u64,
    pub feature_vector_size: usize,
    pub inference_rsi_bearish_threshold: Real,
    pub inference_rsi_bullish_threshold: Real,
    pub inference_rsi_center: Real,
    pub inference_atr_penalty_threshold: Real,
    pub inference_volume_confirmation_threshold: Real,
    pub action_score_rsi_weight: Real,
    pub action_score_macd_weight: Real,
    pub action_score_volatility_weight: Real,
    pub confidence_rsi_weight: Real,
    pub confidence_macd_weight: Real,
    pub confidence_regime_weight: Real,
}

/// The model settings.
#[derive(Debug)]
pub struct ModelParamsResponse {
    pub model_dir: String,
    pub inference_threads: usize,
    pub max_inference_latency_ms: u64,
    pub feature_vector_size: usize,
    pub inference_rsi_bearish_threshold: Real,
    pub inference_rsi_bullish_threshold: Real,
    pub inference_rsi_center: Real,
    pub inference_atr_penalty_threshold: Real,
    pub inference_volume_confirmation_threshold: Real,
    pub action_score_rsi_weight: Real,
    pub action_score_macd_weight: Real,
    pub action_score_volatility_weight: Real,
    pub confidence_rsi_weight: Real,
    pub confidence_macd_weight: Real,
    pub confidence_regime_weight: Real,
}

/// New journal settings.
#[derive(Debug)]
pub struct JournalParamsRequest {
    pub journal_dir: String,
    pub flush_interval_ms: u64,
    pub snapshot_interval_sec: u64,
    pub max_file_size_mb: u64,
}

/// The journal settings.
#[derive(Debug)]
pub struct JournalParamsResponse {
    pub journal_dir: String,
    pub flush_interval_ms: u64,
    pub snapshot_interval_sec: u64,
    pub max_file_size_mb: u64,
}

/// New defaults of execution.
#[derive(Debug)]
pub struct ExecutionDefaultsRequest {
    pub default_order_quantity: Real,
    pub execution_per_symbol_rate_divisor: Real,
}

/// The defaults of execution.
#[derive(Debug)]
pub struct ExecutionDefaultsResponse {
    pub default_order_quantity: Real,
    pub execution_per_symbol_rate_divisor: Real,
}

/// New rate limits.
#[derive(Debug)]
pub struct RateLimitRequest {
    pub global_rate: Real,
    pub per_symbol_rate: Real,
}

/// The rate limits.
#[derive(Debug)]
pub struct RateLimitResponse {
    pub global_rate: Real,
    pub per_symbol_rate: Real,
}

/// New settings of the circuit breakers.
#[derive(Debug)]
pub struct CircuitBreakerConfigRequest {
    pub failure_threshold: u64,
    pub cooldown_ms: u64,
}

/// The settings of the circuit breakers.
#[derive(Debug)]
pub struct CircuitBreakerConfigResponse {
    pub failure_threshold: u64,
    pub cooldown_ms: u64,
}

/// Asks for another model.
#[derive(Debug)]
pub struct SwapModelRequest {
    pub model_id: String,
}

/// A model.
#[derive(Debug)]
pub struct ActiveModelResponse {
    pub model_id: String,
    pub version: u32,
    pub input_features: Vec<String>,
    pub applicable_regimes: Vec<i32>,
    pub priority: u32,
}

/// All models.
#[derive(Debug)]
pub struct ModelListResponse {
    pub models: Vec<ActiveModelResponse>,
}

/// New capacities of the channels.
#[derive(Debug)]
pub struct ChannelConfigRequest {
    pub per_asset_tick_channel_capacity: usize,
    pub feature_channel_capacity: usize,
    pub risk_channel_capacity: usize,
    pub decision_channel_capacity: usize,
    pub lifecycle_channel_capacity: usize,
    pub command_channel_capacity: usize,
    pub journal_channel_capacity: usize,
}

/// The capacities of the channels.
#[derive(Debug)]
pub struct ChannelConfigResponse {
    pub per_asset_tick_channel_capacity: usize,
    pub feature_channel_capacity: usize,
    pub risk_channel_capacity: usize,
    pub decision_channel_capacity: usize,
    pub lifecycle_channel_capacity: usize,
    pub command_channel_capacity: usize,
    pub journal_channel_capacity: usize,
}

/// New settings of the reactor.
#[derive(Debug)]
pub struct ReactorConfigRequest {
    pub max_batch_size: usize,
    pub control_batch_size: usize,
    pub sleep_on_empty_us: u64,
    pub backpressure_log_interval: u64,
}

/// The settings of the reactor.
#[derive(Debug)]
pub struct ReactorConfigResponse {
    pub max_batch_size: usize,
    pub control_batch_size: usize,
    pub sleep_on_empty_us: u64,
    pub backpressure_log_interval: u64,
}

/// New limits of the validator.
#[derive(Debug)]
pub struct ValidatorConfigRequest {
    pub max_symbol_length: usize,
    pub max_quantity: Real,
    pub max_order_id_length: usize,
}

/// The limits of the validator.
#[derive(Debug)]
pub struct ValidatorConfigResponse {
    pub max_symbol_length: usize,
    pub max_quantity: Real,
    pub max_order_id_length: usize,
}

/// The portfolio.
#[derive(Debug)]
pub struct PortfolioResponse {
    pub positions: Vec<Position>,
    pub total_unrealized_pnl: Real,
    pub total_realized_pnl: Real,
    pub total_market_value: Real,
    pub position_count: usize,
}

/// All orders.
pub struct OrdersResponse {
    pub orders: Vec<Order>,
}

/// The orders that the kill switch would cancel.
#[derive(Debug)]
pub struct TrackedOrdersResponse {
    pub open_orders: Vec<String>,
}

/// How full the stores of handled orders are.
#[derive(Debug)]
pub struct IdempotencyStatusResponse {
    pub store_size: usize,
    pub store_capacity: usize,
}

/// The last sign of life of a thread.
#[derive(Debug)]
pub struct HeartbeatDetail {
    pub thread: String,
    pub last_timestamp_ns: u64,
}

/// The signs of life of all threads.
#[derive(Debug)]
pub struct HeartbeatsResponse {
    pub status: String,
    pub threads: Vec<HeartbeatDetail>,
}

/// What is left of the rate limits.
#[derive(Debug)]
pub struct RateLimiterStatusResponse {
    pub symbol: String,
    pub global_tokens: Real,
    pub symbol_tokens: Real,
    pub symbol_percent_remaining: Real,
}

/// The counters of each symbol.
pub struct PerSymbolStatsResponse {
    pub per_symbol_ticks: StrMap<u64>,
    pub per_symbol_features: StrMap<u64>,
    pub per_symbol_intents_approved: StrMap<u64>,
    pub per_symbol_intents_rejected: StrMap<u64>,
}

} // verus!
