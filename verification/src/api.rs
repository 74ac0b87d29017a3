//! The rules of the control interface: who may call it and how often, which command a request
//! stands for, and how answers are made up.

use crossbeam_channel::Sender;
use vstd::prelude::*;
use vstd::string::StringExecFns;

use crate::api_types::{
    ActiveModelResponse, AssetConfigRequest, AssetConfigResponse, BrokerParamsRequest,
    ChannelConfigRequest, ChannelConfigResponse, CircuitBreakerConfigRequest,
    ExecutionDefaultsRequest, FeatureParamsRequest, HealthResponse, HeartbeatDetail,
    HeartbeatsResponse, IdempotencyStatusResponse, JournalParamsRequest, KillSwitchRequest,
    KillSwitchResponse, ModeRequest, ModelListResponse, ModelParamsRequest, OrdersResponse,
    PaperTradingRequest, PerSymbolStatsResponse, RateLimitRequest, RateLimiterStatusResponse,
    ReactorConfigRequest, ReactorConfigResponse, RiskParamsRequest, RiskParamsResponse,
    StatusResponse, StrategyParamsRequest, StrategySwapRequest, StrategySwapResponse,
    SwapModelRequest, TrackedOrdersResponse, ValidatorConfigRequest, ValidatorConfigResponse,
};
use crate::channel_utils::send;
use crate::clock::Clock;
use crate::command_channel::{
    AssetConfigUpdate, BrokerConfigUpdate, ChannelConfigUpdate, CircuitBreakerConfigUpdate,
    ControlCommand, ExecutionDefaultsUpdate, FeatureConfigUpdate, JournalConfigUpdate,
    ModelConfigUpdate, RateLimitConfigUpdate, ReactorConfigUpdate, RiskConfigUpdate,
    StrategyParams, ValidatorConfigUpdate,
};
use crate::config::{ChannelConfig, EngineConfig, ReactorConfig, RiskConfig, ValidatorConfig};
use crate::kill_switch::KillSwitch;
use crate::metrics::{gauge_add, GlobalMetrics, MetricsSnapshot};
use crate::order_tracker::Order;
use crate::quantity::Real;
use crate::str_map::StrMap;
use crate::text::{split, str_eq};

verus! {

/// How a request is answered.
#[derive(Debug, Clone, Copy, PartialEq, Eq, Structural)]
pub enum ApiStatus {
    Success,
    Unauthorized,
    NotFound,
    TooManyRequests,
    ServerError,
}

impl ApiStatus {
    /// The number of the status in the protocol.
    pub open spec fn number(self) -> u16 {
        match self {
            ApiStatus::Success => 200,
            ApiStatus::Unauthorized => 401,
            ApiStatus::NotFound => 404,
            ApiStatus::TooManyRequests => 429,
            ApiStatus::ServerError => 500,
        }
    }

    /// The number of the status in the protocol.
    pub fn code(&self) -> (n: u16)
        ensures
            n == self.number(),
    {
        match self {
            ApiStatus::Success => 200,
            ApiStatus::Unauthorized => 401,
            ApiStatus::NotFound => 404,
            ApiStatus::TooManyRequests => 429,
            ApiStatus::ServerError => 500,
        }
    }
}

/// The method of a request.
#[derive(Debug, Clone, Copy, PartialEq, Eq, Structural)]
pub enum ApiMethod {
    Get,
    Post,
    Put,
    Delete,
    Other,
}

impl ApiMethod {
    /// Whether the method changes something.
    pub open spec fn changes(self) -> bool {
        self is Post || self is Put || self is Delete
    }

    /// Whether the method changes something.
    pub fn is_change(&self) -> (r: bool)
        ensures
            r == self.changes(),
    {
        matches!(self, ApiMethod::Post | ApiMethod::Put | ApiMethod::Delete)
    }
}

/// The words before the key in the header.
pub open spec fn bearer(key: Seq<char>) -> Seq<char> {
    "Bearer "@ + key
}

/// Whether a request shows the key that changes ask for, where one is set.
pub open spec fn key_shown(key: Seq<char>, method: ApiMethod, header: Option<Seq<char>>) -> bool {
    method.changes() && key.len() > 0 ==> header == Some(bearer(key))
}

/// Whether a request may go on: changes have to show the key, where one is set.
pub fn authorized(api_key: &str, method: ApiMethod, header: Option<&str>) -> (r: bool)
    ensures
        r == key_shown(
            api_key@,
            method,
            match header {
                Some(h) => Some(h@),
                None => None,
            },
        ),
{
    if !method.is_change() {
        return true;
    }
    if str_eq(api_key, "") {
        proof {
            reveal_strlit("");
        }
        return true;
    }
    proof {
        reveal_strlit("");
        assert(api_key@.len() == 0 ==> api_key@ =~= ""@);
    }
    match header {
        Some(h) => {
            let mut expected = "Bearer ".to_owned();
            expected.append(api_key);
            str_eq(h, expected.as_str())
        },
        None => false,
    }
}

/// The name under which the requests of a client are counted: the first address in the header.
pub open spec fn client_name(forwarded: Option<Seq<char>>) -> Seq<char> {
    match forwarded {
        Some(s) => crate::text::split_all(s, ',')[0],
        None => "unknown"@,
    }
}

/// The name under which the requests of a client are counted.
pub fn client_key(forwarded: Option<&str>) -> (key: String)
    ensures
        key@ == client_name(
            match forwarded {
                Some(s) => Some(s@),
                None => None,
            },
        ),
{
    match forwarded {
        Some(s) => {
            let mut parts = split(s, ',');
            proof {
                crate::text::lemma_split_len(s@, s@.len() + 1, ',');
                assert(crate::text::views(parts@).len() == parts@.len());
                assert(crate::text::views(parts@)[0] == parts@[0]@);
            }
            parts.swap_remove(0)
        },
        None => "unknown".to_owned(),
    }
}

/// Counts the requests of each client in a window of time.
pub struct SimpleRateLimiter {
    counts: StrMap<(u64, u32)>,
    max_requests: u32,
    window_secs: u64,
}

/// The count of a client after a request at `now`, and whether the request may go on.
pub open spec fn counted(entry: Option<(u64, u32)>, max: u32, window_secs: u64, now: u64) -> (
    (u64, u32),
    bool,
) {
    let (start, n) = match entry {
        Some(e) => e,
        None => (now, 0u32),
    };
    if now - start > window_secs * 1_000_000_000 {
        ((now, 1u32), true)
    } else if n >= max {
        ((start, n), false)
    } else {
        ((start, (n + 1) as u32), true)
    }
}

impl SimpleRateLimiter {
    pub closed spec fn wf(&self) -> bool {
        self.counts.wf()
    }

    /// When the window of each client began, and how many requests it holds.
    pub closed spec fn entries(&self) -> Map<Seq<char>, (u64, u32)> {
        self.counts@
    }

    /// How many requests a window takes.
    pub closed spec fn max(&self) -> u32 {
        self.max_requests
    }

    /// The seconds of a window.
    pub closed spec fn window(&self) -> u64 {
        self.window_secs
    }

    pub fn new(max_requests: u32, window_secs: u64) -> (l: Self)
        ensures
            l.wf(),
            l.entries() == Map::<Seq<char>, (u64, u32)>::empty(),
            l.max() == max_requests,
            l.window() == window_secs,
    {
        SimpleRateLimiter { counts: StrMap::new(), max_requests, window_secs }
    }

    /// Counts a request of `key` at `now_ns` on a monotonic clock. The result is whether it may go
    /// on.
    pub fn check(&mut self, key: &str, now_ns: u64) -> (allowed: bool)
        requires
            old(self).wf(),
        ensures
            final(self).wf(),
            final(self).max() == old(self).max(),
            final(self).window() == old(self).window(),
            ({
                let entry = if old(self).entries().dom().contains(key@) {
                    Some(old(self).entries()[key@])
                } else {
                    None
                };
                let (after, r) = counted(entry, old(self).max(), old(self).window(), now_ns);
                &&& allowed == r
                &&& final(self).entries() == old(self).entries().insert(key@, after)
            }),
    {
        let (start, n): (u64, u32) = match self.counts.get(key) {
            Some(e) => *e,
            None => (now_ns, 0),
        };
        let elapsed: u64 = now_ns.saturating_sub(start);
        let window: u128 = (self.window_secs as u128) * 1_000_000_000;
        let (after, allowed): ((u64, u32), bool) = if elapsed as u128 > window {
            ((now_ns, 1), true)
        } else if n >= self.max_requests {
            ((start, n), false)
        } else {
            ((start, n + 1), true)
        };
        self.counts.insert(key.to_owned(), after);
        allowed
    }
}

/// The numbers of requests that went through among the last ones, all in one window.
pub open spec fn let_through(entry: Option<(u64, u32)>, max: u32, window: u64, times: Seq<u64>) -> (
    Option<(u64, u32)>,
    nat,
)
    decreases times.len(),
{
    if times.len() == 0 {
        (entry, 0)
    } else {
        let (before, n) = let_through(entry, max, window, times.drop_last());
        let (after, r) = counted(before, max, window, times.last());
        (
            Some(after),
            n + if r {
                1nat
            } else {
                0nat
            },
        )
    }
}

/// In the window that begins with its first request, a client gets no more than the allowed number
/// of requests through, and that many where it sends enough.
pub proof fn law_window_is_limited(max: u32, window: u64, times: Seq<u64>)
    requires
        forall|i: int|
            0 <= i < times.len() ==> (#[trigger] times[i]) - times[0] <= window * 1_000_000_000,
    ensures
        let_through(None, max, window, times).1 == (if times.len() <= max {
            times.len() as int
        } else {
            max as int
        }),
        times.len() > 0 ==> let_through(None, max, window, times).0 == Some(
            (times[0], let_through(None, max, window, times).1 as u32),
        ),
    decreases times.len(),
{
    if times.len() > 0 {
        let front = times.drop_last();
        assert forall|i: int| 0 <= i < front.len() implies (#[trigger] front[i]) - front[0]
            <= window * 1_000_000_000 by {
            assert(front[i] == times[i]);
            assert(front[0] == times[0]);
        }
        law_window_is_limited(max, window, front);
        assert(times.last() == times[times.len() - 1]);
        if front.len() > 0 {
            assert(front[0] == times[0]);
        } else {
            assert(times.last() == times[0]);
        }
    }
}

/// In a window that was opened by a request which went through, as one is after an earlier window has
/// passed, a client gets no more than the allowed number of requests through, that first one
/// included, and that many where it sends enough.
pub proof fn law_next_window_is_limited(start: u64, max: u32, window: u64, times: Seq<u64>)
    requires
        max >= 1,
        forall|i: int|
            0 <= i < times.len() ==> (#[trigger] times[i]) - start <= window * 1_000_000_000,
    ensures
        ({
            let (entry, n) = let_through(Some((start, 1)), max, window, times);
            &&& n == (if times.len() < max {
                times.len() as int
            } else {
                max - 1
            })
            &&& entry == Some((start, (1 + n) as u32))
        }),
    decreases times.len(),
{
    if times.len() > 0 {
        let front = times.drop_last();
        assert forall|i: int| 0 <= i < front.len() implies (#[trigger] front[i]) - start <= window
            * 1_000_000_000 by {
            assert(front[i] == times[i]);
        }
        law_next_window_is_limited(start, max, window, front);
        assert(times.last() == times[times.len() - 1]);
    }
}

/// A request that comes after the window has passed goes through, and opens a window anew.
pub proof fn law_window_is_opened_anew(entry: (u64, u32), max: u32, window: u64, now_ns: u64)
    requires
        now_ns - entry.0 > window * 1_000_000_000,
    ensures
        counted(Some(entry), max, window, now_ns) == ((now_ns, 1u32), true),
{
}

/// Whether a request is let in: changes are counted, and have to show the key.
pub fn screen_request(
    api_key: &str,
    method: ApiMethod,
    header: Option<&str>,
    forwarded: Option<&str>,
    limiter: &mut SimpleRateLimiter,
    now_ns: u64,
) -> (r: Option<ApiStatus>)
    requires
        old(limiter).wf(),
    ensures
        final(limiter).wf(),
        final(limiter).max() == old(limiter).max(),
        final(limiter).window() == old(limiter).window(),
        ({
            let shown = key_shown(
                api_key@,
                method,
                match header {
                    Some(h) => Some(h@),
                    None => None,
                },
            );
            let name = client_name(
                match forwarded {
                    Some(s) => Some(s@),
                    None => None,
                },
            );
            let entry = if old(limiter).entries().dom().contains(name) {
                Some(old(limiter).entries()[name])
            } else {
                None
            };
            let (after, allowed) = counted(entry, old(limiter).max(), old(limiter).window(), now_ns);
            if !shown {
                r == Some(ApiStatus::Unauthorized) && *final(limiter) == *old(limiter)
            } else if !method.changes() {
                r is None && *final(limiter) == *old(limiter)
            } else {
                &&& r == (if allowed {
                    None
                } else {
                    Some(ApiStatus::TooManyRequests)
                })
                &&& final(limiter).entries() == old(limiter).entries().insert(name, after)
            }
        }),
{
    if !authorized(api_key, method, header) {
        return Some(ApiStatus::Unauthorized);
    }
    if method.is_change() {
        let key = client_key(forwarded);
        if !limiter.check(key.as_str(), now_ns) {
            return Some(ApiStatus::TooManyRequests);
        }
    }
    None
}

/// The answer to a command that was sent, or that nobody was left to take.
pub fn status_of_send(sent: bool) -> (s: ApiStatus)
    ensures
        s == (if sent {
            ApiStatus::Success
        } else {
            ApiStatus::ServerError
        }),
{
    if sent {
        ApiStatus::Success
    } else {
        ApiStatus::ServerError
    }
}

/// Sends a command, which is one more in the channel also where nobody is left to take it.
pub fn send_command(tx: &Sender<ControlCommand>, cmd: ControlCommand, metrics: &mut GlobalMetrics) -> (
    s: ApiStatus)
    ensures
        s is Success || s is ServerError,
        exists|r: Result<(), ControlCommand>| #[trigger]
            crate::channel_utils::handed(tx, cmd, r) && s is Success == r is Ok,
        *final(metrics) == (GlobalMetrics {
            command_channel_depth: crate::metrics::wrap_i64(old(metrics).command_channel_depth, 1),
            ..*old(metrics)
        }),
{
    gauge_add(&mut metrics.command_channel_depth, 1);
    let r = send(tx, cmd);
    proof {
        crate::channel_utils::lemma_handed(tx, cmd, r);
    }
    status_of_send(r.is_ok())
}

/// The command to set the kill switch.
pub fn set_kill_switch(req: KillSwitchRequest) -> (c: ControlCommand)
    ensures
        c == ControlCommand::SetKillSwitch(req.active),
{
    ControlCommand::SetKillSwitch(req.active)
}

/// Whether `p` holds the parameters that were asked for.
pub open spec fn params_asked(req: StrategyParamsRequest) -> StrategyParams {
    StrategyParams {
        long_entry_threshold: req.long_entry_threshold,
        short_entry_threshold: req.short_entry_threshold,
        exit_threshold: req.exit_threshold,
        confidence_minimum: req.confidence_minimum,
        hysteresis_deadband: req.hysteresis_deadband,
        entry_cooldown_ms: req.entry_cooldown_ms,
        exit_cooldown_ms: req.exit_cooldown_ms,
        prediction_staleness_ns: req.prediction_staleness_ns,
        allow_short: req.allow_short,
        max_long_units: req.max_long_units,
        max_short_units: req.max_short_units,
        trade_intent_ttl_ns: req.trade_intent_ttl_ns,
        urgency_aggressive_threshold: req.urgency_aggressive_threshold,
        urgency_normal_threshold: req.urgency_normal_threshold,
    }
}

/// The parameters that were asked for.
pub fn strategy_params(p: StrategyParamsRequest) -> (r: StrategyParams)
    ensures
        r == params_asked(p),
{
    StrategyParams {
        long_entry_threshold: p.long_entry_threshold,
        short_entry_threshold: p.short_entry_threshold,
        exit_threshold: p.exit_threshold,
        confidence_minimum: p.confidence_minimum,
        hysteresis_deadband: p.hysteresis_deadband,
        entry_cooldown_ms: p.entry_cooldown_ms,
        exit_cooldown_ms: p.exit_cooldown_ms,
        prediction_staleness_ns: p.prediction_staleness_ns,
        allow_short: p.allow_short,
        max_long_units: p.max_long_units,
        max_short_units: p.max_short_units,
        trade_intent_ttl_ns: p.trade_intent_ttl_ns,
        urgency_aggressive_threshold: p.urgency_aggressive_threshold,
        urgency_normal_threshold: p.urgency_normal_threshold,
    }
}

/// Whether `c` swaps the strategy of `symbol`.
pub open spec fn swaps(
    c: ControlCommand,
    symbol: Seq<char>,
    strategy_type: Seq<char>,
    params: Option<StrategyParamsRequest>,
) -> bool {
    match c {
        ControlCommand::SwapStrategy { symbol: s, strategy_type: t, params: p } => {
            &&& s@ == symbol
            &&& t@ == strategy_type
            &&& p == (match params {
                Some(q) => Some(params_asked(q)),
                None => None,
            })
        },
        _ => false,
    }
}

/// The command to swap a strategy.
pub fn swap_command(symbol: &str, strategy_type: &str, params: Option<StrategyParamsRequest>) -> (
    c: ControlCommand)
    ensures
        swaps(c, symbol@, strategy_type@, params),
{
    ControlCommand::SwapStrategy {
        symbol: symbol.to_owned(),
        strategy_type: strategy_type.to_owned(),
        params: match params {
            Some(p) => Some(strategy_params(p)),
            None => None,
        },
    }
}

/// The answer to a request to swap a strategy.
pub fn swap_response(symbol: String, strategy_type: String, sent: bool) -> (r: (
    ApiStatus,
    StrategySwapResponse,
))
    ensures
        r.0 == (if sent {
            ApiStatus::Success
        } else {
            ApiStatus::ServerError
        }),
        r.1.status@ == (if sent {
            "swap_requested"@
        } else {
            "failed"@
        }),
        r.1.symbol == symbol,
        r.1.strategy_type == strategy_type,
{
    let status = if sent {
        "swap_requested".to_owned()
    } else {
        "failed".to_owned()
    };
    (status_of_send(sent), StrategySwapResponse { status, symbol, strategy_type })
}

/// Asks the engine to swap a strategy.
pub fn strategy_swap(
    tx: &Sender<ControlCommand>,
    req: StrategySwapRequest,
    metrics: &mut GlobalMetrics,
) -> (r: (ApiStatus, StrategySwapResponse))
    ensures
        r.0 is Success || r.0 is ServerError,
        exists|cmd: ControlCommand, sent: Result<(), ControlCommand>|
            {
                &&& #[trigger] crate::channel_utils::handed(tx, cmd, sent)
                &&& swaps(cmd, req.symbol@, req.strategy_type@, req.params)
                &&& r.0 is Success == sent is Ok
            },
        r.1.status@ == (if r.0 is Success {
            "swap_requested"@
        } else {
            "failed"@
        }),
        r.1.symbol == req.symbol,
        r.1.strategy_type == req.strategy_type,
        *final(metrics) == (GlobalMetrics {
            command_channel_depth: crate::metrics::wrap_i64(old(metrics).command_channel_depth, 1),
            ..*old(metrics)
        }),
{
    let cmd = swap_command(req.symbol.as_str(), req.strategy_type.as_str(), req.params);
    gauge_add(&mut metrics.command_channel_depth, 1);
    let sent = send(tx, cmd);
    proof {
        crate::channel_utils::lemma_handed(tx, cmd, sent);
    }
    swap_response(req.symbol, req.strategy_type, sent.is_ok())
}

/// The command to give the strategy of a symbol new parameters.
pub fn set_strategy_params(symbol: String, req: StrategyParamsRequest) -> (c: ControlCommand)
    ensures
        swaps(c, symbol@, "custom"@, Some(req)),
{
    ControlCommand::SwapStrategy {
        symbol,
        strategy_type: "custom".to_owned(),
        params: Some(strategy_params(req)),
    }
}

/// The command to set a mode.
pub fn set_mode(req: ModeRequest) -> (c: ControlCommand)
    ensures
        c == ControlCommand::SetMode(req.mode),
{
    ControlCommand::SetMode(req.mode)
}

/// The command to trade on paper, or live.
pub fn set_paper_trading(req: PaperTradingRequest) -> (c: ControlCommand)
    ensures
        c matches ControlCommand::SetMode(m) && m@ == (if req.paper_trading {
            "paper"@
        } else {
            "live"@
        }),
{
    ControlCommand::SetMode(
        if req.paper_trading {
            "paper".to_owned()
        } else {
            "live".to_owned()
        },
    )
}

/// The command to give an asset new settings.
pub fn set_asset_config(symbol: String, req: AssetConfigRequest) -> (c: ControlCommand)
    ensures
        c == (ControlCommand::SetAssetConfig {
            symbol,
            config: (AssetConfigUpdate {
                enabled: req.enabled,
                max_position: req.max_position,
                tick_size: req.tick_size,
            }),
        }),
{
    ControlCommand::SetAssetConfig {
        symbol,
        config: AssetConfigUpdate {
            enabled: req.enabled,
            max_position: req.max_position,
            tick_size: req.tick_size,
        },
    }
}

/// The command to swap the model.
pub fn swap_model(req: SwapModelRequest) -> (c: ControlCommand)
    ensures
        c == ControlCommand::ModelSwap(req.model_id),
{
    ControlCommand::ModelSwap(req.model_id)
}

/// The command to give the circuit breakers new settings.
pub fn set_circuit_breaker_config(req: CircuitBreakerConfigRequest) -> (c: ControlCommand)
    ensures
        c == ControlCommand::SetCircuitBreakerParams(
            (CircuitBreakerConfigUpdate {
                failure_threshold: req.failure_threshold,
                cooldown_ms: req.cooldown_ms,
            }),
        ),
{
    ControlCommand::SetCircuitBreakerParams(
        CircuitBreakerConfigUpdate {
            failure_threshold: req.failure_threshold,
            cooldown_ms: req.cooldown_ms,
        },
    )
}

/// The command to set the risk settings.
pub fn set_risk_params(req: RiskParamsRequest) -> (c: ControlCommand)
    ensures
        c == ControlCommand::SetRiskParams(
            (RiskConfigUpdate {
                max_portfolio_exposure: req.max_portfolio_exposure,
                max_leverage: req.max_leverage,
                max_drawdown_pct: req.max_drawdown_pct,
                max_order_rate_per_sec: req.max_order_rate_per_sec,
                max_position_per_symbol: req.max_position_per_symbol,
                max_volatility: req.max_volatility,
                max_spread_bps: req.max_spread_bps,
                max_slippage_bps: req.max_slippage_bps,
                allow_short: req.allow_short,
                kill_switch_on_drawdown: req.kill_switch_on_drawdown,
                risk_intent_staleness_ns: req.risk_intent_staleness_ns,
                initial_equity: req.initial_equity,
            }),
        ),
{
    ControlCommand::SetRiskParams(
        RiskConfigUpdate {
            max_portfolio_exposure: req.max_portfolio_exposure,
            max_leverage: req.max_leverage,
            max_drawdown_pct: req.max_drawdown_pct,
            max_order_rate_per_sec: req.max_order_rate_per_sec,
            max_position_per_symbol: req.max_position_per_symbol,
            max_volatility: req.max_volatility,
            max_spread_bps: req.max_spread_bps,
            max_slippage_bps: req.max_slippage_bps,
            allow_short: req.allow_short,
            kill_switch_on_drawdown: req.kill_switch_on_drawdown,
            risk_intent_staleness_ns: req.risk_intent_staleness_ns,
            initial_equity: req.initial_equity,
        },
    )
}

/// The command to set the broker settings.
pub fn set_broker_params(req: BrokerParamsRequest) -> (c: ControlCommand)
    ensures
        c == ControlCommand::SetBrokerParams(
            (BrokerConfigUpdate {
                broker_type: req.broker_type,
                paper_trading: req.paper_trading,
                ws_url: req.ws_url,
                rest_url: req.rest_url,
                max_retries: req.max_retries,
                retry_backoff_ms: req.retry_backoff_ms,
            }),
        ),
{
    ControlCommand::SetBrokerParams(
        BrokerConfigUpdate {
            broker_type: req.broker_type,
            paper_trading: req.paper_trading,
            ws_url: req.ws_url,
            rest_url: req.rest_url,
            max_retries: req.max_retries,
            retry_backoff_ms: req.retry_backoff_ms,
        },
    )
}

/// The command to set the feature settings.
pub fn set_feature_params(req: FeatureParamsRequest) -> (c: ControlCommand)
    ensures
        c == ControlCommand::SetFeatureParams(
            (FeatureConfigUpdate {
                rsi_period: req.rsi_period,
                macd_fast: req.macd_fast,
                macd_slow: req.macd_slow,
                macd_signal: req.macd_signal,
                atr_period: req.atr_period,
                ema_periods: req.ema_periods,
                rolling_window_sizes: req.rolling_window_sizes,
                price_window_size: req.price_window_size,
                volume_window_size: req.volume_window_size,
                regime_volatile_atr_threshold: req.regime_volatile_atr_threshold,
                regime_trending_threshold: req.regime_trending_threshold,
            }),
        ),
{
    ControlCommand::SetFeatureParams(
        FeatureConfigUpdate {
            rsi_period: req.rsi_period,
            macd_fast: req.macd_fast,
            macd_slow: req.macd_slow,
            macd_signal: req.macd_signal,
            atr_period: req.atr_period,
            ema_periods: req.ema_periods,
            rolling_window_sizes: req.rolling_window_sizes,
            price_window_size: req.price_window_size,
            volume_window_size: req.volume_window_size,
            regime_volatile_atr_threshold: req.regime_volatile_atr_threshold,
            regime_trending_threshold: req.regime_trending_threshold,
        },
    )
}

/// The command to set the model settings.
pub fn set_model_params(req: ModelParamsRequest) -> (c: ControlCommand)
    ensures
        c == ControlCommand::SetModelParams(
            (ModelConfigUpdate {
                model_dir: req.model_dir,
                inference_threads: req.inference_threads,
                max_inference_latency_ms: req.max_inference_latency_ms,
                feature_vector_size: req.feature_vector_size,
                inference_rsi_bearish_threshold: req.inference_rsi_bearish_threshold,
                inference_rsi_bullish_threshold: req.inference_rsi_bullish_threshold,
                inference_rsi_center: req.inference_rsi_center,
                inference_atr_penalty_threshold: req.inference_atr_penalty_threshold,
                inference_volume_confirmation_threshold: req.inference_volume_confirmation_threshold,
                action_score_rsi_weight: req.action_score_rsi_weight,
                action_score_macd_weight: req.action_score_macd_weight,
                action_score_volatility_weight: req.action_score_volatility_weight,
                confidence_rsi_weight: req.confidence_rsi_weight,
                confidence_macd_weight: req.confidence_macd_weight,
                confidence_regime_weight: req.confidence_regime_weight,
            }),
        ),
{
    ControlCommand::SetModelParams(
        ModelConfigUpdate {
            model_dir: req.model_dir,
            inference_threads: req.inference_threads,
            max_inference_latency_ms: req.max_inference_latency_ms,
            feature_vector_size: req.feature_vector_size,
            inference_rsi_bearish_threshold: req.inference_rsi_bearish_threshold,
            inference_rsi_bullish_threshold: req.inference_rsi_bullish_threshold,
            inference_rsi_center: req.inference_rsi_center,
            inference_atr_penalty_threshold: req.inference_atr_penalty_threshold,
            inference_volume_confirmation_threshold: req.inference_volume_confirmation_threshold,
            action_score_rsi_weight: req.action_score_rsi_weight,
            action_score_macd_weight: req.action_score_macd_weight,
            action_score_volatility_weight: req.action_score_volatility_weight,
            confidence_rsi_weight: req.confidence_rsi_weight,
            confidence_macd_weight: req.confidence_macd_weight,
            confidence_regime_weight: req.confidence_regime_weight,
        },
    )
}

/// The command to set the journal settings.
pub fn set_journal_params(req: JournalParamsRequest) -> (c: ControlCommand)
    ensures
        c == ControlCommand::SetJournalParams(
            (JournalConfigUpdate {
                journal_dir: req.journal_dir,
                flush_interval_ms: req.flush_interval_ms,
                snapshot_interval_sec: req.snapshot_interval_sec,
                max_file_size_mb: req.max_file_size_mb,
            }),
        ),
{
    ControlCommand::SetJournalParams(
        JournalConfigUpdate {
            journal_dir: req.journal_dir,
            flush_interval_ms: req.flush_interval_ms,
            snapshot_interval_sec: req.snapshot_interval_sec,
            max_file_size_mb: req.max_file_size_mb,
        },
    )
}

/// The command to set the defaults of execution.
pub fn set_execution_defaults(req: ExecutionDefaultsRequest) -> (c: ControlCommand)
    ensures
        c == ControlCommand::SetExecutionDefaults(
            (ExecutionDefaultsUpdate {
                default_order_quantity: req.default_order_quantity,
                execution_per_symbol_rate_divisor: req.execution_per_symbol_rate_divisor,
            }),
        ),
{
    ControlCommand::SetExecutionDefaults(
        ExecutionDefaultsUpdate {
            default_order_quantity: req.default_order_quantity,
            execution_per_symbol_rate_divisor: req.execution_per_symbol_rate_divisor,
        },
    )
}

/// The command to set the rate limits.
pub fn set_rate_limits(req: RateLimitRequest) -> (c: ControlCommand)
    ensures
        c == ControlCommand::SetRateLimits(
            (RateLimitConfigUpdate {
                global_rate: req.global_rate,
                per_symbol_rate: req.per_symbol_rate,
            }),
        ),
{
    ControlCommand::SetRateLimits(
        RateLimitConfigUpdate {
            global_rate: req.global_rate,
            per_symbol_rate: req.per_symbol_rate,
        },
    )
}

/// The command to set the capacities of the channels.
pub fn set_channel_params(req: ChannelConfigRequest) -> (c: ControlCommand)
    ensures
        c == ControlCommand::SetChannelParams(
            (ChannelConfigUpdate {
                per_asset_tick_channel_capacity: req.per_asset_tick_channel_capacity,
                feature_channel_capacity: req.feature_channel_capacity,
                risk_channel_capacity: req.risk_channel_capacity,
                decision_channel_capacity: req.decision_channel_capacity,
                lifecycle_channel_capacity: req.lifecycle_channel_capacity,
                command_channel_capacity: req.command_channel_capacity,
                journal_channel_capacity: req.journal_channel_capacity,
            }),
        ),
{
    ControlCommand::SetChannelParams(
        ChannelConfigUpdate {
            per_asset_tick_channel_capacity: req.per_asset_tick_channel_capacity,
            feature_channel_capacity: req.feature_channel_capacity,
            risk_channel_capacity: req.risk_channel_capacity,
            decision_channel_capacity: req.decision_channel_capacity,
            lifecycle_channel_capacity: req.lifecycle_channel_capacity,
            command_channel_capacity: req.command_channel_capacity,
            journal_channel_capacity: req.journal_channel_capacity,
        },
    )
}

/// The command to set the settings of the reactor.
pub fn set_reactor_params(req: ReactorConfigRequest) -> (c: ControlCommand)
    ensures
        c == ControlCommand::SetReactorParams(
            (ReactorConfigUpdate {
                max_batch_size: req.max_batch_size,
                control_batch_size: req.control_batch_size,
                sleep_on_empty_us: req.sleep_on_empty_us,
                backpressure_log_interval: req.backpressure_log_interval,
            }),
        ),
{
    ControlCommand::SetReactorParams(
        ReactorConfigUpdate {
            max_batch_size: req.max_batch_size,
            control_batch_size: req.control_batch_size,
            sleep_on_empty_us: req.sleep_on_empty_us,
            backpressure_log_interval: req.backpressure_log_interval,
        },
    )
}

/// The command to set the limits of the validator.
pub fn set_validator_params(req: ValidatorConfigRequest) -> (c: ControlCommand)
    ensures
        c == ControlCommand::SetValidatorParams(
            (ValidatorConfigUpdate {
                max_symbol_length: req.max_symbol_length,
                max_quantity: req.max_quantity,
                max_order_id_length: req.max_order_id_length,
            }),
        ),
{
    ControlCommand::SetValidatorParams(
        ValidatorConfigUpdate {
            max_symbol_length: req.max_symbol_length,
            max_quantity: req.max_quantity,
            max_order_id_length: req.max_order_id_length,
        },
    )
}

/// The risk settings.
pub fn get_risk_params(c: &RiskConfig) -> (r: RiskParamsResponse)
    ensures
        r == (RiskParamsResponse {
            max_portfolio_exposure: c.max_portfolio_exposure,
            max_leverage: c.max_leverage,
            max_drawdown_pct: c.max_drawdown_pct,
            max_order_rate_per_sec: c.max_order_rate_per_sec,
            max_position_per_symbol: c.max_position_per_symbol,
            max_volatility: c.max_volatility,
            max_spread_bps: c.max_spread_bps,
            max_slippage_bps: c.max_slippage_bps,
            allow_short: c.allow_short,
            kill_switch_on_drawdown: c.kill_switch_on_drawdown,
            risk_intent_staleness_ns: c.risk_intent_staleness_ns,
            initial_equity: c.initial_equity,
        }),
{
    RiskParamsResponse {
        max_portfolio_exposure: c.max_portfolio_exposure,
        max_leverage: c.max_leverage,
        max_drawdown_pct: c.max_drawdown_pct,
        max_order_rate_per_sec: c.max_order_rate_per_sec,
        max_position_per_symbol: c.max_position_per_symbol,
        max_volatility: c.max_volatility,
        max_spread_bps: c.max_spread_bps,
        max_slippage_bps: c.max_slippage_bps,
        allow_short: c.allow_short,
        kill_switch_on_drawdown: c.kill_switch_on_drawdown,
        risk_intent_staleness_ns: c.risk_intent_staleness_ns,
        initial_equity: c.initial_equity,
    }
}

/// The capacities of the channels.
pub fn get_channel_params(c: &ChannelConfig) -> (r: ChannelConfigResponse)
    ensures
        r == (ChannelConfigResponse {
            per_asset_tick_channel_capacity: c.per_asset_tick_channel_capacity,
            feature_channel_capacity: c.feature_channel_capacity,
            risk_channel_capacity: c.risk_channel_capacity,
            decision_channel_capacity: c.decision_channel_capacity,
            lifecycle_channel_capacity: c.lifecycle_channel_capacity,
            command_channel_capacity: c.command_channel_capacity,
            journal_channel_capacity: c.journal_channel_capacity,
        }),
{
    ChannelConfigResponse {
        per_asset_tick_channel_capacity: c.per_asset_tick_channel_capacity,
        feature_channel_capacity: c.feature_channel_capacity,
        risk_channel_capacity: c.risk_channel_capacity,
        decision_channel_capacity: c.decision_channel_capacity,
        lifecycle_channel_capacity: c.lifecycle_channel_capacity,
        command_channel_capacity: c.command_channel_capacity,
        journal_channel_capacity: c.journal_channel_capacity,
    }
}

/// The settings of the reactor.
pub fn get_reactor_params(c: &ReactorConfig) -> (r: ReactorConfigResponse)
    ensures
        r == (ReactorConfigResponse {
            max_batch_size: c.max_batch_size,
            control_batch_size: c.control_batch_size,
            sleep_on_empty_us: c.sleep_on_empty_us,
            backpressure_log_interval: c.backpressure_log_interval,
        }),
{
    ReactorConfigResponse {
        max_batch_size: c.max_batch_size,
        control_batch_size: c.control_batch_size,
        sleep_on_empty_us: c.sleep_on_empty_us,
        backpressure_log_interval: c.backpressure_log_interval,
    }
}

/// The limits of the validator.
pub fn get_validator_params(c: &ValidatorConfig) -> (r: ValidatorConfigResponse)
    ensures
        r == (ValidatorConfigResponse {
            max_symbol_length: c.max_symbol_length,
            max_quantity: c.max_quantity,
            max_order_id_length: c.max_order_id_length,
        }),
{
    ValidatorConfigResponse {
        max_symbol_length: c.max_symbol_length,
        max_quantity: c.max_quantity,
        max_order_id_length: c.max_order_id_length,
    }
}

/// Whether the engine runs.
pub fn health(active: bool) -> (r: HealthResponse)
    ensures
        r.status@ == (if active {
            "stopped"@
        } else {
            "running"@
        }),
        r.kill_switch_active == active,
        r.uptime@ == "unknown"@,
{
    let status = if active {
        "stopped".to_owned()
    } else {
        "running".to_owned()
    };
    HealthResponse { status, kill_switch_active: active, uptime: "unknown".to_owned() }
}

/// Whether `r` tells of `k`.
pub open spec fn tells_of<C: Clock>(r: KillSwitchResponse, k: KillSwitch<C>) -> bool {
    &&& r.active == k.on()
    &&& r.activated_at_ns == k.at_ns()
    &&& r.activation_count == k.count()
    &&& crate::text::views(r.open_orders@) == k.orders()
}

/// The kill switch.
pub fn kill_switch_status<C: Clock>(k: &KillSwitch<C>) -> (r: KillSwitchResponse)
    requires
        k.wf(),
    ensures
        tells_of(r, *k),
{
    KillSwitchResponse {
        active: k.is_active(),
        activated_at_ns: k.activated_at_ns(),
        activation_count: k.activation_count(),
        open_orders: k.get_open_orders(),
    }
}

/// The kill switch and the counters.
pub fn status<C: Clock>(k: &KillSwitch<C>, metrics: &GlobalMetrics) -> (r: StatusResponse)
    requires
        k.wf(),
        metrics.wf(),
    ensures
        tells_of(r.kill_switch, *k),
        r.metrics.values_of(metrics),
{
    StatusResponse { kill_switch: kill_switch_status(k), metrics: metrics.snapshot() }
}

/// The orders that the kill switch would cancel.
pub fn tracked_orders<C: Clock>(k: &KillSwitch<C>) -> (r: TrackedOrdersResponse)
    requires
        k.wf(),
    ensures
        crate::text::views(r.open_orders@) == k.orders(),
{
    TrackedOrdersResponse { open_orders: k.get_open_orders() }
}

/// The settings of an asset, where there is such an asset: those of the first with the symbol.
pub fn get_asset_config(config: &EngineConfig, symbol: &str) -> (r: Result<
    AssetConfigResponse,
    ApiStatus,
>)
    ensures
        match r {
            Ok(a) => exists|i: int|
                {
                    &&& 0 <= i < config.asset_configs@.len()
                    &&& (#[trigger] config.asset_configs@[i]).symbol@ == symbol@
                    &&& forall|j: int|
                        0 <= j < i ==> (#[trigger] config.asset_configs@[j]).symbol@ != symbol@
                    &&& a.symbol@ == symbol@
                    &&& a.enabled == config.asset_configs@[i].enabled
                    &&& a.max_position == config.asset_configs@[i].max_position
                    &&& a.tick_size == config.asset_configs@[i].tick_size
                },
            Err(e) => {
                &&& e == ApiStatus::NotFound
                &&& forall|j: int|
                    0 <= j < config.asset_configs@.len() ==> (
                    #[trigger] config.asset_configs@[j]).symbol@ != symbol@
            },
        },
{
    let mut i: usize = 0;
    while i < config.asset_configs.len()
        invariant
            i <= config.asset_configs@.len(),
            forall|j: int|
                0 <= j < i ==> (#[trigger] config.asset_configs@[j]).symbol@ != symbol@,
        decreases config.asset_configs@.len() - i,
    {
        let asset = &config.asset_configs[i];
        if str_eq(asset.symbol.as_str(), symbol) {
            assert(config.asset_configs@[i as int].symbol@ == symbol@);
            return Ok(
                AssetConfigResponse {
                    symbol: asset.symbol.as_str().to_owned(),
                    enabled: asset.enabled,
                    max_position: asset.max_position,
                    tick_size: asset.tick_size,
                },
            );
        }
        i += 1;
    }
    Err(ApiStatus::NotFound)
}

/// The counters of each symbol.
pub fn per_symbol_stats(snap: MetricsSnapshot) -> (r: PerSymbolStatsResponse)
    ensures
        r.per_symbol_ticks == snap.per_symbol_ticks,
        r.per_symbol_features == snap.per_symbol_features,
        r.per_symbol_intents_approved == snap.per_symbol_intents_approved,
        r.per_symbol_intents_rejected == snap.per_symbol_intents_rejected,
{
    PerSymbolStatsResponse {
        per_symbol_ticks: snap.per_symbol_ticks,
        per_symbol_features: snap.per_symbol_features,
        per_symbol_intents_approved: snap.per_symbol_intents_approved,
        per_symbol_intents_rejected: snap.per_symbol_intents_rejected,
    }
}

/// A model that is known.
#[derive(Debug)]
pub struct ModelInfo {
    pub model_id: String,
    pub version: u32,
    pub input_features: Vec<String>,
    pub applicable_regimes: Vec<i32>,
    pub priority: u32,
}

impl ModelInfo {
    /// The model as it is shown.
    pub open spec fn shown(self) -> ActiveModelResponse {
        ActiveModelResponse {
            model_id: self.model_id,
            version: self.version,
            input_features: self.input_features,
            applicable_regimes: self.applicable_regimes,
            priority: self.priority,
        }
    }

    /// The model as it is shown.
    pub fn show(self) -> (r: ActiveModelResponse)
        ensures
            r == self.shown(),
    {
        ActiveModelResponse {
            model_id: self.model_id,
            version: self.version,
            input_features: self.input_features,
            applicable_regimes: self.applicable_regimes,
            priority: self.priority,
        }
    }
}

/// The active model, or an empty answer where none is active.
pub fn get_active_model(info: Option<ModelInfo>) -> (r: ActiveModelResponse)
    ensures
        match info {
            Some(m) => r == m.shown(),
            None => {
                &&& r.model_id@ == ""@
                &&& r.version == 0
                &&& r.input_features@ == Seq::<String>::empty()
                &&& r.applicable_regimes@ == Seq::<i32>::empty()
                &&& r.priority == 0
            },
        },
{
    match info {
        Some(m) => m.show(),
        None => ActiveModelResponse {
            model_id: "".to_owned(),
            version: 0,
            input_features: Vec::new(),
            applicable_regimes: Vec::new(),
            priority: 0,
        },
    }
}

/// All models.
pub fn list_models(models: Vec<ModelInfo>) -> (r: ModelListResponse)
    ensures
        r.models@ == models@.map_values(|m: ModelInfo| m.shown()),
{
    let mut out: Vec<ActiveModelResponse> = Vec::new();
    for m in it: models
        invariant
            it.seq() == models@,
            out@ == models@.take(it.index()).map_values(|m: ModelInfo| m.shown()),
    {
        let ghost i = it.index();
        let ghost before = out@;
        out.push(m.show());
        assert(models@.take(i + 1).map_values(|m: ModelInfo| m.shown()) =~= before.push(
            models@[i].shown(),
        ));
    }
    assert(models@.take(models@.len() as int) =~= models@);
    ModelListResponse { models: out }
}

/// The sum of sizes.
pub open spec fn total(v: Seq<usize>) -> nat
    decreases v.len(),
{
    if v.len() == 0 {
        0
    } else {
        total(v.drop_last()) + v.last() as nat
    }
}

/// A list that was cut short has no larger sum.
pub proof fn lemma_total_take(v: Seq<usize>, n: int)
    requires
        0 <= n <= v.len(),
    ensures
        total(v.take(n)) <= total(v),
    decreases v.len(),
{
    if n == v.len() {
        assert(v.take(n) =~= v);
    } else {
        assert(v.drop_last().take(n) =~= v.take(n));
        lemma_total_take(v.drop_last(), n);
    }
}

fn total_of(v: &Vec<usize>) -> (n: usize)
    requires
        total(v@) <= usize::MAX,
    ensures
        n == total(v@),
{
    let mut n: usize = 0;
    let mut i: usize = 0;
    while i < v.len()
        invariant
            i <= v@.len(),
            n == total(v@.take(i as int)),
            total(v@) <= usize::MAX,
        decreases v@.len() - i,
    {
        proof {
            lemma_total_take(v@, i + 1);
            assert(v@.take(i + 1).drop_last() =~= v@.take(i as int));
        }
        n += v[i];
        i += 1;
    }
    assert(v@.take(v@.len() as int) =~= v@);
    n
}

/// How full the stores of handled orders are, taken together.
pub fn idempotency_status(sizes: &Vec<usize>, capacities: &Vec<usize>) -> (
    r: IdempotencyStatusResponse)
    requires
        total(sizes@) <= usize::MAX,
        total(capacities@) <= usize::MAX,
    ensures
        r.store_size == total(sizes@),
        r.store_capacity == total(capacities@),
{
    IdempotencyStatusResponse { store_size: total_of(sizes), store_capacity: total_of(capacities) }
}

/// The orders of all lists, one list after the other.
pub open spec fn joined(lists: Seq<Vec<Order>>) -> Seq<Order>
    decreases lists.len(),
{
    if lists.len() == 0 {
        Seq::empty()
    } else {
        joined(lists.drop_last()) + lists.last()@
    }
}

/// All orders.
pub fn all_orders(lists: Vec<Vec<Order>>) -> (r: OrdersResponse)
    ensures
        r.orders@ == joined(lists@),
{
    let mut out: Vec<Order> = Vec::new();
    for list in it: lists
        invariant
            it.seq() == lists@,
            out@ == joined(lists@.take(it.index())),
    {
        let ghost i = it.index();
        let mut list = list;
        assert(lists@.take(i + 1).drop_last() =~= lists@.take(i));
        out.append(&mut list);
    }
    assert(lists@.take(lists@.len() as int) =~= lists@);
    OrdersResponse { orders: out }
}

/// The signs of life of all threads.
pub fn heartbeats(beats: Option<&StrMap<u64>>) -> (r: HeartbeatsResponse)
    requires
        beats matches Some(b) ==> b.wf(),
    ensures
        r.status@ == "ok"@,
        match beats {
            Some(b) => {
                &&& r.threads@.len() == b.key_seq().len()
                &&& forall|i: int|
                    0 <= i < r.threads@.len() ==> {
                        &&& (#[trigger] r.threads@[i]).thread@ == b.key_seq()[i]
                        &&& r.threads@[i].last_timestamp_ns == b.val_seq()[i]
                    }
            },
            None => r.threads@.len() == 0,
        },
{
    let mut threads: Vec<HeartbeatDetail> = Vec::new();
    match beats {
        Some(b) => {
            let n: usize = b.len();
            let mut i: usize = 0;
            while i < n
                invariant
                    b.wf(),
                    n == b.key_seq().len(),
                    i <= n,
                    threads@.len() == i,
                    forall|j: int|
                        0 <= j < i ==> {
                            &&& (#[trigger] threads@[j]).thread@ == b.key_seq()[j]
                            &&& threads@[j].last_timestamp_ns == b.val_seq()[j]
                        },
                decreases n - i,
            {
                threads.push(
                    HeartbeatDetail {
                        thread: b.key_at(i).as_str().to_owned(),
                        last_timestamp_ns: *b.val_at(i),
                    },
                );
                i += 1;
            }
        },
        None => {},
    }
    HeartbeatsResponse { status: "ok".to_owned(), threads }
}

/// What is left of the rate limits of a symbol; nothing where the symbol has no limit of its own.
pub fn rate_limiter_status(symbol: String, global_tokens: Real, left: Option<(Real, Real)>) -> (
    r: RateLimiterStatusResponse)
    ensures
        r.symbol == symbol,
        r.global_tokens == global_tokens,
        match left {
            Some((tokens, percent)) => r.symbol_tokens == tokens && r.symbol_percent_remaining
                == percent,
            None => r.symbol_tokens.bits == 0 && r.symbol_percent_remaining.bits == 0,
        },
{
    match left {
        Some((tokens, percent)) => RateLimiterStatusResponse {
            symbol,
            global_tokens,
            symbol_tokens: tokens,
            symbol_percent_remaining: percent,
        },
        None => RateLimiterStatusResponse {
            symbol,
            global_tokens,
            symbol_tokens: Real { bits: 0 },
            symbol_percent_remaining: Real { bits: 0 },
        },
    }
}

/// A request goes on just where it reads only, where no key is set, or where its header shows the
/// key behind the word for it.
pub proof fn law_changes_need_the_key(
    api_key: &str,
    method: ApiMethod,
    header: Option<&str>,
    r: bool,
)
    requires
        call_ensures(authorized, (api_key, method, header), r),
    ensures
        method is Get || method is Other ==> r,
        api_key@.len() == 0 ==> r,
        (method is Post || method is Put || method is Delete) && api_key@.len() > 0 ==> (r
            <==> header is Some && header->0@ == "Bearer "@ + api_key@),
{
}

/// The client of a request is the first of those that it was forwarded for, and unknown where none is
/// named.
pub proof fn law_client_is_the_first_forwarded(
    first: Seq<char>,
    rest: Seq<char>,
)
    requires
        !first.contains(','),
    ensures
        client_name(None) == "unknown"@,
        client_name(Some(first)) == first,
        client_name(Some(first.push(',') + rest)) == first,
{
    let s = first.push(',') + rest;
    crate::text::lemma_split_first(first, rest, (s.len() + 1) as nat, ',');
    crate::text::lemma_first_index(first, ',');
    let k = crate::text::first_index(first, ',');
    if 0 <= k < first.len() {
        assert(first.contains(first[k]));
    }
}

/// One request of a client: within its window it goes on while less than the limit went before it,
/// and is counted; a window that is over starts anew with it. Time counts in seconds of nanoseconds.
pub proof fn law_request_is_counted_in_its_window(
    entry: Option<(u64, u32)>,
    max: u32,
    window_secs: u64,
    now: u64,
)
    ensures
        ({
            let after = counted(entry, max, window_secs, now).0;
            let allowed = counted(entry, max, window_secs, now).1;
            &&& entry is None && max > 0 ==> allowed && after.0 == now && after.1 == 1
            &&& entry is None && max == 0 ==> !allowed
            &&& entry matches Some(e) ==> {
                let over = now > e.0 + window_secs * 1_000_000_000;
                &&& over ==> allowed && after.0 == now && after.1 == 1
                &&& !over ==> (allowed <==> e.1 < max) && after.0 == e.0 && after.1 == e.1 + (
                if allowed {
                    1int
                } else {
                    0int
                })
            }
        }),
{
}

/// What an answer is called by number.
pub proof fn law_answers_have_their_numbers(s: ApiStatus, n: u16)
    requires
        call_ensures(ApiStatus::code, (&s,), n),
    ensures
        s is Success <==> n == 200,
        s is Unauthorized <==> n == 401,
        s is NotFound <==> n == 404,
        s is TooManyRequests <==> n == 429,
        s is ServerError <==> n == 500,
{
}

/// The parameters of a strategy are handed on as they were asked for, each under its own name, for
/// the symbol and the strategy that were named.
pub proof fn law_strategy_is_asked_for(
    symbol: &str,
    kind: &str,
    q: StrategyParamsRequest,
    c: ControlCommand,
)
    requires
        call_ensures(swap_command, (symbol, kind, Some(q)), c),
    ensures
        c is SwapStrategy,
        c->SwapStrategy_symbol@ == symbol@,
        c->strategy_type@ == kind@,
        c->params is Some,
        ({
            let p = c->params->0;
            &&& p.long_entry_threshold == q.long_entry_threshold
            &&& p.short_entry_threshold == q.short_entry_threshold
            &&& p.exit_threshold == q.exit_threshold
            &&& p.confidence_minimum == q.confidence_minimum
            &&& p.hysteresis_deadband == q.hysteresis_deadband
            &&& p.entry_cooldown_ms == q.entry_cooldown_ms
            &&& p.exit_cooldown_ms == q.exit_cooldown_ms
            &&& p.prediction_staleness_ns == q.prediction_staleness_ns
            &&& p.allow_short == q.allow_short
            &&& p.max_long_units == q.max_long_units
            &&& p.max_short_units == q.max_short_units
            &&& p.trade_intent_ttl_ns == q.trade_intent_ttl_ns
            &&& p.urgency_aggressive_threshold == q.urgency_aggressive_threshold
            &&& p.urgency_normal_threshold == q.urgency_normal_threshold
        }),
{
}

/// What is told of the kill switch is how it stands.
pub proof fn law_switch_is_told_as_it_stands<C: Clock>(r: KillSwitchResponse, k: KillSwitch<C>)
    requires
        tells_of(r, k),
    ensures
        r.active == k.on(),
        r.activated_at_ns == k.at_ns(),
        r.activation_count == k.count(),
        r.open_orders@.len() == k.orders().len(),
        forall|i: int| 0 <= i < r.open_orders@.len() ==> (#[trigger] r.open_orders@[i])@
            == k.orders()[i],
{
    assert(crate::text::views(r.open_orders@).len() == r.open_orders@.len());
    assert forall|i: int| 0 <= i < r.open_orders@.len() implies (#[trigger] r.open_orders@[i])@
        == k.orders()[i] by {
        assert(crate::text::views(r.open_orders@)[i] == r.open_orders@[i]@);
    }
}

/// Counts add up, and lists are put one behind the other.
pub proof fn law_counts_and_lists_add_up(
    v: Seq<usize>,
    n: usize,
    lists: Seq<Vec<Order>>,
    list: Vec<Order>,
)
    ensures
        total(Seq::empty()) == 0,
        total(v.push(n)) == total(v) + n,
        joined(Seq::empty()) == Seq::<Order>::empty(),
        joined(lists.push(list)) == joined(lists) + list@,
{
    assert(v.push(n).drop_last() =~= v);
    assert(lists.push(list).drop_last() =~= lists);
}

/// A request without the key is refused before it counts; one that only reads is never limited; and
/// of the requests of a client that change something, those beyond the limit of its window are
/// refused. The counts of other clients stay.
pub proof fn law_requests_are_screened_in_turn(other: Seq<char>)
    ensures
        forall|
            api_key: &str,
            method: ApiMethod,
            header: Option<&str>,
            forwarded: Option<&str>,
            l: &mut SimpleRateLimiter,
            now: u64,
            r: Option<ApiStatus>,
        |
            #![trigger call_ensures(screen_request, (api_key, method, header, forwarded, l, now), r)]
            call_ensures(screen_request, (api_key, method, header, forwarded, l, now), r) ==> {
                let change = method is Post || method is Put || method is Delete;
                let shown = !change || api_key@.len() == 0 || (header is Some && header->0@
                    == "Bearer "@ + api_key@);
                &&& !shown <==> r == Some(ApiStatus::Unauthorized)
                &&& !shown || !change ==> *final(l) == *l
                &&& shown && !change ==> r is None
                &&& r is Some ==> r->0 is Unauthorized || r->0 is TooManyRequests
                &&& shown && change && forwarded is None && other != "unknown"@
                    ==> final(l).entries().dom().contains(other) == l.entries().dom().contains(
                    other,
                )
                &&& shown && change && forwarded is None && l.entries().dom().contains("unknown"@) && now
                    <= l.entries()["unknown"@].0 + l.window() * 1_000_000_000 ==> (r is None
                    <==> l.entries()["unknown"@].1 < l.max())
                &&& shown && change && forwarded is None && !l.entries().dom().contains(
                    "unknown"@,
                ) && l.max() > 0 ==> r is None
            },
{
}

/// The settings of risk that are asked for are those of the command, each under its own name.
pub proof fn law_settings_of_risk_are_asked_for(req: RiskParamsRequest, c: ControlCommand)
    requires
        call_ensures(set_risk_params, (req,), c),
    ensures
        c matches ControlCommand::SetRiskParams(u) && {
            &&& u.max_portfolio_exposure == req.max_portfolio_exposure
            &&& u.max_leverage == req.max_leverage
            &&& u.max_drawdown_pct == req.max_drawdown_pct
            &&& u.max_order_rate_per_sec == req.max_order_rate_per_sec
            &&& u.max_position_per_symbol == req.max_position_per_symbol
            &&& u.max_volatility == req.max_volatility
            &&& u.max_spread_bps == req.max_spread_bps
            &&& u.max_slippage_bps == req.max_slippage_bps
            &&& u.allow_short == req.allow_short
            &&& u.kill_switch_on_drawdown == req.kill_switch_on_drawdown
            &&& u.risk_intent_staleness_ns == req.risk_intent_staleness_ns
            &&& u.initial_equity == req.initial_equity
        },
{
}

/// The settings of the broker that are asked for are those of the command, each under its own name.
pub proof fn law_settings_of_broker_are_asked_for(req: BrokerParamsRequest, c: ControlCommand)
    requires
        call_ensures(set_broker_params, (req,), c),
    ensures
        c matches ControlCommand::SetBrokerParams(u) && {
            &&& u.broker_type == req.broker_type
            &&& u.paper_trading == req.paper_trading
            &&& u.ws_url == req.ws_url
            &&& u.rest_url == req.rest_url
            &&& u.max_retries == req.max_retries
            &&& u.retry_backoff_ms == req.retry_backoff_ms
        },
{
}

/// The settings of the features that are asked for are those of the command, each under its own name.
pub proof fn law_settings_of_features_are_asked_for(req: FeatureParamsRequest, c: ControlCommand)
    requires
        call_ensures(set_feature_params, (req,), c),
    ensures
        c matches ControlCommand::SetFeatureParams(u) && {
            &&& u.rsi_period == req.rsi_period
            &&& u.macd_fast == req.macd_fast
            &&& u.macd_slow == req.macd_slow
            &&& u.macd_signal == req.macd_signal
            &&& u.atr_period == req.atr_period
            &&& u.ema_periods == req.ema_periods
            &&& u.rolling_window_sizes == req.rolling_window_sizes
            &&& u.price_window_size == req.price_window_size
            &&& u.volume_window_size == req.volume_window_size
            &&& u.regime_volatile_atr_threshold == req.regime_volatile_atr_threshold
            &&& u.regime_trending_threshold == req.regime_trending_threshold
        },
{
}

/// The settings of the model that are asked for are those of the command, each under its own name.
pub proof fn law_settings_of_model_are_asked_for(req: ModelParamsRequest, c: ControlCommand)
    requires
        call_ensures(set_model_params, (req,), c),
    ensures
        c matches ControlCommand::SetModelParams(u) && {
            &&& u.model_dir == req.model_dir
            &&& u.inference_threads == req.inference_threads
            &&& u.max_inference_latency_ms == req.max_inference_latency_ms
            &&& u.feature_vector_size == req.feature_vector_size
            &&& u.inference_rsi_bearish_threshold == req.inference_rsi_bearish_threshold
            &&& u.inference_rsi_bullish_threshold == req.inference_rsi_bullish_threshold
            &&& u.inference_rsi_center == req.inference_rsi_center
            &&& u.inference_atr_penalty_threshold == req.inference_atr_penalty_threshold
            &&& u.inference_volume_confirmation_threshold == req.inference_volume_confirmation_threshold
            &&& u.action_score_rsi_weight == req.action_score_rsi_weight
            &&& u.action_score_macd_weight == req.action_score_macd_weight
            &&& u.action_score_volatility_weight == req.action_score_volatility_weight
            &&& u.confidence_rsi_weight == req.confidence_rsi_weight
            &&& u.confidence_macd_weight == req.confidence_macd_weight
            &&& u.confidence_regime_weight == req.confidence_regime_weight
        },
{
}

/// The settings of the journal that are asked for are those of the command, each under its own name.
pub proof fn law_settings_of_journal_are_asked_for(req: JournalParamsRequest, c: ControlCommand)
    requires
        call_ensures(set_journal_params, (req,), c),
    ensures
        c matches ControlCommand::SetJournalParams(u) && {
            &&& u.journal_dir == req.journal_dir
            &&& u.flush_interval_ms == req.flush_interval_ms
            &&& u.snapshot_interval_sec == req.snapshot_interval_sec
            &&& u.max_file_size_mb == req.max_file_size_mb
        },
{
}

/// The settings of the channels that are asked for are those of the command, each under its own name.
pub proof fn law_settings_of_channels_are_asked_for(req: ChannelConfigRequest, c: ControlCommand)
    requires
        call_ensures(set_channel_params, (req,), c),
    ensures
        c matches ControlCommand::SetChannelParams(u) && {
            &&& u.per_asset_tick_channel_capacity == req.per_asset_tick_channel_capacity
            &&& u.feature_channel_capacity == req.feature_channel_capacity
            &&& u.risk_channel_capacity == req.risk_channel_capacity
            &&& u.decision_channel_capacity == req.decision_channel_capacity
            &&& u.lifecycle_channel_capacity == req.lifecycle_channel_capacity
            &&& u.command_channel_capacity == req.command_channel_capacity
            &&& u.journal_channel_capacity == req.journal_channel_capacity
        },
{
}

/// Each of the smaller settings that are asked for is that of the command of its kind.
pub proof fn law_smaller_settings_are_asked_for(
    e: ExecutionDefaultsRequest,
    l: RateLimitRequest,
    r: ReactorConfigRequest,
    v: ValidatorConfigRequest,
    b: CircuitBreakerConfigRequest,
    a: ControlCommand,
    d: ControlCommand,
    f: ControlCommand,
    g: ControlCommand,
    h: ControlCommand,
)
    requires
        call_ensures(set_execution_defaults, (e,), a),
        call_ensures(set_rate_limits, (l,), d),
        call_ensures(set_reactor_params, (r,), f),
        call_ensures(set_validator_params, (v,), g),
        call_ensures(set_circuit_breaker_config, (b,), h),
    ensures
        a matches ControlCommand::SetExecutionDefaults(u) && {
            &&& u.default_order_quantity == e.default_order_quantity
            &&& u.execution_per_symbol_rate_divisor == e.execution_per_symbol_rate_divisor
        },
        d matches ControlCommand::SetRateLimits(u) && u.global_rate == l.global_rate
            && u.per_symbol_rate == l.per_symbol_rate,
        f matches ControlCommand::SetReactorParams(u) && {
            &&& u.max_batch_size == r.max_batch_size
            &&& u.control_batch_size == r.control_batch_size
            &&& u.sleep_on_empty_us == r.sleep_on_empty_us
            &&& u.backpressure_log_interval == r.backpressure_log_interval
        },
        g matches ControlCommand::SetValidatorParams(u) && {
            &&& u.max_symbol_length == v.max_symbol_length
            &&& u.max_quantity == v.max_quantity
            &&& u.max_order_id_length == v.max_order_id_length
        },
        h matches ControlCommand::SetCircuitBreakerParams(u) && u.failure_threshold
            == b.failure_threshold && u.cooldown_ms == b.cooldown_ms,
{
}

/// A request to throw or clear the kill switch, to change the mode, the model or an asset becomes the
/// command of that kind with what was asked for.
pub proof fn law_requests_become_their_commands(
    k: KillSwitchRequest,
    m: ModeRequest,
    p: PaperTradingRequest,
    w: SwapModelRequest,
    symbol: String,
    a: AssetConfigRequest,
    ck: ControlCommand,
    cm: ControlCommand,
    cp: ControlCommand,
    cw: ControlCommand,
    ca: ControlCommand,
)
    requires
        call_ensures(set_kill_switch, (k,), ck),
        call_ensures(set_mode, (m,), cm),
        call_ensures(set_paper_trading, (p,), cp),
        call_ensures(swap_model, (w,), cw),
        call_ensures(set_asset_config, (symbol, a), ca),
    ensures
        ck matches ControlCommand::SetKillSwitch(on) && (on <==> k.active),
        cm matches ControlCommand::SetMode(mode) && mode@ == m.mode@,
        cp matches ControlCommand::SetMode(mode) && (p.paper_trading ==> mode@ == "paper"@) && (
        !p.paper_trading ==> mode@ == "live"@),
        cw matches ControlCommand::ModelSwap(id) && id@ == w.model_id@,
        ca matches ControlCommand::SetAssetConfig { symbol: s, config } && s@ == symbol@
            && config.enabled == a.enabled && config.max_position == a.max_position
            && config.tick_size == a.tick_size,
{
}

/// A command that the channel took is answered with success, and one that it did not take with a
/// fault of the server. The command is the one that was given, and is one more in the channel.
pub proof fn law_command_is_answered_by_its_sending()
    ensures
        forall|tx: &Sender<ControlCommand>, cmd: ControlCommand, m: &mut GlobalMetrics, s: ApiStatus|
            #![trigger call_ensures(send_command, (tx, cmd, m), s)]
            call_ensures(send_command, (tx, cmd, m), s) ==> {
                &&& exists|r: Result<(), ControlCommand>| #[trigger]
                    crate::channel_utils::handed(tx, cmd, r) && (r is Ok ==> s is Success) && (
                    r is Err ==> s is ServerError)
                &&& m.command_channel_depth < i64::MAX ==> final(m).command_channel_depth
                    == m.command_channel_depth + 1
                &&& final(m).journal_channel_depth == m.journal_channel_depth
            },
        forall|sent: bool, s: ApiStatus| #[trigger]
            call_ensures(status_of_send, (sent,), s) ==> (sent <==> s is Success) && (!sent <==> s
                is ServerError),
{
}

/// The answer to a change of strategy names what was asked for, and says whether it is on its way.
pub proof fn law_change_of_strategy_is_answered(
    symbol: String,
    kind: String,
    sent: bool,
    r: (ApiStatus, StrategySwapResponse),
)
    requires
        call_ensures(swap_response, (symbol, kind, sent), r),
    ensures
        r.1.symbol@ == symbol@,
        r.1.strategy_type@ == kind@,
        sent ==> r.0 is Success && r.1.status@ == "swap_requested"@,
        !sent ==> r.0 is ServerError && r.1.status@ == "failed"@,
{
}

/// The settings that are told are those in force, each under its own name.
pub proof fn law_settings_are_told_as_they_are(
    c: &RiskConfig,
    d: &ChannelConfig,
    e: &ReactorConfig,
    f: &ValidatorConfig,
    rc: RiskParamsResponse,
    rd: ChannelConfigResponse,
    re: ReactorConfigResponse,
    rf: ValidatorConfigResponse,
)
    requires
        call_ensures(get_risk_params, (c,), rc),
        call_ensures(get_channel_params, (d,), rd),
        call_ensures(get_reactor_params, (e,), re),
        call_ensures(get_validator_params, (f,), rf),
    ensures
        rc.max_portfolio_exposure == c.max_portfolio_exposure,
        rc.max_leverage == c.max_leverage,
        rc.max_drawdown_pct == c.max_drawdown_pct,
        rc.max_order_rate_per_sec == c.max_order_rate_per_sec,
        rc.max_position_per_symbol == c.max_position_per_symbol,
        rc.max_volatility == c.max_volatility,
        rc.max_spread_bps == c.max_spread_bps,
        rc.max_slippage_bps == c.max_slippage_bps,
        rc.allow_short == c.allow_short,
        rc.kill_switch_on_drawdown == c.kill_switch_on_drawdown,
        rc.risk_intent_staleness_ns == c.risk_intent_staleness_ns,
        rc.initial_equity == c.initial_equity,
        rd.per_asset_tick_channel_capacity == d.per_asset_tick_channel_capacity,
        rd.feature_channel_capacity == d.feature_channel_capacity,
        rd.risk_channel_capacity == d.risk_channel_capacity,
        rd.decision_channel_capacity == d.decision_channel_capacity,
        rd.lifecycle_channel_capacity == d.lifecycle_channel_capacity,
        rd.command_channel_capacity == d.command_channel_capacity,
        rd.journal_channel_capacity == d.journal_channel_capacity,
        re.max_batch_size == e.max_batch_size,
        re.control_batch_size == e.control_batch_size,
        re.sleep_on_empty_us == e.sleep_on_empty_us,
        re.backpressure_log_interval == e.backpressure_log_interval,
        rf.max_symbol_length == f.max_symbol_length,
        rf.max_quantity == f.max_quantity,
        rf.max_order_id_length == f.max_order_id_length,
{
}

/// The engine is said to run just while the kill switch is off.
pub proof fn law_health_follows_the_switch(active: bool, r: HealthResponse)
    requires
        call_ensures(health, (active,), r),
    ensures
        r.kill_switch_active <==> active,
        active ==> r.status@ == "stopped"@,
        !active ==> r.status@ == "running"@,
{
}

/// What is told of an asset is what is set for it first, and an asset that is not set is not found.
pub proof fn law_asset_is_told_as_it_is_set(
    config: &EngineConfig,
    symbol: &str,
    r: Result<AssetConfigResponse, ApiStatus>,
    i: int,
)
    requires
        call_ensures(get_asset_config, (config, symbol), r),
        0 <= i < config.asset_configs@.len(),
        config.asset_configs@[i].symbol@ == symbol@,
        forall|j: int| 0 <= j < i ==> (#[trigger] config.asset_configs@[j]).symbol@ != symbol@,
    ensures
        r matches Ok(a) && a.symbol@ == symbol@ && a.enabled == config.asset_configs@[i].enabled
            && a.max_position == config.asset_configs@[i].max_position && a.tick_size
            == config.asset_configs@[i].tick_size,
{
}

/// An asset that is not set is answered that it was not found.
pub proof fn law_unknown_asset_is_not_found(
    config: &EngineConfig,
    symbol: &str,
    r: Result<AssetConfigResponse, ApiStatus>,
)
    requires
        call_ensures(get_asset_config, (config, symbol), r),
        forall|j: int|
            0 <= j < config.asset_configs@.len() ==> (#[trigger] config.asset_configs@[j]).symbol@
                != symbol@,
    ensures
        r matches Err(e) && e is NotFound,
{
}

/// What is told of the limits of a symbol is what is left of them, and nothing is left of one that
/// is not known.
pub proof fn law_limits_are_told_as_they_are(
    symbol: String,
    all: Real,
    left: Option<(Real, Real)>,
    r: RateLimiterStatusResponse,
)
    requires
        call_ensures(rate_limiter_status, (symbol, all, left), r),
    ensures
        r.symbol@ == symbol@,
        r.global_tokens == all,
        left matches Some(t) ==> r.symbol_tokens == t.0 && r.symbol_percent_remaining == t.1,
        left is None ==> r.symbol_tokens.bits == 0 && r.symbol_percent_remaining.bits == 0,
{
}

/// The counts of the symbols that are told are those of the kind that they are named by.
pub proof fn law_symbol_counts_are_told_by_kind(snap: MetricsSnapshot, r: PerSymbolStatsResponse)
    requires
        call_ensures(per_symbol_stats, (snap,), r),
    ensures
        r.per_symbol_ticks == snap.per_symbol_ticks,
        r.per_symbol_features == snap.per_symbol_features,
        r.per_symbol_intents_approved == snap.per_symbol_intents_approved,
        r.per_symbol_intents_rejected == snap.per_symbol_intents_rejected,
{
}

/// Each thread is told with the time at which it was last heard of.
pub proof fn law_threads_are_told_with_their_times(b: &StrMap<u64>, r: HeartbeatsResponse, i: int)
    requires
        call_ensures(heartbeats, (Some(b),), r),
        0 <= i < b.key_seq().len(),
    ensures
        r.threads@.len() == b.key_seq().len(),
        r.threads@[i].thread@ == b.key_seq()[i],
        r.threads@[i].last_timestamp_ns == b.val_seq()[i],
{
}

/// A model is shown as it is; where none is active, none is named.
pub proof fn law_model_is_shown_as_it_is(info: Option<ModelInfo>, r: ActiveModelResponse)
    requires
        call_ensures(get_active_model, (info,), r),
    ensures
        info matches Some(m) ==> r.model_id@ == m.model_id@ && r.version == m.version
            && r.input_features@ == m.input_features@ && r.applicable_regimes@
            == m.applicable_regimes@ && r.priority == m.priority,
        info is None ==> r.model_id@ == ""@ && r.version == 0 && r.input_features@.len() == 0
            && r.applicable_regimes@.len() == 0 && r.priority == 0,
{
}

/// The models are listed one by one, in their order.
pub proof fn law_models_are_listed_in_turn(models: Vec<ModelInfo>, r: ModelListResponse, i: int)
    requires
        call_ensures(list_models, (models,), r),
        0 <= i < models@.len(),
    ensures
        r.models@.len() == models@.len(),
        r.models@[i].model_id@ == models@[i].model_id@,
        r.models@[i].version == models@[i].version,
        r.models@[i].priority == models@[i].priority,
{
}

} // verus!
