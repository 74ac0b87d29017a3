//! The commands that control the engine, and their answers.

use crossbeam_channel::{Receiver, Sender};
use vstd::prelude::*;

use crate::channel_utils::{bounded_channel, send};
use crate::metrics::{gauge_add, GlobalMetrics};
use crate::quantity::Real;

verus! {

/// The parameters of a strategy.
#[derive(Debug, Clone)]
pub struct StrategyParams {
    pub long_entry_threshold: Real,
    pub short_entry_threshold: Real,
    pub exit_threshold: Real,
    pub confidence_minimum: Real,
    pub hysteresis_deadband: Real,
    pub entry_cooldown_ms: u64,
    pub exit_cooldown_ms: u64,
    pub prediction_staleness_ns: u64,
    pub allow_short: bool,
    pub max_long_units: Real,
    pub max_short_units: Real,
    pub trade_intent_ttl_ns: u64,
    pub urgency_aggressive_threshold: Real,
    pub urgency_normal_threshold: Real,
}

/// New settings: risk.
#[derive(Debug, Clone)]
pub struct RiskConfigUpdate {
    pub max_portfolio_exposure: Real,
    pub max_leverage: Real,
    pub max_drawdown_pct: Real,
    pub max_order_rate_per_sec: u32,
    pub max_position_per_symbol: Real,
    pub max_volatility: Real,
    pub max_spread_bps: Real,
    pub max_slippage_bps: Real,
    pub allow_short: bool,
    pub kill_switch_on_drawdown: bool,
    pub risk_intent_staleness_ns: u64,
    pub initial_equity: Real,
}

/// New settings: broker.
#[derive(Debug, Clone)]
pub struct BrokerConfigUpdate {
    pub broker_type: String,
    pub paper_trading: bool,
    pub ws_url: String,
    pub rest_url: String,
    pub max_retries: u32,
    pub retry_backoff_ms: u64,
}

/// New settings: feature.
#[derive(Debug, Clone)]
pub struct FeatureConfigUpdate {
    pub rsi_period: usize,
    pub macd_fast: usize,
    pub macd_slow: usize,
    pub macd_signal: usize,
    pub atr_period: usize,
    pub ema_periods: Vec<usize>,
    pub rolling_window_sizes: Vec<usize>,
    pub price_window_size: usize,
    pub volume_window_size: usize,
    pub regime_volatile_atr_threshold: Real,
    pub regime_trending_threshold: Real,
}

/// New settings: model.
#[derive(Debug, Clone)]
pub struct ModelConfigUpdate {
    pub model_dir: String,
    pub inference_threads: usize,
    pub max_inference_latency_ms: u64,
    pub feature_vector_size: usize,
    pub inference_rsi_bearish_threshold: Real,
    pub inference_rsi_bullish_threshold: Real,
    pub inference_rsi_center: Real,
    pub inference_atr_penalty_threshold: Real,
    pub inference_volume_confirmation_threshold: Real,
    pub action_score_rsi_weight: Real,
    pub action_score_macd_weight: Real,
    pub action_score_volatility_weight: Real,
    pub confidence_rsi_weight: Real,
    pub confidence_macd_weight: Real,
    pub confidence_regime_weight: Real,
}

/// New settings: journal.
#[derive(Debug, Clone)]
pub struct JournalConfigUpdate {
    pub journal_dir: String,
    pub flush_interval_ms: u64,
    pub snapshot_interval_sec: u64,
    pub max_file_size_mb: u64,
}

/// New settings: asset.
#[derive(Debug, Clone)]
pub struct AssetConfigUpdate {
    pub enabled: bool,
    pub max_position: Real,
    pub tick_size: Real,
}

/// New settings: execution defaults.
#[derive(Debug, Clone)]
pub struct ExecutionDefaultsUpdate {
    pub default_order_quantity: Real,
    pub execution_per_symbol_rate_divisor: Real,
}

/// New settings: circuit breaker.
#[derive(Debug, Clone)]
pub struct CircuitBreakerConfigUpdate {
    pub failure_threshold: u64,
    pub cooldown_ms: u64,
}

/// New settings: rate limit.
#[derive(Debug, Clone)]
pub struct RateLimitConfigUpdate {
    pub global_rate: Real,
    pub per_symbol_rate: Real,
}

/// New settings: channel.
#[derive(Debug, Clone)]
pub struct ChannelConfigUpdate {
    pub per_asset_tick_channel_capacity: usize,
    pub feature_channel_capacity: usize,
    pub risk_channel_capacity: usize,
    pub decision_channel_capacity: usize,
    pub lifecycle_channel_capacity: usize,
    pub command_channel_capacity: usize,
    pub journal_channel_capacity: usize,
}

/// New settings: reactor.
#[derive(Debug, Clone)]
pub struct ReactorConfigUpdate {
    pub max_batch_size: usize,
    pub control_batch_size: usize,
    pub sleep_on_empty_us: u64,
    pub backpressure_log_interval: u64,
}

/// New settings: validator.
#[derive(Debug, Clone)]
pub struct ValidatorConfigUpdate {
    pub max_symbol_length: usize,
    pub max_quantity: Real,
    pub max_order_id_length: usize,
}

/// A command to the engine.
#[derive(Debug, Clone)]
pub enum ControlCommand {
    SetKillSwitch(bool),
    UpdateConfig(String),
    PauseAsset(String),
    ResumeAsset(String),
    SetMode(String),
    SwapStrategy {
        symbol: String,
        strategy_type: String,
        params: Option<StrategyParams>,
    },
    CircuitBreakerTrip,
    CircuitBreakerReset,
    SetRiskParams(RiskConfigUpdate),
    SetBrokerParams(BrokerConfigUpdate),
    SetFeatureParams(FeatureConfigUpdate),
    SetModelParams(ModelConfigUpdate),
    SetJournalParams(JournalConfigUpdate),
    SetAssetConfig { symbol: String, config: AssetConfigUpdate },
    SetExecutionDefaults(ExecutionDefaultsUpdate),
    SetCircuitBreakerParams(CircuitBreakerConfigUpdate),
    SetRateLimits(RateLimitConfigUpdate),
    SetChannelParams(ChannelConfigUpdate),
    SetReactorParams(ReactorConfigUpdate),
    SetValidatorParams(ValidatorConfigUpdate),
    ModelSwap(String),
    ReloadConfig,
    FlushJournal,
    SubscribeFeed { symbol: String },
    UnsubscribeFeed { symbol: String },
    GetStatus,
    Shutdown,
}

/// The answer to a command.
#[derive(Debug, Clone)]
pub enum ControlResponse {
    /// The command was carried out.
    Done,
    Error(String),
    Status(String),
}

/// Both ends of the channel for commands.
pub struct CommandChannel {
    pub tx: Sender<ControlCommand>,
    pub rx: Receiver<ControlCommand>,
}

impl CommandChannel {
    /// A channel with room for `capacity` commands.
    pub fn new(capacity: usize) -> (c: CommandChannel)
        requires
            capacity <= 0x100_0000,
        ensures
            crate::channel_utils::opened(capacity, c.tx, c.rx),
    {
        let (tx, rx) = bounded_channel(capacity);
        proof {
            crate::channel_utils::lemma_opened(capacity, tx, rx);
        }
        CommandChannel { tx, rx }
    }
}

/// What the actor that serves commands gets to know next.
pub enum ActorEvent {
    /// A command came in.
    Command(ControlCommand),
    /// None came in for a while.
    Timeout,
    /// All senders are gone.
    Disconnected,
}

/// What the actor does next.
pub enum ActorStep {
    Handle(ControlCommand),
    Wait,
    Stop,
}

/// The actor that serves commands one after the other.
pub struct CommandActor {
    running: bool,
}

impl CommandActor {
    pub closed spec fn on(&self) -> bool {
        self.running
    }

    pub fn new() -> (a: Self)
        ensures
            a.on(),
    {
        CommandActor { running: true }
    }

    pub fn is_running(&self) -> (r: bool)
        ensures
            r == self.on(),
    {
        self.running
    }

    /// Takes note of an event: a command leaves the channel and is to be handled.
    pub fn step(&mut self, event: ActorEvent, metrics: &mut GlobalMetrics) -> (s: ActorStep)
        ensures
            match event {
                ActorEvent::Command(cmd) => {
                    &&& s == ActorStep::Handle(cmd)
                    &&& *final(self) == *old(self)
                    &&& *final(metrics) == (GlobalMetrics {
                        command_channel_depth: crate::metrics::wrap_i64(
                            old(metrics).command_channel_depth,
                            -1i64,
                        ),
                        ..*old(metrics)
                    })
                },
                ActorEvent::Timeout => {
                    &&& s == ActorStep::Wait
                    &&& *final(self) == *old(self)
                    &&& *final(metrics) == *old(metrics)
                },
                ActorEvent::Disconnected => {
                    &&& s == ActorStep::Stop
                    &&& !final(self).on()
                    &&& *final(metrics) == *old(metrics)
                },
            },
    {
        match event {
            ActorEvent::Command(cmd) => {
                gauge_add(&mut metrics.command_channel_depth, -1);
                ActorStep::Handle(cmd)
            },
            ActorEvent::Timeout => ActorStep::Wait,
            ActorEvent::Disconnected => {
                self.running = false;
                ActorStep::Stop
            },
        }
    }

    /// Ends the service.
    pub fn shutdown(&mut self)
        ensures
            !final(self).on(),
    {
        self.running = false;
    }
}

/// Sends a command, which is one more in the channel also where nobody is left to serve it. The
/// result tells whether it was sent.
pub fn send_command(tx: &Sender<ControlCommand>, cmd: ControlCommand, metrics: &mut GlobalMetrics) -> (
    sent: bool)
    ensures
        exists|r: Result<(), ControlCommand>| #[trigger]
            crate::channel_utils::handed(tx, cmd, r) && sent == r is Ok,
        *final(metrics) == (GlobalMetrics {
            command_channel_depth: crate::metrics::wrap_i64(old(metrics).command_channel_depth, 1),
            ..*old(metrics)
        }),
{
    gauge_add(&mut metrics.command_channel_depth, 1);
    let r = send(tx, cmd);
    proof {
        crate::channel_utils::lemma_handed(tx, cmd, r);
    }
    r.is_ok()
}

/// A command that came in is the one that is handled, and is one less in the channel. Silence is
/// waited out, and the service ends just where all senders are gone.
pub proof fn law_actor_follows_the_events()
    ensures
        forall|a: &mut CommandActor, event: ActorEvent, m: &mut GlobalMetrics, s: ActorStep|
            #![trigger call_ensures(CommandActor::step, (a, event, m), s)]
            call_ensures(CommandActor::step, (a, event, m), s) ==> {
                &&& event is Command <==> s is Handle
                &&& event matches ActorEvent::Command(cmd) ==> s == ActorStep::Handle(cmd)
                &&& event is Timeout <==> s is Wait
                &&& event is Disconnected <==> s is Stop
                &&& event is Disconnected ==> !final(a).on()
                &&& !(event is Disconnected) ==> final(a).on() == a.on()
                &&& event is Command && m.command_channel_depth > i64::MIN
                    ==> final(m).command_channel_depth == m.command_channel_depth - 1
                &&& event is Command ==> *final(m) == (GlobalMetrics {
                    command_channel_depth: final(m).command_channel_depth,
                    ..*m
                })
                &&& !(event is Command) ==> *final(m) == *m
            },
{
}

/// An actor serves from the start until it is shut down.
pub proof fn law_actor_serves_until_shut_down(fresh: CommandActor)
    requires
        call_ensures(CommandActor::new, (), fresh),
    ensures
        forall|r: bool| #[trigger] call_ensures(CommandActor::is_running, (&fresh,), r) ==> r,
        forall|a: &mut CommandActor, u: (), after: CommandActor, r: bool|
            #![trigger call_ensures(CommandActor::shutdown, (a,), u), call_ensures(CommandActor::is_running, (&after,), r)]
            call_ensures(CommandActor::shutdown, (a,), u) && after == *final(a) && call_ensures(
                CommandActor::is_running,
                (&after,),
                r,
            ) ==> !r,
{
}

/// The command that is sent is the one that was given, on the channel that was given, and is one
/// more in the channel. The result tells whether the channel took it.
pub proof fn law_command_is_sent_as_given()
    ensures
        forall|tx: &Sender<ControlCommand>, cmd: ControlCommand, m: &mut GlobalMetrics, sent: bool|
            #![trigger call_ensures(send_command, (tx, cmd, m), sent)]
            call_ensures(send_command, (tx, cmd, m), sent) ==> {
                &&& exists|r: Result<(), ControlCommand>| #[trigger]
                    crate::channel_utils::handed(tx, cmd, r) && (sent <==> r is Ok)
                &&& m.command_channel_depth < i64::MAX ==> final(m).command_channel_depth
                    == m.command_channel_depth + 1
                &&& *final(m) == (GlobalMetrics {
                    command_channel_depth: final(m).command_channel_depth,
                    ..*m
                })
            },
{
}

} // verus!
