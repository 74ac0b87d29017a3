//! What holds of the engine's commands, rollouts and assets.

use vstd::prelude::*;

use crate::clock::{Clock, Span};
use crate::command_channel::{
    AssetConfigUpdate, BrokerConfigUpdate, ChannelConfigUpdate, CircuitBreakerConfigUpdate,
    ControlCommand, ControlResponse, ExecutionDefaultsUpdate, FeatureConfigUpdate,
    JournalConfigUpdate, ModelConfigUpdate, RateLimitConfigUpdate, ReactorConfigUpdate,
    RiskConfigUpdate, StrategyParams, ValidatorConfigUpdate,
};
use crate::config::{
    AssetConfig, EngineConfig, ExposureCheck, FeatureConfig, ModelConfig, ThreadingConfig,
};
use crate::engine;
use crate::engine::{
    EngineEffect, PipelinePlan, ReloadEffect, RolloutError, StartPlan, Thresholds,
    UnifiedEngine,
};
use crate::kill_switch::KillSwitch;
use crate::symbol_registry::SymbolId;

verus! {

/// The limits of the risk checks become those of the command, each under its own name, and nothing else of the engine
/// changes.
pub proof fn law_risk_settings_are_set<C: Clock>(
    e: &UnifiedEngine<C>,
    u: RiskConfigUpdate,
    exposure: ExposureCheck,
    after: &UnifiedEngine<C>,
    r: ControlResponse,
    effect: EngineEffect,
)
    requires
        e.commanded(ControlCommand::SetRiskParams(u), exposure, after, r, effect),
    ensures
        r is Done,
        effect is Nothing,
        after.config.risk_config.max_portfolio_exposure == u.max_portfolio_exposure,
        after.config.risk_config.max_leverage == u.max_leverage,
        after.config.risk_config.max_drawdown_pct == u.max_drawdown_pct,
        after.config.risk_config.max_order_rate_per_sec == u.max_order_rate_per_sec,
        after.config.risk_config.max_position_per_symbol == u.max_position_per_symbol,
        after.config.risk_config.max_volatility == u.max_volatility,
        after.config.risk_config.max_spread_bps == u.max_spread_bps,
        after.config.risk_config.max_slippage_bps == u.max_slippage_bps,
        after.config.risk_config.allow_short == u.allow_short,
        after.config.risk_config.kill_switch_on_drawdown == u.kill_switch_on_drawdown,
        after.config == (EngineConfig { risk_config: after.config.risk_config, ..e.config }),
        *after == (UnifiedEngine { config: after.config, ..*e }),
{
}

/// The settings of the broker become those of the command, each under its own name, and nothing else of the engine
/// changes.
pub proof fn law_broker_settings_are_set<C: Clock>(
    e: &UnifiedEngine<C>,
    u: BrokerConfigUpdate,
    exposure: ExposureCheck,
    after: &UnifiedEngine<C>,
    r: ControlResponse,
    effect: EngineEffect,
)
    requires
        e.commanded(ControlCommand::SetBrokerParams(u), exposure, after, r, effect),
    ensures
        r is Done,
        effect is Nothing,
        after.config.broker_config.broker_type == u.broker_type,
        after.config.broker_config.paper_trading == u.paper_trading,
        after.config.broker_config.ws_url == u.ws_url,
        after.config.broker_config.rest_url == u.rest_url,
        after.config.broker_config.max_retries == u.max_retries,
        after.config.broker_config.retry_backoff_ms == u.retry_backoff_ms,
        after.config == (EngineConfig { broker_config: after.config.broker_config, ..e.config }),
        *after == (UnifiedEngine { config: after.config, ..*e }),
{
}

/// The settings of the features become those of the command, each under its own name, and nothing else of the engine
/// changes.
pub proof fn law_feature_settings_are_set<C: Clock>(
    e: &UnifiedEngine<C>,
    u: FeatureConfigUpdate,
    exposure: ExposureCheck,
    after: &UnifiedEngine<C>,
    r: ControlResponse,
    effect: EngineEffect,
)
    requires
        e.commanded(ControlCommand::SetFeatureParams(u), exposure, after, r, effect),
    ensures
        r is Done,
        effect is Nothing,
        after.config.feature_config.rsi_period == u.rsi_period,
        after.config.feature_config.macd_fast == u.macd_fast,
        after.config.feature_config.macd_slow == u.macd_slow,
        after.config.feature_config.macd_signal == u.macd_signal,
        after.config.feature_config.atr_period == u.atr_period,
        after.config.feature_config.ema_periods == u.ema_periods,
        after.config.feature_config.rolling_window_sizes == u.rolling_window_sizes,
        after.config == (EngineConfig { feature_config: after.config.feature_config, ..e.config }),
        *after == (UnifiedEngine { config: after.config, ..*e }),
{
}

/// The settings of the model become those of the command, each under its own name, and nothing else of the engine
/// changes.
pub proof fn law_model_settings_are_set<C: Clock>(
    e: &UnifiedEngine<C>,
    u: ModelConfigUpdate,
    exposure: ExposureCheck,
    after: &UnifiedEngine<C>,
    r: ControlResponse,
    effect: EngineEffect,
)
    requires
        e.commanded(ControlCommand::SetModelParams(u), exposure, after, r, effect),
    ensures
        r is Done,
        effect is Nothing,
        after.config.model_config.model_dir == u.model_dir,
        after.config.model_config.inference_threads == u.inference_threads,
        after.config.model_config.max_inference_latency_ms == u.max_inference_latency_ms,
        after.config.model_config.feature_vector_size == u.feature_vector_size,
        after.config.model_config.rsi_overbought == u.inference_rsi_bearish_threshold,
        after.config.model_config.rsi_oversold == u.inference_rsi_bullish_threshold,
        after.config.model_config.rsi_neutral == u.inference_rsi_center,
        after.config.model_config.atr_penalty_threshold == u.inference_atr_penalty_threshold,
        after.config.model_config.volume_confirmation_threshold == u.inference_volume_confirmation_threshold,
        after.config.model_config.action_score_rsi_weight == u.action_score_rsi_weight,
        after.config.model_config.action_score_macd_weight == u.action_score_macd_weight,
        after.config.model_config.action_score_volatility_weight == u.action_score_volatility_weight,
        after.config.model_config.confidence_rsi_weight == u.confidence_rsi_weight,
        after.config.model_config.confidence_macd_weight == u.confidence_macd_weight,
        after.config.model_config.confidence_regime_weight == u.confidence_regime_weight,
        after.config == (EngineConfig { model_config: after.config.model_config, ..e.config }),
        *after == (UnifiedEngine { config: after.config, ..*e }),
{
}

/// The settings of the journal become those of the command, each under its own name, and nothing else of the engine
/// changes.
pub proof fn law_journal_settings_are_set<C: Clock>(
    e: &UnifiedEngine<C>,
    u: JournalConfigUpdate,
    exposure: ExposureCheck,
    after: &UnifiedEngine<C>,
    r: ControlResponse,
    effect: EngineEffect,
)
    requires
        e.commanded(ControlCommand::SetJournalParams(u), exposure, after, r, effect),
    ensures
        r is Done,
        effect is Nothing,
        after.config.journal_config.journal_dir == u.journal_dir,
        after.config.journal_config.flush_interval_ms == u.flush_interval_ms,
        after.config.journal_config.snapshot_interval_sec == u.snapshot_interval_sec,
        after.config.journal_config.max_file_size_mb == u.max_file_size_mb,
        after.config == (EngineConfig { journal_config: after.config.journal_config, ..e.config }),
        *after == (UnifiedEngine { config: after.config, ..*e }),
{
}

/// The defaults of the execution become those of the command, each under its own name, and nothing else of the engine
/// changes.
pub proof fn law_execution_settings_are_set<C: Clock>(
    e: &UnifiedEngine<C>,
    u: ExecutionDefaultsUpdate,
    exposure: ExposureCheck,
    after: &UnifiedEngine<C>,
    r: ControlResponse,
    effect: EngineEffect,
)
    requires
        e.commanded(ControlCommand::SetExecutionDefaults(u), exposure, after, r, effect),
    ensures
        r is Done,
        effect is Nothing,
        after.config.execution_defaults.default_order_quantity == u.default_order_quantity,
        after.config.execution_defaults.execution_per_symbol_rate_divisor == u.execution_per_symbol_rate_divisor,
        after.config == (EngineConfig { execution_defaults: after.config.execution_defaults, ..e.config }),
        *after == (UnifiedEngine { config: after.config, ..*e }),
{
}

/// The settings of the circuit breakers become those of the command, each under its own name, and nothing else of the engine
/// changes.
pub proof fn law_breaker_settings_are_set<C: Clock>(
    e: &UnifiedEngine<C>,
    u: CircuitBreakerConfigUpdate,
    exposure: ExposureCheck,
    after: &UnifiedEngine<C>,
    r: ControlResponse,
    effect: EngineEffect,
)
    requires
        e.commanded(ControlCommand::SetCircuitBreakerParams(u), exposure, after, r, effect),
    ensures
        r is Done,
        effect == EngineEffect::SetBreakers(u),
        after.config.circuit_breaker_config.failure_threshold == u.failure_threshold,
        after.config.circuit_breaker_config.cooldown_ms == u.cooldown_ms,
        after.config == (EngineConfig { circuit_breaker_config: after.config.circuit_breaker_config, ..e.config }),
        *after == (UnifiedEngine { config: after.config, ..*e }),
{
}

/// The sizes of the channels become those of the command, each under its own name, and nothing else of the engine
/// changes.
pub proof fn law_channel_settings_are_set<C: Clock>(
    e: &UnifiedEngine<C>,
    u: ChannelConfigUpdate,
    exposure: ExposureCheck,
    after: &UnifiedEngine<C>,
    r: ControlResponse,
    effect: EngineEffect,
)
    requires
        e.commanded(ControlCommand::SetChannelParams(u), exposure, after, r, effect),
    ensures
        r is Done,
        effect is Nothing,
        after.config.channel_config.per_asset_tick_channel_capacity == u.per_asset_tick_channel_capacity,
        after.config.channel_config.feature_channel_capacity == u.feature_channel_capacity,
        after.config.channel_config.risk_channel_capacity == u.risk_channel_capacity,
        after.config.channel_config.decision_channel_capacity == u.decision_channel_capacity,
        after.config.channel_config.lifecycle_channel_capacity == u.lifecycle_channel_capacity,
        after.config.channel_config.command_channel_capacity == u.command_channel_capacity,
        after.config.channel_config.journal_channel_capacity == u.journal_channel_capacity,
        after.config == (EngineConfig { channel_config: after.config.channel_config, ..e.config }),
        *after == (UnifiedEngine { config: after.config, ..*e }),
{
}

/// The settings of the reactor become those of the command, each under its own name, and nothing else of the engine
/// changes.
pub proof fn law_reactor_settings_are_set<C: Clock>(
    e: &UnifiedEngine<C>,
    u: ReactorConfigUpdate,
    exposure: ExposureCheck,
    after: &UnifiedEngine<C>,
    r: ControlResponse,
    effect: EngineEffect,
)
    requires
        e.commanded(ControlCommand::SetReactorParams(u), exposure, after, r, effect),
    ensures
        r is Done,
        effect is Nothing,
        after.config.reactor_config.max_batch_size == u.max_batch_size,
        after.config.reactor_config.control_batch_size == u.control_batch_size,
        after.config.reactor_config.sleep_on_empty_us == u.sleep_on_empty_us,
        after.config.reactor_config.backpressure_log_interval == u.backpressure_log_interval,
        after.config == (EngineConfig { reactor_config: after.config.reactor_config, ..e.config }),
        *after == (UnifiedEngine { config: after.config, ..*e }),
{
}

/// The limits of the validator become those of the command, each under its own name, and nothing else of the engine
/// changes.
pub proof fn law_validator_settings_are_set<C: Clock>(
    e: &UnifiedEngine<C>,
    u: ValidatorConfigUpdate,
    exposure: ExposureCheck,
    after: &UnifiedEngine<C>,
    r: ControlResponse,
    effect: EngineEffect,
)
    requires
        e.commanded(ControlCommand::SetValidatorParams(u), exposure, after, r, effect),
    ensures
        r is Done,
        effect is Nothing,
        after.config.validator_config.max_symbol_length == u.max_symbol_length,
        after.config.validator_config.max_quantity == u.max_quantity,
        after.config.validator_config.max_order_id_length == u.max_order_id_length,
        after.config == (EngineConfig { validator_config: after.config.validator_config, ..e.config }),
        *after == (UnifiedEngine { config: after.config, ..*e }),
{
}

/// The kill switch is on after it was thrown and after a shutdown, and off after it was cleared; the
/// open orders stay known, and nothing else of the engine changes.
pub proof fn law_switch_obeys<C: Clock>(
    e: &UnifiedEngine<C>,
    active: bool,
    exposure: ExposureCheck,
    after: &UnifiedEngine<C>,
    r: ControlResponse,
    effect: EngineEffect,
)
    ensures
        e.commanded(ControlCommand::SetKillSwitch(active), exposure, after, r, effect) ==> r is Done
            && effect is Nothing && after.kill_switch.on() == active && after.kill_switch.orders()
            == e.kill_switch.orders() && after.config == e.config && after.asset_pipelines
            == e.asset_pipelines,
        e.commanded(ControlCommand::Shutdown, exposure, after, r, effect) ==> r is Done && effect
            is Nothing && after.kill_switch.on() && after.kill_switch.orders()
            == e.kill_switch.orders() && after.config == e.config,
{
}

/// Throwing the switch is counted once, when trading was going on, and not again while it is
/// stopped; clearing it keeps the count.
pub proof fn law_activations_are_counted<C: Clock>(before: KillSwitch<C>, after: KillSwitch<C>)
    ensures
        engine::thrown(before, after) && !before.on() && before.count() < u64::MAX ==> after.on()
            && after.count() == before.count() + 1,
        engine::thrown(before, after) && before.on() ==> after.on() && after.count()
            == before.count() && after.at_ns() == before.at_ns(),
        engine::cleared(before, after) ==> !after.on() && after.count() == before.count()
            && after.orders() == before.orders(),
{
}

/// The mode is paper trading just where it is named so.
pub proof fn law_mode_is_set<C: Clock>(
    e: &UnifiedEngine<C>,
    mode: String,
    exposure: ExposureCheck,
    after: &UnifiedEngine<C>,
    r: ControlResponse,
    effect: EngineEffect,
)
    requires
        e.commanded(ControlCommand::SetMode(mode), exposure, after, r, effect),
    ensures
        r is Done,
        after.config.broker_config.paper_trading <==> mode@ == "paper"@,
        after.config.broker_config.rest_url == e.config.broker_config.rest_url,
        after.config.risk_config == e.config.risk_config,
{
}

/// The asset of a symbol is the first that bears it; where none does, there is none.
pub proof fn law_asset_is_the_first_of_its_symbol(a: Seq<AssetConfig>, symbol: Seq<char>)
    ensures
        0 <= engine::first_place(a, symbol) <= a.len(),
        forall|j: int|
            0 <= j < engine::first_place(a, symbol) ==> (#[trigger] a[j]).symbol@ != symbol,
        engine::first_place(a, symbol) < a.len() ==> a[engine::first_place(a, symbol)].symbol@
            == symbol,
        engine::has_asset(a, symbol) <==> exists|j: int|
            0 <= j < a.len() && (#[trigger] a[j]).symbol@ == symbol,
    decreases a.len(),
{
    if a.len() > 0 && a[0].symbol@ != symbol {
        law_asset_is_the_first_of_its_symbol(a.skip(1), symbol);
        let i = engine::first_place(a.skip(1), symbol);
        assert forall|j: int| 0 <= j < engine::first_place(a, symbol) implies (#[trigger]
        a[j]).symbol@ != symbol by {
            if j > 0 {
                assert(a.skip(1)[j - 1] == a[j]);
            }
        }
        if i < a.skip(1).len() {
            assert(a.skip(1)[i] == a[i + 1]);
        }
    }
    let i = engine::first_place(a, symbol);
    if engine::has_asset(a, symbol) {
        assert(a[i].symbol@ == symbol);
    }
}

/// Pausing takes the asset of a symbol out of trade and resuming takes it in again: nothing else of
/// it, and no other asset, changes. An unknown symbol is answered so and changes nothing.
pub proof fn law_asset_is_paused_and_resumed<C: Clock>(
    e: &UnifiedEngine<C>,
    symbol: String,
    resume: bool,
    exposure: ExposureCheck,
    after: &UnifiedEngine<C>,
    r: ControlResponse,
    effect: EngineEffect,
    j: int,
)
    requires
        e.commanded(
            if resume {
                ControlCommand::ResumeAsset(symbol)
            } else {
                ControlCommand::PauseAsset(symbol)
            },
            exposure,
            after,
            r,
            effect,
        ),
        0 <= j < e.config.asset_configs@.len(),
    ensures
        ({
            let a = e.config.asset_configs@;
            let b = after.config.asset_configs@;
            let first = a[j].symbol@ == symbol@ && forall|i: int|
                0 <= i < j ==> (#[trigger] a[i]).symbol@ != symbol@;
            &&& b.len() == a.len()
            &&& first ==> r is Done && b[j] == (AssetConfig { enabled: resume, ..a[j] })
            &&& !first ==> b[j] == a[j]
            &&& (forall|i: int| 0 <= i < a.len() ==> (#[trigger] a[i]).symbol@ != symbol@) ==> r
                is Error && r->Error_0@ == "Symbol not found: "@ + symbol@ && b == a
            &&& after.config.risk_config == e.config.risk_config
            &&& effect is Nothing
        }),
{
    let a = e.config.asset_configs@;
    law_asset_is_the_first_of_its_symbol(a, symbol@);
    let i = engine::first_place(a, symbol@);
    if i < a.len() {
        assert(a[i].symbol@ == symbol@);
    }
    if a[j].symbol@ == symbol@ && i < j {
        assert(a[i].symbol@ == symbol@);
    }
}

/// The values of an asset become those of the command; what it is called stays, and so does every
/// other asset.
pub proof fn law_asset_values_are_set<C: Clock>(
    e: &UnifiedEngine<C>,
    symbol: String,
    config: AssetConfigUpdate,
    exposure: ExposureCheck,
    after: &UnifiedEngine<C>,
    r: ControlResponse,
    effect: EngineEffect,
    j: int,
)
    requires
        e.commanded(
            ControlCommand::SetAssetConfig { symbol, config },
            exposure,
            after,
            r,
            effect,
        ),
        0 <= j < e.config.asset_configs@.len(),
    ensures
        ({
            let a = e.config.asset_configs@;
            let b = after.config.asset_configs@;
            let first = a[j].symbol@ == symbol@ && forall|i: int|
                0 <= i < j ==> (#[trigger] a[i]).symbol@ != symbol@;
            &&& b.len() == a.len()
            &&& first ==> r is Done && b[j].max_position == config.max_position && b[j].tick_size
                == config.tick_size && b[j].enabled == config.enabled && b[j].symbol == a[j].symbol
            &&& !first ==> b[j] == a[j]
            &&& (forall|i: int| 0 <= i < a.len() ==> (#[trigger] a[i]).symbol@ != symbol@) ==> r
                is Error && r->Error_0@ == "Symbol not found: "@ + symbol@ && b == a
        }),
{
    let a = e.config.asset_configs@;
    law_asset_is_the_first_of_its_symbol(a, symbol@);
    let i = engine::first_place(a, symbol@);
    if i < a.len() {
        assert(a[i].symbol@ == symbol@);
    }
    if a[j].symbol@ == symbol@ && i < j {
        assert(a[i].symbol@ == symbol@);
    }
}

/// Breakers, rate limits and the journal are others' to change: the command is handed on as it is and
/// the engine stays as it was. The journal is written out only where it runs.
pub proof fn law_commands_are_handed_on<C: Clock>(
    e: &UnifiedEngine<C>,
    u: RateLimitConfigUpdate,
    exposure: ExposureCheck,
    after: &UnifiedEngine<C>,
    r: ControlResponse,
    effect: EngineEffect,
)
    ensures
        e.commanded(ControlCommand::SetRateLimits(u), exposure, after, r, effect) ==> r is Done
            && effect == EngineEffect::SetRateLimits(u) && *after == *e,
        e.commanded(ControlCommand::CircuitBreakerTrip, exposure, after, r, effect) ==> r is Done
            && effect is TripBreakers && *after == *e,
        e.commanded(ControlCommand::CircuitBreakerReset, exposure, after, r, effect) ==> r is Done
            && effect is ResetBreakers && *after == *e,
        e.commanded(ControlCommand::FlushJournal, exposure, after, r, effect) ==> r is Done
            && *after == *e && (effect is FlushJournal <==> e.journal_running) && (effect is Nothing
            <==> !e.journal_running),
{
}

/// A symbol is subscribed just where it is not traded yet and all that it takes runs; it is then
/// traded under the number of its own, with a strategy and an execution state. Else the answer says
/// what is missing, and nothing changes.
pub proof fn law_subscription_needs_what_it_takes<C: Clock>(
    e: &UnifiedEngine<C>,
    symbol: String,
    exposure: ExposureCheck,
    after: &UnifiedEngine<C>,
    r: ControlResponse,
    effect: EngineEffect,
    other: Seq<char>,
)
    requires
        e.commanded(ControlCommand::SubscribeFeed { symbol }, exposure, after, r, effect),
        other != symbol@,
    ensures
        ({
            let traded = e.asset_pipelines@.dom().contains(symbol@);
            let runs = e.reactor_running && e.lifecycle_running && e.port_ready;
            &&& r is Done <==> !traded && runs
            &&& !(r is Done) ==> r is Error && *after == *e && effect is Nothing
            &&& traded ==> r->Error_0@ == "Symbol "@ + symbol@ + " already subscribed"@
            &&& !traded && !e.reactor_running ==> r->Error_0@ == "Tick reactor not running"@
            &&& !traded && e.reactor_running && !e.lifecycle_running ==> r->Error_0@
                == "Lifecycle handler not running"@
            &&& !traded && e.reactor_running && e.lifecycle_running && !e.port_ready ==> r->Error_0@
                == "Execution port not initialized"@
            &&& r is Done ==> {
                &&& effect is StartPipeline
                &&& effect->StartPipeline_0.symbol@ == symbol@
                &&& effect->StartPipeline_0.core_id == e.next_asset_core
                &&& effect->StartPipeline_0.thread_name@ == "asset-"@ + symbol@
                &&& effect->StartPipeline_0.idempotency_file@ == "idempotency_"@ + symbol@
                    + ".log"@
                &&& after.asset_pipelines@.dom().contains(symbol@)
                &&& after.asset_pipelines@[symbol@] == effect->StartPipeline_0.symbol_id
                &&& after.strategy_registry@.dom().contains(symbol@)
                &&& after.execution_states@.dom().contains(symbol@)
                &&& e.symbol_registry@.len() < 10_000 ==> after.symbol_registry@.contains(symbol@)
                &&& after.symbol_registry@.contains(symbol@)
                    ==> effect->StartPipeline_0.symbol_id.raw() < after.symbol_registry@.len()
                    && after.symbol_registry@[effect->StartPipeline_0.symbol_id.raw() as int]
                    == symbol@
                &&& after.asset_pipelines@.dom().contains(other) == e.asset_pipelines@.dom().contains(
                    other,
                )
                &&& after.config == e.config
                &&& after.kill_switch == e.kill_switch
            }
        }),
{
    if r is Done && !e.symbol_registry@.contains(symbol@) && e.symbol_registry@.len() < 10_000 {
        let names = e.symbol_registry@.push(symbol@);
        assert(names[names.len() - 1] == symbol@);
    }
}

/// The end of a subscription takes the symbol out of trade, with its strategy and its execution
/// state, and leaves the others; a symbol that is not traded is answered so.
pub proof fn law_unsubscription_takes_the_symbol_out<C: Clock>(
    e: &UnifiedEngine<C>,
    symbol: String,
    exposure: ExposureCheck,
    after: &UnifiedEngine<C>,
    r: ControlResponse,
    effect: EngineEffect,
    other: Seq<char>,
)
    requires
        e.commanded(ControlCommand::UnsubscribeFeed { symbol }, exposure, after, r, effect),
        other != symbol@,
    ensures
        r is Done <==> e.asset_pipelines@.dom().contains(symbol@),
        r is Done ==> effect is StopPipeline && effect->StopPipeline_0@ == symbol@
            && !after.asset_pipelines@.dom().contains(symbol@)
            && !after.strategy_registry@.dom().contains(symbol@)
            && !after.execution_states@.dom().contains(symbol@),
        !(r is Done) ==> r is Error && r->Error_0@ == "Symbol not found: "@ + symbol@ && *after == *e
            && effect is Nothing,
        after.asset_pipelines@.dom().contains(other) == e.asset_pipelines@.dom().contains(other),
        after.strategy_registry@.dom().contains(other) == e.strategy_registry@.dom().contains(other),
        after.execution_states@.dom().contains(other) == e.execution_states@.dom().contains(other),
        after.config == e.config,
{
}

/// A strategy is exchanged just for a symbol that has one, by given parameters or by a name that is
/// known, and the engine itself stays as it was.
pub proof fn law_strategy_is_exchanged<C: Clock>(
    e: &UnifiedEngine<C>,
    symbol: String,
    strategy_type: String,
    params: Option<StrategyParams>,
    exposure: ExposureCheck,
    after: &UnifiedEngine<C>,
    r: ControlResponse,
    effect: EngineEffect,
)
    requires
        e.commanded(
            ControlCommand::SwapStrategy { symbol, strategy_type, params },
            exposure,
            after,
            r,
            effect,
        ),
    ensures
        ({
            let known = e.strategy_registry@.dom().contains(symbol@);
            let named = strategy_type@ == "hysteresis"@ || strategy_type@ == "conservative"@
                || strategy_type@ == "aggressive"@;
            &&& *after == *e
            &&& r is Done <==> known && (params is Some || named)
            &&& !known ==> r is Error && r->Error_0@ == "Symbol not found: "@ + symbol@
            &&& known && params is None && !named ==> r is Error && r->Error_0@
                == "Unknown strategy type: "@ + strategy_type@
            &&& !(r is Done) ==> effect is Nothing
            &&& r is Done ==> effect is SwapStrategy && effect->SwapStrategy_symbol@ == symbol@
            &&& r is Done && params is Some ==> {
                let s = effect->settings;
                let p = params->0;
                &&& s.long_entry_threshold == p.long_entry_threshold
                &&& s.short_entry_threshold == p.short_entry_threshold
                &&& s.confidence_minimum == p.confidence_minimum
                &&& s.hysteresis_deadband == p.hysteresis_deadband
                &&& s.entry_cooldown_ms == p.entry_cooldown_ms
                &&& s.exit_cooldown_ms == p.exit_cooldown_ms
                &&& s.prediction_staleness_ns == p.prediction_staleness_ns
                &&& s.allow_short == p.allow_short
                &&& s.trade_intent_ttl_ns == p.trade_intent_ttl_ns
                &&& s.max_long_units == p.max_long_units
                &&& s.max_short_units == p.max_short_units
                &&& s.urgency_aggressive_threshold == p.urgency_aggressive_threshold
                &&& s.urgency_normal_threshold == p.urgency_normal_threshold
            }
        }),
{
    reveal_strlit("hysteresis");
    reveal_strlit("conservative");
    reveal_strlit("aggressive");
}

/// The strategies that are known by name, from the most careful to the boldest: the more careful one
/// asks for more to enter, is surer, waits longer and holds less, and only it never sells short.
pub proof fn law_presets_are_graded()
    ensures
        ({
            let c = engine::preset("conservative"@)->0;
            let h = engine::preset("hysteresis"@)->0;
            let a = engine::preset("aggressive"@)->0;
            &&& engine::preset("conservative"@) is Some
            &&& engine::preset("hysteresis"@) is Some
            &&& engine::preset("aggressive"@) is Some
            &&& c.long_entry.bits == 0x3fe9_9999_9999_999a
            &&& h.long_entry.bits == 0x3fe3_3333_3333_3333
            &&& a.long_entry.bits == 0x3fd9_9999_9999_999a
            &&& c.short_entry == c.long_entry.opposite()
            &&& h.short_entry == h.long_entry.opposite()
            &&& a.short_entry == a.long_entry.opposite()
            &&& c.confidence.bits == 0x3fe3_3333_3333_3333
            &&& h.confidence.bits == 0x3fe0_0000_0000_0000
            &&& a.confidence.bits == 0x3fd3_3333_3333_3333
            &&& c.deadband.bits == 0x3fc9_9999_9999_999a
            &&& h.deadband.bits == 0x3fc3_3333_3333_3333
            &&& a.deadband.bits == 0x3fb9_9999_9999_999a
            &&& c.entry_cooldown_ms == 10_000 && h.entry_cooldown_ms == 5_000 && a.entry_cooldown_ms
                == 2_000
            &&& c.exit_cooldown_ms == 5_000 && h.exit_cooldown_ms == 2_000 && a.exit_cooldown_ms
                == 1_000
            &&& c.staleness_ns == 200_000_000 && h.staleness_ns == 150_000_000 && a.staleness_ns
                == 100_000_000
            &&& c.intent_ttl_ns == 60_000_000_000 && h.intent_ttl_ns == 30_000_000_000
                && a.intent_ttl_ns == 15_000_000_000
            &&& !c.allow_short && h.allow_short && a.allow_short
            &&& c.max_long == c.max_short && h.max_long == h.max_short && a.max_long == a.max_short
            &&& c.max_long.bits == 0x4049_0000_0000_0000
            &&& h.max_long.bits == 0x4059_0000_0000_0000
            &&& a.max_long.bits == 0x4069_0000_0000_0000
            &&& c.urgency_aggressive.bits == 0x3fec_cccc_cccc_cccd
            &&& h.urgency_aggressive.bits == 0x3feb_3333_3333_3333
            &&& a.urgency_aggressive.bits == 0x3fe8_0000_0000_0000
            &&& c.urgency_normal.bits == 0x3fe3_3333_3333_3333
            &&& h.urgency_normal.bits == 0x3fe0_0000_0000_0000
            &&& a.urgency_normal.bits == 0x3fd9_9999_9999_999a
        }),
{
    reveal_strlit("hysteresis");
    reveal_strlit("conservative");
    reveal_strlit("aggressive");
    assert("hysteresis"@[0] == 'h' && "conservative"@[0] == 'c' && "aggressive"@[0] == 'a');
}

/// What a strategy weighs comes from the model's settings, each under its own name.
pub proof fn law_strategy_weighs_as_the_model(
    t: Thresholds,
    m: ModelConfig,
    f: FeatureConfig,
)
    ensures
        ({
            let s = engine::strategy_settings(t, m, f);
            &&& s.action_score_rsi_weight == m.action_score_rsi_weight
            &&& s.action_score_macd_weight == m.action_score_macd_weight
            &&& s.action_score_volatility_weight == m.action_score_volatility_weight
            &&& s.atr_penalty_threshold == m.atr_penalty_threshold
            &&& s.atr_penalty_value == m.atr_penalty_value
            &&& s.rsi_overbought == m.rsi_overbought
            &&& s.rsi_oversold == m.rsi_oversold
            &&& s.rsi_neutral == m.rsi_neutral
            &&& s.confidence_rsi_weight == m.confidence_rsi_weight
            &&& s.confidence_macd_weight == m.confidence_macd_weight
            &&& s.confidence_regime_weight == m.confidence_regime_weight
            &&& s.volume_ratio_clamp == f.volume_ratio_clamp
            &&& s.long_entry_threshold == t.long_entry
            &&& s.short_entry_threshold == t.short_entry
            &&& s.exit_threshold.bits == 0x3fb9_9999_9999_999a
        }),
{
}

/// Assets take the cores one, two and three in turn; the other threads of the asset number `idx` are
/// that many cores further than those of the first, round four.
pub proof fn law_cores_go_round(
    symbol: Seq<char>,
    core: usize,
    idx: usize,
    threading: ThreadingConfig,
    plan: PipelinePlan,
)
    ensures
        engine::next_core(1) == 2,
        engine::next_core(2) == 3,
        engine::next_core(3) == 1,
        plan.is_for(symbol, core, idx, threading) ==> plan.core_id == core && plan.symbol@ == symbol
            && plan.prediction_core_id == (threading.prediction_core_id + idx) % 4
            && plan.risk_core_id == (threading.risk_core_id + idx) % 4 && plan.execution_core_id == (
        threading.execution_core_id + idx) % 4 && plan.thread_name@ == "asset-"@ + symbol
            && plan.idempotency_file@ == "idempotency_"@ + symbol + ".log"@,
{
}

/// A rollout begins on the first asset that is enabled, with the new values for it and the new limits
/// for all, and remembers those before; it does not begin where the new configuration is not valid or
/// no asset is enabled.
pub proof fn law_rollout_begins_with_one_asset<C: Clock>(
    e: &UnifiedEngine<C>,
    pending: EngineConfig,
    duration_secs: u64,
    exposure: ExposureCheck,
    after: &UnifiedEngine<C>,
    r: Result<(), RolloutError>,
)
    requires
        e.rollout_begun(pending, duration_secs, exposure, after, r),
    ensures
        ({
            let valid = crate::config::config_violations(&pending, &exposure).len() == 0;
            let enabled = EngineConfig::enabled_symbols(e.config.asset_configs@);
            &&& r is Ok <==> valid && enabled.len() > 0
            &&& r is Err ==> *after == *e
            &&& !valid ==> r->Err_0 is ValidationFailed
            &&& valid && enabled.len() == 0 ==> r->Err_0 is NoCanaryAsset
            &&& r is Ok ==> {
                let s = after.staged_rollout->0;
                &&& after.staged_rollout is Some
                &&& s.pending_config == pending
                &&& s.canary_symbol@ == enabled[0]
                &&& s.monitoring_duration_secs == duration_secs
                &&& s.phase is Monitoring
                &&& after.config.risk_config.max_leverage == pending.risk_config.max_leverage
                &&& after.config.risk_config.max_position_per_symbol
                    == pending.risk_config.max_position_per_symbol
                &&& after.config.risk_config.max_drawdown_pct == pending.risk_config.max_drawdown_pct
                &&& after.config.risk_config.max_volatility == e.config.risk_config.max_volatility
                &&& after.config.broker_config == e.config.broker_config
                &&& s.previous.max_leverage == e.config.risk_config.max_leverage
                &&& s.previous.max_position_per_symbol
                    == e.config.risk_config.max_position_per_symbol
                &&& s.previous.max_drawdown_pct == e.config.risk_config.max_drawdown_pct
            }
        }),
{
}

/// The canary takes over the new position limit, tick size and switch of its asset, and no other
/// asset changes.
pub proof fn law_canary_changes_one_asset(
    before: EngineConfig,
    symbol: Seq<char>,
    pending: EngineConfig,
    after: EngineConfig,
    j: int,
)
    requires
        engine::canary_set(before, symbol, engine::canary_values(pending, symbol), after),
        0 <= j < before.asset_configs@.len(),
    ensures
        after.asset_configs@.len() == before.asset_configs@.len(),
        before.asset_configs@[j].symbol@ != symbol ==> after.asset_configs@[j]
            == before.asset_configs@[j],
        j == engine::first_place(before.asset_configs@, symbol) && engine::has_asset(
            pending.asset_configs@,
            symbol,
        ) ==> {
            let p = pending.asset_configs@[engine::first_place(pending.asset_configs@, symbol)];
            &&& after.asset_configs@[j].max_position == p.max_position
            &&& after.asset_configs@[j].tick_size == p.tick_size
            &&& after.asset_configs@[j].enabled == p.enabled
            &&& after.asset_configs@[j].symbol == before.asset_configs@[j].symbol
        },
{
    law_asset_is_the_first_of_its_symbol(before.asset_configs@, symbol);
}

/// A rollout that was watched for its time is completed: the new configuration holds as a whole. Up
/// to then nothing changes, and without one there is nothing to complete.
pub proof fn law_rollout_completes_after_its_time<C: Clock>(
    e: &UnifiedEngine<C>,
    elapsed: Span,
    after: &UnifiedEngine<C>,
    r: Result<bool, RolloutError>,
)
    requires
        e.rollout_polled(elapsed, after, r),
    ensures
        e.staged_rollout is None ==> r == Err::<bool, _>(RolloutError::NotInProgress) && *after
            == *e,
        e.staged_rollout is Some && e.staged_rollout->0.phase is Monitoring ==> {
            let s = e.staged_rollout->0;
            let over = elapsed.ns() >= s.monitoring_duration_secs * 1_000_000_000;
            &&& r is Ok
            &&& r->Ok_0 == over
            &&& over ==> after.config == s.pending_config && after.staged_rollout is None
            &&& !over ==> *after == *e
        },
{
}

/// Reloading compares the configuration with that of the last reload, part by part, and keeps it for
/// the next. The breakers and the limits of the symbols that are executed follow it, and where assets
/// are traded a rollout of half a minute is begun.
pub proof fn law_reload_compares_with_the_last<C: Clock>(
    e: &UnifiedEngine<C>,
    exposure: ExposureCheck,
    after: &UnifiedEngine<C>,
    effect: ReloadEffect,
)
    requires
        e.reloaded(exposure, after, effect),
    ensures
        after.last_config is Some,
        e.config.same(&after.last_config->0),
        effect.changes is Some <==> e.last_config is Some,
        e.last_config is Some ==> effect.changes->0.threading == (
        e.last_config->0.threading_config != e.config.threading_config) && effect.changes->0.channel
            == (e.last_config->0.channel_config != e.config.channel_config),
        effect.live is Some <==> e.execution_states@.dom().len() != 0,
        effect.live matches Some(l) ==> l.0.failure_threshold
            == e.config.circuit_breaker_config.failure_threshold && l.0.cooldown_ms
            == e.config.circuit_breaker_config.cooldown_ms && l.1.global_rate
            == e.config.execution_defaults.default_order_quantity && l.1.per_symbol_rate
            == e.config.execution_defaults.execution_per_symbol_rate_divisor,
        effect.rollout is Some <==> e.asset_pipelines@.dom().len() != 0,
        effect.rollout is Some && effect.rollout->0 is Ok ==> after.staged_rollout is Some
            && after.staged_rollout->0.monitoring_duration_secs == 30,
        effect.rollout is None ==> after.config == e.config,
        after.kill_switch == e.kill_switch,
{
}

/// Symbols are numbered in the order in which they first come in; one that is known keeps its
/// number.
pub proof fn law_symbols_are_numbered_in_turn(
    registry: Seq<Seq<char>>,
    symbols: Seq<Seq<char>>,
    symbol: Seq<char>,
    id: SymbolId,
)
    ensures
        engine::registry_after(registry, Seq::empty()) == registry,
        engine::registry_after(registry, symbols.push(symbol)) == engine::registry_with(
            engine::registry_after(registry, symbols),
            symbol,
        ),
        registry.contains(symbol) ==> engine::registry_with(registry, symbol) == registry,
        !registry.contains(symbol) && registry.len() < 10_000 ==> engine::registry_with(
            registry,
            symbol,
        ) == registry.push(symbol),
        engine::numbered(registry, symbol, id) && registry.contains(symbol) ==> id.raw()
            < registry.len() && registry[id.raw() as int] == symbol,
{
    assert(symbols.push(symbol).drop_last() =~= symbols);
}

/// Starting the engine starts each enabled asset once, in their order, under the number of its own;
/// in safe mode none is started. Orders go to the broker, and its feed runs, only with credentials
/// and outside safe mode, and the feed only where an asset is enabled.
pub proof fn law_start_starts_the_enabled<C: Clock>(i: int)
    ensures
        forall|e: &mut UnifiedEngine<C>, plan: StartPlan|
            #![trigger call_ensures(UnifiedEngine::<C>::start, (e,), plan)]
            call_ensures(UnifiedEngine::<C>::start, (e,), plan) ==> {
                let enabled = EngineConfig::enabled_symbols(e.config.asset_configs@);
                let key = e.config.broker_config.api_key@.len() > 0
                    && e.config.broker_config.api_secret@.len() > 0;
                &&& plan.safe_mode == e.config.safe_mode
                &&& plan.live_port <==> !e.config.safe_mode && key
                &&& plan.feed <==> !e.config.safe_mode && key && enabled.len() > 0
                &&& final(e).journal_running
                &&& final(e).config == e.config
                &&& e.config.safe_mode ==> plan.pipelines@.len() == 0
                &&& !e.config.safe_mode ==> plan.pipelines@.len() == enabled.len()
                    && final(e).lifecycle_running && final(e).port_ready
                &&& !e.config.safe_mode && plan.feed ==> final(e).reactor_running
                &&& !e.config.safe_mode && 0 <= i < enabled.len() ==> plan.pipelines@[i].symbol@
                    == enabled[i] && plan.pipelines@[i].thread_name@ == "asset-"@ + enabled[i]
                    && final(e).asset_pipelines@.dom().contains(enabled[i])
                    && final(e).asset_pipelines@[enabled[i]] == plan.pipelines@[i].symbol_id
                    && final(e).strategy_registry@.dom().contains(enabled[i])
                    && final(e).execution_states@.dom().contains(enabled[i])
            },
        forall|e: &mut UnifiedEngine<C>|
            #![trigger call_ensures(UnifiedEngine::<C>::shutdown, (e,), ())]
            call_ensures(UnifiedEngine::<C>::shutdown, (e,), ()) ==> final(e).kill_switch.on()
                && !final(e).reactor_running && !final(e).journal_running && final(e).config
                == e.config,
{
}

/// What is said of a rollout that does not go on.
pub proof fn law_rollout_errors_say_why(msg: String)
    ensures
        RolloutError::NotInProgress.text() == "no staged rollout in progress"@,
        RolloutError::ValidationFailed(msg).text() == "validation failed: "@ + msg@,
        RolloutError::NoCanaryAsset.text() == "no enabled assets for canary rollout"@,
{
}

/// A rollout that is cancelled ends, and only where one is on the way; its asset has the values from
/// before again, and assets of other symbols stay.
pub proof fn law_cancelled_rollout_ends<C: Clock>(reason: &str, j: int)
    ensures
        forall|e: &mut UnifiedEngine<C>, r: Result<(), RolloutError>|
            #![trigger call_ensures(UnifiedEngine::<C>::cancel_staged_rollout, (e, reason), r)]
            call_ensures(UnifiedEngine::<C>::cancel_staged_rollout, (e, reason), r) ==> {
                &&& r is Ok <==> e.staged_rollout is Some
                &&& r is Err ==> r == Err::<(), _>(RolloutError::NotInProgress) && *final(e) == *e
                &&& final(e).staged_rollout is None
                &&& final(e).config.asset_configs@.len() == e.config.asset_configs@.len()
                &&& e.staged_rollout is Some && 0 <= j < e.config.asset_configs@.len()
                    && e.config.asset_configs@[j].symbol@ != e.staged_rollout->0.canary_symbol@
                    ==> final(e).config.asset_configs@[j] == e.config.asset_configs@[j]
                &&& e.staged_rollout is Some ==> {
                    let p = e.staged_rollout->0.previous;
                    &&& final(e).config.risk_config.max_leverage == p.max_leverage
                    &&& final(e).config.risk_config.max_position_per_symbol
                        == p.max_position_per_symbol
                    &&& final(e).config.risk_config.max_drawdown_pct == p.max_drawdown_pct
                }
                &&& final(e).kill_switch == e.kill_switch
            },
{
    assert forall|a: Seq<AssetConfig>, symbol: Seq<char>|
        #![trigger engine::first_place(a, symbol)]
        0 <= engine::first_place(a, symbol) && (engine::first_place(a, symbol) < a.len()
            ==> a[engine::first_place(a, symbol)].symbol@ == symbol) by {
        law_asset_is_the_first_of_its_symbol(a, symbol);
    }
}

/// A symbol that is taken into trade is known by its number, has a strategy and an execution state,
/// and its thread takes the core whose turn it is; symbols that were in trade stay.
pub proof fn law_pipeline_is_planned_for_its_symbol<C: Clock>(other: Seq<char>)
    ensures
        forall|e: &mut UnifiedEngine<C>, symbol: &str, idx: usize, plan: PipelinePlan|
            #![trigger call_ensures(UnifiedEngine::<C>::plan_asset_pipeline, (e, symbol, idx), plan)]
            call_ensures(UnifiedEngine::<C>::plan_asset_pipeline, (e, symbol, idx), plan) ==> {
                &&& plan.symbol@ == symbol@
                &&& plan.core_id == e.next_asset_core
                &&& final(e).strategy_registry@.dom().contains(symbol@)
                &&& final(e).execution_states@.dom().contains(symbol@)
                &&& e.strategy_registry@.dom().contains(other)
                    ==> final(e).strategy_registry@.dom().contains(other)
                &&& other != symbol@ && final(e).strategy_registry@.dom().contains(other)
                    ==> e.strategy_registry@.dom().contains(other)
                &&& other != symbol@ ==> (final(e).execution_states@.dom().contains(other)
                    <==> e.execution_states@.dom().contains(other))
                &&& final(e).config == e.config
                &&& final(e).kill_switch == e.kill_switch
            },
{
}

} // verus!
