//! One asset: from a tick to a request for a risk check.

use crossbeam_channel::{Receiver, Sender};
use vstd::prelude::*;

use crate::channel_utils::{send_with_policy, take_in, try_recv, PolicySendError};
use crate::clock::Clock;
use crate::config::BackpressurePolicy;
use crate::kill_switch::KillSwitch;
use crate::metrics::{gauge_add, GlobalMetrics};
use crate::quantity::Real;
use crate::symbol_registry::{next_request_id, IdCounters, SymbolId};

verus! {

/// Puts up to `max` messages that are waiting into `buf`, each behind the one before it, and at least
/// one where one is waiting. The result is their number; what they are depends on the other end of
/// the channel.
pub fn recv_batch<T>(rx: &Receiver<T>, buf: &mut Vec<T>, max: usize) -> (n: usize)
    ensures
        n == final(buf)@.len(),
        n <= (if max > 1 {
            max
        } else {
            1
        }),
        forall|i: int|
            0 <= i < n ==> crate::channel_utils::took(rx, Some(#[trigger] final(buf)@[i])),
        n == 0 || n < max ==> crate::channel_utils::took(rx, None),
{
    buf.clear();
    let first = try_recv(rx);
    proof {
        crate::channel_utils::lemma_took(rx, first);
    }
    if !take_in(buf, first) {
        return 0;
    }
    let mut i: usize = 1;
    while i < max
        invariant_except_break
            1 <= i,
            buf@.len() == i,
            i <= (if max > 1 {
                max
            } else {
                1
            }),
            forall|j: int|
                0 <= j < buf@.len() ==> crate::channel_utils::took(rx, Some(#[trigger] buf@[j])),
        ensures
            1 <= buf@.len(),
            buf@.len() <= (if max > 1 {
                max
            } else {
                1
            }),
            forall|j: int|
                0 <= j < buf@.len() ==> crate::channel_utils::took(rx, Some(#[trigger] buf@[j])),
            buf@.len() < max ==> crate::channel_utils::took(rx, None),
        decreases max - i,
    {
        let next = try_recv(rx);
        proof {
            crate::channel_utils::lemma_took(rx, next);
        }
        if !take_in(buf, next) {
            break;
        }
        i += 1;
    }
    buf.len()
}

/// The side of a trading signal.
#[derive(Debug, Clone, Copy, PartialEq, Eq, Structural)]
pub enum SignalSide {
    Long,
    Short,
    CloseLong,
    CloseShort,
    Flatten,
    Hold,
}

/// The number that stands for a side.
pub open spec fn side_number(side: SignalSide) -> u8 {
    match side {
        SignalSide::Long => 1,
        SignalSide::Short => 2,
        SignalSide::CloseLong => 3,
        SignalSide::CloseShort => 4,
        SignalSide::Flatten => 5,
        SignalSide::Hold => 0,
    }
}

/// No two sides have the same number.
pub proof fn law_side_numbers_differ(a: SignalSide, b: SignalSide)
    ensures
        side_number(a) == side_number(b) ==> a == b,
{
}

/// A trading signal with the figures that go with it: the quantity and the volatility need
/// arithmetic on floating-point numbers.
#[derive(Debug, Clone)]
pub struct SizedSignal {
    pub symbol_id: SymbolId,
    pub intent_id: u64,
    pub side: SignalSide,
    pub quantity: Real,
    pub volatility: Real,
    pub trace_id: u64,
}

/// A request for a risk check.
#[derive(Debug, Clone)]
pub struct RiskCheckRequest {
    pub request_id: u64,
    pub symbol_id: SymbolId,
    pub intent_id: u64,
    pub side: u8,
    pub quantity: Real,
    pub price: Real,
    pub timestamp_ns: u64,
    pub current_volatility: Real,
    pub current_spread_bps: Real,
    pub trace_id: u64,
}

/// How the size of a signal is given.
#[derive(Debug, Clone, Copy, PartialEq, Eq, Structural)]
pub enum SizeHint {
    /// So many units.
    Units(Real),
    /// So much money.
    Notional(Real),
    /// Something else.
    Other,
}

/// Where the quantity of a request comes from.
#[derive(Debug, Clone, Copy, PartialEq, Eq, Structural)]
pub enum QuantitySource {
    Units(Real),
    /// The money, to be divided by the price.
    Divide(Real),
    Default,
}

/// Where the quantity comes from: money needs a price above zero.
pub fn quantity_source(hint: SizeHint, mid_price: Real) -> (s: QuantitySource)
    ensures
        s == (match hint {
            SizeHint::Units(u) => QuantitySource::Units(u),
            SizeHint::Notional(n) => if mid_price.positive() {
                QuantitySource::Divide(n)
            } else {
                QuantitySource::Default
            },
            SizeHint::Other => QuantitySource::Default,
        }),
{
    match hint {
        SizeHint::Units(u) => QuantitySource::Units(u),
        SizeHint::Notional(n) => {
            if mid_price.is_positive() {
                QuantitySource::Divide(n)
            } else {
                QuantitySource::Default
            }
        },
        SizeHint::Other => QuantitySource::Default,
    }
}

/// Makes a request out of a signal, under a fresh id.
pub fn build_risk_request(
    signal: &SizedSignal,
    current_spread_bps: Real,
    mid_price: Real,
    now: u64,
    ids: &mut IdCounters,
) -> (r: RiskCheckRequest)
    ensures
        r == (RiskCheckRequest {
            request_id: old(ids).upcoming().1,
            symbol_id: signal.symbol_id,
            intent_id: signal.intent_id,
            side: side_number(signal.side),
            quantity: signal.quantity,
            price: mid_price,
            timestamp_ns: now,
            current_volatility: signal.volatility,
            current_spread_bps,
            trace_id: signal.trace_id,
        }),
        final(ids).upcoming() == (
            old(ids).upcoming().0,
            crate::symbol_registry::wrapping_next(old(ids).upcoming().1),
            old(ids).upcoming().2,
        ),
{
    RiskCheckRequest {
        request_id: next_request_id(ids),
        symbol_id: signal.symbol_id,
        intent_id: signal.intent_id,
        side: match signal.side {
            SignalSide::Long => 1u8,
            SignalSide::Short => 2u8,
            SignalSide::CloseLong => 3u8,
            SignalSide::CloseShort => 4u8,
            SignalSide::Flatten => 5u8,
            SignalSide::Hold => 0u8,
        },
        quantity: signal.quantity,
        price: mid_price,
        timestamp_ns: now,
        current_volatility: signal.volatility,
        current_spread_bps,
        trace_id: signal.trace_id,
    }
}

/// What comes after the features of a tick were computed.
#[derive(Debug, Clone, Copy, PartialEq, Eq, Structural)]
pub enum TickStep {
    /// Predict, under this version.
    Predict(u64),
    /// The time is used up: only normalize the rest of the batch. So many ticks are skipped, this
    /// one included.
    SkipRest(u64),
}

/// Which prediction is used.
#[derive(Debug, Clone, Copy, PartialEq, Eq, Structural)]
pub enum PredictionSource {
    Model,
    /// A rule of thumb, since the model's prediction is not valid.
    Heuristic,
}

/// What is done for one asset.
pub struct AssetProcessor {
    pub symbol: String,
    pub symbol_id: SymbolId,
    pub tick_processing_budget_us: u64,
    pub feature_backpressure_policy: BackpressurePolicy,
    pub risk_backpressure_policy: BackpressurePolicy,
    pub current_prediction_version: u64,
}

/// Whether `after` is `before` with one more tick of a symbol counted.
pub open spec fn tick_counted(
    before: GlobalMetrics,
    after: GlobalMetrics,
    symbol: Seq<char>,
    gap: bool,
    latency_ns: u64,
) -> bool {
    &&& after.feed_gaps@ == (if gap {
        crate::metrics::wrap_u64(before.feed_gaps@, 1)
    } else {
        before.feed_gaps@
    })
    &&& after.ticks_processed@ == crate::metrics::wrap_u64(before.ticks_processed@, 1)
    &&& after.features_computed@ == crate::metrics::wrap_u64(before.features_computed@, 1)
    &&& after.per_symbol_ticks@ == crate::metrics::bumped(before.per_symbol_ticks@, symbol, 1)
    &&& after.per_symbol_features@ == crate::metrics::bumped(before.per_symbol_features@, symbol, 1)
    &&& after.feed_latency@ == crate::metrics::histogram_recorded(before.feed_latency@, latency_ns)
    &&& after == (GlobalMetrics {
        feed_gaps: after.feed_gaps,
        ticks_processed: after.ticks_processed,
        features_computed: after.features_computed,
        per_symbol_ticks: after.per_symbol_ticks,
        per_symbol_features: after.per_symbol_features,
        feed_latency: after.feed_latency,
        ..before
    })
}

/// The count of a symbol after `n` more were counted one by one.
pub open spec fn bumped_times(m: Map<Seq<char>, u64>, k: Seq<char>, n: nat) -> Map<Seq<char>, u64>
    decreases n,
{
    if n == 0 {
        m
    } else {
        crate::metrics::bumped(bumped_times(m, k, (n - 1) as nat), k, 1)
    }
}

/// The time from `then` to `now`, zero where `then` is later.
pub open spec fn since(now: u64, then: u64) -> u64 {
    if now >= then {
        (now - then) as u64
    } else {
        0
    }
}

impl AssetProcessor {
    /// Whether a prediction may lead to a signal: not where trading is stopped.
    pub fn fast_precheck(&self, kill_switch_active: bool) -> (go: bool)
        ensures
            go == !kill_switch_active,
    {
        !kill_switch_active
    }

    /// Counts a tick whose features were computed, as one that came in at `tick_ns` and was
    /// processed at `now_ns`.
    pub fn count_tick(&self, gap: bool, tick_ns: u64, now_ns: u64, metrics: &mut GlobalMetrics)
        requires
            old(metrics).wf(),
        ensures
            final(metrics).wf(),
            tick_counted(
                *old(metrics),
                *final(metrics),
                self.symbol@,
                gap,
                since(now_ns, tick_ns),
            ),
    {
        if gap {
            metrics.feed_gaps.fetch_add(1);
        }
        metrics.ticks_processed.fetch_add(1);
        metrics.features_computed.fetch_add(1);
        metrics.increment_per_symbol_tick(self.symbol.as_str());
        metrics.increment_per_symbol_feature(self.symbol.as_str());
        let latency: u64 = now_ns.saturating_sub(tick_ns);
        metrics.feed_latency.record(latency);
    }

    /// Decides how a tick goes on after `elapsed_us` microseconds, with `remaining` more ticks in
    /// its batch. Where the time is used up, this tick and the rest are counted as skipped.
    pub fn after_features(
        &mut self,
        elapsed_us: u64,
        remaining: usize,
        metrics: &mut GlobalMetrics,
    ) -> (step: TickStep)
        requires
            old(metrics).wf(),
            old(self).current_prediction_version < u64::MAX,
            remaining < u64::MAX,
        ensures
            final(metrics).wf(),
            if elapsed_us > old(self).tick_processing_budget_us {
                &&& step == TickStep::SkipRest((remaining + 1) as u64)
                &&& *final(self) == *old(self)
                &&& final(metrics).ticks_skipped@ == crate::metrics::wrap_u64(
                    old(metrics).ticks_skipped@,
                    (remaining + 1) as u64,
                )
                &&& final(metrics).per_symbol_ticks_skipped@ == bumped_times(
                    old(metrics).per_symbol_ticks_skipped@,
                    old(self).symbol@,
                    remaining as nat,
                )
                &&& *final(metrics) == (GlobalMetrics {
                    ticks_skipped: final(metrics).ticks_skipped,
                    per_symbol_ticks_skipped: final(metrics).per_symbol_ticks_skipped,
                    ..*old(metrics)
                })
            } else {
                &&& step == TickStep::Predict((old(self).current_prediction_version + 1) as u64)
                &&& *final(self) == (AssetProcessor {
                    current_prediction_version: (old(self).current_prediction_version + 1) as u64,
                    ..*old(self)
                })
                &&& *final(metrics) == *old(metrics)
            },
    {
        if elapsed_us > self.tick_processing_budget_us {
            let mut i: usize = 0;
            while i < remaining
                invariant
                    i <= remaining,
                    metrics.wf(),
                    *self == *old(self),
                    metrics.per_symbol_ticks_skipped@ == bumped_times(
                        old(metrics).per_symbol_ticks_skipped@,
                        self.symbol@,
                        i as nat,
                    ),
                    *metrics == (GlobalMetrics {
                        per_symbol_ticks_skipped: metrics.per_symbol_ticks_skipped,
                        ..*old(metrics)
                    }),
                decreases remaining - i,
            {
                metrics.increment_per_symbol_tick_skipped(self.symbol.as_str());
                i += 1;
            }
            let skipped: u64 = remaining as u64 + 1;
            metrics.ticks_skipped.fetch_add(skipped);
            TickStep::SkipRest(skipped)
        } else {
            self.current_prediction_version = self.current_prediction_version + 1;
            TickStep::Predict(self.current_prediction_version)
        }
    }

    /// Which prediction to use; a fallback is counted.
    pub fn after_prediction(&self, valid: bool, metrics: &mut GlobalMetrics) -> (s:
        PredictionSource)
        ensures
            valid ==> s == PredictionSource::Model && *final(metrics) == *old(metrics),
            !valid
                ==> s == PredictionSource::Heuristic
                    && final(metrics).model_fallback_activations@ == crate::metrics::wrap_u64(
                old(metrics).model_fallback_activations@,
                1,
            ) && *final(metrics) == (GlobalMetrics {
                model_fallback_activations: final(metrics).model_fallback_activations,
                ..*old(metrics)
            }),
    {
        if valid {
            PredictionSource::Model
        } else {
            metrics.model_fallback_activations.fetch_add(1);
            PredictionSource::Heuristic
        }
    }

    /// Counts features that were sent on.
    pub fn after_feature_send(&self, sent: bool, metrics: &mut GlobalMetrics)
        ensures
            *final(metrics) == (if sent {
                GlobalMetrics {
                    feature_channel_depth: crate::metrics::wrap_i64(
                        old(metrics).feature_channel_depth,
                        1,
                    ),
                    ..*old(metrics)
                }
            } else {
                *old(metrics)
            }),
    {
        if sent {
            gauge_add(&mut metrics.feature_channel_depth, 1);
        }
    }

    /// Sends features on under the policy for features; the result tells whether they were sent.
    pub fn forward_features<T>(
        &self,
        tx: &Sender<T>,
        rx: &Receiver<T>,
        features: T,
        metrics: &mut GlobalMetrics,
    ) -> (sent: bool)
        ensures
            exists|mid: GlobalMetrics, r: Result<(), PolicySendError<T>>|
                #![trigger crate::channel_utils::policy_kept(self.feature_backpressure_policy, true, features, *old(metrics), mid, r)]
                crate::channel_utils::policy_kept(
                    self.feature_backpressure_policy,
                    true,
                    features,
                    *old(metrics),
                    mid,
                    r,
                ) && crate::channel_utils::policy_followed(
                    self.feature_backpressure_policy,
                    tx,
                    Some(rx),
                    features,
                    *old(metrics),
                    mid,
                    r,
                ) && sent == r is Ok && *final(metrics) == (if sent {
                    GlobalMetrics {
                        feature_channel_depth: crate::metrics::wrap_i64(
                            mid.feature_channel_depth,
                            1,
                        ),
                        ..mid
                    }
                } else {
                    mid
                }),
    {
        let r = send_with_policy(
            tx,
            Some(rx),
            features,
            &self.feature_backpressure_policy,
            metrics,
        );
        let ghost mid = *metrics;
        let sent = r.is_ok();
        self.after_feature_send(sent, metrics);
        assert(crate::channel_utils::policy_kept(
            self.feature_backpressure_policy,
            true,
            features,
            *old(metrics),
            mid,
            r,
        ));
        sent
    }

    /// Settles the attempt to send a request that was ready after `elapsed_ns`: a sent one is
    /// counted with its latency, a dropped or late one as dropped, and where the other end is
    /// gone trading is stopped.
    pub fn after_intent_send<T, C: Clock>(
        &self,
        result: &Result<(), PolicySendError<T>>,
        elapsed_ns: u64,
        kill_switch: &mut KillSwitch<C>,
        metrics: &mut GlobalMetrics,
    )
        requires
            old(kill_switch).wf(),
        ensures
            final(kill_switch).wf(),
            match *result {
                Ok(_) => {
                    &&& *final(kill_switch) == *old(kill_switch)
                    &&& final(metrics).intents_generated@ == crate::metrics::wrap_u64(
                        old(metrics).intents_generated@,
                        1,
                    )
                    &&& final(metrics).risk_channel_depth == crate::metrics::wrap_i64(
                        old(metrics).risk_channel_depth,
                        1,
                    )
                    &&& final(metrics).tick_to_intent_latency@
                        == crate::metrics::histogram_recorded(
                        old(metrics).tick_to_intent_latency@,
                        elapsed_ns,
                    )
                    &&& *final(metrics) == (GlobalMetrics {
                        intents_generated: final(metrics).intents_generated,
                        risk_channel_depth: final(metrics).risk_channel_depth,
                        tick_to_intent_latency: final(metrics).tick_to_intent_latency,
                        ..*old(metrics)
                    })
                },
                Err(PolicySendError::Disconnected(_)) => {
                    &&& *final(metrics) == *old(metrics)
                    &&& crate::engine::thrown(*old(kill_switch), *final(kill_switch))
                },
                Err(_) => {
                    &&& *final(kill_switch) == *old(kill_switch)
                    &&& crate::channel_utils::drops_counted(*old(metrics), *final(metrics), 1)
                },
            },
    {
        match result {
            Ok(_) => {
                metrics.intents_generated.fetch_add(1);
                gauge_add(&mut metrics.risk_channel_depth, 1);
                metrics.tick_to_intent_latency.record(elapsed_ns);
            },
            Err(PolicySendError::Disconnected(_)) => {
                let _ = kill_switch.activate();
            },
            Err(_) => {
                metrics.dropped_intents.fetch_add(1);
            },
        }
    }

    /// Counts a tick that was left over when trading stopped.
    pub fn count_drained(&self, metrics: &mut GlobalMetrics)
        ensures
            final(metrics).ticks_processed@ == crate::metrics::wrap_u64(
                old(metrics).ticks_processed@,
                1,
            ),
            *final(metrics) == (GlobalMetrics {
                ticks_processed: final(metrics).ticks_processed,
                ..*old(metrics)
            }),
    {
        metrics.ticks_processed.fetch_add(1);
    }
}

/// The number of each side, by which the other end tells what is asked for.
pub proof fn law_sides_have_their_numbers()
    ensures
        side_number(SignalSide::Hold) == 0,
        side_number(SignalSide::Long) == 1,
        side_number(SignalSide::Short) == 2,
        side_number(SignalSide::CloseLong) == 3,
        side_number(SignalSide::CloseShort) == 4,
        side_number(SignalSide::Flatten) == 5,
{
}

/// A request asks for what its signal asks for, at the price and the spread of the tick, under an
/// identifier that no earlier request had.
pub proof fn law_request_carries_its_signal(
    signal: SizedSignal,
    spread: Real,
    mid_price: Real,
    now: u64,
)
    ensures
        forall|ids: &mut IdCounters, r: RiskCheckRequest|
            #![trigger call_ensures(build_risk_request, (&signal, spread, mid_price, now, ids), r)]
            call_ensures(build_risk_request, (&signal, spread, mid_price, now, ids), r) ==> {
                &&& r.request_id == ids.upcoming().1
                &&& r.request_id < u64::MAX ==> final(ids).upcoming().1 == r.request_id + 1
                &&& r.symbol_id == signal.symbol_id
                &&& r.intent_id == signal.intent_id
                &&& r.quantity == signal.quantity
                &&& r.price == mid_price
                &&& r.timestamp_ns == now
                &&& r.current_volatility == signal.volatility
                &&& r.current_spread_bps == spread
                &&& r.trace_id == signal.trace_id
                &&& r.side == 0 <==> signal.side is Hold
                &&& r.side == 1 <==> signal.side is Long
                &&& r.side == 2 <==> signal.side is Short
                &&& r.side == 3 <==> signal.side is CloseLong
                &&& r.side == 4 <==> signal.side is CloseShort
                &&& r.side == 5 <==> signal.side is Flatten
            },
{
}

/// Units are taken as they are; money is divided by the price where there is one above zero; else
/// the default stands.
pub proof fn law_quantity_has_its_source(hint: SizeHint, mid_price: Real, s: QuantitySource)
    requires
        call_ensures(quantity_source, (hint, mid_price), s),
    ensures
        hint matches SizeHint::Units(u) ==> s == QuantitySource::Units(u),
        hint matches SizeHint::Notional(n) ==> (!mid_price.is_nan() && mid_price.rank() > 0 ==> s
            == QuantitySource::Divide(n)) && (mid_price.is_nan() || mid_price.rank() <= 0 ==> s
            is Default),
        hint is Other ==> s is Default,
{
}

/// The time since an earlier reading is the difference, and zero where that reading is later.
pub proof fn law_time_since_is_the_difference(now: u64, then: u64)
    ensures
        now >= then ==> since(now, then) + then == now,
        now <= then ==> since(now, then) == 0,
{
}

/// Counting a symbol so many times adds so many to its count.
pub proof fn law_counting_adds_up(m: Map<Seq<char>, u64>, k: Seq<char>, n: nat, other: Seq<char>)
    requires
        crate::metrics::count_of(m, k) + n <= u64::MAX,
    ensures
        crate::metrics::count_of(bumped_times(m, k, n), k) == crate::metrics::count_of(m, k) + n,
        other != k ==> crate::metrics::count_of(bumped_times(m, k, n), other)
            == crate::metrics::count_of(m, other),
    decreases n,
{
    if n > 0 {
        law_counting_adds_up(m, k, (n - 1) as nat, other);
    }
}

/// A tick within its time is predicted under the next version; one that took longer ends the batch,
/// and it and the rest are counted as skipped.
pub proof fn law_budget_decides_on_prediction(elapsed_us: u64, remaining: usize)
    ensures
        forall|p: &mut AssetProcessor, m: &mut GlobalMetrics, step: TickStep|
            #![trigger call_ensures(AssetProcessor::after_features, (p, elapsed_us, remaining, m), step)]
            call_ensures(AssetProcessor::after_features, (p, elapsed_us, remaining, m), step)
                && p.current_prediction_version < u64::MAX && remaining < u64::MAX ==> {
                &&& step is Predict <==> elapsed_us <= p.tick_processing_budget_us
                &&& step matches TickStep::Predict(v) ==> v == p.current_prediction_version + 1
                    && final(p).current_prediction_version == v && *final(m) == *m
                &&& step matches TickStep::SkipRest(n) ==> n == remaining + 1
                    && final(p).current_prediction_version == p.current_prediction_version && (
                m.ticks_skipped@ + n <= u64::MAX ==> final(m).ticks_skipped@ == m.ticks_skipped@
                    + n)
            },
{
}

/// A tick is one tick more and one set of features more, for all and for its symbol; a gap in the
/// feed is one gap more.
pub proof fn law_tick_is_counted_for_its_symbol(
    before: GlobalMetrics,
    after: GlobalMetrics,
    symbol: Seq<char>,
    gap: bool,
    latency_ns: u64,
)
    requires
        tick_counted(before, after, symbol, gap, latency_ns),
        before.ticks_processed@ < u64::MAX,
        before.features_computed@ < u64::MAX,
        before.feed_gaps@ < u64::MAX,
        crate::metrics::count_of(before.per_symbol_ticks@, symbol) < u64::MAX,
        crate::metrics::count_of(before.per_symbol_features@, symbol) < u64::MAX,
    ensures
        after.ticks_processed@ == before.ticks_processed@ + 1,
        after.features_computed@ == before.features_computed@ + 1,
        gap ==> after.feed_gaps@ == before.feed_gaps@ + 1,
        !gap ==> after.feed_gaps@ == before.feed_gaps@,
        crate::metrics::count_of(after.per_symbol_ticks@, symbol) == crate::metrics::count_of(
            before.per_symbol_ticks@,
            symbol,
        ) + 1,
        crate::metrics::count_of(after.per_symbol_features@, symbol) == crate::metrics::count_of(
            before.per_symbol_features@,
            symbol,
        ) + 1,
        after.ticks_skipped@ == before.ticks_skipped@,
        after.dropped_intents@ == before.dropped_intents@,
        after.intents_generated@ == before.intents_generated@,
{
}

/// A batch is what came out of the channel, in that order. It holds no more than was asked for, or
/// one, and fewer only where the channel had nothing more.
pub proof fn law_batch_is_what_came<T>()
    ensures
        forall|rx: &Receiver<T>, buf: &mut Vec<T>, max: usize, n: usize|
            #![trigger call_ensures(recv_batch::<T>, (rx, buf, max), n)]
            call_ensures(recv_batch::<T>, (rx, buf, max), n) ==> {
                &&& n == final(buf)@.len()
                &&& n <= max || n <= 1
                &&& forall|i: int|
                    0 <= i < n ==> crate::channel_utils::took(rx, Some(#[trigger] final(buf)@[i]))
                &&& n == 0 || n < max ==> crate::channel_utils::took(rx, None)
            },
{
}

/// Nothing is worked on while trading is stopped.
pub proof fn law_no_work_while_stopped(p: &AssetProcessor, stopped: bool, go: bool)
    requires
        call_ensures(AssetProcessor::fast_precheck, (p, stopped), go),
    ensures
        stopped <==> !go,
{
}

/// A valid prediction is the model's; else the rule of thumb stands in, and that is counted.
pub proof fn law_rule_of_thumb_stands_in()
    ensures
        forall|p: &AssetProcessor, valid: bool, m: &mut GlobalMetrics, s: PredictionSource|
            #![trigger call_ensures(AssetProcessor::after_prediction, (p, valid, m), s)]
            call_ensures(AssetProcessor::after_prediction, (p, valid, m), s) ==> {
                &&& s is Model <==> valid
                &&& s is Heuristic <==> !valid
                &&& valid ==> *final(m) == *m
                &&& !valid ==> final(m).model_fallback_activations@ == (
                m.model_fallback_activations@ + 1) % 0x1_0000_0000_0000_0000
                &&& final(m).intents_generated == m.intents_generated
                &&& final(m).errors == m.errors
            },
{
}

/// Features that were sent are one more in their channel; what was not sent is not.
pub proof fn law_sent_features_fill_the_channel()
    ensures
        forall|p: &AssetProcessor, sent: bool, m: &mut GlobalMetrics, u: ()|
            #![trigger call_ensures(AssetProcessor::after_feature_send, (p, sent, m), u)]
            call_ensures(AssetProcessor::after_feature_send, (p, sent, m), u) ==> {
                &&& !sent ==> *final(m) == *m
                &&& sent && m.feature_channel_depth < i64::MAX ==> final(m).feature_channel_depth
                    == m.feature_channel_depth + 1
                &&& final(m).risk_channel_depth == m.risk_channel_depth
                &&& final(m).dropped_intents == m.dropped_intents
            },
{
}

/// An intent that was sent is one more, in all and in its channel. One that found nobody to take it
/// stops trading, and one that was refused otherwise is dropped; neither counts as sent.
pub proof fn law_intent_is_sent_or_dropped<T, C: Clock>()
    ensures
        forall|
            p: &AssetProcessor,
            r: &Result<(), PolicySendError<T>>,
            ns: u64,
            k: &mut KillSwitch<C>,
            m: &mut GlobalMetrics,
            u: (),
        |
            #![trigger call_ensures(AssetProcessor::after_intent_send::<T, C>, (p, r, ns, k, m), u)]
            call_ensures(AssetProcessor::after_intent_send::<T, C>, (p, r, ns, k, m), u) ==> {
                let gone = *r is Err && r->Err_0 is Disconnected;
                &&& *r is Ok ==> final(m).intents_generated@ == (m.intents_generated@ + 1)
                    % 0x1_0000_0000_0000_0000
                &&& *r is Ok && m.risk_channel_depth < i64::MAX ==> final(m).risk_channel_depth
                    == m.risk_channel_depth + 1
                &&& *r is Ok ==> final(m).dropped_intents == m.dropped_intents
                &&& gone ==> final(k).on() && final(k).orders() == k.orders() && *final(m) == *m
                &&& !gone ==> *final(k) == *k
                &&& *r is Err && !gone ==> final(m).dropped_intents@ == (m.dropped_intents@ + 1)
                    % 0x1_0000_0000_0000_0000
                &&& *r is Err ==> final(m).intents_generated == m.intents_generated
                    && final(m).risk_channel_depth == m.risk_channel_depth
            },
{
}

/// A tick that is only drained counts as one tick and as nothing else.
pub proof fn law_drained_tick_counts_once()
    ensures
        forall|p: &AssetProcessor, m: &mut GlobalMetrics, u: ()|
            #![trigger call_ensures(AssetProcessor::count_drained, (p, m), u)]
            call_ensures(AssetProcessor::count_drained, (p, m), u) ==> {
                &&& final(m).ticks_processed@ == (m.ticks_processed@ + 1) % 0x1_0000_0000_0000_0000
                &&& final(m).features_computed == m.features_computed
                &&& final(m).ticks_skipped == m.ticks_skipped
            },
{
}

} // verus!
