//! From an approved decision to an order at the broker, step by step.

use vstd::prelude::*;
use vstd::string::StringExecFns;

use crate::clock::Clock;
use crate::idempotency::IdempotencyStore;
use crate::journal::JournalEntry;
use crate::kill_switch::KillSwitch;
use crate::metrics::{gauge_add, GlobalMetrics};
use crate::order_lifecycle::{OrderLifecycleEvent, OrderLifecycleEventType};
use crate::order_tracker::{FillFigures, OrderStatus, OrderTracker};
use crate::portfolio::{FillValues, PortfolioManager};
use crate::quantity::Real;
use crate::symbol_registry::{next_request_id, IdCounters, SymbolId};
use crate::text::{push_u64, u64_to_string};
use crate::validator::RequestValidator;

verus! {

/// The part of a risk request that the execution reads.
#[derive(Debug, Clone)]
pub struct RiskRequest {
    pub symbol_id: SymbolId,
    pub intent_id: u64,
    /// The number of the signal's side, see `side_of`.
    pub side: u8,
    pub quantity: Real,
}

/// The verdict of the risk checks on a request.
#[derive(Debug, Clone)]
pub struct RiskDecision {
    pub request_id: u64,
    pub approved: bool,
    pub request: RiskRequest,
    pub trace_id: u64,
}

/// The side of an order.
#[derive(Debug, Clone, Copy, PartialEq, Eq, Structural)]
pub enum OrderSide {
    Buy,
    Sell,
}

impl OrderSide {
    pub open spec fn name(self) -> Seq<char> {
        match self {
            OrderSide::Buy => "Buy"@,
            OrderSide::Sell => "Sell"@,
        }
    }

    /// The word for the side.
    pub fn word(&self) -> (s: &'static str)
        ensures
            s@ == self.name(),
    {
        match self {
            OrderSide::Buy => "Buy",
            OrderSide::Sell => "Sell",
        }
    }
}

/// The side of the order that the number of a request stands for: one and the even numbers up to
/// four buy, all others sell.
pub open spec fn side_of(n: u8) -> OrderSide {
    if n == 0 || n == 1 || n == 2 || n == 4 {
        OrderSide::Buy
    } else {
        OrderSide::Sell
    }
}

/// The side of the order that the number of a request stands for.
pub fn order_side(n: u8) -> (s: OrderSide)
    ensures
        s == side_of(n),
{
    match n {
        0 | 1 | 2 | 4 => OrderSide::Buy,
        _ => OrderSide::Sell,
    }
}

/// A market order for the day, without limit and stop price.
#[derive(Debug, Clone)]
pub struct OrderCommand {
    pub order_id: String,
    pub symbol: String,
    pub side: OrderSide,
    pub quantity: Real,
    pub correlation_id: String,
    pub trace_id: u64,
}

/// How an attempt to submit an order went.
#[derive(Debug, Clone, Copy, PartialEq, Eq, Structural)]
pub enum Attempt {
    Accepted,
    /// A failed connection, a rate limit or an unknown fault: it may pass.
    Transient,
    /// Any other fault.
    Fatal,
}

/// What comes after an attempt to submit an order.
#[derive(Debug, Clone, Copy, PartialEq, Eq, Structural)]
pub enum RetryStep {
    /// The outcome of the attempt stands.
    Done,
    /// Wait for so many milliseconds, then try again.
    RetryAfter(u64),
}

/// What comes after attempt number `attempt`, the first being zero: a fault that may pass is
/// tried again, after a wait that doubles each time, until the attempts are used up.
pub open spec fn retry_step(
    attempt: u32,
    max_retries: u32,
    backoff_ms: u64,
    outcome: Attempt,
) -> RetryStep {
    if outcome == Attempt::Transient && attempt + 1 < max_retries {
        RetryStep::RetryAfter(
            (backoff_ms * vstd::arithmetic::power2::pow2(attempt as nat)) as u64,
        )
    } else {
        RetryStep::Done
    }
}

/// Decides what comes after an attempt, see `retry_step`.
pub fn after_attempt(attempt: u32, max_retries: u32, backoff_ms: u64, outcome: Attempt) -> (r:
    RetryStep)
    requires
        outcome == Attempt::Transient && attempt + 1 < max_retries ==> attempt < 64 && backoff_ms
            * vstd::arithmetic::power2::pow2(attempt as nat) <= u64::MAX,
    ensures
        r == retry_step(attempt, max_retries, backoff_ms, outcome),
{
    if outcome == Attempt::Transient && attempt < max_retries && max_retries - attempt > 1 {
        proof {
            if backoff_ms > 0 {
                assert(vstd::arithmetic::power2::pow2(attempt as nat) <= u64::MAX)
                    by (nonlinear_arith)
                    requires
                        backoff_ms >= 1,
                        backoff_ms * vstd::arithmetic::power2::pow2(attempt as nat) <= u64::MAX,
                ;
            } else {
                vstd::arithmetic::power2::lemma_pow2_strictly_increases(attempt as nat, 64);
                vstd::arithmetic::power2::lemma2_to64();
            }
            vstd::bits::lemma_u64_shl_is_mul(1, attempt as u64);
        }
        let factor: u64 = 1u64 << (attempt as u64);
        RetryStep::RetryAfter(backoff_ms * factor)
    } else {
        RetryStep::Done
    }
}

/// An order is tried again only while attempts are left, and each wait is twice the one before.
pub proof fn law_backoff_doubles(attempt: u32, max_retries: u32, backoff_ms: u64)
    requires
        attempt + 2 < max_retries,
        backoff_ms * vstd::arithmetic::power2::pow2((attempt + 1) as nat) <= u64::MAX,
    ensures
        match (
            retry_step(attempt, max_retries, backoff_ms, Attempt::Transient),
            retry_step((attempt + 1) as u32, max_retries, backoff_ms, Attempt::Transient),
        ) {
            (RetryStep::RetryAfter(a), RetryStep::RetryAfter(b)) => b == 2 * a,
            _ => false,
        },
{
    let p = vstd::arithmetic::power2::pow2(attempt as nat);
    vstd::arithmetic::power2::lemma_pow2_unfold((attempt + 1) as nat);
    assert(backoff_ms * (2 * p) == 2 * (backoff_ms * p)) by (nonlinear_arith);
    assert(backoff_ms * p >= 0) by (nonlinear_arith)
        requires
            backoff_ms >= 0,
            p >= 0,
    ;
}

/// No attempt comes after the last one that is allowed.
pub proof fn law_attempts_are_bounded(
    attempt: u32,
    max_retries: u32,
    backoff_ms: u64,
    outcome: Attempt,
)
    requires
        attempt + 1 >= max_retries,
    ensures
        retry_step(attempt, max_retries, backoff_ms, outcome) == RetryStep::Done,
{
}

/// A step on the way of a decision to the broker.
#[derive(Debug, Clone, Copy, PartialEq, Eq, Structural)]
pub enum ExecutionStep {
    /// Ask the validator, see `check_symbol`.
    CheckSymbol,
    /// Ask the rate limiter, see `after_rate_limit`.
    TakeToken,
    /// Look for an earlier order of the intent and make the order, see `plan_order`.
    MakePlan,
    /// Write to the journal that the order is pending.
    WritePending,
    /// Submit the order; the first attempt has the number zero.
    Submit { attempt: u32 },
    /// Wait for so many milliseconds after an attempt.
    Wait { attempt: u32, delay_ms: u64 },
    /// Record the order that the broker took, see `order_accepted`.
    RecordAccepted,
    /// Record that the broker did not take it, see `order_failed`.
    RecordFailed,
    Done,
}

/// How a step went.
#[derive(Debug, Clone, Copy, PartialEq, Eq, Structural)]
pub enum StepResult {
    Passed,
    Refused,
    /// The broker's answer.
    Answered(Attempt),
}

/// The step that comes after one. A check that refuses ends the way.
pub open spec fn step_after(
    step: ExecutionStep,
    result: StepResult,
    max_retries: u32,
    backoff_ms: u64,
) -> ExecutionStep {
    match step {
        ExecutionStep::CheckSymbol => if result is Passed {
            ExecutionStep::TakeToken
        } else {
            ExecutionStep::Done
        },
        ExecutionStep::TakeToken => if result is Passed {
            ExecutionStep::MakePlan
        } else {
            ExecutionStep::Done
        },
        ExecutionStep::MakePlan => if result is Passed {
            ExecutionStep::WritePending
        } else {
            ExecutionStep::Done
        },
        ExecutionStep::WritePending => ExecutionStep::Submit { attempt: 0 },
        ExecutionStep::Submit { attempt } => match result {
            StepResult::Answered(outcome) => match retry_step(
                attempt,
                max_retries,
                backoff_ms,
                outcome,
            ) {
                RetryStep::RetryAfter(delay_ms) => ExecutionStep::Wait { attempt, delay_ms },
                RetryStep::Done => if outcome is Accepted {
                    ExecutionStep::RecordAccepted
                } else {
                    ExecutionStep::RecordFailed
                },
            },
            _ => ExecutionStep::RecordFailed,
        },
        ExecutionStep::Wait { attempt, .. } => ExecutionStep::Submit {
            attempt: if attempt == u32::MAX {
                0
            } else {
                (attempt + 1) as u32
            },
        },
        _ => ExecutionStep::Done,
    }
}

/// The step that comes after one, see `step_after`.
pub fn advance(step: ExecutionStep, result: StepResult, max_retries: u32, backoff_ms: u64) -> (r:
    ExecutionStep)
    requires
        step matches ExecutionStep::Submit { attempt } ==> (result == StepResult::Answered(
            Attempt::Transient,
        ) && attempt + 1 < max_retries ==> attempt < 64 && backoff_ms
            * vstd::arithmetic::power2::pow2(attempt as nat) <= u64::MAX),
    ensures
        r == step_after(step, result, max_retries, backoff_ms),
{
    let passed = matches!(result, StepResult::Passed);
    match step {
        ExecutionStep::CheckSymbol => if passed {
            ExecutionStep::TakeToken
        } else {
            ExecutionStep::Done
        },
        ExecutionStep::TakeToken => if passed {
            ExecutionStep::MakePlan
        } else {
            ExecutionStep::Done
        },
        ExecutionStep::MakePlan => if passed {
            ExecutionStep::WritePending
        } else {
            ExecutionStep::Done
        },
        ExecutionStep::WritePending => ExecutionStep::Submit { attempt: 0 },
        ExecutionStep::Submit { attempt } => match result {
            StepResult::Answered(outcome) => match after_attempt(
                attempt,
                max_retries,
                backoff_ms,
                outcome,
            ) {
                RetryStep::RetryAfter(delay_ms) => ExecutionStep::Wait { attempt, delay_ms },
                RetryStep::Done => if outcome == Attempt::Accepted {
                    ExecutionStep::RecordAccepted
                } else {
                    ExecutionStep::RecordFailed
                },
            },
            _ => ExecutionStep::RecordFailed,
        },
        ExecutionStep::Wait { attempt, .. } => ExecutionStep::Submit {
            attempt: attempt.wrapping_add(1),
        },
        _ => ExecutionStep::Done,
    }
}

/// The steps of a decision, from the first to the one that follows the given results.
pub open spec fn steps_taken(
    results: Seq<StepResult>,
    max_retries: u32,
    backoff_ms: u64,
) -> Seq<ExecutionStep>
    decreases results.len(),
{
    if results.len() == 0 {
        seq![ExecutionStep::CheckSymbol]
    } else {
        let before = steps_taken(results.drop_last(), max_retries, backoff_ms);
        before.push(step_after(before.last(), results.last(), max_retries, backoff_ms))
    }
}

/// Whether a step comes only after the broker could be asked.
pub open spec fn past_journal(step: ExecutionStep) -> bool {
    step is Submit || step is Wait || step is RecordAccepted || step is RecordFailed
}

/// No order is submitted and nothing of it is recorded before the validator, the rate limiter and
/// the look for an earlier order of the intent let it through and the journal says that it is
/// pending.
pub proof fn law_journal_comes_first(
    results: Seq<StepResult>,
    max_retries: u32,
    backoff_ms: u64,
)
    requires
        past_journal(steps_taken(results, max_retries, backoff_ms).last()),
    ensures
        results.len() >= 4,
        steps_taken(results, max_retries, backoff_ms).take(4) == seq![
            ExecutionStep::CheckSymbol,
            ExecutionStep::TakeToken,
            ExecutionStep::MakePlan,
            ExecutionStep::WritePending,
        ],
        results[0] is Passed,
        results[1] is Passed,
        results[2] is Passed,
{
    lemma_steps(results, max_retries, backoff_ms);
}

proof fn lemma_steps(results: Seq<StepResult>, max_retries: u32, backoff_ms: u64)
    ensures
        ({
            let steps = steps_taken(results, max_retries, backoff_ms);
            let last = steps.last();
            &&& steps.len() == results.len() + 1
            &&& last is CheckSymbol ==> results.len() == 0 && steps[0] is CheckSymbol
            &&& last is TakeToken ==> results.len() == 1 && results[0] is Passed
                && steps[0] is CheckSymbol
            &&& last is MakePlan ==> results.len() == 2 && results[0] is Passed
                && results[1] is Passed && steps[0] is CheckSymbol && steps[1] is TakeToken
            &&& last is WritePending ==> results.len() == 3 && results[0] is Passed
                && results[1] is Passed && results[2] is Passed && steps[0] is CheckSymbol
                && steps[1] is TakeToken && steps[2] is MakePlan
            &&& past_journal(last) ==> results.len() >= 4 && results[0] is Passed
                && results[1] is Passed && results[2] is Passed && steps.take(4) == seq![
                ExecutionStep::CheckSymbol,
                ExecutionStep::TakeToken,
                ExecutionStep::MakePlan,
                ExecutionStep::WritePending,
            ]
        }),
    decreases results.len(),
{
    let steps = steps_taken(results, max_retries, backoff_ms);
    if results.len() > 0 {
        let front = results.drop_last();
        lemma_steps(front, max_retries, backoff_ms);
        let before = steps_taken(front, max_retries, backoff_ms);
        assert(steps.drop_last() =~= before);
        if past_journal(steps.last()) {
            if before.last() is WritePending {
                assert(steps.take(4) =~= before);
            } else {
                assert(past_journal(before.last()));
                assert(steps.take(4) =~= before.take(4));
            }
            assert(steps.take(4) =~= seq![
                ExecutionStep::CheckSymbol,
                ExecutionStep::TakeToken,
                ExecutionStep::MakePlan,
                ExecutionStep::WritePending,
            ]);
        }
    }
}

/// An order is recorded as taken just where the broker's last answer says so.
pub proof fn law_recorded_as_answered(
    step: ExecutionStep,
    result: StepResult,
    max_retries: u32,
    backoff_ms: u64,
)
    ensures
        step_after(step, result, max_retries, backoff_ms) is RecordAccepted <==> step is Submit
            && result == StepResult::Answered(Attempt::Accepted),
{
}

/// What is done with a decision that came in.
#[derive(Debug, Clone, Copy, PartialEq, Eq, Structural)]
pub enum Admission {
    /// The risk checks refused it.
    NotApproved,
    /// Trading is stopped.
    Stopped,
    /// The circuit breaker is to be asked.
    AskBreaker,
}

/// What is done with a decision that came in.
pub fn screen(decision: &RiskDecision, kill_switch_active: bool) -> (a: Admission)
    ensures
        a == (if !decision.approved {
            Admission::NotApproved
        } else if kill_switch_active {
            Admission::Stopped
        } else {
            Admission::AskBreaker
        }),
{
    if !decision.approved {
        Admission::NotApproved
    } else if kill_switch_active {
        Admission::Stopped
    } else {
        Admission::AskBreaker
    }
}

/// Whether to execute after the circuit breaker's answer; a refusal is counted.
pub fn after_breaker(can_execute: bool, metrics: &mut GlobalMetrics) -> (go: bool)
    ensures
        go == can_execute,
        can_execute ==> *final(metrics) == *old(metrics),
        !can_execute ==> final(metrics).circuit_breaker_trips@ == crate::metrics::wrap_u64(
            old(metrics).circuit_breaker_trips@,
            1,
        ) && *final(metrics) == (GlobalMetrics {
            circuit_breaker_trips: final(metrics).circuit_breaker_trips,
            ..*old(metrics)
        }),
{
    if !can_execute {
        metrics.circuit_breaker_trips.fetch_add(1);
    }
    can_execute
}

/// Whether `after` is `before` with one more rejected order.
pub open spec fn rejection_counted(before: GlobalMetrics, after: GlobalMetrics) -> bool {
    &&& after.orders_rejected@ == crate::metrics::wrap_u64(before.orders_rejected@, 1)
    &&& after == (GlobalMetrics { orders_rejected: after.orders_rejected, ..before })
}

/// The key under which the symbol of a decision is known: its number.
pub open spec fn symbol_key(d: RiskDecision) -> Seq<char> {
    crate::text::decimal(d.request.symbol_id.raw() as nat)
}

/// The symbol of a decision, where the validator accepts it; else a rejection is counted.
pub fn check_symbol(
    decision: &RiskDecision,
    validator: &RequestValidator,
    metrics: &mut GlobalMetrics,
) -> (r: Option<String>)
    ensures
        match r {
            Some(key) => {
                &&& key@ == symbol_key(*decision)
                &&& crate::validator::symbol_result(
                    key@,
                    validator.config.max_symbol_length,
                ) is Ok
                &&& *final(metrics) == *old(metrics)
            },
            None => {
                &&& crate::validator::symbol_result(
                    symbol_key(*decision),
                    validator.config.max_symbol_length,
                ) is Err
                &&& rejection_counted(*old(metrics), *final(metrics))
            },
        },
{
    let key = u64_to_string(decision.request.symbol_id.as_u16() as u64);
    match validator.validate_symbol(key.as_str()) {
        Ok(()) => Some(key),
        Err(_) => {
            metrics.orders_rejected.fetch_add(1);
            None
        },
    }
}

/// Whether to go on after the rate limiter's answer; a refusal counts as a rejection.
pub fn after_rate_limit(allowed: bool, metrics: &mut GlobalMetrics) -> (go: bool)
    ensures
        go == allowed,
        allowed ==> *final(metrics) == *old(metrics),
        !allowed ==> rejection_counted(*old(metrics), *final(metrics)),
{
    if !allowed {
        metrics.orders_rejected.fetch_add(1);
    }
    allowed
}

/// An order that is ready for the broker.
#[derive(Debug)]
pub struct OrderPlan {
    pub idempotency_key: String,
    /// Goes to the journal before the broker is asked.
    pub pending_entry: JournalEntry,
    pub command: OrderCommand,
}

/// The key under which an intent is remembered.
pub open spec fn intent_key(intent_id: u64) -> Seq<char> {
    "intent-"@ + crate::text::decimal(intent_id as nat)
}

/// What the journal says of an order, up to its status.
pub open spec fn order_data(
    intent_id: u64,
    order_id: Seq<char>,
    side: OrderSide,
    qty_text: Seq<char>,
    request_id: u64,
) -> Seq<char> {
    "intent_id="@ + crate::text::decimal(intent_id as nat) + ",order_id="@ + order_id + ",side="@
        + side.name() + ",qty="@ + qty_text + ",request_id="@ + crate::text::decimal(
        request_id as nat,
    ) + ",status="@
}

fn order_data_text(
    intent_id: u64,
    order_id: &str,
    side: OrderSide,
    qty_text: &str,
    request_id: u64,
) -> (s: String)
    ensures
        s@ == order_data(intent_id, order_id@, side, qty_text@, request_id),
{
    let mut s = "intent_id=".to_owned();
    push_u64(&mut s, intent_id);
    s.append(",order_id=");
    s.append(order_id);
    s.append(",side=");
    s.append(side.word());
    s.append(",qty=");
    s.append(qty_text);
    s.append(",request_id=");
    push_u64(&mut s, request_id);
    s.append(",status=");
    s
}

/// Whether an entry is one of an order with the given data.
pub open spec fn is_order_entry(
    e: JournalEntry,
    symbol: Seq<char>,
    timestamp_ns: u64,
    data: Seq<char>,
) -> bool {
    e matches JournalEntry::Order { symbol: s, timestamp_ns: t, data: d } && s@ == symbol && t
        == timestamp_ns && d@ == data
}

impl OrderPlan {
    /// Whether the plan carries out a decision under the order id `id`.
    pub open spec fn carries_out(
        &self,
        d: RiskDecision,
        id: Seq<char>,
        now: u64,
        qty_text: Seq<char>,
    ) -> bool {
        &&& self.idempotency_key@ == intent_key(d.request.intent_id)
        &&& self.command.order_id@ == id
        &&& self.command.symbol@ == symbol_key(d)
        &&& self.command.side == side_of(d.request.side)
        &&& self.command.quantity == d.request.quantity
        &&& self.command.correlation_id@ == crate::text::decimal(d.request_id as nat)
        &&& self.command.trace_id == d.trace_id
        &&& is_order_entry(
            self.pending_entry,
            symbol_key(d),
            now,
            order_data(
                d.request.intent_id,
                id,
                side_of(d.request.side),
                qty_text,
                d.request_id,
            ) + "Pending"@,
        )
    }
}

/// Makes an order out of a decision, unless its intent was processed before. The order gets a
/// fresh id; `qty_text` is the written form of the quantity.
pub fn plan_order(
    decision: &RiskDecision,
    now: u64,
    qty_text: &str,
    store: &mut IdempotencyStore,
    ids: &mut IdCounters,
) -> (r: Option<OrderPlan>)
    requires
        old(store).wf(),
    ensures
        final(store).wf(),
        final(store).limit() == old(store).limit(),
        final(store).memory_limit() == old(store).memory_limit(),
        match r {
            None => {
                &&& old(store)@.results.dom().contains(intent_key(decision.request.intent_id))
                &&& *final(ids) == *old(ids)
                &&& final(store)@ == crate::idempotency::touched(
                    old(store)@,
                    old(store).limit() as int,
                    old(store).memory_limit() as int,
                    intent_key(decision.request.intent_id),
                )
            },
            Some(plan) => {
                &&& !old(store)@.results.dom().contains(intent_key(decision.request.intent_id))
                &&& final(store)@ == old(store)@
                &&& final(ids).upcoming() == (
                    old(ids).upcoming().0,
                    crate::symbol_registry::wrapping_next(old(ids).upcoming().1),
                    old(ids).upcoming().2,
                )
                &&& plan.carries_out(
                    *decision,
                    crate::text::decimal(old(ids).upcoming().1 as nat),
                    now,
                    qty_text@,
                )
            },
        },
{
    let mut key = "intent-".to_owned();
    push_u64(&mut key, decision.request.intent_id);
    if store.is_processed(key.as_str()) {
        return None;
    }
    let order_id = u64_to_string(next_request_id(ids));
    let side = order_side(decision.request.side);
    let symbol = u64_to_string(decision.request.symbol_id.as_u16() as u64);
    let mut data = order_data_text(
        decision.request.intent_id,
        order_id.as_str(),
        side,
        qty_text,
        decision.request_id,
    );
    data.append("Pending");
    Some(
        OrderPlan {
            idempotency_key: key,
            pending_entry: JournalEntry::Order {
                symbol: symbol.clone(),
                timestamp_ns: now,
                data,
            },
            command: OrderCommand {
                order_id,
                symbol,
                side,
                quantity: decision.request.quantity,
                correlation_id: u64_to_string(decision.request_id),
                trace_id: decision.trace_id,
            },
        },
    )
}

/// What follows from an order that the broker took.
#[derive(Debug)]
pub struct Submission {
    /// Goes out to whoever follows orders.
    pub event: OrderLifecycleEvent,
    /// Goes to the journal.
    pub submitted_entry: JournalEntry,
    /// Goes to the file of processed intents, where there is one.
    pub processed_line: Option<String>,
}

/// Whether a report shows an event of an order. The filled quantity and the price are stated beside
/// it.
pub open spec fn reports(
    e: OrderLifecycleEvent,
    id: u64,
    order: Seq<char>,
    symbol: Seq<char>,
    kind: OrderLifecycleEventType,
    now: u64,
    status: Seq<char>,
    trace_id: u64,
) -> bool {
    &&& e.event_id@ == crate::text::decimal(id as nat)
    &&& e.execution_id@ == order
    &&& e.client_order_id is None
    &&& e.symbol@ == symbol
    &&& e.event_type == kind
    &&& e.timestamp_ns == now
    &&& e.remaining_quantity.bits == 0
    &&& e.raw_status@ == status
    &&& e.trace_id == trace_id
}

/// Whether `ids` moved on by one request.
pub open spec fn request_drawn(before: IdCounters, after: IdCounters) -> bool {
    after.upcoming() == (
        before.upcoming().0,
        crate::symbol_registry::wrapping_next(before.upcoming().1),
        before.upcoming().2,
    )
}

/// The metrics after an order that the broker took.
pub open spec fn submission_counted(before: GlobalMetrics, after: GlobalMetrics, rtt_ns: u64) -> bool {
    &&& after.broker_round_trip_latency@ == crate::metrics::histogram_recorded(
        before.broker_round_trip_latency@,
        rtt_ns,
    )
    &&& after.broker_send_latency@ == crate::metrics::histogram_recorded(
        before.broker_send_latency@,
        rtt_ns,
    )
    &&& after.orders_submitted@ == crate::metrics::wrap_u64(before.orders_submitted@, 1)
    &&& after.lifecycle_channel_depth == crate::metrics::wrap_i64(before.lifecycle_channel_depth, 1)
    &&& after == (GlobalMetrics {
        broker_round_trip_latency: after.broker_round_trip_latency,
        broker_send_latency: after.broker_send_latency,
        orders_submitted: after.orders_submitted,
        lifecycle_channel_depth: after.lifecycle_channel_depth,
        ..before
    })
}

/// The time from `start` to `end`, zero where `end` is earlier.
pub open spec fn round_trip(start: u64, end: u64) -> u64 {
    if end >= start {
        (end - start) as u64
    } else {
        0
    }
}

/// Records an order that the broker took as `execution_id`: it is open, its intent is processed,
/// and it is reported.
pub fn order_accepted<C: Clock>(
    decision: &RiskDecision,
    plan: &OrderPlan,
    execution_id: &str,
    qty_text: &str,
    now: u64,
    broker_start: u64,
    broker_end: u64,
    kill_switch: &mut KillSwitch<C>,
    store: &mut IdempotencyStore,
    ids: &mut IdCounters,
    metrics: &mut GlobalMetrics,
) -> (r: Submission)
    requires
        old(kill_switch).wf(),
        old(store).wf(),
        crate::idempotency::has_room(old(store)@, plan.idempotency_key@, execution_id@),
    ensures
        final(kill_switch).wf(),
        final(kill_switch).same_but_orders(old(kill_switch)),
        final(kill_switch).orders() == (if old(kill_switch).orders().contains(execution_id@) {
            old(kill_switch).orders()
        } else {
            old(kill_switch).orders().push(execution_id@)
        }),
        final(store).wf(),
        final(store).limit() == old(store).limit(),
        final(store).memory_limit() == old(store).memory_limit(),
        final(store)@ == crate::idempotency::marked(
            old(store)@,
            old(store).limit() as int,
            old(store).memory_limit() as int,
            plan.idempotency_key@,
            execution_id@,
        ),
        match r.processed_line {
            Some(l) => crate::idempotency::entry_bytes(plan.idempotency_key@, execution_id@)
                <= old(store).memory_limit() && l@ == crate::idempotency::entry_line(
                plan.idempotency_key@,
                execution_id@,
            ),
            None => crate::idempotency::entry_bytes(plan.idempotency_key@, execution_id@)
                > old(store).memory_limit(),
        },
        request_drawn(*old(ids), *final(ids)),
        submission_counted(
            *old(metrics),
            *final(metrics),
            round_trip(broker_start, broker_end),
        ),
        reports(
            r.event,
            old(ids).upcoming().1,
            execution_id@,
            symbol_key(*decision),
            OrderLifecycleEventType::Submitted,
            now,
            "submitted"@,
            decision.trace_id,
        ),
        r.event.filled_quantity.bits == 0,
        r.event.fill_price.bits == 0,
        is_order_entry(
            r.submitted_entry,
            symbol_key(*decision),
            now,
            order_data(
                decision.request.intent_id,
                plan.command.order_id@,
                side_of(decision.request.side),
                qty_text@,
                decision.request_id,
            ) + "Submitted,execution_id="@ + execution_id@,
        ),
{
    let rtt_ns: u64 = broker_end.saturating_sub(broker_start);
    metrics.broker_round_trip_latency.record(rtt_ns);
    metrics.broker_send_latency.record(rtt_ns);
    metrics.orders_submitted.fetch_add(1);
    let _ = kill_switch.track_open_order(execution_id);
    let symbol = u64_to_string(decision.request.symbol_id.as_u16() as u64);
    let event = OrderLifecycleEvent::new(
        execution_id.to_owned(),
        symbol.clone(),
        OrderLifecycleEventType::Submitted,
        now,
        ids,
    ).with_status("submitted".to_owned()).with_trace_id(decision.trace_id);
    let processed_line = store.mark_processed(
        plan.idempotency_key.clone(),
        execution_id.to_owned(),
    );
    let mut data = order_data_text(
        decision.request.intent_id,
        plan.command.order_id.as_str(),
        order_side(decision.request.side),
        qty_text,
        decision.request_id,
    );
    data.append("Submitted,execution_id=");
    data.append(execution_id);
    gauge_add(&mut metrics.lifecycle_channel_depth, 1);
    Submission {
        event,
        submitted_entry: JournalEntry::Order { symbol, timestamp_ns: now, data },
        processed_line,
    }
}

/// Records an order that the broker did not take, and returns what goes to the journal.
pub fn order_failed(
    decision: &RiskDecision,
    error_text: &str,
    now: u64,
    metrics: &mut GlobalMetrics,
) -> (entry: JournalEntry)
    ensures
        rejection_counted(*old(metrics), *final(metrics)),
        entry matches JournalEntry::Event { event_type, timestamp_ns, data } && event_type@
            == "ORDER_FAILED"@ && timestamp_ns == now && data@ == "intent_id="@
            + crate::text::decimal(decision.request.intent_id as nat) + ",symbol="@ + symbol_key(
            *decision,
        ) + ",error="@ + error_text@ + ",status=Failed"@,
{
    metrics.orders_rejected.fetch_add(1);
    let mut data = "intent_id=".to_owned();
    push_u64(&mut data, decision.request.intent_id);
    data.append(",symbol=");
    push_u64(&mut data, decision.request.symbol_id.as_u16() as u64);
    data.append(",error=");
    data.append(error_text);
    data.append(",status=Failed");
    JournalEntry::Event { event_type: "ORDER_FAILED".to_owned(), timestamp_ns: now, data }
}

/// Takes in what the broker reports of orders.
pub struct ExecutionManager;

impl ExecutionManager {
    /// Records a fill: the order is no longer open, its fill is applied to it and to the
    /// portfolio, as bought, and reported. `equity` is the equity after the fill.
    pub fn on_fill<C: Clock>(
        order_id: &str,
        symbol: &str,
        filled_qty: Real,
        fill_price: Real,
        figures: &FillFigures,
        values: FillValues,
        equity: Real,
        trace_id: u64,
        now: u64,
        tracker: &mut OrderTracker,
        portfolio: &mut PortfolioManager,
        kill_switch: &mut KillSwitch<C>,
        ids: &mut IdCounters,
        metrics: &mut GlobalMetrics,
    ) -> (e: OrderLifecycleEvent)
        requires
            old(tracker).wf(),
            old(portfolio).wf(),
            old(kill_switch).wf(),
        ensures
            final(tracker).wf(),
            match old(tracker).fill_of(order_id@, filled_qty) {
                Some(ev) => exists|r: Result<crate::order_state_machine::OrderState, String>| #[trigger]
                    old(tracker).transitioned(order_id@, ev, *figures, now, final(tracker), r),
                None => *final(tracker) == *old(tracker),
            },
            final(portfolio).wf(),
            old(portfolio).filled(
                symbol@,
                fill_price,
                filled_qty,
                true,
                values,
                equity,
                final(portfolio),
            ),
            final(kill_switch).wf(),
            final(kill_switch).same_but_orders(old(kill_switch)),
            final(kill_switch).orders() == crate::str_map::without(
                old(kill_switch).orders(),
                order_id@,
            ),
            final(metrics).orders_filled@ == crate::metrics::wrap_u64(old(metrics).orders_filled@, 1),
            *final(metrics) == (GlobalMetrics {
                orders_filled: final(metrics).orders_filled,
                ..*old(metrics)
            }),
            request_drawn(*old(ids), *final(ids)),
            reports(
                e,
                old(ids).upcoming().1,
                order_id@,
                symbol@,
                OrderLifecycleEventType::Filled,
                now,
                "filled"@,
                trace_id,
            ),
            e.filled_quantity == filled_qty,
            e.fill_price == fill_price,
    {
        tracker.update_fill(order_id, filled_qty, figures, now);
        let _ = kill_switch.remove_open_order(order_id);
        metrics.orders_filled.fetch_add(1);
        portfolio.on_fill(symbol, fill_price, filled_qty, true, values, equity);
        OrderLifecycleEvent::new(
            order_id.to_owned(),
            symbol.to_owned(),
            OrderLifecycleEventType::Filled,
            now,
            ids,
        ).with_fill(filled_qty, fill_price).with_status("filled".to_owned()).with_trace_id(trace_id)
    }

    /// Records a rejection by the broker: the order is no longer open, and this is reported.
    pub fn on_reject<C: Clock>(
        order_id: &str,
        symbol: &str,
        reason: &str,
        trace_id: u64,
        now: u64,
        kill_switch: &mut KillSwitch<C>,
        ids: &mut IdCounters,
        metrics: &mut GlobalMetrics,
    ) -> (e: OrderLifecycleEvent)
        requires
            old(kill_switch).wf(),
        ensures
            final(kill_switch).wf(),
            final(kill_switch).same_but_orders(old(kill_switch)),
            final(kill_switch).orders() == crate::str_map::without(
                old(kill_switch).orders(),
                order_id@,
            ),
            rejection_counted(*old(metrics), *final(metrics)),
            request_drawn(*old(ids), *final(ids)),
            reports(
                e,
                old(ids).upcoming().1,
                order_id@,
                symbol@,
                OrderLifecycleEventType::Rejected,
                now,
                "rejected: "@ + reason@,
                trace_id,
            ),
            e.filled_quantity.bits == 0,
            e.fill_price.bits == 0,
    {
        let _ = kill_switch.remove_open_order(order_id);
        metrics.orders_rejected.fetch_add(1);
        let mut status = "rejected: ".to_owned();
        status.append(reason);
        OrderLifecycleEvent::new(
            order_id.to_owned(),
            symbol.to_owned(),
            OrderLifecycleEventType::Rejected,
            now,
            ids,
        ).with_status(status).with_trace_id(trace_id)
    }

    /// Records a cancellation: the order is no longer open, its status follows, and this is reported.
    pub fn on_cancel<C: Clock>(
        order_id: &str,
        symbol: &str,
        trace_id: u64,
        now: u64,
        tracker: &mut OrderTracker,
        kill_switch: &mut KillSwitch<C>,
        ids: &mut IdCounters,
        metrics: &mut GlobalMetrics,
    ) -> (e: OrderLifecycleEvent)
        requires
            old(tracker).wf(),
            old(kill_switch).wf(),
        ensures
            final(tracker).wf(),
            final(tracker).state_machines == old(tracker).state_machines,
            final(tracker).orders_by_symbol == old(tracker).orders_by_symbol,
            final(tracker).orders@ == (if old(tracker).orders@.dom().contains(order_id@) {
                old(tracker).orders@.insert(
                    order_id@,
                    (crate::order_tracker::Order {
                        status: OrderStatus::Cancelled,
                        ..old(tracker).orders@[order_id@]
                    }),
                )
            } else {
                old(tracker).orders@
            }),
            final(kill_switch).wf(),
            final(kill_switch).same_but_orders(old(kill_switch)),
            final(kill_switch).orders() == crate::str_map::without(
                old(kill_switch).orders(),
                order_id@,
            ),
            final(metrics).orders_cancelled@ == crate::metrics::wrap_u64(
                old(metrics).orders_cancelled@,
                1,
            ),
            *final(metrics) == (GlobalMetrics {
                orders_cancelled: final(metrics).orders_cancelled,
                ..*old(metrics)
            }),
            request_drawn(*old(ids), *final(ids)),
            reports(
                e,
                old(ids).upcoming().1,
                order_id@,
                symbol@,
                OrderLifecycleEventType::Cancelled,
                now,
                "cancelled"@,
                trace_id,
            ),
            e.filled_quantity.bits == 0,
            e.fill_price.bits == 0,
    {
        tracker.update_status(order_id, OrderStatus::Cancelled);
        let _ = kill_switch.remove_open_order(order_id);
        metrics.orders_cancelled.fetch_add(1);
        OrderLifecycleEvent::new(
            order_id.to_owned(),
            symbol.to_owned(),
            OrderLifecycleEventType::Cancelled,
            now,
            ids,
        ).with_status("cancelled".to_owned()).with_trace_id(trace_id)
    }
}

/// The side on which each signal is ordered: closing a long position and flattening sell, every
/// other signal buys.
pub proof fn law_signal_sets_side(s: crate::asset_processor::SignalSide)
    ensures
        side_of(crate::asset_processor::side_number(s)) is Sell <==> s is CloseLong || s is Flatten,
        side_of(crate::asset_processor::side_number(s)) is Buy <==> s is Long || s is Short
            || s is CloseShort || s is Hold,
{
}

/// An intent whose order the broker took is not ordered again, as long as its result fits in the
/// store and is not evicted by later ones.
pub proof fn law_no_double_order(
    st: crate::idempotency::StoreState,
    limit: int,
    memory_limit: int,
    intent_id: u64,
    execution_id: Seq<char>,
)
    requires
        crate::idempotency::entry_bytes(intent_key(intent_id), execution_id) <= memory_limit,
    ensures
        crate::idempotency::marked(
            st,
            limit,
            memory_limit,
            intent_key(intent_id),
            execution_id,
        ).results.dom().contains(intent_key(intent_id)),
{
    crate::idempotency_laws::law_read_back(
        st,
        limit,
        memory_limit,
        intent_key(intent_id),
        execution_id,
    );
}

/// An order is submitted again only after a fault that may pass: whatever the attempt, an answer
/// that stands ends the submission.
pub proof fn law_only_passing_faults_are_retried(
    attempt: u32,
    max_retries: u32,
    backoff_ms: u64,
    outcome: Attempt,
)
    ensures
        retry_step(attempt, max_retries, backoff_ms, outcome) is RetryAfter <==> outcome
            is Transient && attempt + 1 < max_retries,
        step_after(
            ExecutionStep::Submit { attempt },
            StepResult::Answered(Attempt::Fatal),
            max_retries,
            backoff_ms,
        ) is RecordFailed,
        step_after(
            ExecutionStep::Submit { attempt },
            StepResult::Answered(Attempt::Accepted),
            max_retries,
            backoff_ms,
        ) is RecordAccepted,
        attempt + 1 >= max_retries ==> step_after(
            ExecutionStep::Submit { attempt },
            StepResult::Answered(Attempt::Transient),
            max_retries,
            backoff_ms,
        ) is RecordFailed,
        attempt + 1 < max_retries ==> {
            let next = step_after(
                ExecutionStep::Submit { attempt },
                StepResult::Answered(Attempt::Transient),
                max_retries,
                backoff_ms,
            );
            next is Wait && next->Wait_attempt == attempt
        },
{
}

/// The wait after an attempt is the first wait, doubled once for each attempt before it.
pub proof fn law_wait_is_a_power_of_two(attempt: u32, max_retries: u32, backoff_ms: u64)
    requires
        attempt + 1 < max_retries,
        backoff_ms * vstd::arithmetic::power2::pow2(attempt as nat) <= u64::MAX,
    ensures
        ({
            let next = step_after(
                ExecutionStep::Submit { attempt },
                StepResult::Answered(Attempt::Transient),
                max_retries,
                backoff_ms,
            );
            next is Wait && next->delay_ms == backoff_ms * vstd::arithmetic::power2::pow2(
                attempt as nat,
            )
        }),
        attempt == 0 ==> retry_step(attempt, max_retries, backoff_ms, Attempt::Transient)
            == RetryStep::RetryAfter(backoff_ms),
{
    vstd::arithmetic::power2::lemma2_to64();
    assert(backoff_ms * vstd::arithmetic::power2::pow2(attempt as nat) >= 0) by (nonlinear_arith);
}

/// On the way of a decision each submission comes right after the journal entry, as the first, or
/// after the wait for the one before it, which a fault that may pass called for. The end is recorded
/// right after a submission.
pub proof fn law_submissions_follow_each_other(
    results: Seq<StepResult>,
    max_retries: u32,
    backoff_ms: u64,
    i: int,
)
    requires
        0 < i <= results.len(),
    ensures
        ({
            let steps = steps_taken(results, max_retries, backoff_ms);
            &&& steps.len() == results.len() + 1
            &&& steps[0] is CheckSymbol
            &&& steps[i] is Submit ==> (steps[i - 1] is WritePending && steps[i]->Submit_attempt
                == 0) || steps[i - 1] is Wait
            &&& steps[i] is Submit && steps[i - 1] is Wait && steps[i - 1]->Wait_attempt < u32::MAX
                ==> steps[i]->Submit_attempt == steps[i - 1]->Wait_attempt + 1
            &&& steps[i] is Wait ==> steps[i - 1] is Submit && results[i - 1]
                == StepResult::Answered(Attempt::Transient) && steps[i]->Wait_attempt
                == steps[i - 1]->Submit_attempt && steps[i]->Wait_attempt + 1 < max_retries
            &&& steps[i] is RecordAccepted ==> steps[i - 1] is Submit && results[i - 1]
                == StepResult::Answered(Attempt::Accepted)
            &&& steps[i] is RecordFailed ==> steps[i - 1] is Submit && results[i - 1]
                != StepResult::Answered(Attempt::Accepted)
            &&& steps[i - 1] is RecordAccepted || steps[i - 1] is RecordFailed || steps[i - 1]
                is Done ==> steps[i] is Done
        }),
    decreases results.len(),
{
    let front = results.drop_last();
    let before = steps_taken(front, max_retries, backoff_ms);
    let steps = steps_taken(results, max_retries, backoff_ms);
    if i < results.len() {
        law_submissions_follow_each_other(front, max_retries, backoff_ms, i);
        assert(steps[i] == before[i] && steps[i - 1] == before[i - 1]);
        assert(results[i - 1] == front[i - 1]);
    } else if results.len() > 1 {
        law_submissions_follow_each_other(front, max_retries, backoff_ms, 1);
        assert(steps[0] == before[0]);
        assert(steps[i - 1] == before.last());
    } else {
        assert(before =~= seq![ExecutionStep::CheckSymbol]);
    }
}

/// A decision that every check lets through is submitted, and one that a check refuses is not.
pub proof fn law_checks_decide(results: Seq<StepResult>, max_retries: u32, backoff_ms: u64)
    ensures
        results.len() == 4 && results[0] is Passed && results[1] is Passed && results[2] is Passed
            ==> steps_taken(results, max_retries, backoff_ms).last() == (ExecutionStep::Submit {
            attempt: 0,
        }),
        1 <= results.len() <= 3 && !(results.last() is Passed) ==> steps_taken(
            results,
            max_retries,
            backoff_ms,
        ).last() is Done,
{
    reveal_with_fuel(steps_taken, 5);
    if results.len() == 4 {
        let r3 = results.drop_last();
        let r2 = r3.drop_last();
        let r1 = r2.drop_last();
        let r0 = r1.drop_last();
        assert(r1.last() == results[0] && r2.last() == results[1] && r3.last() == results[2]);
        assert(r0.len() == 0);
    }
    if 1 <= results.len() <= 3 {
        lemma_steps(results.drop_last(), max_retries, backoff_ms);
    }
}

/// How a decision is screened: only one that the risk checks approved, while trading goes on, is
/// put to the circuit breaker.
pub proof fn law_screen_lets_approved_through(
    decision: RiskDecision,
    kill_switch_active: bool,
    a: Admission,
)
    requires
        call_ensures(screen, (&decision, kill_switch_active), a),
    ensures
        a is AskBreaker <==> decision.approved && !kill_switch_active,
        a is NotApproved <==> !decision.approved,
        a is Stopped <==> decision.approved && kill_switch_active,
{
}

/// The order of a decision asks for what the decision asks for, and the journal learns of it before
/// the broker under the same names: the key of the intent, the id of the order, the symbol, the
/// side and the request.
pub proof fn law_order_is_that_of_the_decision(
    plan: OrderPlan,
    d: RiskDecision,
    id: Seq<char>,
    now: u64,
    qty_text: Seq<char>,
)
    requires
        plan.carries_out(d, id, now, qty_text),
    ensures
        plan.command.quantity == d.request.quantity,
        plan.command.trace_id == d.trace_id,
        plan.command.order_id@ == id,
        plan.command.symbol@ == crate::text::decimal(d.request.symbol_id.raw() as nat),
        plan.command.correlation_id@ == crate::text::decimal(d.request_id as nat),
        plan.command.side is Buy <==> d.request.side == 0 || d.request.side == 1 || d.request.side
            == 2 || d.request.side == 4,
        plan.idempotency_key@ == "intent-"@ + crate::text::decimal(d.request.intent_id as nat),
        plan.pending_entry is Order,
        plan.pending_entry->Order_symbol@ == plan.command.symbol@,
        plan.pending_entry->Order_timestamp_ns == now,
        plan.pending_entry->Order_data@ == "intent_id="@ + crate::text::decimal(
            d.request.intent_id as nat,
        ) + ",order_id="@ + id + ",side="@ + (if plan.command.side is Buy {
            "Buy"@
        } else {
            "Sell"@
        }) + ",qty="@ + qty_text + ",request_id="@ + crate::text::decimal(d.request_id as nat)
            + ",status="@ + "Pending"@,
{
}

/// The time between two readings is their difference, and zero where the clock went back.
pub proof fn law_round_trip_is_the_difference(start: u64, end: u64)
    ensures
        start <= end ==> start + round_trip(start, end) == end,
        end <= start ==> round_trip(start, end) == 0,
{
}

/// An order that the broker took counts once as submitted, with the time that the broker took, and as
/// one more report on its way; nothing else is counted.
pub proof fn law_submission_is_counted_once(
    before: GlobalMetrics,
    after: GlobalMetrics,
    rtt_ns: u64,
)
    requires
        submission_counted(before, after, rtt_ns),
        before.orders_submitted@ < u64::MAX,
        before.lifecycle_channel_depth < i64::MAX,
    ensures
        after.orders_submitted@ == before.orders_submitted@ + 1,
        after.lifecycle_channel_depth == before.lifecycle_channel_depth + 1,
        after.orders_filled@ == before.orders_filled@,
        after.orders_rejected@ == before.orders_rejected@,
        after.orders_cancelled@ == before.orders_cancelled@,
        after.errors@ == before.errors@,
{
}

/// A rejection counts once as rejected and as nothing else.
pub proof fn law_rejection_is_counted_once(before: GlobalMetrics, after: GlobalMetrics)
    requires
        rejection_counted(before, after),
        before.orders_rejected@ < u64::MAX,
    ensures
        after.orders_rejected@ == before.orders_rejected@ + 1,
        after.orders_submitted@ == before.orders_submitted@,
        after.orders_filled@ == before.orders_filled@,
        after.orders_cancelled@ == before.orders_cancelled@,
        after.circuit_breaker_trips@ == before.circuit_breaker_trips@,
{
}

/// A report names its order, its symbol, what happened and when, and bears an identifier of its own.
pub proof fn law_report_names_its_order(
    e: OrderLifecycleEvent,
    id: u64,
    order: Seq<char>,
    symbol: Seq<char>,
    kind: OrderLifecycleEventType,
    now: u64,
    status: Seq<char>,
    trace_id: u64,
)
    requires
        reports(e, id, order, symbol, kind, now, status, trace_id),
    ensures
        e.execution_id@ == order,
        e.symbol@ == symbol,
        e.event_type == kind,
        e.timestamp_ns == now,
        e.raw_status@ == status,
        e.trace_id == trace_id,
        e.event_id@ == crate::text::decimal(id as nat),
        e.client_order_id is None,
        e.remaining_quantity.bits == 0,
{
}

/// An intent is ordered once: the plan for it is made just where its key is not known, and where it
/// is, no identifier is used up.
pub proof fn law_intent_is_planned_once(decision: RiskDecision, now: u64)
    ensures
        forall|
            qty: &str,
            store: &mut IdempotencyStore,
            ids: &mut IdCounters,
            r: Option<OrderPlan>,
        |
            #![trigger call_ensures(plan_order, (&decision, now, qty, store, ids), r)]
            call_ensures(plan_order, (&decision, now, qty, store, ids), r) ==> {
                let key = "intent-"@ + crate::text::decimal(decision.request.intent_id as nat);
                &&& r is None <==> store@.results.dom().contains(key)
                &&& r is None ==> final(ids).upcoming() == ids.upcoming()
                &&& r is Some ==> r->0.command.order_id@ == crate::text::decimal(
                    ids.upcoming().1 as nat,
                )
                &&& r is Some ==> r->0.command.quantity == decision.request.quantity
                &&& r is Some && ids.upcoming().1 < u64::MAX ==> final(ids).upcoming().1
                    == ids.upcoming().1 + 1
            },
{
}

/// An order that was filled, rejected or cancelled is open no more, whatever the outcome; orders
/// with other ids stay open, and trading is neither stopped nor let go on.
pub proof fn law_ended_order_is_closed<C: Clock>(
    order_id: &str,
    symbol: &str,
    reason: &str,
    trace_id: u64,
    now: u64,
    other: Seq<char>,
)
    ensures
        forall|
            k: &mut KillSwitch<C>,
            ids: &mut IdCounters,
            m: &mut GlobalMetrics,
            e: OrderLifecycleEvent,
        |
            #![trigger call_ensures(ExecutionManager::on_reject::<C>, (order_id, symbol, reason, trace_id, now, k, ids, m), e)]
            call_ensures(
                ExecutionManager::on_reject::<C>,
                (order_id, symbol, reason, trace_id, now, k, ids, m),
                e,
            ) ==> {
                &&& !final(k).orders().contains(order_id@)
                &&& other != order_id@ ==> (final(k).orders().contains(other)
                    <==> k.orders().contains(other))
                &&& final(k).on() == k.on() && final(k).count() == k.count()
                &&& final(m).orders_rejected@ == (m.orders_rejected@ + 1) % 0x1_0000_0000_0000_0000
                &&& final(m).orders_filled == m.orders_filled
                &&& final(m).orders_cancelled == m.orders_cancelled
                &&& e.event_type is Rejected
                &&& e.execution_id@ == order_id@ && e.symbol@ == symbol@
                &&& e.raw_status@ == "rejected: "@ + reason@
                &&& e.timestamp_ns == now && e.trace_id == trace_id
                &&& e.filled_quantity.bits == 0
                &&& ids.upcoming().1 < u64::MAX ==> final(ids).upcoming().1 == ids.upcoming().1 + 1
            },
        forall|
            t: &mut OrderTracker,
            k: &mut KillSwitch<C>,
            ids: &mut IdCounters,
            m: &mut GlobalMetrics,
            e: OrderLifecycleEvent,
        |
            #![trigger call_ensures(ExecutionManager::on_cancel::<C>, (order_id, symbol, trace_id, now, t, k, ids, m), e)]
            call_ensures(
                ExecutionManager::on_cancel::<C>,
                (order_id, symbol, trace_id, now, t, k, ids, m),
                e,
            ) ==> {
                &&& !final(k).orders().contains(order_id@)
                &&& other != order_id@ ==> (final(k).orders().contains(other)
                    <==> k.orders().contains(other))
                &&& final(k).on() == k.on() && final(k).count() == k.count()
                &&& t.orders@.dom().contains(order_id@) ==> final(t).orders@[order_id@].status
                    is Cancelled && final(t).orders@[order_id@].quantity
                    == t.orders@[order_id@].quantity
                &&& final(t).orders@.dom() =~= t.orders@.dom()
                &&& other != order_id@ && t.orders@.dom().contains(other)
                    ==> final(t).orders@[other] == t.orders@[other]
                &&& final(m).orders_cancelled@ == (m.orders_cancelled@ + 1)
                    % 0x1_0000_0000_0000_0000
                &&& final(m).orders_filled == m.orders_filled
                &&& final(m).orders_rejected == m.orders_rejected
                &&& e.event_type is Cancelled
                &&& e.execution_id@ == order_id@ && e.symbol@ == symbol@
                &&& e.raw_status@ == "cancelled"@
                &&& e.timestamp_ns == now && e.trace_id == trace_id
            },
{
    assert forall|s: Seq<Seq<char>>|
        !(#[trigger] crate::str_map::without(s, order_id@)).contains(order_id@) && (other
            != order_id@ ==> (crate::str_map::without(s, order_id@).contains(other) <==> s.contains(
            other,
        ))) by {
        crate::str_map::law_without_leaves_the_others(s, order_id@, other);
    }
}

/// A fill is reported with its own quantity and price, counts once as filled, and closes its order
/// for the switch; its symbol takes the quantity at the price.
pub proof fn law_fill_is_reported_as_it_was<C: Clock>(
    order_id: &str,
    symbol: &str,
    qty: Real,
    price: Real,
    f: &FillFigures,
    v: FillValues,
    equity: Real,
    trace: u64,
    now: u64,
)
    ensures
        forall|
            t: &mut OrderTracker,
            p: &mut PortfolioManager,
            k: &mut KillSwitch<C>,
            ids: &mut IdCounters,
            m: &mut GlobalMetrics,
            e: OrderLifecycleEvent,
        |
            #![trigger call_ensures(ExecutionManager::on_fill::<C>, (order_id, symbol, qty, price, f, v, equity, trace, now, t, p, k, ids, m), e)]
            call_ensures(
                ExecutionManager::on_fill::<C>,
                (order_id, symbol, qty, price, f, v, equity, trace, now, t, p, k, ids, m),
                e,
            ) ==> {
                &&& e.event_type is Filled
                &&& e.filled_quantity == qty && e.fill_price == price
                &&& e.execution_id@ == order_id@ && e.symbol@ == symbol@
                &&& e.raw_status@ == "filled"@
                &&& e.timestamp_ns == now && e.trace_id == trace
                &&& !final(k).orders().contains(order_id@)
                &&& final(k).on() == k.on()
                &&& final(m).orders_filled@ == (m.orders_filled@ + 1) % 0x1_0000_0000_0000_0000
                &&& final(m).orders_rejected == m.orders_rejected
                &&& final(m).orders_cancelled == m.orders_cancelled
                &&& final(p).positions@.dom().contains(symbol@)
                &&& final(p).current_equity == equity
                &&& !t.orders@.dom().contains(order_id@) ==> *final(t) == *t
            },
{
    assert forall|s: Seq<Seq<char>>|
        !(#[trigger] crate::str_map::without(s, order_id@)).contains(order_id@) by {
        crate::str_map::law_without_leaves_the_others(s, order_id@, order_id@);
    }
}

/// A breaker or a limit that lets an order through costs nothing. One that does not is counted: as
/// a trip of the breaker, or as a rejection.
pub proof fn law_refusals_are_counted()
    ensures
        forall|can: bool, m: &mut GlobalMetrics, go: bool|
            #![trigger call_ensures(after_breaker, (can, m), go)]
            call_ensures(after_breaker, (can, m), go) ==> {
                &&& go <==> can
                &&& can ==> *final(m) == *m
                &&& !can ==> final(m).circuit_breaker_trips@ == (m.circuit_breaker_trips@ + 1)
                    % 0x1_0000_0000_0000_0000 && final(m).orders_rejected == m.orders_rejected
            },
        forall|allowed: bool, m: &mut GlobalMetrics, go: bool|
            #![trigger call_ensures(after_rate_limit, (allowed, m), go)]
            call_ensures(after_rate_limit, (allowed, m), go) ==> {
                &&& go <==> allowed
                &&& allowed ==> *final(m) == *m
                &&& !allowed ==> final(m).orders_rejected@ == (m.orders_rejected@ + 1)
                    % 0x1_0000_0000_0000_0000 && final(m).circuit_breaker_trips
                    == m.circuit_breaker_trips
            },
{
}

/// An order that failed is a rejection more, and the journal says which intent failed, for which
/// symbol and why.
pub proof fn law_failure_is_written_down()
    ensures
        forall|d: &RiskDecision, text: &str, now: u64, m: &mut GlobalMetrics, e: JournalEntry|
            #![trigger call_ensures(order_failed, (d, text, now, m), e)]
            call_ensures(order_failed, (d, text, now, m), e) ==> {
                &&& final(m).orders_rejected@ == (m.orders_rejected@ + 1) % 0x1_0000_0000_0000_0000
                &&& final(m).orders_submitted == m.orders_submitted
                &&& e matches JournalEntry::Event { event_type, timestamp_ns, data }
                &&& event_type@ == "ORDER_FAILED"@
                &&& timestamp_ns == now
                &&& data@ == "intent_id="@ + crate::text::decimal(d.request.intent_id as nat)
                    + ",symbol="@ + crate::text::decimal(d.request.symbol_id.raw() as nat)
                    + ",error="@ + text@ + ",status=Failed"@
            },
{
}

/// A symbol that the validator accepts costs nothing and is known by its number; one that it does
/// not accept is a rejection more.
pub proof fn law_symbol_is_checked_by_the_validator()
    ensures
        forall|d: &RiskDecision, v: &RequestValidator, m: &mut GlobalMetrics, r: Option<String>|
            #![trigger call_ensures(check_symbol, (d, v, m), r)]
            call_ensures(check_symbol, (d, v, m), r) ==> {
                &&& r is Some <==> crate::validator::symbol_result(
                    crate::text::decimal(d.request.symbol_id.raw() as nat),
                    v.config.max_symbol_length,
                ) is Ok
                &&& r matches Some(key) ==> key@ == crate::text::decimal(
                    d.request.symbol_id.raw() as nat,
                )
                &&& r is Some ==> *final(m) == *m
                &&& r is None ==> final(m).orders_rejected@ == (m.orders_rejected@ + 1)
                    % 0x1_0000_0000_0000_0000
            },
{
}

/// An order that the broker took is open from then on under the id that the broker gave, its intent
/// is marked with that id, and the journal and the report name it.
pub proof fn law_accepted_order_is_open<C: Clock>(
    d: &RiskDecision,
    plan: &OrderPlan,
    id: &str,
    qty: &str,
    now: u64,
    start: u64,
    end: u64,
)
    ensures
        forall|
            k: &mut KillSwitch<C>,
            store: &mut IdempotencyStore,
            ids: &mut IdCounters,
            m: &mut GlobalMetrics,
            r: Submission,
        |
            #![trigger call_ensures(order_accepted::<C>, (d, plan, id, qty, now, start, end, k, store, ids, m), r)]
            call_ensures(
                order_accepted::<C>,
                (d, plan, id, qty, now, start, end, k, store, ids, m),
                r,
            ) ==> {
                &&& final(k).orders().contains(id@)
                &&& final(k).on() == k.on()
                &&& final(m).orders_submitted@ == (m.orders_submitted@ + 1)
                    % 0x1_0000_0000_0000_0000
                &&& final(m).orders_rejected == m.orders_rejected
                &&& r.event.event_type is Submitted
                &&& r.event.execution_id@ == id@
                &&& r.event.raw_status@ == "submitted"@
                &&& r.event.timestamp_ns == now
                &&& r.event.trace_id == d.trace_id
                &&& r.submitted_entry is Order
                &&& (r.processed_line matches Some(l) ==> l@ == crate::idempotency::entry_line(
                    plan.idempotency_key@,
                    id@,
                ))
            },
{
    assert forall|s: Seq<Seq<char>>| (#[trigger] s.push(id@)).contains(id@) by {
        assert(s.push(id@)[s.len() as int] == id@);
    }
}

} // verus!
