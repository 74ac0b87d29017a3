//! What is reported of an order on its way.

use vstd::prelude::*;

use crate::quantity::Real;
use crate::symbol_registry::{next_request_id, IdCounters};
use crate::text::u64_to_string;

verus! {

/// What happened to an order.
#[derive(Debug, Clone, Copy, PartialEq, Eq, Structural)]
pub enum OrderLifecycleEventType {
    Submitted,
    PartialFill,
    Filled,
    Rejected,
    Cancelled,
    Replaced,
    Expired,
    Error,
}

/// A report on an order.
#[derive(Debug, Clone)]
pub struct OrderLifecycleEvent {
    pub event_id: String,
    pub execution_id: String,
    pub client_order_id: Option<String>,
    pub symbol: String,
    pub event_type: OrderLifecycleEventType,
    pub timestamp_ns: u64,
    pub filled_quantity: Real,
    pub fill_price: Real,
    pub remaining_quantity: Real,
    pub raw_status: String,
    /// Follows one tick through all stages.
    pub trace_id: u64,
}

impl OrderLifecycleEvent {
    /// A report without figures, under a fresh id.
    pub fn new(
        execution_id: String,
        symbol: String,
        event_type: OrderLifecycleEventType,
        timestamp_ns: u64,
        ids: &mut IdCounters,
    ) -> (e: Self)
        ensures
            e.event_id@ == crate::text::decimal(old(ids).upcoming().1 as nat),
            final(ids).upcoming() == (
                old(ids).upcoming().0,
                crate::symbol_registry::wrapping_next(old(ids).upcoming().1),
                old(ids).upcoming().2,
            ),
            e.execution_id == execution_id,
            e.client_order_id is None,
            e.symbol == symbol,
            e.event_type == event_type,
            e.timestamp_ns == timestamp_ns,
            e.filled_quantity.bits == 0,
            e.fill_price.bits == 0,
            e.remaining_quantity.bits == 0,
            e.raw_status@ == Seq::<char>::empty(),
            e.trace_id == 0,
    {
        let id: u64 = next_request_id(ids);
        OrderLifecycleEvent {
            event_id: u64_to_string(id),
            execution_id,
            client_order_id: None,
            symbol,
            event_type,
            timestamp_ns,
            filled_quantity: Real { bits: 0 },
            fill_price: Real { bits: 0 },
            remaining_quantity: Real { bits: 0 },
            raw_status: String::new(),
            trace_id: 0,
        }
    }

    /// The report with the quantity and price of a fill.
    pub fn with_fill(self, quantity: Real, price: Real) -> (e: Self)
        ensures
            e == (OrderLifecycleEvent { filled_quantity: quantity, fill_price: price, ..self }),
    {
        let mut e = self;
        e.filled_quantity = quantity;
        e.fill_price = price;
        e
    }

    /// The report with the quantity that is left.
    pub fn with_remaining(self, quantity: Real) -> (e: Self)
        ensures
            e == (OrderLifecycleEvent { remaining_quantity: quantity, ..self }),
    {
        let mut e = self;
        e.remaining_quantity = quantity;
        e
    }

    /// The report with a status in words.
    pub fn with_status(self, status: String) -> (e: Self)
        ensures
            e == (OrderLifecycleEvent { raw_status: status, ..self }),
    {
        let mut e = self;
        e.raw_status = status;
        e
    }

    /// The report with the id of its trace.
    pub fn with_trace_id(self, trace_id: u64) -> (e: Self)
        ensures
            e == (OrderLifecycleEvent { trace_id, ..self }),
    {
        let mut e = self;
        e.trace_id = trace_id;
        e
    }

    /// Whether the order has come to its end. A replaced order has not.
    pub fn is_terminal(&self) -> (r: bool)
        ensures
            r == (self.event_type is Filled || self.event_type is Rejected
                || self.event_type is Cancelled || self.event_type is Expired),
    {
        match self.event_type {
            OrderLifecycleEventType::Filled | OrderLifecycleEventType::Rejected
            | OrderLifecycleEventType::Cancelled | OrderLifecycleEventType::Expired => true,
            _ => false,
        }
    }
}

/// A report ends its order just where nothing can follow it: not after a submission, a fill in
/// part, a replacement or an error.
pub proof fn law_reports_that_end_an_order(e: &OrderLifecycleEvent, r: bool)
    requires
        call_ensures(OrderLifecycleEvent::is_terminal, (e,), r),
    ensures
        !r <==> e.event_type is Submitted || e.event_type is PartialFill || e.event_type is Replaced
            || e.event_type is Error,
{
}

/// Each addition to a report shows at its own place and leaves the others.
pub proof fn law_additions_show_at_their_places(
    e: OrderLifecycleEvent,
    quantity: Real,
    price: Real,
    left: Real,
    status: String,
    trace: u64,
    a: OrderLifecycleEvent,
    b: OrderLifecycleEvent,
    c: OrderLifecycleEvent,
    d: OrderLifecycleEvent,
)
    requires
        call_ensures(OrderLifecycleEvent::with_fill, (e, quantity, price), a),
        call_ensures(OrderLifecycleEvent::with_remaining, (a, left), b),
        call_ensures(OrderLifecycleEvent::with_status, (b, status), c),
        call_ensures(OrderLifecycleEvent::with_trace_id, (c, trace), d),
    ensures
        d.filled_quantity == quantity,
        d.fill_price == price,
        d.remaining_quantity == left,
        d.raw_status == status,
        d.trace_id == trace,
        d.event_id == e.event_id,
        d.execution_id == e.execution_id,
        d.client_order_id == e.client_order_id,
        d.symbol == e.symbol,
        d.event_type == e.event_type,
        d.timestamp_ns == e.timestamp_ns,
        a.remaining_quantity == e.remaining_quantity,
        a.raw_status == e.raw_status,
        a.trace_id == e.trace_id,
{
}

/// A new report names what it was made for and takes the next number as its id, so that two made
/// one after the other differ.
pub proof fn law_reports_have_ids_of_their_own()
    ensures
        forall|
            execution_id: String,
            symbol: String,
            kind: OrderLifecycleEventType,
            now: u64,
            ids: &mut IdCounters,
            e: OrderLifecycleEvent,
        |
            #![trigger call_ensures(OrderLifecycleEvent::new, (execution_id, symbol, kind, now, ids), e)]
            call_ensures(OrderLifecycleEvent::new, (execution_id, symbol, kind, now, ids), e) ==> {
                &&& e.execution_id@ == execution_id@
                &&& e.symbol@ == symbol@
                &&& e.event_type == kind
                &&& e.timestamp_ns == now
                &&& e.event_id@ == crate::text::decimal(ids.upcoming().1 as nat)
                &&& ids.upcoming().1 < u64::MAX ==> final(ids).upcoming().1 == ids.upcoming().1 + 1
                &&& final(ids).upcoming().0 == ids.upcoming().0
                &&& final(ids).upcoming().2 == ids.upcoming().2
                &&& e.trace_id == 0 && e.client_order_id is None && e.raw_status@.len() == 0
            },
{
}

} // verus!
