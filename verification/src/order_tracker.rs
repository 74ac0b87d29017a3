//! All orders, by id and by symbol.

use vstd::prelude::*;
use vstd::string::StringExecFns;

use crate::clock::wall_time_ns;
use crate::order_state_machine::{
    FillTotals, OrderEvent, OrderState, OrderStateMachine,
};
use crate::quantity::Real;
use crate::str_map::StrMap;

verus! {

/// Where an order stands, as callers see it.
#[derive(Debug, Clone)]
pub enum OrderStatus {
    Pending,
    Submitted,
    PartiallyFilled { filled_qty: Real },
    Filled,
    Cancelled,
    Rejected { reason: String },
}

/// An order.
#[derive(Debug, Clone)]
pub struct Order {
    pub order_id: String,
    pub symbol: String,
    pub side: String,
    pub quantity: Real,
    pub filled_quantity: Real,
    pub limit_price: Option<Real>,
    pub status: OrderStatus,
    pub submitted_ns: u64,
    pub correlation_id: String,
}

impl Order {
    /// Whether the order is with the broker.
    pub open spec fn open_at_broker(&self) -> bool {
        self.status is Submitted || self.status is PartiallyFilled
    }
}

/// The figures of a fill, which need floating-point arithmetic, and their written forms.
#[derive(Debug, Clone)]
pub struct FillFigures {
    pub totals: FillTotals,
    pub qty_text: String,
    pub price_text: String,
}

impl FillFigures {
    /// The figures for an event that is no fill: they are not looked at.
    pub fn none() -> (f: FillFigures)
        ensures
            f.totals.total_filled_qty.bits == 0,
            f.totals.avg_fill_price.bits == 0,
            f.qty_text@ == Seq::<char>::empty(),
            f.price_text@ == Seq::<char>::empty(),
    {
        FillFigures {
            totals: FillTotals::none(),
            qty_text: String::new(),
            price_text: String::new(),
        }
    }
}

/// Whether a status shows a state of an order of which `filled` was filled.
pub open spec fn status_shows(
    status: OrderStatus,
    state: OrderState,
    filled: Real,
    reason: Option<Seq<char>>,
) -> bool {
    match state {
        OrderState::Pending => status is Pending,
        OrderState::Submitted => status is Submitted,
        OrderState::PartiallyFilled => status == (OrderStatus::PartiallyFilled {
            filled_qty: filled,
        }),
        OrderState::Filled => status is Filled,
        OrderState::Rejected => status matches OrderStatus::Rejected { reason: r } && r@ == (
        match reason {
            Some(t) => t,
            None => Seq::empty(),
        }),
        _ => status is Cancelled,
    }
}

/// The status that shows a state.
pub fn status_of(state: &OrderState, filled: Real, reason: Option<String>) -> (s: OrderStatus)
    ensures
        status_shows(s, *state, filled, crate::order_state_machine::opt_view(reason)),
{
    match state {
        OrderState::Pending => OrderStatus::Pending,
        OrderState::Submitted => OrderStatus::Submitted,
        OrderState::PartiallyFilled => OrderStatus::PartiallyFilled { filled_qty: filled },
        OrderState::Filled => OrderStatus::Filled,
        OrderState::Cancelled => OrderStatus::Cancelled,
        OrderState::Rejected => OrderStatus::Rejected {
            reason: match reason {
                Some(r) => r,
                None => String::new(),
            },
        },
        OrderState::Expired => OrderStatus::Cancelled,
        OrderState::Replaced => OrderStatus::Cancelled,
    }
}

/// The ids of the orders of a symbol, in the order in which they came in.
pub open spec fn ids_of(index: Map<Seq<char>, Vec<String>>, symbol: Seq<char>) -> Seq<Seq<char>> {
    if index.dom().contains(symbol) {
        crate::text::views(index[symbol]@)
    } else {
        Seq::empty()
    }
}

/// The orders with the given ids; ids without an order are passed over.
pub open spec fn orders_with(orders: Map<Seq<char>, Order>, ids: Seq<Seq<char>>) -> Seq<Order>
    decreases ids.len(),
{
    if ids.len() == 0 {
        Seq::empty()
    } else {
        let front = orders_with(orders, ids.drop_last());
        if orders.dom().contains(ids.last()) {
            front.push(orders[ids.last()])
        } else {
            front
        }
    }
}

/// The number of orders that are with the broker.
pub open spec fn open_count(orders: Seq<Order>) -> nat
    decreases orders.len(),
{
    if orders.len() == 0 {
        0
    } else {
        open_count(orders.drop_last()) + (if orders.last().open_at_broker() {
            1nat
        } else {
            0nat
        })
    }
}

/// `Uuid::new_v4` as text: random. Of every outcome only the form is claimed: 36 characters, with
/// hyphens in four places, lower-case hexadecimal digits in the others, and the digits for the
/// version and the variant where they belong.
#[verifier::external_body]
pub(crate) fn fresh_uuid() -> (s: String)
    ensures
        is_uuid_text(s@),
{
    uuid::Uuid::new_v4().to_string()
}

/// The form of a UUID.
pub open spec fn is_uuid_text(s: Seq<char>) -> bool {
    &&& s.len() == 36
    &&& forall|i: int|
        0 <= i < 36 ==> if i == 8 || i == 13 || i == 18 || i == 23 {
            #[trigger] s[i] == '-'
        } else {
            '0' <= s[i] <= '9' || 'a' <= s[i] <= 'f'
        }
    &&& s[14] == '4'
    &&& s[19] == '8' || s[19] == '9' || s[19] == 'a' || s[19] == 'b'
}

/// Whether `id` can be a fresh random id. Only drawing one shows this.
pub closed spec fn drawn(id: Seq<char>) -> bool {
    exists|s: String| #[trigger] call_ensures(fresh_uuid, (), s) && s@ == id
}

/// An id that was drawn.
pub(crate) proof fn lemma_drawn(s: String)
    requires
        call_ensures(fresh_uuid, (), s),
    ensures
        drawn(s@),
{
}

/// All orders, by id and by symbol.
pub struct OrderTracker {
    pub orders: StrMap<Order>,
    pub state_machines: StrMap<OrderStateMachine>,
    pub orders_by_symbol: StrMap<Vec<String>>,
}

impl OrderTracker {
    /// Each order has its id as key and is listed under its symbol, and each state machine is
    /// well formed.
    pub open spec fn wf(&self) -> bool {
        &&& self.orders.wf()
        &&& self.state_machines.wf()
        &&& self.orders_by_symbol.wf()
        &&& forall|k: Seq<char>| #[trigger]
            self.state_machines@.dom().contains(k) ==> self.state_machines@[k].wf()
        &&& forall|k: Seq<char>| #[trigger]
            self.orders@.dom().contains(k) ==> self.orders@[k].order_id@ == k && ids_of(
                self.orders_by_symbol@,
                self.orders@[k].symbol@,
            ).contains(k)
    }

    pub fn new() -> (t: Self)
        ensures
            t.wf(),
            t.orders@ == Map::<Seq<char>, Order>::empty(),
            t.state_machines@ == Map::<Seq<char>, OrderStateMachine>::empty(),
            t.orders_by_symbol@ == Map::<Seq<char>, Vec<String>>::empty(),
    {
        OrderTracker {
            orders: StrMap::new(),
            state_machines: StrMap::new(),
            orders_by_symbol: StrMap::new(),
        }
    }

    /// Whether `after` is `self` with an order added: under its id, and last under its symbol.
    pub open spec fn order_added(&self, order: Order, after: &OrderTracker) -> bool {
        &&& after.orders@ == self.orders@.insert(order.order_id@, order)
        &&& after.orders_by_symbol@.dom() == self.orders_by_symbol@.dom().insert(order.symbol@)
        &&& forall|s: Seq<char>| #[trigger]
            ids_of(after.orders_by_symbol@, s) == (if s == order.symbol@ {
                ids_of(self.orders_by_symbol@, s).push(order.order_id@)
            } else {
                ids_of(self.orders_by_symbol@, s)
            })
    }

    /// Adds an order. One with the same id is replaced.
    pub fn add_order(&mut self, order: Order)
        requires
            old(self).wf(),
        ensures
            final(self).wf(),
            old(self).order_added(order, final(self)),
            final(self).state_machines == old(self).state_machines,
    {
        broadcast use crate::text::lemma_views_push;

        let ghost before = *self;
        let ghost symbol = order.symbol@;
        let id = order.order_id.clone();
        proof {
            self.orders_by_symbol.lemma_entries();
        }
        match self.orders_by_symbol.position(order.symbol.as_str()) {
            Some(i) => {
                let list = self.orders_by_symbol.val_mut(i);
                list.push(id);
            },
            None => {
                let mut list: Vec<String> = Vec::new();
                assert(crate::text::views(list@) =~= Seq::<Seq<char>>::empty());
                list.push(id);
                self.orders_by_symbol.insert(order.symbol.clone(), list);
            },
        }
        proof {
            let after = self.orders_by_symbol@;
            assert(after.dom() =~= before.orders_by_symbol@.dom().insert(symbol));
            assert forall|s: Seq<char>| #[trigger]
                ids_of(after, s) == (if s == symbol {
                    ids_of(before.orders_by_symbol@, s).push(id@)
                } else {
                    ids_of(before.orders_by_symbol@, s)
                }) by {}
        }
        let ghost added = order;
        self.orders.insert(order.order_id.clone(), order);
        proof {
            let index = self.orders_by_symbol@;
            assert forall|k: Seq<char>| #[trigger]
                self.orders@.dom().contains(k) implies self.orders@[k].order_id@ == k && ids_of(
                index,
                self.orders@[k].symbol@,
            ).contains(k) by {
                if k == added.order_id@ {
                    let l = ids_of(before.orders_by_symbol@, symbol);
                    assert(l.push(k)[l.len() as int] == k);
                } else {
                    assert(before.orders@.dom().contains(k));
                    let s = self.orders@[k].symbol@;
                    let l = ids_of(before.orders_by_symbol@, s);
                    let j = l.index_of(k);
                    assert(l[j] == k);
                    assert(ids_of(index, s)[j] == k);
                }
            }
        }
    }

    /// Adds a pending order under a given id, with a state machine of its own.
    pub fn create_order_with_id(
        &mut self,
        order_id: &str,
        symbol: &str,
        side: &str,
        quantity: Real,
        limit_price: Option<Real>,
        correlation_id: &str,
        now: u64,
    )
        requires
            old(self).wf(),
        ensures
            final(self).wf(),
            old(self).created(
                final(self),
                order_id@,
                symbol@,
                side@,
                quantity,
                limit_price,
                correlation_id@,
                now,
            ),
    {
        let order = Order {
            order_id: order_id.to_owned(),
            symbol: symbol.to_owned(),
            side: side.to_owned(),
            quantity,
            filled_quantity: Real { bits: 0 },
            limit_price,
            status: OrderStatus::Pending,
            submitted_ns: now,
            correlation_id: correlation_id.to_owned(),
        };
        self.add_order(order);
        self.state_machines.insert(order_id.to_owned(), OrderStateMachine::new());
        assert(self.orders@[order_id@] == order);
    }

    /// Whether `after` is `self` with a pending order added, and a fresh state machine for it.
    pub open spec fn created(
        &self,
        after: &OrderTracker,
        id: Seq<char>,
        symbol: Seq<char>,
        side: Seq<char>,
        quantity: Real,
        limit_price: Option<Real>,
        correlation_id: Seq<char>,
        now: u64,
    ) -> bool {
        let o = after.orders@[id];
        &&& after.orders@.dom().contains(id)
        &&& self.order_added(o, after)
        &&& o.order_id@ == id
        &&& o.symbol@ == symbol
        &&& o.side@ == side
        &&& o.quantity == quantity
        &&& o.filled_quantity.bits == 0
        &&& o.limit_price == limit_price
        &&& o.status is Pending
        &&& o.submitted_ns == now
        &&& o.correlation_id@ == correlation_id
        &&& after.state_machines@ == self.state_machines@.insert(id, after.state_machines@[id])
        &&& after.state_machines@[id].state() == OrderState::Pending
        &&& after.state_machines@[id].known().is_fresh()
        &&& after.state_machines@[id].log().len() == 0
    }

    /// Adds a pending order under a fresh random id, which is returned. Its time is that of the
    /// machine's clock.
    pub fn create_order(
        &mut self,
        symbol: &str,
        side: &str,
        quantity: Real,
        limit_price: Option<Real>,
        correlation_id: &str,
    ) -> (id: String)
        requires
            old(self).wf(),
        ensures
            final(self).wf(),
            is_uuid_text(id@),
            drawn(id@),
            exists|now: u64| #[trigger]
                crate::clock::epoch_read(now) && old(self).created(
                    final(self),
                    id@,
                    symbol@,
                    side@,
                    quantity,
                    limit_price,
                    correlation_id@,
                    now,
                ),
    {
        let order_id = fresh_uuid();
        let now: u64 = wall_time_ns();
        self.create_order_with_id(
            order_id.as_str(),
            symbol,
            side,
            quantity,
            limit_price,
            correlation_id,
            now,
        );
        order_id
    }

    /// Whether `after` is `self` after an event of an order, with the result `r`.
    pub open spec fn transitioned(
        &self,
        id: Seq<char>,
        event: crate::order_state_machine::EventView,
        figures: FillFigures,
        timestamp_ns: u64,
        after: &OrderTracker,
        r: Result<OrderState, String>,
    ) -> bool {
        if !self.state_machines@.dom().contains(id) {
            &&& *after == *self
            &&& r matches Err(m) && m@ == "Order "@ + id + " not found"@
        } else {
            let before = self.state_machines@[id];
            let machine = after.state_machines@[id];
            &&& after.state_machines@ == self.state_machines@.insert(id, machine)
            &&& after.orders_by_symbol == self.orders_by_symbol
            &&& match r {
                Ok(state) => {
                    &&& before.applied(
                        event,
                        figures.totals,
                        timestamp_ns,
                        &machine,
                        Ok::<OrderState, crate::order_state_machine::TransitionError>(state),
                    )
                    &&& if self.orders@.dom().contains(id) {
                        let o = after.orders@[id];
                        &&& after.orders@ == self.orders@.insert(id, o)
                        &&& o == (Order {
                            status: o.status,
                            filled_quantity: machine.known().total_filled_qty,
                            ..self.orders@[id]
                        })
                        &&& status_shows(
                            o.status,
                            state,
                            machine.known().total_filled_qty,
                            crate::order_state_machine::opt_view(machine.known().rejection_reason),
                        )
                    } else {
                        after.orders@ == self.orders@
                    }
                },
                Err(m) => {
                    &&& machine == before
                    &&& after.orders@ == self.orders@
                    &&& exists|e: crate::order_state_machine::TransitionError|
                        before.applied(
                            event,
                            figures.totals,
                            timestamp_ns,
                            &machine,
                            Err::<OrderState, crate::order_state_machine::TransitionError>(e),
                        ) && m@ == #[trigger] e.text(figures.qty_text@, figures.price_text@)
                },
            }
        }
    }

    /// Applies an event to an order: its state machine decides, and its status and filled
    /// quantity follow.
    pub fn transition_order(
        &mut self,
        order_id: &str,
        event: OrderEvent,
        figures: &FillFigures,
        timestamp_ns: u64,
    ) -> (r: Result<OrderState, String>)
        requires
            old(self).wf(),
        ensures
            final(self).wf(),
            old(self).transitioned(order_id@, event@, *figures, timestamp_ns, final(self), r),
    {
        let ghost before = *self;
        proof {
            self.state_machines.lemma_entries();
            self.orders.lemma_entries();
        }
        let at: usize = match self.state_machines.position(order_id) {
            Some(i) => i,
            None => {
                let mut m = "Order ".to_owned();
                m.append(order_id);
                m.append(" not found");
                return Err(m);
            },
        };
        assert(self.state_machines@.dom().contains(order_id@));
        let machine = self.state_machines.val_mut(at);
        let result = machine.apply_event(event, figures.totals, timestamp_ns);
        let total_filled = machine.metadata().total_filled_qty;
        let reason = copied(&machine.metadata().rejection_reason);
        let new_state = match result {
            Ok(s) => s,
            Err(e) => {
                let m = e.to_text(figures.qty_text.as_str(), figures.price_text.as_str());
                assert(self.state_machines@ =~= before.state_machines@);
                assert(m@ == e.text(figures.qty_text@, figures.price_text@));
                return Err(m);
            },
        };
        match self.orders.position(order_id) {
            Some(i) => {
                let order = self.orders.val_mut(i);
                order.status = status_of(&new_state, total_filled, reason);
                order.filled_quantity = total_filled;
            },
            None => {},
        }
        proof {
            assert forall|k: Seq<char>| #[trigger]
                self.orders@.dom().contains(k) implies self.orders@[k].order_id@ == k && ids_of(
                self.orders_by_symbol@,
                self.orders@[k].symbol@,
            ).contains(k) by {
                assert(before.orders@.dom().contains(k));
            }
        }
        Ok(new_state)
    }

    pub fn submit_order(&mut self, order_id: &str, timestamp_ns: u64) -> (r: Result<OrderState, String>)
        requires
            old(self).wf(),
        ensures
            final(self).wf(),
            exists|f: FillFigures| #[trigger]
                old(self).transitioned(
                    order_id@,
                    crate::order_state_machine::EventView::Submit,
                    f,
                    timestamp_ns,
                    final(self),
                    r,
                ),
    {
        self.transition_order(order_id, OrderEvent::Submit, &FillFigures::none(), timestamp_ns)
    }

    pub fn cancel_order(&mut self, order_id: &str, timestamp_ns: u64) -> (r: Result<OrderState, String>)
        requires
            old(self).wf(),
        ensures
            final(self).wf(),
            exists|f: FillFigures| #[trigger]
                old(self).transitioned(
                    order_id@,
                    crate::order_state_machine::EventView::Cancel,
                    f,
                    timestamp_ns,
                    final(self),
                    r,
                ),
    {
        self.transition_order(order_id, OrderEvent::Cancel, &FillFigures::none(), timestamp_ns)
    }

    pub fn expire_order(&mut self, order_id: &str, timestamp_ns: u64) -> (r: Result<OrderState, String>)
        requires
            old(self).wf(),
        ensures
            final(self).wf(),
            exists|f: FillFigures| #[trigger]
                old(self).transitioned(
                    order_id@,
                    crate::order_state_machine::EventView::Expire,
                    f,
                    timestamp_ns,
                    final(self),
                    r,
                ),
    {
        self.transition_order(order_id, OrderEvent::Expire, &FillFigures::none(), timestamp_ns)
    }

    pub fn replace_order(
        &mut self,
        order_id: &str,
        timestamp_ns: u64,
    ) -> (r: Result<OrderState, String>)
        requires
            old(self).wf(),
        ensures
            final(self).wf(),
            exists|f: FillFigures| #[trigger]
                old(self).transitioned(
                    order_id@,
                    crate::order_state_machine::EventView::Replace,
                    f,
                    timestamp_ns,
                    final(self),
                    r,
                ),
    {
        self.transition_order(order_id, OrderEvent::Replace, &FillFigures::none(), timestamp_ns)
    }

    pub fn reject_order(
        &mut self,
        order_id: &str,
        reason: String,
        timestamp_ns: u64,
    ) -> (r: Result<OrderState, String>)
        requires
            old(self).wf(),
        ensures
            final(self).wf(),
            exists|f: FillFigures| #[trigger]
                old(self).transitioned(
                    order_id@,
                    (crate::order_state_machine::EventView::Reject { reason: reason@ }),
                    f,
                    timestamp_ns,
                    final(self),
                    r,
                ),
    {
        self.transition_order(
            order_id,
            OrderEvent::Reject { reason },
            &FillFigures::none(),
            timestamp_ns,
        )
    }

    pub fn partial_fill_order(
        &mut self,
        order_id: &str,
        filled_qty: Real,
        fill_price: Real,
        figures: &FillFigures,
        timestamp_ns: u64,
    ) -> (r: Result<OrderState, String>)
        requires
            old(self).wf(),
        ensures
            final(self).wf(),
            old(self).transitioned(
                order_id@,
                (crate::order_state_machine::EventView::PartialFill { filled_qty, fill_price }),
                *figures,
                timestamp_ns,
                final(self),
                r,
            ),
    {
        self.transition_order(
            order_id,
            OrderEvent::PartialFill { filled_qty, fill_price },
            figures,
            timestamp_ns,
        )
    }

    pub fn full_fill_order(
        &mut self,
        order_id: &str,
        filled_qty: Real,
        fill_price: Real,
        figures: &FillFigures,
        timestamp_ns: u64,
    ) -> (r: Result<OrderState, String>)
        requires
            old(self).wf(),
        ensures
            final(self).wf(),
            old(self).transitioned(
                order_id@,
                (crate::order_state_machine::EventView::FullFill { filled_qty, fill_price }),
                *figures,
                timestamp_ns,
                final(self),
                r,
            ),
    {
        self.transition_order(
            order_id,
            OrderEvent::FullFill { filled_qty, fill_price },
            figures,
            timestamp_ns,
        )
    }

    /// Sets the status of an order, past its state machine.
    pub fn update_status(&mut self, order_id: &str, status: OrderStatus)
        requires
            old(self).wf(),
        ensures
            final(self).wf(),
            final(self).state_machines == old(self).state_machines,
            final(self).orders_by_symbol == old(self).orders_by_symbol,
            final(self).orders@ == (if old(self).orders@.dom().contains(order_id@) {
                old(self).orders@.insert(
                    order_id@,
                    (Order { status, ..old(self).orders@[order_id@] }),
                )
            } else {
                old(self).orders@
            }),
    {
        let ghost before = *self;
        proof {
            self.orders.lemma_entries();
        }
        match self.orders.position(order_id) {
            Some(i) => {
                let order = self.orders.val_mut(i);
                order.status = status;
            },
            None => {},
        }
        proof {
            assert forall|k: Seq<char>| #[trigger]
                self.orders@.dom().contains(k) implies self.orders@[k].order_id@ == k && ids_of(
                self.orders_by_symbol@,
                self.orders@[k].symbol@,
            ).contains(k) by {
                assert(before.orders@.dom().contains(k));
            }
        }
    }

    /// The event that a fill of `filled_qty` is: a full fill of the order's quantity where it
    /// reaches that, else one in part, at the limit price or zero.
    pub open spec fn fill_of(&self, id: Seq<char>, filled_qty: Real) -> Option<
        crate::order_state_machine::EventView,
    > {
        if self.orders@.dom().contains(id) {
            let o = self.orders@[id];
            let price = match o.limit_price {
                Some(p) => p,
                None => Real { bits: 0 },
            };
            if o.quantity.less_eq(filled_qty) {
                Some(
                    crate::order_state_machine::EventView::FullFill {
                        filled_qty: o.quantity,
                        fill_price: price,
                    },
                )
            } else {
                Some(
                    crate::order_state_machine::EventView::PartialFill {
                        filled_qty,
                        fill_price: price,
                    },
                )
            }
        } else {
            None
        }
    }

    /// The event that a fill of `filled_qty` is, see `fill_of`.
    pub fn fill_event(&self, order_id: &str, filled_qty: Real) -> (r: Option<OrderEvent>)
        requires
            self.wf(),
        ensures
            match self.fill_of(order_id@, filled_qty) {
                Some(e) => r matches Some(x) && x@ == e,
                None => r is None,
            },
    {
        match self.orders.get(order_id) {
            Some(order) => {
                let fill_price = match order.limit_price {
                    Some(p) => p,
                    None => Real { bits: 0 },
                };
                if order.quantity.le(&filled_qty) {
                    Some(OrderEvent::FullFill { filled_qty: order.quantity, fill_price })
                } else {
                    Some(OrderEvent::PartialFill { filled_qty, fill_price })
                }
            },
            None => None,
        }
    }

    /// Applies a fill of `filled_qty` to an order; a refused one changes nothing. `figures` are
    /// those of the event of `fill_event`.
    pub fn update_fill(
        &mut self,
        order_id: &str,
        filled_qty: Real,
        figures: &FillFigures,
        timestamp_ns: u64,
    )
        requires
            old(self).wf(),
        ensures
            final(self).wf(),
            match old(self).fill_of(order_id@, filled_qty) {
                Some(e) => exists|r: Result<OrderState, String>| #[trigger]
                    old(self).transitioned(
                        order_id@,
                        e,
                        *figures,
                        timestamp_ns,
                        final(self),
                        r,
                    ),
                None => *final(self) == *old(self),
            },
    {
        match self.fill_event(order_id, filled_qty) {
            Some(event) => {
                let _ = self.transition_order(order_id, event, figures, timestamp_ns);
            },
            None => {},
        }
    }

    pub fn get_order(&self, order_id: &str) -> (r: Option<&Order>)
        requires
            self.wf(),
        ensures
            match r {
                Some(o) => self.orders@.dom().contains(order_id@) && *o == self.orders@[order_id@],
                None => !self.orders@.dom().contains(order_id@),
            },
    {
        self.orders.get(order_id)
    }

    pub fn get_state_machine(&self, order_id: &str) -> (r: Option<&OrderStateMachine>)
        requires
            self.wf(),
        ensures
            match r {
                Some(m) => self.state_machines@.dom().contains(order_id@) && *m
                    == self.state_machines@[order_id@] && m.wf(),
                None => !self.state_machines@.dom().contains(order_id@),
            },
    {
        self.state_machines.get(order_id)
    }

    /// The orders of a symbol, in the order in which they came in.
    pub fn get_orders_by_symbol(&self, symbol: &str) -> (v: Vec<&Order>)
        requires
            self.wf(),
        ensures
            v@.len() == orders_with(self.orders@, ids_of(self.orders_by_symbol@, symbol@)).len(),
            forall|i: int|
                0 <= i < v@.len() ==> *#[trigger] v@[i] == orders_with(
                    self.orders@,
                    ids_of(self.orders_by_symbol@, symbol@),
                )[i],
    {
        let mut v: Vec<&Order> = Vec::new();
        match self.orders_by_symbol.get(symbol) {
            Some(ids) => {
                let ghost all = crate::text::views(ids@);
                let mut i: usize = 0;
                assert(all.take(0) =~= Seq::<Seq<char>>::empty());
                while i < ids.len()
                    invariant
                        self.wf(),
                        i <= ids@.len(),
                        all == crate::text::views(ids@),
                        v@.len() == orders_with(self.orders@, all.take(i as int)).len(),
                        forall|j: int|
                            0 <= j < v@.len() ==> *#[trigger] v@[j] == orders_with(
                                self.orders@,
                                all.take(i as int),
                            )[j],
                    decreases ids@.len() - i,
                {
                    assert(all.take(i + 1).drop_last() =~= all.take(i as int));
                    assert(all.take(i + 1).last() == ids@[i as int]@);
                    match self.orders.get(ids[i].as_str()) {
                        Some(o) => {
                            v.push(o);
                        },
                        None => {},
                    }
                    i += 1;
                }
                assert(all.take(all.len() as int) =~= all);
            },
            None => {},
        }
        v
    }

    /// The number of orders that are with the broker.
    pub fn open_orders_count(&self) -> (n: usize)
        requires
            self.wf(),
        ensures
            n == open_count(self.orders.val_seq()),
    {
        proof {
            self.orders.lemma_entries();
        }
        let ghost all = self.orders.val_seq();
        let len: usize = self.orders.len();
        let mut n: usize = 0;
        let mut i: usize = 0;
        while i < len
            invariant
                self.orders.wf(),
                i <= len,
                len == self.orders.key_seq().len(),
                len == all.len(),
                all == self.orders.val_seq(),
                n <= i,
                n == open_count(all.take(i as int)),
            decreases len - i,
        {
            assert(all.take(i + 1).drop_last() =~= all.take(i as int));
            match self.orders.val_at(i).status {
                OrderStatus::Submitted | OrderStatus::PartiallyFilled { .. } => {
                    n += 1;
                },
                _ => {},
            }
            i += 1;
        }
        assert(all.take(len as int) =~= all);
        n
    }

    pub fn is_order_terminal(&self, order_id: &str) -> (r: bool)
        requires
            self.wf(),
        ensures
            r == (self.state_machines@.dom().contains(order_id@)
                && self.state_machines@[order_id@].state().terminal()),
    {
        match self.state_machines.get(order_id) {
            Some(m) => m.is_terminal(),
            None => false,
        }
    }

    pub fn is_order_active(&self, order_id: &str) -> (r: bool)
        requires
            self.wf(),
        ensures
            r == (self.state_machines@.dom().contains(order_id@)
                && !self.state_machines@[order_id@].state().terminal()),
    {
        match self.state_machines.get(order_id) {
            Some(m) => m.is_active(),
            None => false,
        }
    }
}

fn copied(s: &Option<String>) -> (r: Option<String>)
    ensures
        crate::order_state_machine::opt_view(r) == crate::order_state_machine::opt_view(*s),
{
    match s {
        Some(t) => Some(t.clone()),
        None => None,
    }
}

impl Default for OrderTracker {
    fn default() -> (t: Self)
        ensures
            t.wf(),
            t.orders@ == Map::<Seq<char>, Order>::empty(),
            t.state_machines@ == Map::<Seq<char>, OrderStateMachine>::empty(),
            t.orders_by_symbol@ == Map::<Seq<char>, Vec<String>>::empty(),
    {
        OrderTracker::new()
    }
}

/// An order is among those of its symbol.
pub proof fn law_order_is_listed(t: &OrderTracker, id: Seq<char>)
    requires
        t.wf(),
        t.orders@.dom().contains(id),
    ensures
        orders_with(t.orders@, ids_of(t.orders_by_symbol@, t.orders@[id].symbol@)).contains(
            t.orders@[id],
        ),
{
    let ids = ids_of(t.orders_by_symbol@, t.orders@[id].symbol@);
    lemma_listed(t.orders@, ids, id);
}

proof fn lemma_listed(orders: Map<Seq<char>, Order>, ids: Seq<Seq<char>>, id: Seq<char>)
    requires
        orders.dom().contains(id),
        ids.contains(id),
    ensures
        orders_with(orders, ids).contains(orders[id]),
    decreases ids.len(),
{
    let front = orders_with(orders, ids.drop_last());
    let all = orders_with(orders, ids);
    if ids.last() == id {
        assert(all == front.push(orders[id]));
        assert(all[front.len() as int] == orders[id]);
    } else {
        let i = ids.index_of(id);
        assert(ids.drop_last()[i] == id);
        lemma_listed(orders, ids.drop_last(), id);
        let j = front.index_of(orders[id]);
        assert(front[j] == orders[id]);
        assert(all[j] == orders[id]);
    }
}

/// A fill is a full one just where it covers the quantity of its order, and then counts that
/// quantity; else it is one in part, and counts what it brings. Its price is the limit of the order,
/// zero where it has none. There is no fill of an unknown order.
pub proof fn law_fill_is_full_or_in_part(t: &OrderTracker, id: Seq<char>, filled_qty: Real)
    ensures
        t.fill_of(id, filled_qty) is None <==> !t.orders@.dom().contains(id),
        t.orders@.dom().contains(id) ==> {
            let o = t.orders@[id];
            let price = if o.limit_price is Some {
                o.limit_price->0
            } else {
                Real { bits: 0 }
            };
            let e = t.fill_of(id, filled_qty)->0;
            let full = !filled_qty.is_nan() && !o.quantity.is_nan() && filled_qty.rank()
                >= o.quantity.rank();
            &&& full ==> e == (crate::order_state_machine::EventView::FullFill {
                filled_qty: o.quantity,
                fill_price: price,
            })
            &&& !full ==> e == (crate::order_state_machine::EventView::PartialFill {
                filled_qty,
                fill_price: price,
            })
        },
{
}

/// An event of an order changes that order and no other. The status that it then shows is that of
/// its state, with what was filled of it; an event that its state refuses changes nothing, and one of
/// an unknown order is answered that it was not found.
pub proof fn law_event_changes_its_order_alone(
    t: &OrderTracker,
    id: Seq<char>,
    event: crate::order_state_machine::EventView,
    figures: FillFigures,
    timestamp_ns: u64,
    after: &OrderTracker,
    r: Result<OrderState, String>,
    other: Seq<char>,
)
    requires
        t.transitioned(id, event, figures, timestamp_ns, after, r),
        other != id,
    ensures
        after.orders@.dom().contains(other) == t.orders@.dom().contains(other),
        t.orders@.dom().contains(other) ==> after.orders@[other] == t.orders@[other],
        t.state_machines@.dom().contains(other) ==> after.state_machines@[other]
            == t.state_machines@[other],
        after.orders_by_symbol == t.orders_by_symbol,
        !t.state_machines@.dom().contains(id) ==> r is Err && r->Err_0@ == "Order "@ + id
            + " not found"@ && *after == *t,
        r is Err ==> after.orders@ == t.orders@,
        r is Ok && t.orders@.dom().contains(id) ==> {
            let o = after.orders@[id];
            &&& after.orders@.dom().contains(id)
            &&& r->Ok_0 == after.state_machines@[id].state()
            &&& o.filled_quantity == after.state_machines@[id].known().total_filled_qty
            &&& o.quantity == t.orders@[id].quantity
            &&& o.symbol == t.orders@[id].symbol
            &&& o.side == t.orders@[id].side
            &&& o.limit_price == t.orders@[id].limit_price
            &&& event is Submit ==> o.status is Submitted
            &&& event is Cancel ==> o.status is Cancelled
            &&& event is FullFill ==> o.status is Filled && o.filled_quantity
                == figures.totals.total_filled_qty
            &&& event is PartialFill ==> o.status is PartiallyFilled && o.filled_quantity
                == figures.totals.total_filled_qty
            &&& event matches crate::order_state_machine::EventView::Reject { reason } ==> o.status
                matches OrderStatus::Rejected { reason: told } && told@ == reason
        },
{
    if t.state_machines@.dom().contains(id) && r is Ok {
        crate::order_state_machine::law_events_have_their_states(
            figures.totals.total_filled_qty,
            figures.totals.avg_fill_price,
            Seq::empty(),
        );
    }
}

/// A new order is pending, with nothing filled, and asks for what was asked; it is the last of its
/// symbol, and every other order stays as it is.
pub proof fn law_new_order_is_pending(
    t: &OrderTracker,
    after: &OrderTracker,
    id: Seq<char>,
    symbol: Seq<char>,
    side: Seq<char>,
    quantity: Real,
    limit_price: Option<Real>,
    correlation_id: Seq<char>,
    now: u64,
    other: Seq<char>,
)
    requires
        t.created(after, id, symbol, side, quantity, limit_price, correlation_id, now),
        other != id,
    ensures
        after.orders@.dom().contains(id),
        after.orders@[id].order_id@ == id,
        after.orders@[id].symbol@ == symbol,
        after.orders@[id].side@ == side,
        after.orders@[id].quantity == quantity,
        after.orders@[id].filled_quantity.bits == 0,
        after.orders@[id].limit_price == limit_price,
        after.orders@[id].status is Pending,
        after.orders@[id].submitted_ns == now,
        after.orders@[id].correlation_id@ == correlation_id,
        after.state_machines@.dom().contains(id),
        after.state_machines@[id].state() is Pending,
        after.state_machines@[id].log().len() == 0,
        ids_of(after.orders_by_symbol@, symbol) == ids_of(t.orders_by_symbol@, symbol).push(id),
        t.orders@.dom().contains(other) ==> after.orders@.dom().contains(other)
            && after.orders@[other] == t.orders@[other],
        t.state_machines@.dom().contains(other) ==> after.state_machines@[other]
            == t.state_machines@[other],
{
}

/// Open at the broker are the orders that were submitted and not yet filled as a whole, cancelled or
/// rejected; each counts once.
pub proof fn law_open_orders_are_counted(orders: Seq<Order>, o: Order)
    ensures
        open_count(Seq::empty()) == 0,
        o.status is Submitted || o.status is PartiallyFilled ==> open_count(orders.push(o))
            == open_count(orders) + 1,
        o.status is Pending || o.status is Filled || o.status is Cancelled || o.status is Rejected
            ==> open_count(orders.push(o)) == open_count(orders),
{
    assert(orders.push(o).drop_last() =~= orders);
}

/// The orders of a list of ids are those that are known, in the order of the list.
pub proof fn law_known_orders_are_listed_in_turn(
    orders: Map<Seq<char>, Order>,
    ids: Seq<Seq<char>>,
    id: Seq<char>,
)
    ensures
        orders_with(orders, Seq::empty()) == Seq::<Order>::empty(),
        orders.dom().contains(id) ==> orders_with(orders, ids.push(id)) == orders_with(
            orders,
            ids,
        ).push(orders[id]),
        !orders.dom().contains(id) ==> orders_with(orders, ids.push(id)) == orders_with(
            orders,
            ids,
        ),
{
    assert(ids.push(id).drop_last() =~= ids);
}

/// A status that is set is that of its order; whatever else the order says stays, and so do the
/// other orders.
pub proof fn law_status_is_set_for_its_order()
    ensures
        forall|t: &mut OrderTracker, id: &str, status: OrderStatus, u: (), other: Seq<char>|
            #![trigger call_ensures(OrderTracker::update_status, (t, id, status), u), t.orders@.dom().contains(other)]
            call_ensures(OrderTracker::update_status, (t, id, status), u) ==> {
                &&& final(t).orders@.dom().contains(other) <==> t.orders@.dom().contains(other)
                &&& other != id@ && t.orders@.dom().contains(other) ==> final(t).orders@[other]
                    == t.orders@[other]
                &&& t.orders@.dom().contains(id@) ==> {
                    &&& final(t).orders@[id@].status == status
                    &&& final(t).orders@[id@].order_id == t.orders@[id@].order_id
                    &&& final(t).orders@[id@].symbol == t.orders@[id@].symbol
                    &&& final(t).orders@[id@].quantity == t.orders@[id@].quantity
                    &&& final(t).orders@[id@].limit_price == t.orders@[id@].limit_price
                }
                &&& final(t).state_machines == t.state_machines
            },
{
}

/// An order that is known is either active or at its end, and one that is not known is neither.
pub proof fn law_order_is_active_or_at_its_end(t: &OrderTracker, id: &str, a: bool, e: bool)
    requires
        call_ensures(OrderTracker::is_order_active, (t, id), a),
        call_ensures(OrderTracker::is_order_terminal, (t, id), e),
    ensures
        t.state_machines@.dom().contains(id@) ==> (a <==> !e),
        !t.state_machines@.dom().contains(id@) ==> !a && !e,
        e ==> {
            let s = t.state_machines@[id@].state();
            s is Filled || s is Cancelled || s is Rejected || s is Expired || s is Replaced
        },
        a ==> {
            let s = t.state_machines@[id@].state();
            s is Pending || s is Submitted || s is PartiallyFilled
        },
{
}

/// The order that is told of an id is the one that is kept under it.
pub proof fn law_order_is_told_by_its_id(t: &OrderTracker, id: &str, r: Option<&Order>)
    requires
        call_ensures(OrderTracker::get_order, (t, id), r),
    ensures
        r is Some <==> t.orders@.dom().contains(id@),
        r matches Some(o) ==> *o == t.orders@[id@],
{
}

/// A new tracker knows no order.
pub proof fn law_new_tracker_is_empty(t: OrderTracker, id: Seq<char>)
    requires
        call_ensures(OrderTracker::new, (), t),
    ensures
        !t.orders@.dom().contains(id),
        !t.state_machines@.dom().contains(id),
        !t.orders_by_symbol@.dom().contains(id),
{
}

} // verus!
