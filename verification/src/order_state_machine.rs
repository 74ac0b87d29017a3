//! The life of an order as a state machine.

use vstd::prelude::*;
use vstd::string::StringExecFns;

use crate::config::quoted_text;
use crate::metrics::CachePaddedAtomicU64;
use crate::quantity::Real;

verus! {

/// Where an order stands.
#[derive(Debug, Clone, Copy, PartialEq, Eq, Hash, Structural)]
pub enum OrderState {
    Pending,
    Submitted,
    PartiallyFilled,
    Filled,
    Cancelled,
    Rejected,
    Expired,
    Replaced,
}

/// The states that may follow a state, in their order.
pub open spec fn followers(s: OrderState) -> Seq<OrderState> {
    match s {
        OrderState::Pending => seq![OrderState::Submitted, OrderState::Rejected],
        OrderState::Submitted => seq![
            OrderState::PartiallyFilled,
            OrderState::Filled,
            OrderState::Cancelled,
            OrderState::Rejected,
        ],
        OrderState::PartiallyFilled => seq![
            OrderState::PartiallyFilled,
            OrderState::Filled,
            OrderState::Cancelled,
        ],
        _ => seq![],
    }
}

impl OrderState {
    /// Whether nothing more happens to the order.
    pub open spec fn terminal(self) -> bool {
        match self {
            OrderState::Filled | OrderState::Cancelled | OrderState::Rejected
            | OrderState::Expired | OrderState::Replaced => true,
            _ => false,
        }
    }

    /// The name of the state.
    pub open spec fn name(self) -> Seq<char> {
        match self {
            OrderState::Pending => "Pending"@,
            OrderState::Submitted => "Submitted"@,
            OrderState::PartiallyFilled => "PartiallyFilled"@,
            OrderState::Filled => "Filled"@,
            OrderState::Cancelled => "Cancelled"@,
            OrderState::Rejected => "Rejected"@,
            OrderState::Expired => "Expired"@,
            OrderState::Replaced => "Replaced"@,
        }
    }

    /// The name of the state.
    pub fn word(&self) -> (s: &'static str)
        ensures
            s@ == self.name(),
    {
        match self {
            OrderState::Pending => "Pending",
            OrderState::Submitted => "Submitted",
            OrderState::PartiallyFilled => "PartiallyFilled",
            OrderState::Filled => "Filled",
            OrderState::Cancelled => "Cancelled",
            OrderState::Rejected => "Rejected",
            OrderState::Expired => "Expired",
            OrderState::Replaced => "Replaced",
        }
    }

    /// Whether nothing more happens to the order.
    pub fn is_terminal(&self) -> (r: bool)
        ensures
            r == self.terminal(),
    {
        match self {
            OrderState::Filled | OrderState::Cancelled | OrderState::Rejected
            | OrderState::Expired | OrderState::Replaced => true,
            _ => false,
        }
    }

    /// Whether the order is on its way.
    pub fn is_active(&self) -> (r: bool)
        ensures
            r == !self.terminal(),
    {
        match self {
            OrderState::Pending | OrderState::Submitted | OrderState::PartiallyFilled => true,
            _ => false,
        }
    }

    /// The states that may follow.
    pub fn allowed_transitions(&self) -> (v: Vec<OrderState>)
        ensures
            v@ == followers(*self),
    {
        match self {
            OrderState::Pending => vec![OrderState::Submitted, OrderState::Rejected],
            OrderState::Submitted => vec![
                OrderState::PartiallyFilled,
                OrderState::Filled,
                OrderState::Cancelled,
                OrderState::Rejected,
            ],
            OrderState::PartiallyFilled => vec![
                OrderState::PartiallyFilled,
                OrderState::Filled,
                OrderState::Cancelled,
            ],
            _ => {
                let v: Vec<OrderState> = Vec::new();
                assert(v@ =~= followers(*self));
                v
            },
        }
    }

    /// Whether `next` may follow.
    pub fn can_transition_to(&self, next: &OrderState) -> (r: bool)
        ensures
            r == followers(*self).contains(*next),
    {
        let v = self.allowed_transitions();
        let mut i: usize = 0;
        while i < v.len()
            invariant
                i <= v@.len(),
                v@ == followers(*self),
                forall|j: int| 0 <= j < i ==> v@[j] != *next,
            decreases v@.len() - i,
        {
            if v[i] == *next {
                assert(v@[i as int] == *next);
                return true;
            }
            i += 1;
        }
        false
    }
}

/// A state is terminal exactly if no state may follow it.
pub proof fn law_terminal_has_no_followers(s: OrderState)
    ensures
        s.terminal() <==> followers(s).len() == 0,
{
}

/// No state is left for one that does not come after it: an order never goes back to pending,
/// nor to submitted once it was filled in part, and expires or is replaced in no state.
pub proof fn law_no_way_back(s: OrderState)
    ensures
        !followers(s).contains(OrderState::Pending),
        s != OrderState::Pending ==> !followers(s).contains(OrderState::Submitted),
        !followers(s).contains(OrderState::Expired),
        !followers(s).contains(OrderState::Replaced),
{
}

/// What happens to an order.
#[derive(Debug, Clone)]
pub enum OrderEvent {
    Submit,
    PartialFill { filled_qty: Real, fill_price: Real },
    FullFill { filled_qty: Real, fill_price: Real },
    Cancel,
    Reject { reason: String },
    Expire,
    Replace,
}

/// What an event is, with the reason as its characters.
pub enum EventView {
    Submit,
    PartialFill { filled_qty: Real, fill_price: Real },
    FullFill { filled_qty: Real, fill_price: Real },
    Cancel,
    Reject { reason: Seq<char> },
    Expire,
    Replace,
}

impl View for OrderEvent {
    type V = EventView;

    open spec fn view(&self) -> EventView {
        match self {
            OrderEvent::Submit => EventView::Submit,
            OrderEvent::PartialFill { filled_qty, fill_price } => EventView::PartialFill {
                filled_qty: *filled_qty,
                fill_price: *fill_price,
            },
            OrderEvent::FullFill { filled_qty, fill_price } => EventView::FullFill {
                filled_qty: *filled_qty,
                fill_price: *fill_price,
            },
            OrderEvent::Cancel => EventView::Cancel,
            OrderEvent::Reject { reason } => EventView::Reject { reason: reason@ },
            OrderEvent::Expire => EventView::Expire,
            OrderEvent::Replace => EventView::Replace,
        }
    }
}

impl EventView {
    /// The state that the event leads to.
    pub open spec fn target(self) -> OrderState {
        match self {
            EventView::Submit => OrderState::Submitted,
            EventView::PartialFill { .. } => OrderState::PartiallyFilled,
            EventView::FullFill { .. } => OrderState::Filled,
            EventView::Cancel => OrderState::Cancelled,
            EventView::Reject { .. } => OrderState::Rejected,
            EventView::Expire => OrderState::Expired,
            EventView::Replace => OrderState::Replaced,
        }
    }

    /// Whether the event is a fill.
    pub open spec fn is_fill(self) -> bool {
        self is PartialFill || self is FullFill
    }

    /// The written form of the event, with those of its numbers.
    pub open spec fn text(self, qty_text: Seq<char>, price_text: Seq<char>) -> Seq<char> {
        match self {
            EventView::Submit => "Submit"@,
            EventView::PartialFill { .. } => "PartialFill { filled_qty: "@ + qty_text
                + ", fill_price: "@ + price_text + " }"@,
            EventView::FullFill { .. } => "FullFill { filled_qty: "@ + qty_text + ", fill_price: "@
                + price_text + " }"@,
            EventView::Cancel => "Cancel"@,
            EventView::Reject { reason } => "Reject { reason: "@ + crate::config::quoted(reason)
                + " }"@,
            EventView::Expire => "Expire"@,
            EventView::Replace => "Replace"@,
        }
    }
}

fn fill_text(word: &str, qty_text: &str, price_text: &str) -> (s: String)
    ensures
        s@ == word@ + qty_text@ + ", fill_price: "@ + price_text@ + " }"@,
{
    let mut s = word.to_owned();
    s.append(qty_text);
    s.append(", fill_price: ");
    s.append(price_text);
    s.append(" }");
    s
}

impl OrderEvent {
    /// The same event once more.
    pub fn duplicate(&self) -> (e: OrderEvent)
        ensures
            e@ == self@,
    {
        match self {
            OrderEvent::Submit => OrderEvent::Submit,
            OrderEvent::PartialFill { filled_qty, fill_price } => OrderEvent::PartialFill {
                filled_qty: *filled_qty,
                fill_price: *fill_price,
            },
            OrderEvent::FullFill { filled_qty, fill_price } => OrderEvent::FullFill {
                filled_qty: *filled_qty,
                fill_price: *fill_price,
            },
            OrderEvent::Cancel => OrderEvent::Cancel,
            OrderEvent::Reject { reason } => OrderEvent::Reject { reason: reason.clone() },
            OrderEvent::Expire => OrderEvent::Expire,
            OrderEvent::Replace => OrderEvent::Replace,
        }
    }

    /// The written form of the event, with those of its numbers.
    pub fn debug_text(&self, qty_text: &str, price_text: &str) -> (s: String)
        ensures
            s@ == self@.text(qty_text@, price_text@),
    {
        match self {
            OrderEvent::Submit => "Submit".to_owned(),
            OrderEvent::PartialFill { .. } => fill_text(
                "PartialFill { filled_qty: ",
                qty_text,
                price_text,
            ),
            OrderEvent::FullFill { .. } => fill_text(
                "FullFill { filled_qty: ",
                qty_text,
                price_text,
            ),
            OrderEvent::Cancel => "Cancel".to_owned(),
            OrderEvent::Reject { reason } => {
                let mut s = "Reject { reason: ".to_owned();
                s.append(quoted_text(reason.as_str()).as_str());
                s.append(" }");
                s
            },
            OrderEvent::Expire => "Expire".to_owned(),
            OrderEvent::Replace => "Replace".to_owned(),
        }
    }

    /// The state that the event leads to.
    pub fn target_state(&self) -> (s: OrderState)
        ensures
            s == self@.target(),
    {
        match self {
            OrderEvent::Submit => OrderState::Submitted,
            OrderEvent::PartialFill { .. } => OrderState::PartiallyFilled,
            OrderEvent::FullFill { .. } => OrderState::Filled,
            OrderEvent::Cancel => OrderState::Cancelled,
            OrderEvent::Reject { .. } => OrderState::Rejected,
            OrderEvent::Expire => OrderState::Expired,
            OrderEvent::Replace => OrderState::Replaced,
        }
    }
}

/// The figures of an order after a fill, which need arithmetic on floating-point numbers.
#[derive(Debug, Clone, Copy)]
pub struct FillTotals {
    pub total_filled_qty: Real,
    pub avg_fill_price: Real,
}

impl FillTotals {
    /// The figures for an event that is no fill: they are not looked at.
    pub fn none() -> (t: FillTotals)
        ensures
            t.total_filled_qty.bits == 0,
            t.avg_fill_price.bits == 0,
    {
        FillTotals {
            total_filled_qty: Real { bits: 0 },
            avg_fill_price: Real { bits: 0 },
        }
    }
}

/// An event that the state of an order does not allow.
#[derive(Debug, Clone)]
pub struct TransitionError {
    pub from: OrderState,
    pub to: OrderState,
    pub event: OrderEvent,
    pub reason: String,
}

/// The names of states, with commas between them.
pub open spec fn joined_names(s: Seq<OrderState>) -> Seq<char>
    decreases s.len(),
{
    if s.len() == 0 {
        Seq::empty()
    } else if s.len() == 1 {
        s[0].name()
    } else {
        joined_names(s.drop_last()) + ", "@ + s.last().name()
    }
}

/// Why a state does not follow another.
pub open spec fn refusal(from: OrderState, to: OrderState) -> Seq<char> {
    "Transition from "@ + from.name() + " to "@ + to.name() + " is not allowed. Allowed: ["@
        + joined_names(followers(from)) + "]"@
}

fn refusal_text(from: OrderState, to: OrderState) -> (s: String)
    ensures
        s@ == refusal(from, to),
{
    let mut s = "Transition from ".to_owned();
    s.append(from.word());
    s.append(" to ");
    s.append(to.word());
    s.append(" is not allowed. Allowed: [");
    let ghost head = s@;
    let v = from.allowed_transitions();
    let mut i: usize = 0;
    assert(head + joined_names(v@.take(0)) =~= s@);
    while i < v.len()
        invariant
            i <= v@.len(),
            s@ == head + joined_names(v@.take(i as int)),
        decreases v@.len() - i,
    {
        let ghost before = joined_names(v@.take(i as int));
        assert(v@.take(i + 1).drop_last() =~= v@.take(i as int));
        assert(v@.take(i + 1).last() == v@[i as int]);
        if i > 0 {
            s.append(", ");
        }
        s.append(v[i].word());
        assert(s@ =~= head + joined_names(v@.take(i + 1)));
        i += 1;
    }
    assert(v@.take(v@.len() as int) =~= v@);
    s.append("]");
    s
}

impl TransitionError {
    /// The message, with the written forms of the numbers of the event.
    pub open spec fn text(self, qty_text: Seq<char>, price_text: Seq<char>) -> Seq<char> {
        "Invalid transition: "@ + self.from.name() + " -> "@ + self.to.name() + " (event: "@
            + self.event@.text(qty_text, price_text) + ") - "@ + self.reason@
    }

    /// The message, with the written forms of the numbers of the event.
    pub fn to_text(&self, qty_text: &str, price_text: &str) -> (s: String)
        ensures
            s@ == self.text(qty_text@, price_text@),
    {
        let mut s = "Invalid transition: ".to_owned();
        s.append(self.from.word());
        s.append(" -> ");
        s.append(self.to.word());
        s.append(" (event: ");
        s.append(self.event.debug_text(qty_text, price_text).as_str());
        s.append(") - ");
        s.append(self.reason.as_str());
        s
    }
}

/// How an order behaves in a state.
pub trait OrderStateBehavior {
    /// The name of the state.
    fn state_name(&self) -> &'static str;

    /// Called when the order comes to the state.
    fn on_enter(&self, _order_id: &str, _metadata: &mut OrderMetadata) {
    }

    /// Called when the order leaves the state.
    fn on_exit(&self, _order_id: &str, _metadata: &mut OrderMetadata) {
    }

    /// One event of each kind that may happen in the state.
    fn allowed_events(&self) -> Vec<OrderEvent>;
}

/// What is known of an order.
#[derive(Debug, Clone)]
pub struct OrderMetadata {
    pub total_filled_qty: Real,
    pub avg_fill_price: Real,
    pub last_event_timestamp_ns: u64,
    pub transition_count: u64,
    pub rejection_reason: Option<String>,
}

impl Default for OrderMetadata {
    fn default() -> (m: Self)
        ensures
            m.is_fresh(),
    {
        OrderMetadata {
            total_filled_qty: Real { bits: 0 },
            avg_fill_price: Real { bits: 0 },
            last_event_timestamp_ns: 0,
            transition_count: 0,
            rejection_reason: None,
        }
    }
}

/// The characters of an optional string.
pub open spec fn opt_view(s: Option<String>) -> Option<Seq<char>> {
    match s {
        Some(t) => Some(t@),
        None => None,
    }
}

impl OrderMetadata {
    /// Whether nothing has happened to the order.
    pub open spec fn is_fresh(&self) -> bool {
        &&& self.total_filled_qty.bits == 0
        &&& self.avg_fill_price.bits == 0
        &&& self.last_event_timestamp_ns == 0
        &&& self.transition_count == 0
        &&& self.rejection_reason is None
    }

    /// Whether `after` is what is known after an event: a fill sets the figures, a rejection its
    /// reason.
    pub open spec fn updated(
        &self,
        event: EventView,
        totals: FillTotals,
        timestamp_ns: u64,
        after: &OrderMetadata,
    ) -> bool {
        &&& after.last_event_timestamp_ns == timestamp_ns
        &&& after.transition_count == self.transition_count + 1
        &&& after.total_filled_qty == (if event.is_fill() {
            totals.total_filled_qty
        } else {
            self.total_filled_qty
        })
        &&& after.avg_fill_price == (if event.is_fill() {
            totals.avg_fill_price
        } else {
            self.avg_fill_price
        })
        &&& opt_view(after.rejection_reason) == (match event {
            EventView::Reject { reason } => Some(reason),
            _ => opt_view(self.rejection_reason),
        })
    }
}

fn fill_events() -> (v: Vec<OrderEvent>)
    ensures
        v@.len() == 3,
        v@[0]@ == (EventView::PartialFill {
            filled_qty: Real { bits: 0 },
            fill_price: Real { bits: 0 },
        }),
        v@[1]@ == (EventView::FullFill {
            filled_qty: Real { bits: 0 },
            fill_price: Real { bits: 0 },
        }),
        v@[2]@ == EventView::Cancel,
{
    vec![
        OrderEvent::PartialFill {
            filled_qty: Real { bits: 0 },
            fill_price: Real { bits: 0 },
        },
        OrderEvent::FullFill { filled_qty: Real { bits: 0 }, fill_price: Real { bits: 0 } },
        OrderEvent::Cancel,
    ]
}

pub struct PendingState;

pub struct SubmittedState;

pub struct PartiallyFilledState;

pub struct TerminalState {
    pub name: &'static str,
}

impl OrderStateBehavior for PendingState {
    fn state_name(&self) -> (s: &'static str)
        ensures
            s@ == "Pending"@,
    {
        "Pending"
    }

    fn allowed_events(&self) -> (v: Vec<OrderEvent>)
        ensures
            v@.len() == 1,
            v@[0]@ == EventView::Submit,
    {
        vec![OrderEvent::Submit]
    }
}

impl OrderStateBehavior for SubmittedState {
    fn state_name(&self) -> (s: &'static str)
        ensures
            s@ == "Submitted"@,
    {
        "Submitted"
    }

    fn allowed_events(&self) -> (v: Vec<OrderEvent>)
        ensures
            v@.len() == 3,
            v@[0]@ == (EventView::PartialFill {
                filled_qty: Real { bits: 0 },
                fill_price: Real { bits: 0 },
            }),
            v@[1]@ == (EventView::FullFill {
                filled_qty: Real { bits: 0 },
                fill_price: Real { bits: 0 },
            }),
            v@[2]@ == EventView::Cancel,
    {
        fill_events()
    }
}

impl OrderStateBehavior for PartiallyFilledState {
    fn state_name(&self) -> (s: &'static str)
        ensures
            s@ == "PartiallyFilled"@,
    {
        "PartiallyFilled"
    }

    fn allowed_events(&self) -> (v: Vec<OrderEvent>)
        ensures
            v@.len() == 3,
            v@[0]@ == (EventView::PartialFill {
                filled_qty: Real { bits: 0 },
                fill_price: Real { bits: 0 },
            }),
            v@[1]@ == (EventView::FullFill {
                filled_qty: Real { bits: 0 },
                fill_price: Real { bits: 0 },
            }),
            v@[2]@ == EventView::Cancel,
    {
        fill_events()
    }
}

impl OrderStateBehavior for TerminalState {
    fn state_name(&self) -> (s: &'static str)
        ensures
            s@ == self.name@,
    {
        self.name
    }

    fn allowed_events(&self) -> (v: Vec<OrderEvent>)
        ensures
            v@.len() == 0,
    {
        Vec::new()
    }
}

/// The behavior of a state.
pub enum Behavior {
    Pending(PendingState),
    Submitted(SubmittedState),
    PartiallyFilled(PartiallyFilledState),
    Terminal(TerminalState),
}

impl Behavior {
    /// The name of the state that the behavior belongs to.
    pub open spec fn name(self) -> Seq<char> {
        match self {
            Behavior::Pending(_) => "Pending"@,
            Behavior::Submitted(_) => "Submitted"@,
            Behavior::PartiallyFilled(_) => "PartiallyFilled"@,
            Behavior::Terminal(t) => t.name@,
        }
    }

    /// The name of the state that the behavior belongs to.
    pub fn state_name(&self) -> (s: &'static str)
        ensures
            s@ == self.name(),
    {
        match self {
            Behavior::Pending(b) => b.state_name(),
            Behavior::Submitted(b) => b.state_name(),
            Behavior::PartiallyFilled(b) => b.state_name(),
            Behavior::Terminal(b) => b.state_name(),
        }
    }
}

/// The behavior of a state.
pub fn create_behavior_for_state(state: &OrderState) -> (b: Behavior)
    ensures
        b.name() == state.name(),
        b is Terminal <==> state.terminal(),
{
    match state {
        OrderState::Pending => Behavior::Pending(PendingState),
        OrderState::Submitted => Behavior::Submitted(SubmittedState),
        OrderState::PartiallyFilled => Behavior::PartiallyFilled(PartiallyFilledState),
        OrderState::Filled => Behavior::Terminal(TerminalState { name: "Filled" }),
        OrderState::Cancelled => Behavior::Terminal(TerminalState { name: "Cancelled" }),
        OrderState::Rejected => Behavior::Terminal(TerminalState { name: "Rejected" }),
        OrderState::Expired => Behavior::Terminal(TerminalState { name: "Expired" }),
        OrderState::Replaced => Behavior::Terminal(TerminalState { name: "Replaced" }),
    }
}

/// A change of state: from, to, the event and its time.
pub type Transition = (OrderState, OrderState, OrderEvent, u64);

/// What a list of changes holds.
pub open spec fn steps(log: Seq<Transition>) -> Seq<(OrderState, OrderState, EventView, u64)> {
    Seq::new(log.len(), |i: int| (log[i].0, log[i].1, log[i].2@, log[i].3))
}

/// Whether a list of changes is one that an order can go through, from pending to `current`.
pub open spec fn is_history(
    log: Seq<(OrderState, OrderState, EventView, u64)>,
    current: OrderState,
) -> bool {
    &&& forall|i: int|
        0 <= i < log.len() ==> followers((#[trigger] log[i]).0).contains(log[i].1) && log[i].1
            == log[i].2.target()
    &&& forall|i: int, j: int|
        0 <= i && j == i + 1 && j < log.len() ==> (#[trigger] log[i]).1 == (#[trigger] log[j]).0
    &&& log.len() > 0 ==> log[0].0 == OrderState::Pending && log.last().1 == current
    &&& log.len() == 0 ==> current == OrderState::Pending
}

/// An order on its way through its states.
pub struct OrderStateMachine {
    current_state: OrderState,
    metadata: OrderMetadata,
    state_behavior: Behavior,
    transition_log: Vec<Transition>,
    transition_count: CachePaddedAtomicU64,
}

impl OrderStateMachine {
    /// The state.
    pub closed spec fn state(&self) -> OrderState {
        self.current_state
    }

    /// What is known of the order.
    pub closed spec fn known(&self) -> OrderMetadata {
        self.metadata
    }

    /// The changes so far.
    pub closed spec fn log(&self) -> Seq<(OrderState, OrderState, EventView, u64)> {
        steps(self.transition_log@)
    }

    /// The changes lead from pending to the current state by allowed steps, and are counted.
    pub closed spec fn wf(&self) -> bool {
        &&& is_history(self.log(), self.current_state)
        &&& self.metadata.transition_count == self.transition_log@.len()
        &&& self.transition_count@ == self.transition_log@.len()
        &&& self.state_behavior.name() == self.current_state.name()
    }

    /// The changes of an order are a history of allowed steps, and are counted.
    pub proof fn lemma_history(&self)
        requires
            self.wf(),
        ensures
            is_history(self.log(), self.state()),
            self.known().transition_count == self.log().len(),
    {
    }

    /// An order that is pending.
    pub fn new() -> (m: Self)
        ensures
            m.wf(),
            m.state() == OrderState::Pending,
            m.known().is_fresh(),
            m.log().len() == 0,
            came_by(&m, Seq::empty()),
    {
        let m = OrderStateMachine {
            current_state: OrderState::Pending,
            metadata: OrderMetadata::default(),
            state_behavior: Behavior::Pending(PendingState),
            transition_log: Vec::new(),
            transition_count: CachePaddedAtomicU64::new(0),
        };
        assert(m.log() =~= course(Seq::empty()).log);
        m
    }

    pub fn current_state(&self) -> (s: &OrderState)
        ensures
            *s == self.state(),
    {
        &self.current_state
    }

    pub fn metadata(&self) -> (m: &OrderMetadata)
        ensures
            *m == self.known(),
    {
        &self.metadata
    }

    pub fn transition_log(&self) -> (log: &Vec<Transition>)
        ensures
            steps(log@) == self.log(),
    {
        &self.transition_log
    }

    pub fn transition_count(&self) -> (n: u64)
        requires
            self.wf(),
        ensures
            n == self.log().len(),
    {
        self.transition_count.load()
    }

    /// Whether `after` is the machine after an event, with the result `r`: an event whose state
    /// may follow changes the state, what is known and the log, any other leaves all as it was.
    pub open spec fn applied(
        &self,
        event: EventView,
        totals: FillTotals,
        timestamp_ns: u64,
        after: &OrderStateMachine,
        r: Result<OrderState, TransitionError>,
    ) -> bool {
        let to = event.target();
        if followers(self.state()).contains(to) {
            &&& r == Ok::<OrderState, TransitionError>(to)
            &&& after.state() == to
            &&& self.known().updated(event, totals, timestamp_ns, &after.known())
            &&& after.log() == self.log().push((self.state(), to, event, timestamp_ns))
        } else {
            &&& *after == *self
            &&& r matches Err(e)
            &&& e.from == self.state()
            &&& e.to == to
            &&& e.event@ == event
            &&& e.reason@ == refusal(self.state(), to)
        }
    }

    /// Applies an event. `totals` are the figures of the order after it, where it is a fill.
    pub fn apply_event(&mut self, event: OrderEvent, totals: FillTotals, timestamp_ns: u64) -> (r:
        Result<OrderState, TransitionError>)
        requires
            old(self).wf(),
        ensures
            final(self).wf(),
            old(self).applied(event@, totals, timestamp_ns, final(self), r),
    {
        let target_state = event.target_state();
        if !self.current_state.can_transition_to(&target_state) {
            return Err(
                TransitionError {
                    from: self.current_state,
                    to: target_state,
                    event: event.duplicate(),
                    reason: refusal_text(self.current_state, target_state),
                },
            );
        }
        let ghost before = *self;
        let old_state = self.current_state;
        self.update_metadata_for_event(&event, totals, timestamp_ns);
        self.current_state = target_state;
        self.state_behavior = create_behavior_for_state(&target_state);
        let ghost e = event@;
        self.transition_log.push((old_state, target_state, event, timestamp_ns));
        assert(self.transition_log.len() == before.transition_log@.len() + 1);
        self.metadata.transition_count = self.metadata.transition_count + 1;
        self.transition_count.fetch_add(1);
        proof {
            assert(self.log() =~= before.log().push((old_state, target_state, e, timestamp_ns)));
            let log = self.log();
            assert forall|i: int| 0 <= i < log.len() implies followers(
                (#[trigger] log[i]).0,
            ).contains(log[i].1) && log[i].1 == log[i].2.target() by {
                if i < before.log().len() {
                    assert(log[i] == before.log()[i]);
                }
            }
            assert forall|i: int, j: int| 0 <= i && j == i + 1 && j < log.len() implies (
            #[trigger] log[i]).1 == (#[trigger] log[j]).0 by {
                assert(log[i] == before.log()[i]);
                if j < before.log().len() {
                    assert(log[j] == before.log()[j]);
                }
            }
        }
        Ok(target_state)
    }

    fn update_metadata_for_event(
        &mut self,
        event: &OrderEvent,
        totals: FillTotals,
        timestamp_ns: u64,
    )
        ensures
            final(self).current_state == old(self).current_state,
            final(self).transition_log == old(self).transition_log,
            final(self).transition_count == old(self).transition_count,
            final(self).state_behavior == old(self).state_behavior,
            final(self).metadata.transition_count == old(self).metadata.transition_count,
            old(self).metadata.transition_count < u64::MAX ==> old(self).metadata.updated(
                event@,
                totals,
                timestamp_ns,
                &(OrderMetadata {
                    transition_count: (old(self).metadata.transition_count + 1) as u64,
                    ..final(self).metadata
                }),
            ),
    {
        self.metadata.last_event_timestamp_ns = timestamp_ns;
        match event {
            OrderEvent::PartialFill { .. } | OrderEvent::FullFill { .. } => {
                self.metadata.avg_fill_price = totals.avg_fill_price;
                self.metadata.total_filled_qty = totals.total_filled_qty;
            },
            OrderEvent::Reject { reason } => {
                self.metadata.rejection_reason = Some(reason.clone());
            },
            _ => {},
        }
    }

    pub fn submit(&mut self, timestamp_ns: u64) -> (r: Result<OrderState, TransitionError>)
        requires
            old(self).wf(),
        ensures
            final(self).wf(),
            exists|t: FillTotals|
                #[trigger] old(self).applied(EventView::Submit, t, timestamp_ns, final(self), r),
    {
        self.apply_event(OrderEvent::Submit, FillTotals::none(), timestamp_ns)
    }

    pub fn partial_fill(
        &mut self,
        filled_qty: Real,
        fill_price: Real,
        totals: FillTotals,
        timestamp_ns: u64,
    ) -> (r: Result<OrderState, TransitionError>)
        requires
            old(self).wf(),
        ensures
            final(self).wf(),
            old(self).applied(
                (EventView::PartialFill { filled_qty, fill_price }),
                totals,
                timestamp_ns,
                final(self),
                r,
            ),
    {
        self.apply_event(OrderEvent::PartialFill { filled_qty, fill_price }, totals, timestamp_ns)
    }

    pub fn full_fill(
        &mut self,
        filled_qty: Real,
        fill_price: Real,
        totals: FillTotals,
        timestamp_ns: u64,
    ) -> (r: Result<OrderState, TransitionError>)
        requires
            old(self).wf(),
        ensures
            final(self).wf(),
            old(self).applied(
                (EventView::FullFill { filled_qty, fill_price }),
                totals,
                timestamp_ns,
                final(self),
                r,
            ),
    {
        self.apply_event(OrderEvent::FullFill { filled_qty, fill_price }, totals, timestamp_ns)
    }

    pub fn cancel(&mut self, timestamp_ns: u64) -> (r: Result<OrderState, TransitionError>)
        requires
            old(self).wf(),
        ensures
            final(self).wf(),
            exists|t: FillTotals|
                #[trigger] old(self).applied(EventView::Cancel, t, timestamp_ns, final(self), r),
    {
        self.apply_event(OrderEvent::Cancel, FillTotals::none(), timestamp_ns)
    }

    pub fn expire(&mut self, timestamp_ns: u64) -> (r: Result<OrderState, TransitionError>)
        requires
            old(self).wf(),
        ensures
            final(self).wf(),
            exists|t: FillTotals|
                #[trigger] old(self).applied(EventView::Expire, t, timestamp_ns, final(self), r),
    {
        self.apply_event(OrderEvent::Expire, FillTotals::none(), timestamp_ns)
    }

    pub fn replace(&mut self, timestamp_ns: u64) -> (r: Result<OrderState, TransitionError>)
        requires
            old(self).wf(),
        ensures
            final(self).wf(),
            exists|t: FillTotals|
                #[trigger] old(self).applied(EventView::Replace, t, timestamp_ns, final(self), r),
    {
        self.apply_event(OrderEvent::Replace, FillTotals::none(), timestamp_ns)
    }

    pub fn reject(&mut self, reason: String, timestamp_ns: u64) -> (r: Result<
        OrderState,
        TransitionError,
    >)
        requires
            old(self).wf(),
        ensures
            final(self).wf(),
            exists|t: FillTotals|
                #[trigger]
                old(self).applied(
                    (EventView::Reject { reason: reason@ }),
                    t,
                    timestamp_ns,
                    final(self),
                    r,
                ),
    {
        self.apply_event(OrderEvent::Reject { reason }, FillTotals::none(), timestamp_ns)
    }

    pub fn is_terminal(&self) -> (r: bool)
        ensures
            r == self.state().terminal(),
    {
        self.current_state.is_terminal()
    }

    pub fn is_active(&self) -> (r: bool)
        ensures
            r == !self.state().terminal(),
    {
        self.current_state.is_active()
    }
}

impl Default for OrderStateMachine {
    fn default() -> (m: Self)
        ensures
            m.wf(),
            m.state() == OrderState::Pending,
            m.known().is_fresh(),
            m.log().len() == 0,
            came_by(&m, Seq::empty()),
    {
        OrderStateMachine::new()
    }
}

/// An order that has come to its end refuses every event, and stays as it is.
pub proof fn law_terminal_refuses_all(
    m: &OrderStateMachine,
    event: EventView,
    totals: FillTotals,
    timestamp_ns: u64,
    after: &OrderStateMachine,
    r: Result<OrderState, TransitionError>,
)
    requires
        m.state().terminal(),
        m.applied(event, totals, timestamp_ns, after, r),
    ensures
        r is Err,
        *after == *m,
{
}

/// How far an order has come: its state, its changes, and how many events were accepted.
pub ghost struct Course {
    pub state: OrderState,
    pub log: Seq<(OrderState, OrderState, EventView, u64)>,
    pub accepted: nat,
}

/// Where events with their times lead an order, refused ones included.
pub open spec fn course(events: Seq<(EventView, u64)>) -> Course
    decreases events.len(),
{
    if events.len() == 0 {
        Course { state: OrderState::Pending, log: Seq::empty(), accepted: 0 }
    } else {
        let c = course(events.drop_last());
        let (event, timestamp_ns) = events.last();
        if followers(c.state).contains(event.target()) {
            Course {
                state: event.target(),
                log: c.log.push((c.state, event.target(), event, timestamp_ns)),
                accepted: c.accepted + 1,
            }
        } else {
            c
        }
    }
}

/// Whether a machine has come where events lead.
pub open spec fn came_by(m: &OrderStateMachine, events: Seq<(EventView, u64)>) -> bool {
    &&& m.wf()
    &&& m.state() == course(events).state
    &&& m.log() == course(events).log
}

/// A machine that takes one more event comes where that event leads, accepted or not.
pub proof fn law_machine_follows_course(
    m: &OrderStateMachine,
    events: Seq<(EventView, u64)>,
    event: EventView,
    totals: FillTotals,
    timestamp_ns: u64,
    after: &OrderStateMachine,
    r: Result<OrderState, TransitionError>,
)
    requires
        came_by(m, events),
        after.wf(),
        m.applied(event, totals, timestamp_ns, after, r),
    ensures
        came_by(after, events.push((event, timestamp_ns))),
        course(events.push((event, timestamp_ns))).accepted == course(events).accepted + (if r is Ok {
            1nat
        } else {
            0nat
        }),
{
    let more = events.push((event, timestamp_ns));
    assert(more.drop_last() =~= events);
    assert(more.last() == (event, timestamp_ns));
}

/// Whatever events a machine was given since it was made, its changes are a gapless chain of
/// allowed steps from pending to its state, one for each event that was accepted, and are counted.
pub proof fn law_log_is_a_chain(m: &OrderStateMachine, events: Seq<(EventView, u64)>)
    requires
        came_by(m, events),
    ensures
        is_history(m.log(), m.state()),
        m.log().len() == course(events).accepted,
        m.known().transition_count == course(events).accepted,
{
    m.lemma_history();
    lemma_course_counts(events);
}

proof fn lemma_course_counts(events: Seq<(EventView, u64)>)
    ensures
        course(events).log.len() == course(events).accepted,
    decreases events.len(),
{
    if events.len() > 0 {
        lemma_course_counts(events.drop_last());
    }
}

/// Once an order has come to its end, no later event changes anything.
pub proof fn law_end_is_final(events: Seq<(EventView, u64)>, later: Seq<(EventView, u64)>)
    requires
        course(events).state.terminal(),
    ensures
        course(events + later) == course(events),
    decreases later.len(),
{
    let all = events + later;
    if later.len() == 0 {
        assert(all =~= events);
    } else {
        law_end_is_final(events, later.drop_last());
        assert(all.drop_last() =~= events + later.drop_last());
    }
}

/// No order ever expires or is replaced, since no state leads there.
pub proof fn law_never_expired(m: &OrderStateMachine)
    requires
        m.wf(),
    ensures
        m.state() != OrderState::Expired,
        m.state() != OrderState::Replaced,
{
    m.lemma_history();
    if m.log().len() > 0 {
        let last = m.log()[m.log().len() - 1];
        assert(followers(last.0).contains(last.1));
        law_no_way_back(last.0);
    }
}

/// Which event an order takes in which state, and where it leads: a pending order is submitted or
/// rejected; a submitted one is filled, in part or as a whole, cancelled or rejected; one that was
/// filled in part is filled further, as a whole, or cancelled. Every other event is refused, whatever
/// the figures and the time, and leaves the order as it was.
pub proof fn law_events_lead_where_they_may(
    m: &OrderStateMachine,
    event: EventView,
    totals: FillTotals,
    timestamp_ns: u64,
    after: &OrderStateMachine,
    r: Result<OrderState, TransitionError>,
)
    requires
        m.applied(event, totals, timestamp_ns, after, r),
    ensures
        ({
            let s = m.state();
            let taken = match event {
                EventView::Submit => s is Pending,
                EventView::Reject { .. } => s is Pending || s is Submitted,
                EventView::PartialFill { .. } => s is Submitted || s is PartiallyFilled,
                EventView::FullFill { .. } => s is Submitted || s is PartiallyFilled,
                EventView::Cancel => s is Submitted || s is PartiallyFilled,
                EventView::Expire => false,
                EventView::Replace => false,
            };
            &&& r is Ok <==> taken
            &&& taken ==> r->Ok_0 == after.state()
            &&& taken && event is Submit ==> after.state() is Submitted
            &&& taken && event is Reject ==> after.state() is Rejected
            &&& taken && event is PartialFill ==> after.state() is PartiallyFilled
            &&& taken && event is FullFill ==> after.state() is Filled
            &&& taken && event is Cancel ==> after.state() is Cancelled
            &&& !taken ==> *after == *m && r->Err_0.from == s && r->Err_0.event@ == event
        }),
{
    assert(followers(OrderState::Pending)[0] is Submitted);
    assert(followers(OrderState::Pending)[1] is Rejected);
    assert(followers(OrderState::Submitted)[0] is PartiallyFilled);
    assert(followers(OrderState::Submitted)[1] is Filled);
    assert(followers(OrderState::Submitted)[2] is Cancelled);
    assert(followers(OrderState::Submitted)[3] is Rejected);
    assert(followers(OrderState::PartiallyFilled)[0] is PartiallyFilled);
    assert(followers(OrderState::PartiallyFilled)[1] is Filled);
    assert(followers(OrderState::PartiallyFilled)[2] is Cancelled);
}

/// What an order learns from an event that it takes: the time of the event and one change more, the
/// totals of a fill and of nothing else, and the reason of a rejection and of nothing else. The
/// change is the last of its list, and those before it stay.
pub proof fn law_event_is_noted(
    m: &OrderStateMachine,
    event: EventView,
    totals: FillTotals,
    timestamp_ns: u64,
    after: &OrderStateMachine,
    r: Result<OrderState, TransitionError>,
)
    requires
        m.applied(event, totals, timestamp_ns, after, r),
        r is Ok,
    ensures
        after.known().last_event_timestamp_ns == timestamp_ns,
        after.known().transition_count == m.known().transition_count + 1,
        event is PartialFill || event is FullFill ==> after.known().total_filled_qty
            == totals.total_filled_qty && after.known().avg_fill_price == totals.avg_fill_price,
        !(event is PartialFill) && !(event is FullFill) ==> after.known().total_filled_qty
            == m.known().total_filled_qty && after.known().avg_fill_price
            == m.known().avg_fill_price,
        event matches EventView::Reject { reason } ==> after.known().rejection_reason is Some
            && after.known().rejection_reason->0@ == reason,
        !(event is Reject) ==> (after.known().rejection_reason is Some
            <==> m.known().rejection_reason is Some),
        after.log().len() == m.log().len() + 1,
        after.log().drop_last() == m.log(),
        after.log().last().0 == m.state(),
        after.log().last().1 == after.state(),
        after.log().last().2 == event,
        after.log().last().3 == timestamp_ns,
{
    assert(after.log().drop_last() =~= m.log());
}

/// An order has come to its end just where it is filled, cancelled, rejected, expired or replaced.
pub proof fn law_ends_of_an_order(s: OrderState)
    ensures
        s.terminal() <==> s is Filled || s is Cancelled || s is Rejected || s is Expired
            || s is Replaced,
        !s.terminal() <==> s is Pending || s is Submitted || s is PartiallyFilled,
        forall|t: OrderState, r: bool|
            #![trigger call_ensures(OrderState::can_transition_to, (&s, &t), r)]
            call_ensures(OrderState::can_transition_to, (&s, &t), r) && r ==> !s.terminal() && !(t
                is Pending),
{
}

/// An event of each kind leads to the state of its own.
pub proof fn law_events_have_their_states(qty: Real, price: Real, reason: Seq<char>)
    ensures
        EventView::Submit.target() is Submitted,
        (EventView::PartialFill { filled_qty: qty, fill_price: price }).target()
            is PartiallyFilled,
        (EventView::FullFill { filled_qty: qty, fill_price: price }).target() is Filled,
        EventView::Cancel.target() is Cancelled,
        (EventView::Reject { reason }).target() is Rejected,
        EventView::Expire.target() is Expired,
        EventView::Replace.target() is Replaced,
        OrderState::Pending.name() == "Pending"@,
        OrderState::Submitted.name() == "Submitted"@,
        OrderState::PartiallyFilled.name() == "PartiallyFilled"@,
        OrderState::Filled.name() == "Filled"@,
        OrderState::Cancelled.name() == "Cancelled"@,
        OrderState::Rejected.name() == "Rejected"@,
        OrderState::Expired.name() == "Expired"@,
        OrderState::Replaced.name() == "Replaced"@,
{
}

/// A refusal says from where to where the event would have led, and what would have been allowed.
pub proof fn law_refusal_names_the_allowed(from: OrderState, to: OrderState)
    ensures
        from is Pending ==> refusal(from, to) == "Transition from "@ + "Pending"@ + " to "@ + to.name()
            + " is not allowed. Allowed: ["@ + ("Submitted"@ + ", "@ + "Rejected"@) + "]"@,
        from is Submitted ==> refusal(from, to) == "Transition from "@ + "Submitted"@ + " to "@
            + to.name() + " is not allowed. Allowed: ["@ + ("PartiallyFilled"@ + ", "@ + "Filled"@
            + ", "@ + "Cancelled"@ + ", "@ + "Rejected"@) + "]"@,
        from is PartiallyFilled ==> refusal(from, to) == "Transition from "@ + "PartiallyFilled"@
            + " to "@ + to.name() + " is not allowed. Allowed: ["@ + ("PartiallyFilled"@ + ", "@
            + "Filled"@ + ", "@ + "Cancelled"@) + "]"@,
        from.terminal() ==> refusal(from, to) == "Transition from "@ + from.name() + " to "@
            + to.name() + " is not allowed. Allowed: ["@ + Seq::<char>::empty() + "]"@,
{
    reveal_with_fuel(joined_names, 5);
    let f = followers(from);
    if f.len() > 0 {
        assert(f.drop_last().len() == f.len() - 1);
        assert forall|i: int| 0 <= i < f.len() - 1 implies f.drop_last()[i] == f[i] by {}
    }
}

} // verus!
