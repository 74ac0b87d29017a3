//! Recovery after a restart, from the broker and from the journal.

use vstd::prelude::*;
use vstd::string::StringExecFns;

use crate::execution_manager::{OrderCommand, OrderSide};
use crate::idempotency::IdempotencyStore;
use crate::journal::JournalEntry;
use crate::order_tracker::{fresh_uuid, FillFigures, OrderTracker};
use crate::portfolio::{FillValues, PortfolioManager};
use crate::quantity::Real;
use crate::str_map::StrMap;
use crate::text::{parse_u64, push_u64, split, str_eq, strip_prefix, u64_to_string};

verus! {

/// An order that is open at the broker.
#[derive(Debug, Clone)]
pub struct OpenOrder {
    pub order_id: String,
    pub symbol: String,
    pub side: OrderSide,
    pub quantity: Real,
    pub filled_qty: Real,
}

/// The word for a side in a tracked order.
pub open spec fn side_word(side: OrderSide) -> Seq<char> {
    match side {
        OrderSide::Buy => "buy"@,
        OrderSide::Sell => "sell"@,
    }
}

/// Whether `after` tracks an order of the broker under `id`: submitted, and filled in part where
/// the broker says so.
pub open spec fn rehydrated(
    before: &OrderTracker,
    info: OpenOrder,
    id: Seq<char>,
    total: Real,
    now: u64,
    after: &OrderTracker,
) -> bool {
    let o = after.orders@[id];
    let m = after.state_machines@[id];
    &&& before.order_added(o, after)
    &&& after.state_machines@ == before.state_machines@.insert(id, m)
    &&& o.order_id@ == id
    &&& o.symbol@ == info.symbol@
    &&& o.side@ == side_word(info.side)
    &&& o.quantity == info.quantity
    &&& o.limit_price is None
    &&& o.submitted_ns == now
    &&& o.correlation_id@ == info.order_id@
    &&& if info.filled_qty.positive() {
        &&& m.state() == crate::order_state_machine::OrderState::PartiallyFilled
        &&& o.status == (crate::order_tracker::OrderStatus::PartiallyFilled { filled_qty: total })
        &&& o.filled_quantity == total
    } else {
        &&& m.state() == crate::order_state_machine::OrderState::Submitted
        &&& o.status is Submitted
        &&& o.filled_quantity.bits == 0
    }
}

/// Tracks an order of the broker under a given id. `figures` are those of its fill so far.
pub fn rehydrate_order(
    tracker: &mut OrderTracker,
    info: &OpenOrder,
    id: &str,
    figures: &FillFigures,
    now: u64,
)
    requires
        old(tracker).wf(),
    ensures
        final(tracker).wf(),
        rehydrated(
            old(tracker),
            *info,
            id@,
            figures.totals.total_filled_qty,
            now,
            final(tracker),
        ),
{
    let side = match info.side {
        OrderSide::Buy => "buy",
        OrderSide::Sell => "sell",
    };
    tracker.create_order_with_id(
        id,
        info.symbol.as_str(),
        side,
        info.quantity,
        None,
        info.order_id.as_str(),
        now,
    );
    let _ = tracker.submit_order(id, now);
    assert(tracker.orders@ =~= old(tracker).orders@.insert(id@, tracker.orders@[id@]));
    assert(tracker.state_machines@ =~= old(tracker).state_machines@.insert(
        id@,
        tracker.state_machines@[id@],
    ));
    if info.filled_qty.is_positive() {
        let _ = tracker.partial_fill_order(id, info.filled_qty, Real { bits: 0 }, figures, now);
        assert(tracker.orders@ =~= old(tracker).orders@.insert(id@, tracker.orders@[id@]));
        assert(tracker.state_machines@ =~= old(tracker).state_machines@.insert(
            id@,
            tracker.state_machines@[id@],
        ));
    }
}

/// Tracks an order of the broker under a fresh id.
pub fn take_over_order(
    tracker: &mut OrderTracker,
    info: &OpenOrder,
    figures: &FillFigures,
    now: u64,
) -> (id: String)
    requires
        old(tracker).wf(),
    ensures
        final(tracker).wf(),
        crate::order_tracker::is_uuid_text(id@),
        crate::order_tracker::drawn(id@),
        rehydrated(
            old(tracker),
            *info,
            id@,
            figures.totals.total_filled_qty,
            now,
            final(tracker),
        ),
{
    let id = fresh_uuid();
    proof {
        crate::order_tracker::lemma_drawn(id);
    }
    rehydrate_order(tracker, info, id.as_str(), figures, now);
    id
}

/// What the journal says of an order.
#[verifier::ext_equal]
pub struct OrderFields {
    pub intent_id: u64,
    pub status: Seq<char>,
    pub side: Seq<char>,
    pub qty_text: Option<Seq<char>>,
    pub order_id: Seq<char>,
}

/// Takes a position of the broker over: a fill of its whole size, bought where it is long. `equity`
/// is the equity after it.
pub fn take_over_position(
    portfolio: &mut PortfolioManager,
    symbol: &str,
    quantity: Real,
    price: Real,
    values: FillValues,
    equity: Real,
)
    requires
        old(portfolio).wf(),
    ensures
        final(portfolio).wf(),
        old(portfolio).filled(
            symbol@,
            price,
            quantity.absolute(),
            quantity.positive(),
            values,
            equity,
            final(portfolio),
        ),
{
    portfolio.on_fill(symbol, price, quantity.abs(), quantity.is_positive(), values, equity);
}

/// The number of a text, zero where it is none.
pub open spec fn number_or_zero(s: Seq<char>) -> u64 {
    match crate::text::parsed_u64(s) {
        Ok(n) => n as u64,
        Err(_) => 0,
    }
}

/// The text after a prefix.
pub open spec fn after_prefix(s: Seq<char>, p: Seq<char>) -> Seq<char> {
    s.skip(p.len() as int)
}

/// The fields after one more part `name=value`. Parts of other names change nothing.
pub open spec fn with_part(f: OrderFields, part: Seq<char>) -> OrderFields {
    if crate::text::has_prefix(part, "intent_id="@) {
        OrderFields { intent_id: number_or_zero(after_prefix(part, "intent_id="@)), ..f }
    } else if crate::text::has_prefix(part, "status="@) {
        OrderFields { status: after_prefix(part, "status="@), ..f }
    } else if crate::text::has_prefix(part, "side="@) {
        OrderFields { side: after_prefix(part, "side="@), ..f }
    } else if crate::text::has_prefix(part, "qty="@) {
        OrderFields { qty_text: Some(after_prefix(part, "qty="@)), ..f }
    } else if crate::text::has_prefix(part, "order_id="@) {
        OrderFields { order_id: after_prefix(part, "order_id="@), ..f }
    } else {
        f
    }
}

/// No field is given.
pub open spec fn no_fields() -> OrderFields {
    OrderFields {
        intent_id: 0,
        status: Seq::empty(),
        side: Seq::empty(),
        qty_text: None,
        order_id: Seq::empty(),
    }
}

/// The fields of a list of parts.
pub open spec fn fields_of(parts: Seq<Seq<char>>) -> OrderFields
    decreases parts.len(),
{
    if parts.len() == 0 {
        no_fields()
    } else {
        with_part(fields_of(parts.drop_last()), parts.last())
    }
}

/// What the journal says of an order.
#[derive(Debug)]
pub struct OrderData {
    pub intent_id: u64,
    pub status: String,
    pub side: String,
    pub qty_text: Option<String>,
    pub order_id: String,
}

impl View for OrderData {
    type V = OrderFields;

    open spec fn view(&self) -> OrderFields {
        OrderFields {
            intent_id: self.intent_id,
            status: self.status@,
            side: self.side@,
            qty_text: crate::order_state_machine::opt_view(self.qty_text),
            order_id: self.order_id@,
        }
    }
}

/// Reads what the journal says of an order.
pub fn parse_order_data(data: &str) -> (r: OrderData)
    ensures
        r@ == fields_of(crate::text::split_all(data@, ',')),
{
    let parts = split(data, ',');
    let ghost all = crate::text::split_all(data@, ',');
    let mut r = OrderData {
        intent_id: 0,
        status: String::new(),
        side: String::new(),
        qty_text: None,
        order_id: String::new(),
    };
    let mut i: usize = 0;
    assert(all.take(0) =~= Seq::<Seq<char>>::empty());
    assert(r@ =~= no_fields());
    while i < parts.len()
        invariant
            i <= parts@.len(),
            crate::text::views(parts@) == all,
            parts@.len() == all.len(),
            r@ == fields_of(all.take(i as int)),
        decreases parts@.len() - i,
    {
        let part = parts[i].as_str();
        assert(part@ == all[i as int]);
        assert(all.take(i + 1).drop_last() =~= all.take(i as int));
        match strip_prefix(part, "intent_id=") {
            Some(v) => {
                r.intent_id = match parse_u64(v.as_str()) {
                    Ok(n) => n,
                    Err(_) => 0,
                };
            },
            None => match strip_prefix(part, "status=") {
                Some(v) => {
                    r.status = v;
                },
                None => match strip_prefix(part, "side=") {
                    Some(v) => {
                        r.side = v;
                    },
                    None => match strip_prefix(part, "qty=") {
                        Some(v) => {
                            r.qty_text = Some(v);
                        },
                        None => match strip_prefix(part, "order_id=") {
                            Some(v) => {
                                r.order_id = v;
                            },
                            None => {},
                        },
                    },
                },
            },
        }
        i += 1;
        assert(r@ =~= fields_of(all.take(i as int)));
    }
    assert(all.take(all.len() as int) =~= all);
    r
}

/// What recovery does for one entry of the journal.
pub enum StepView {
    /// The order never reached the broker: submit it again.
    Retry {
        symbol: Seq<char>,
        order_id: Seq<char>,
        side: OrderSide,
        qty_text: Option<Seq<char>>,
        intent_id: u64,
    },
    /// The order reached the broker: remember its intent.
    Mark { symbol: Seq<char>, intent_id: u64 },
}

/// What an entry of the journal says of an order.
pub open spec fn order_fields(e: crate::journal::Record) -> OrderFields {
    fields_of(crate::text::split_all(e.data, ','))
}

/// Whether an entry of the journal says that the broker took the order of an intent.
pub open spec fn is_submission(
    e: crate::journal::Record,
    symbol: Seq<char>,
    intent_id: u64,
) -> bool {
    &&& e.word == "ORDER"@
    &&& e.subject->0 == symbol
    &&& order_fields(e).status == "Submitted"@
    &&& order_fields(e).intent_id == intent_id
}

/// Whether the journal says that the broker took the order of an intent.
pub open spec fn reached_broker(
    entries: Seq<crate::journal::Record>,
    symbol: Seq<char>,
    intent_id: u64,
) -> bool {
    exists|i: int|
        0 <= i < entries.len() && is_submission(#[trigger] entries[i], symbol, intent_id)
}

/// What recovery does for an order that the journal tells of, where `known` are the symbols that
/// are traded and `reached` tells whether the broker took it. One that it took is not submitted
/// again.
pub open spec fn step_for(
    symbol: Seq<char>,
    f: OrderFields,
    known: Set<Seq<char>>,
    reached: bool,
) -> Option<StepView> {
    if !known.contains(symbol) {
        None
    } else if f.status == "Pending"@ {
        if reached {
            None
        } else {
            Some(
                StepView::Retry {
                    symbol,
                    order_id: f.order_id,
                    side: if f.side == "Buy"@ {
                        OrderSide::Buy
                    } else {
                        OrderSide::Sell
                    },
                    qty_text: f.qty_text,
                    intent_id: f.intent_id,
                },
            )
        }
    } else if f.status == "Submitted"@ {
        Some(StepView::Mark { symbol, intent_id: f.intent_id })
    } else {
        None
    }
}

/// What recovery does for the entries of `part`, in their order, where the whole journal is `all`.
pub open spec fn steps_among(
    all: Seq<crate::journal::Record>,
    part: Seq<crate::journal::Record>,
    known: Set<Seq<char>>,
) -> Seq<StepView>
    decreases part.len(),
{
    if part.len() == 0 {
        Seq::empty()
    } else {
        let front = steps_among(all, part.drop_last(), known);
        let last = part.last();
        let f = order_fields(last);
        if last.word == "ORDER"@ {
            match step_for(
                last.subject->0,
                f,
                known,
                reached_broker(all, last.subject->0, f.intent_id),
            ) {
                Some(s) => front.push(s),
                None => front,
            }
        } else {
            front
        }
    }
}

/// What recovery does for a list of entries, in their order.
pub open spec fn steps_for(
    entries: Seq<crate::journal::Record>,
    known: Set<Seq<char>>,
) -> Seq<StepView> {
    steps_among(entries, entries, known)
}

/// The number of entries with a word.
pub open spec fn count_word(entries: Seq<crate::journal::Record>, word: Seq<char>) -> nat
    decreases entries.len(),
{
    if entries.len() == 0 {
        0
    } else {
        count_word(entries.drop_last(), word) + (if entries.last().word == word {
            1nat
        } else {
            0nat
        })
    }
}

/// What recovery does for one entry of the journal.
#[derive(Debug)]
pub enum RecoveryStep {
    Retry {
        symbol: String,
        order_id: String,
        side: OrderSide,
        qty_text: Option<String>,
        intent_id: u64,
    },
    Mark { symbol: String, intent_id: u64 },
}

impl View for RecoveryStep {
    type V = StepView;

    open spec fn view(&self) -> StepView {
        match self {
            RecoveryStep::Retry { symbol, order_id, side, qty_text, intent_id } => StepView::Retry {
                symbol: symbol@,
                order_id: order_id@,
                side: *side,
                qty_text: crate::order_state_machine::opt_view(*qty_text),
                intent_id: *intent_id,
            },
            RecoveryStep::Mark { symbol, intent_id } => StepView::Mark {
                symbol: symbol@,
                intent_id: *intent_id,
            },
        }
    }
}

/// What a list of steps holds.
pub open spec fn step_views(v: Seq<RecoveryStep>) -> Seq<StepView> {
    Seq::new(v.len(), |i: int| v[i]@)
}

/// What recovery does, and how many orders and fills the journal tells of.
#[derive(Debug)]
pub struct RecoveryPlan {
    pub steps: Vec<RecoveryStep>,
    pub replayed_orders: usize,
    pub replayed_fills: usize,
}

/// Whether a list of submissions, by symbol and intent, holds one.
pub open spec fn listed(v: Seq<(String, u64)>, symbol: Seq<char>, intent_id: u64) -> bool {
    exists|i: int| 0 <= i < v.len() && (#[trigger] v[i]).0@ == symbol && v[i].1 == intent_id
}

/// The submissions that the journal tells of, by symbol and intent.
fn submissions(entries: &Vec<JournalEntry>) -> (v: Vec<(String, u64)>)
    ensures
        forall|s: Seq<char>, n: u64| #[trigger]
            listed(v@, s, n) == reached_broker(crate::journal::records(entries@), s, n),
{
    let ghost all = crate::journal::records(entries@);
    let mut v: Vec<(String, u64)> = Vec::new();
    let mut i: usize = 0;
    while i < entries.len()
        invariant
            i <= entries@.len(),
            all == crate::journal::records(entries@),
            all.len() == entries@.len(),
            forall|s: Seq<char>, n: u64| #[trigger]
                listed(v@, s, n) == reached_broker(all.take(i as int), s, n),
        decreases entries@.len() - i,
    {
        let ghost before = v@;
        proof {
            lemma_order_words();
            assert(all[i as int] == entries@[i as int]@);
        }
        let mut found = false;
        match &entries[i] {
            JournalEntry::Order { symbol, timestamp_ns: _, data } => {
                let d = parse_order_data(data.as_str());
                if str_eq(d.status.as_str(), "Submitted") {
                    v.push((symbol.clone(), d.intent_id));
                    found = true;
                }
            },
            _ => {},
        }
        proof {
            let e = all[i as int];
            assert forall|s: Seq<char>, n: u64| #[trigger]
                listed(v@, s, n) == reached_broker(all.take(i + 1), s, n) by {
                lemma_reached_push(all, i as int, s, n);
                assert(listed(before, s, n) == reached_broker(all.take(i as int), s, n));
                assert(is_submission(e, s, n) ==> found);
                if found {
                    lemma_listed_push(before, v@.last(), s, n);
                    assert(v@ =~= before.push(v@.last()));
                }
            }
        }
        i += 1;
    }
    assert(all.take(all.len() as int) =~= all);
    v
}

proof fn lemma_reached_push(all: Seq<crate::journal::Record>, i: int, s: Seq<char>, n: u64)
    requires
        0 <= i < all.len(),
    ensures
        reached_broker(all.take(i + 1), s, n) == (reached_broker(all.take(i), s, n)
            || is_submission(all[i], s, n)),
{
    let a = all.take(i);
    let b = all.take(i + 1);
    if reached_broker(a, s, n) {
        let j = choose|j: int| 0 <= j < a.len() && is_submission(#[trigger] a[j], s, n);
        assert(is_submission(b[j], s, n));
    }
    if is_submission(all[i], s, n) {
        assert(is_submission(b[i], s, n));
    }
    if reached_broker(b, s, n) {
        let j = choose|j: int| 0 <= j < b.len() && is_submission(#[trigger] b[j], s, n);
        if j < i {
            assert(is_submission(a[j], s, n));
        }
    }
}

proof fn lemma_listed_push(v: Seq<(String, u64)>, x: (String, u64), s: Seq<char>, n: u64)
    ensures
        listed(v.push(x), s, n) == (listed(v, s, n) || (x.0@ == s && x.1 == n)),
{
    let w = v.push(x);
    if listed(v, s, n) {
        let j = choose|j: int| 0 <= j < v.len() && (#[trigger] v[j]).0@ == s && v[j].1 == n;
        assert(w[j].0@ == s && w[j].1 == n);
    }
    if x.0@ == s && x.1 == n {
        assert(w[v.len() as int].0@ == s);
    }
    if listed(w, s, n) {
        let j = choose|j: int| 0 <= j < w.len() && (#[trigger] w[j]).0@ == s && w[j].1 == n;
        if j < v.len() {
            assert(v[j].0@ == s);
        }
    }
}

fn is_listed(v: &Vec<(String, u64)>, symbol: &str, intent_id: u64) -> (r: bool)
    ensures
        r == listed(v@, symbol@, intent_id),
{
    let mut i: usize = 0;
    while i < v.len()
        invariant
            i <= v@.len(),
            forall|j: int|
                0 <= j < i ==> !((#[trigger] v@[j]).0@ == symbol@ && v@[j].1 == intent_id),
        decreases v@.len() - i,
    {
        if v[i].1 == intent_id && str_eq(v[i].0.as_str(), symbol) {
            assert(v@[i as int].0@ == symbol@);
            return true;
        }
        i += 1;
    }
    false
}

fn order_step(
    symbol: &str,
    data: &str,
    known: &StrMap<()>,
    submitted: &Vec<(String, u64)>,
) -> (r: Option<RecoveryStep>)
    requires
        known.wf(),
    ensures
        ({
            let f = fields_of(crate::text::split_all(data@, ','));
            match step_for(symbol@, f, known@.dom(), listed(submitted@, symbol@, f.intent_id)) {
                Some(s) => r matches Some(x) && x@ == s,
                None => r is None,
            }
        }),
{
    let d = parse_order_data(data);
    proof {
        reveal_strlit("Pending");
        reveal_strlit("Submitted");
        assert("Pending"@.len() != "Submitted"@.len());
    }
    if !known.contains_key(symbol) {
        None
    } else if str_eq(d.status.as_str(), "Pending") {
        if is_listed(submitted, symbol, d.intent_id) {
            return None;
        }
        let side = if str_eq(d.side.as_str(), "Buy") {
            OrderSide::Buy
        } else {
            OrderSide::Sell
        };
        Some(
            RecoveryStep::Retry {
                symbol: symbol.to_owned(),
                order_id: d.order_id,
                side,
                qty_text: d.qty_text,
                intent_id: d.intent_id,
            },
        )
    } else if str_eq(d.status.as_str(), "Submitted") {
        Some(RecoveryStep::Mark { symbol: symbol.to_owned(), intent_id: d.intent_id })
    } else {
        None
    }
}

proof fn lemma_order_words()
    ensures
        "ORDER"@ != "TICK"@,
        "ORDER"@ != "INTENT"@,
        "ORDER"@ != "FILL"@,
        "ORDER"@ != "SNAPSHOT"@,
        "ORDER"@ != "EVENT"@,
        "FILL"@ != "TICK"@,
        "FILL"@ != "INTENT"@,
        "FILL"@ != "SNAPSHOT"@,
        "FILL"@ != "EVENT"@,
{
    reveal_strlit("ORDER");
    reveal_strlit("TICK");
    reveal_strlit("INTENT");
    reveal_strlit("FILL");
    reveal_strlit("SNAPSHOT");
    reveal_strlit("EVENT");
    assert("ORDER"@.len() == 5 && "TICK"@.len() == 4 && "INTENT"@.len() == 6 && "FILL"@.len() == 4
        && "SNAPSHOT"@.len() == 8 && "EVENT"@.len() == 5);
    assert("ORDER"@[0] == 'O' && "EVENT"@[0] == 'E' && "FILL"@[0] == 'F' && "TICK"@[0] == 'T');
}

/// Plans the recovery from the entries of the journal.
pub fn plan_recovery(entries: &Vec<JournalEntry>, known: &StrMap<()>) -> (plan: RecoveryPlan)
    requires
        known.wf(),
    ensures
        step_views(plan.steps@) == steps_for(
            crate::journal::records(entries@),
            known@.dom(),
        ),
        plan.replayed_orders == count_word(crate::journal::records(entries@), "ORDER"@),
        plan.replayed_fills == count_word(crate::journal::records(entries@), "FILL"@),
{
    let ghost all = crate::journal::records(entries@);
    let submitted = submissions(entries);
    let mut steps: Vec<RecoveryStep> = Vec::new();
    let mut replayed_orders: usize = 0;
    let mut replayed_fills: usize = 0;
    let mut i: usize = 0;
    proof {
        lemma_order_words();
        assert(all.take(0) =~= Seq::<crate::journal::Record>::empty());
        assert(step_views(steps@) =~= Seq::<StepView>::empty());
    }
    while i < entries.len()
        invariant
            known.wf(),
            i <= entries@.len(),
            all == crate::journal::records(entries@),
            forall|s: Seq<char>, n: u64| #[trigger]
                listed(submitted@, s, n) == reached_broker(all, s, n),
            step_views(steps@) == steps_among(all, all.take(i as int), known@.dom()),
            replayed_orders <= i,
            replayed_fills <= i,
            replayed_orders == count_word(all.take(i as int), "ORDER"@),
            replayed_fills == count_word(all.take(i as int), "FILL"@),
        decreases entries@.len() - i,
    {
        let ghost before = steps@;
        proof {
            lemma_order_words();
            assert(all.take(i + 1).drop_last() =~= all.take(i as int));
            assert(all.take(i + 1).last() == entries@[i as int]@);
        }
        match &entries[i] {
            JournalEntry::Order { symbol, timestamp_ns: _, data } => {
                match order_step(symbol.as_str(), data.as_str(), known, &submitted) {
                    Some(s) => {
                        steps.push(s);
                        assert(step_views(steps@) =~= step_views(before).push(s@));
                    },
                    None => {},
                }
                replayed_orders += 1;
            },
            JournalEntry::Fill { .. } => {
                replayed_fills += 1;
            },
            _ => {},
        }
        i += 1;
    }
    assert(all.take(all.len() as int) =~= all);
    RecoveryPlan { steps, replayed_orders, replayed_fills }
}

/// The command that submits an order again; `quantity` is the number of its text, or zero.
pub fn retry_command(
    symbol: &str,
    order_id: &str,
    side: OrderSide,
    quantity: Real,
    intent_id: u64,
) -> (c: OrderCommand)
    ensures
        c.order_id@ == order_id@,
        c.symbol@ == symbol@,
        c.side == side,
        c.quantity == quantity,
        c.correlation_id@ == crate::text::decimal(intent_id as nat),
        c.trace_id == intent_id,
{
    OrderCommand {
        order_id: order_id.to_owned(),
        symbol: symbol.to_owned(),
        side,
        quantity,
        correlation_id: u64_to_string(intent_id),
        trace_id: intent_id,
    }
}

/// What is kept for an intent that was found in the journal.
pub open spec fn recovered_as(execution_id: Option<&str>) -> Seq<char> {
    match execution_id {
        Some(id) => id@,
        None => "recovered"@,
    }
}

/// Remembers the intent of an order that reached the broker, with its id there or as recovered
/// where that is not known. The result goes to the file of processed intents.
pub fn mark_recovered(
    store: &mut IdempotencyStore,
    intent_id: u64,
    execution_id: Option<&str>,
) -> (line: Option<String>)
    requires
        old(store).wf(),
        crate::idempotency::has_room(
            old(store)@,
            crate::execution_manager::intent_key(intent_id),
            recovered_as(execution_id),
        ),
    ensures
        final(store).wf(),
        final(store).limit() == old(store).limit(),
        final(store).memory_limit() == old(store).memory_limit(),
        final(store)@ == crate::idempotency::marked(
            old(store)@,
            old(store).limit() as int,
            old(store).memory_limit() as int,
            crate::execution_manager::intent_key(intent_id),
            recovered_as(execution_id),
        ),
        match line {
            Some(l) => {
                &&& crate::idempotency::entry_bytes(
                    crate::execution_manager::intent_key(intent_id),
                    recovered_as(execution_id),
                ) <= old(store).memory_limit()
                &&& l@ == crate::idempotency::entry_line(
                    crate::execution_manager::intent_key(intent_id),
                    recovered_as(execution_id),
                )
            },
            None => crate::idempotency::entry_bytes(
                crate::execution_manager::intent_key(intent_id),
                recovered_as(execution_id),
            ) > old(store).memory_limit(),
        },
{
    let mut key = "intent-".to_owned();
    push_u64(&mut key, intent_id);
    let result = match execution_id {
        Some(id) => id.to_owned(),
        None => "recovered".to_owned(),
    };
    store.mark_processed(key, result)
}

/// The names of `a` that are not in `b`.
pub open spec fn missing_in(a: Seq<Seq<char>>, b: Seq<Seq<char>>) -> Seq<Seq<char>>
    decreases a.len(),
{
    if a.len() == 0 {
        Seq::empty()
    } else if b.contains(a.last()) {
        missing_in(a.drop_last(), b)
    } else {
        missing_in(a.drop_last(), b).push(a.last())
    }
}

fn holds(v: &Vec<String>, s: &str) -> (r: bool)
    ensures
        r == crate::text::views(v@).contains(s@),
{
    let ghost all = crate::text::views(v@);
    let mut i: usize = 0;
    while i < v.len()
        invariant
            i <= v@.len(),
            all == crate::text::views(v@),
            forall|j: int| 0 <= j < i ==> all[j] != s@,
        decreases v@.len() - i,
    {
        if str_eq(v[i].as_str(), s) {
            assert(all[i as int] == s@);
            return true;
        }
        i += 1;
    }
    false
}

/// The names of `a` that are not in `b`, in their order.
pub fn names_missing(a: &Vec<String>, b: &Vec<String>) -> (r: Vec<String>)
    ensures
        crate::text::views(r@) == missing_in(crate::text::views(a@), crate::text::views(b@)),
{
    broadcast use crate::text::lemma_views_push;

    let ghost all = crate::text::views(a@);
    let mut r: Vec<String> = Vec::new();
    let mut i: usize = 0;
    assert(all.take(0) =~= Seq::<Seq<char>>::empty());
    assert(crate::text::views(r@) =~= Seq::<Seq<char>>::empty());
    while i < a.len()
        invariant
            i <= a@.len(),
            all == crate::text::views(a@),
            crate::text::views(r@) == missing_in(all.take(i as int), crate::text::views(b@)),
        decreases a@.len() - i,
    {
        assert(all.take(i + 1).drop_last() =~= all.take(i as int));
        assert(all.take(i + 1).last() == a@[i as int]@);
        if !holds(b, a[i].as_str()) {
            r.push(a[i].clone());
        }
        i += 1;
    }
    assert(all.take(all.len() as int) =~= all);
    r
}

/// How the broker and the engine differ.
#[derive(Debug)]
pub struct DriftReport {
    /// Positions that only the broker has.
    pub broker_only: Vec<String>,
    /// Positions that only the engine has.
    pub local_only: Vec<String>,
    pub open_counts_differ: bool,
}

/// Compares the positions and the number of open orders of the broker with those of the engine.
pub fn compare_with_broker(
    broker: &Vec<String>,
    local: &Vec<String>,
    broker_open: usize,
    local_open: usize,
) -> (r: DriftReport)
    ensures
        crate::text::views(r.broker_only@) == missing_in(
            crate::text::views(broker@),
            crate::text::views(local@),
        ),
        crate::text::views(r.local_only@) == missing_in(
            crate::text::views(local@),
            crate::text::views(broker@),
        ),
        r.open_counts_differ == (broker_open != local_open),
{
    DriftReport {
        broker_only: names_missing(broker, local),
        local_only: names_missing(local, broker),
        open_counts_differ: broker_open != local_open,
    }
}

// ---------------------------------------------------------------------------
// What the execution wrote is what recovery reads
// ---------------------------------------------------------------------------

proof fn lemma_named_part(name: Seq<char>, value: Seq<char>)
    ensures
        crate::text::has_prefix(name + value, name),
        after_prefix(name + value, name) == value,
{
    assert((name + value).take(name.len() as int) =~= name);
    assert((name + value).skip(name.len() as int) =~= value);
}

proof fn lemma_no_prefix(s: Seq<char>, p: Seq<char>, i: int)
    requires
        0 <= i < p.len(),
        i < s.len(),
        s[i] != p[i],
    ensures
        !crate::text::has_prefix(s, p),
{
    if crate::text::has_prefix(s, p) {
        assert(s.take(p.len() as int)[i] == p[i]);
    }
}

proof fn lemma_prefix_heads()
    ensures
        "intent_id="@.len() == 10 && "intent_id="@[0] == 'i',
        "status="@.len() == 7 && "status="@[0] == 's' && "status="@[1] == 't',
        "side="@.len() == 5 && "side="@[0] == 's' && "side="@[1] == 'i',
        "qty="@.len() == 4 && "qty="@[0] == 'q',
        "order_id="@.len() == 9 && "order_id="@[0] == 'o',
        "request_id="@.len() == 11 && "request_id="@[0] == 'r',
        "execution_id="@.len() == 13 && "execution_id="@[0] == 'e',
        !"intent_id="@.contains(','),
        !"status="@.contains(','),
        !"side="@.contains(','),
        !"qty="@.contains(','),
        !"order_id="@.contains(','),
        !"request_id="@.contains(','),
        !"execution_id="@.contains(','),
{
    reveal_strlit("intent_id=");
    reveal_strlit("status=");
    reveal_strlit("side=");
    reveal_strlit("qty=");
    reveal_strlit("order_id=");
    reveal_strlit("request_id=");
    reveal_strlit("execution_id=");
}

/// How each part changes the fields.
proof fn lemma_with_parts(f: OrderFields, v: Seq<char>)
    ensures
        with_part(f, "intent_id="@ + v) == (OrderFields { intent_id: number_or_zero(v), ..f }),
        with_part(f, "status="@ + v) == (OrderFields { status: v, ..f }),
        with_part(f, "side="@ + v) == (OrderFields { side: v, ..f }),
        with_part(f, "qty="@ + v) == (OrderFields { qty_text: Some(v), ..f }),
        with_part(f, "order_id="@ + v) == (OrderFields { order_id: v, ..f }),
        with_part(f, "request_id="@ + v) == f,
        with_part(f, "execution_id="@ + v) == f,
{
    lemma_prefix_heads();
    lemma_named_part("intent_id="@, v);
    lemma_named_part("status="@, v);
    lemma_named_part("side="@, v);
    lemma_named_part("qty="@, v);
    lemma_named_part("order_id="@, v);
    let st = "status="@ + v;
    let sd = "side="@ + v;
    let q = "qty="@ + v;
    let o = "order_id="@ + v;
    let r = "request_id="@ + v;
    let x = "execution_id="@ + v;
    lemma_no_prefix(st, "intent_id="@, 0);
    lemma_no_prefix(sd, "intent_id="@, 0);
    lemma_no_prefix(sd, "status="@, 1);
    lemma_no_prefix(q, "intent_id="@, 0);
    lemma_no_prefix(q, "status="@, 0);
    lemma_no_prefix(q, "side="@, 0);
    lemma_no_prefix(o, "intent_id="@, 0);
    lemma_no_prefix(o, "status="@, 0);
    lemma_no_prefix(o, "side="@, 0);
    lemma_no_prefix(o, "qty="@, 0);
    lemma_no_prefix(r, "intent_id="@, 0);
    lemma_no_prefix(r, "status="@, 0);
    lemma_no_prefix(r, "side="@, 0);
    lemma_no_prefix(r, "qty="@, 0);
    lemma_no_prefix(r, "order_id="@, 0);
    lemma_no_prefix(x, "intent_id="@, 0);
    lemma_no_prefix(x, "status="@, 0);
    lemma_no_prefix(x, "side="@, 0);
    lemma_no_prefix(x, "qty="@, 0);
    lemma_no_prefix(x, "order_id="@, 0);
}

proof fn lemma_no_comma(a: Seq<char>, b: Seq<char>)
    requires
        !a.contains(','),
        !b.contains(','),
    ensures
        !(a + b).contains(','),
{
    let s = a + b;
    if s.contains(',') {
        let i = s.index_of(',');
        if i < a.len() {
            assert(a[i] == ',');
        } else {
            assert(b[i - a.len()] == ',');
        }
    }
}

proof fn lemma_no_comma_decimal(n: nat)
    ensures
        !crate::text::decimal(n).contains(','),
{
    crate::text::lemma_decimal_digits(n);
    let d = crate::text::decimal(n);
    if d.contains(',') {
        let i = d.index_of(',');
        assert(crate::text::is_digit(d[i]));
    }
}

proof fn lemma_one_part(s: Seq<char>, n: nat)
    requires
        n >= 1,
        !s.contains(','),
    ensures
        crate::text::split_parts(s, n, ',') == seq![s],
{
    crate::text::lemma_first_index(s, ',');
    let k = crate::text::first_index(s, ',');
    if 0 <= k < s.len() {
        assert(s[k] == ',');
        assert(s.contains(s[k]));
    }
}

/// The parts of what the journal says of an order, up to its status.
pub open spec fn order_parts(
    intent_id: u64,
    order_id: Seq<char>,
    side: OrderSide,
    qty_text: Seq<char>,
    request_id: u64,
) -> Seq<Seq<char>> {
    seq![
        "intent_id="@ + crate::text::decimal(intent_id as nat),
        "order_id="@ + order_id,
        "side="@ + side.name(),
        "qty="@ + qty_text,
        "request_id="@ + crate::text::decimal(request_id as nat),
    ]
}

/// How the text of an order splits, where `rest` follows its last field name.
proof fn lemma_order_split(
    intent_id: u64,
    order_id: Seq<char>,
    side: OrderSide,
    qty_text: Seq<char>,
    request_id: u64,
    rest: Seq<char>,
    n: nat,
)
    requires
        n >= 6,
        !order_id.contains(','),
        !qty_text.contains(','),
    ensures
        crate::text::split_parts(
            crate::execution_manager::order_data(
                intent_id,
                order_id,
                side,
                qty_text,
                request_id,
            ) + rest,
            n,
            ',',
        ) == order_parts(intent_id, order_id, side, qty_text, request_id)
            + crate::text::split_parts("status="@ + rest, (n - 5) as nat, ','),
{
    lemma_prefix_heads();
    lemma_no_comma_decimal(intent_id as nat);
    lemma_no_comma_decimal(request_id as nat);
    reveal_strlit("Buy");
    reveal_strlit("Sell");
    assert(!side.name().contains(','));
    let p = order_parts(intent_id, order_id, side, qty_text, request_id);
    lemma_no_comma("intent_id="@, crate::text::decimal(intent_id as nat));
    lemma_no_comma("order_id="@, order_id);
    lemma_no_comma("side="@, side.name());
    lemma_no_comma("qty="@, qty_text);
    lemma_no_comma("request_id="@, crate::text::decimal(request_id as nat));
    let t5 = "status="@ + rest;
    let t4 = p[4].push(',') + t5;
    let t3 = p[3].push(',') + t4;
    let t2 = p[2].push(',') + t3;
    let t1 = p[1].push(',') + t2;
    let t0 = p[0].push(',') + t1;
    let whole = crate::execution_manager::order_data(
        intent_id,
        order_id,
        side,
        qty_text,
        request_id,
    ) + rest;
    lemma_order_text(intent_id, order_id, side, qty_text, request_id, rest);
    assert(whole == t0);
    crate::text::lemma_split_first(p[4], t5, (n - 4) as nat, ',');
    crate::text::lemma_split_first(p[3], t4, (n - 3) as nat, ',');
    crate::text::lemma_split_first(p[2], t3, (n - 2) as nat, ',');
    crate::text::lemma_split_first(p[1], t2, (n - 1) as nat, ',');
    crate::text::lemma_split_first(p[0], t1, n, ',');
    let tail = crate::text::split_parts(t5, (n - 5) as nat, ',');
    assert(crate::text::split_parts(t0, n, ',') =~= p + tail);
}

/// The text of an order is its parts, with commas between them.
proof fn lemma_order_text(
    intent_id: u64,
    order_id: Seq<char>,
    side: OrderSide,
    qty_text: Seq<char>,
    request_id: u64,
    rest: Seq<char>,
)
    ensures
        crate::execution_manager::order_data(intent_id, order_id, side, qty_text, request_id)
            + rest == {
            let p = order_parts(intent_id, order_id, side, qty_text, request_id);
            p[0].push(',') + (p[1].push(',') + (p[2].push(',') + (p[3].push(',') + (p[4].push(',')
                + ("status="@ + rest)))))
        },
{
    reveal_strlit("intent_id=");
    reveal_strlit("order_id=");
    reveal_strlit("side=");
    reveal_strlit("qty=");
    reveal_strlit("request_id=");
    reveal_strlit("status=");
    reveal_strlit(",order_id=");
    reveal_strlit(",side=");
    reveal_strlit(",qty=");
    reveal_strlit(",request_id=");
    reveal_strlit(",status=");
    assert(",order_id="@ =~= seq![','] + "order_id="@);
    assert(",side="@ =~= seq![','] + "side="@);
    assert(",qty="@ =~= seq![','] + "qty="@);
    assert(",request_id="@ =~= seq![','] + "request_id="@);
    assert(",status="@ =~= seq![','] + "status="@);
    let p = order_parts(intent_id, order_id, side, qty_text, request_id);
    let c = seq![','];
    let d1 = p[0] + ",order_id="@ + order_id;
    assert(d1 =~= p[0] + c + p[1]);
    let d2 = d1 + ",side="@ + side.name();
    assert(d2 =~= d1 + c + p[2]);
    let d3 = d2 + ",qty="@ + qty_text;
    assert(d3 =~= d2 + c + p[3]);
    let d4 = d3 + ",request_id="@ + crate::text::decimal(request_id as nat);
    assert(d4 =~= d3 + c + p[4]);
    let d5 = d4 + ",status="@ + rest;
    assert(d5 =~= d4 + c + ("status="@ + rest));
    let t5 = "status="@ + rest;
    let t4 = p[4].push(',') + t5;
    let t3 = p[3].push(',') + t4;
    let t2 = p[2].push(',') + t3;
    let t1 = p[1].push(',') + t2;
    assert(d3 + c + t4 =~= d4 + c + t5);
    assert(d2 + c + t3 =~= d3 + c + t4);
    assert(d1 + c + t2 =~= d2 + c + t3);
    assert(p[0] + c + t1 =~= d1 + c + t2);
    assert(p[0].push(',') + t1 =~= p[0] + c + t1);
}

proof fn lemma_fields_of_order(
    intent_id: u64,
    order_id: Seq<char>,
    side: OrderSide,
    qty_text: Seq<char>,
    request_id: u64,
)
    ensures
        fields_of(order_parts(intent_id, order_id, side, qty_text, request_id)) == (OrderFields {
            intent_id,
            status: Seq::empty(),
            side: side.name(),
            qty_text: Some(qty_text),
            order_id,
        }),
{
    let p = order_parts(intent_id, order_id, side, qty_text, request_id);
    crate::text::law_parse_of_decimal(intent_id as nat);
    let e = no_fields();
    assert(p.take(0) =~= Seq::<Seq<char>>::empty());
    assert(p.take(1).drop_last() =~= p.take(0));
    assert(p.take(2).drop_last() =~= p.take(1));
    assert(p.take(3).drop_last() =~= p.take(2));
    assert(p.take(4).drop_last() =~= p.take(3));
    assert(p.drop_last() =~= p.take(4));
    lemma_with_parts(e, crate::text::decimal(intent_id as nat));
    assert(fields_of(p.take(0)) == e);
    assert(p.take(1).last() == p[0]);
    let f1 = fields_of(p.take(1));
    assert(f1 == with_part(e, p[0]));
    lemma_with_parts(f1, order_id);
    let f2 = fields_of(p.take(2));
    assert(f2 == with_part(f1, p[1]));
    lemma_with_parts(f2, side.name());
    let f3 = fields_of(p.take(3));
    assert(f3 == with_part(f2, p[2]));
    lemma_with_parts(f3, qty_text);
    let f4 = fields_of(p.take(4));
    assert(f4 == with_part(f3, p[3]));
    lemma_with_parts(f4, crate::text::decimal(request_id as nat));
    assert(fields_of(p) == with_part(f4, p[4]));
}

/// Recovery reads from the journal what was written of a pending order, and submits it again where
/// the broker did not take it.
pub proof fn law_pending_order_is_retried(
    symbol: Seq<char>,
    intent_id: u64,
    order_id: Seq<char>,
    side: OrderSide,
    qty_text: Seq<char>,
    request_id: u64,
    known: Set<Seq<char>>,
)
    requires
        known.contains(symbol),
        !order_id.contains(','),
        !qty_text.contains(','),
    ensures
        step_for(
            symbol,
            fields_of(
                crate::text::split_all(
                    crate::execution_manager::order_data(
                        intent_id,
                        order_id,
                        side,
                        qty_text,
                        request_id,
                    ) + "Pending"@,
                    ',',
                ),
            ),
            known,
            false,
        ) == Some(
            StepView::Retry { symbol, order_id, side, qty_text: Some(qty_text), intent_id },
        ),
{
    let data = crate::execution_manager::order_data(
        intent_id,
        order_id,
        side,
        qty_text,
        request_id,
    ) + "Pending"@;
    let n = (data.len() + 1) as nat;
    lemma_prefix_heads();
    lemma_data_len(intent_id, order_id, side, qty_text, request_id);
    reveal_strlit("Pending");
    lemma_order_split(intent_id, order_id, side, qty_text, request_id, "Pending"@, n);
    lemma_no_comma("status="@, "Pending"@);
    lemma_one_part("status="@ + "Pending"@, (n - 5) as nat);
    let p = order_parts(intent_id, order_id, side, qty_text, request_id);
    let all = crate::text::split_all(data, ',');
    assert(all =~= p.push("status="@ + "Pending"@));
    assert(all.drop_last() =~= p);
    lemma_fields_of_order(intent_id, order_id, side, qty_text, request_id);
    lemma_with_parts(fields_of(p), "Pending"@);
    lemma_sides();
}

/// Recovery reads from the journal what was written of a submitted order, and remembers its
/// intent.
pub proof fn law_submitted_order_is_marked(
    symbol: Seq<char>,
    intent_id: u64,
    order_id: Seq<char>,
    side: OrderSide,
    qty_text: Seq<char>,
    request_id: u64,
    execution_id: Seq<char>,
    known: Set<Seq<char>>,
    reached: bool,
)
    requires
        known.contains(symbol),
        !order_id.contains(','),
        !qty_text.contains(','),
        !execution_id.contains(','),
    ensures
        step_for(
            symbol,
            fields_of(
                crate::text::split_all(
                    crate::execution_manager::order_data(
                        intent_id,
                        order_id,
                        side,
                        qty_text,
                        request_id,
                    ) + "Submitted,execution_id="@ + execution_id,
                    ',',
                ),
            ),
            known,
            reached,
        ) == Some(StepView::Mark { symbol, intent_id }),
{
    let head = crate::execution_manager::order_data(
        intent_id,
        order_id,
        side,
        qty_text,
        request_id,
    );
    let rest = "Submitted,execution_id="@ + execution_id;
    let data = head + "Submitted,execution_id="@ + execution_id;
    assert(data =~= head + rest);
    let n = (data.len() + 1) as nat;
    lemma_prefix_heads();
    lemma_data_len(intent_id, order_id, side, qty_text, request_id);
    reveal_strlit("Submitted");
    reveal_strlit("Pending");
    reveal_strlit("execution_id=");
    reveal_strlit("Submitted,execution_id=");
    assert("Submitted,execution_id="@ =~= "Submitted"@.push(',') + "execution_id="@);
    lemma_order_split(intent_id, order_id, side, qty_text, request_id, rest, n);
    let s1 = "status="@ + "Submitted"@;
    let s2 = "execution_id="@ + execution_id;
    assert("status="@ + rest =~= s1.push(',') + s2);
    lemma_no_comma("status="@, "Submitted"@);
    lemma_no_comma("execution_id="@, execution_id);
    crate::text::lemma_split_first(s1, s2, (n - 5) as nat, ',');
    lemma_one_part(s2, (n - 6) as nat);
    let p = order_parts(intent_id, order_id, side, qty_text, request_id);
    let all = crate::text::split_all(data, ',');
    assert(all =~= p.push(s1).push(s2));
    assert(all.drop_last() =~= p.push(s1));
    assert(p.push(s1).drop_last() =~= p);
    lemma_fields_of_order(intent_id, order_id, side, qty_text, request_id);
    lemma_with_parts(fields_of(p), "Submitted"@);
    lemma_with_parts(fields_of(p.push(s1)), execution_id);
    assert("Submitted"@.len() == 9 && "Pending"@.len() == 7);
}

proof fn lemma_steps_of_reached(
    all: Seq<crate::journal::Record>,
    part: Seq<crate::journal::Record>,
    known: Set<Seq<char>>,
    symbol: Seq<char>,
    intent_id: u64,
)
    requires
        reached_broker(all, symbol, intent_id),
    ensures
        forall|i: int|
            0 <= i < steps_among(all, part, known).len() ==> !is_retry(
                #[trigger] steps_among(all, part, known)[i],
                symbol,
                intent_id,
            ),
        known.contains(symbol) && reached_broker(part, symbol, intent_id) ==> steps_among(
            all,
            part,
            known,
        ).contains(StepView::Mark { symbol, intent_id }),
    decreases part.len(),
{
    if part.len() > 0 {
        let front = part.drop_last();
        lemma_steps_of_reached(all, front, known, symbol, intent_id);
        let steps = steps_among(all, part, known);
        let fewer = steps_among(all, front, known);
        assert forall|i: int| 0 <= i < steps.len() implies !is_retry(
            #[trigger] steps[i],
            symbol,
            intent_id,
        ) by {
            if i < fewer.len() {
                assert(steps[i] == fewer[i]);
            }
        }
        if known.contains(symbol) && reached_broker(part, symbol, intent_id) {
            let mark = StepView::Mark { symbol, intent_id };
            let j = choose|j: int|
                0 <= j < part.len() && is_submission(#[trigger] part[j], symbol, intent_id);
            if j < front.len() {
                assert(is_submission(front[j], symbol, intent_id));
                let k = fewer.index_of(mark);
                assert(fewer[k] == mark);
                assert(steps[k] == mark);
            } else {
                reveal_strlit("Pending");
                reveal_strlit("Submitted");
                assert("Pending"@.len() != "Submitted"@.len());
                assert(steps[steps.len() - 1] == mark);
            }
        }
    }
}

/// Whether a step submits the order of an intent again.
pub open spec fn is_retry(s: StepView, symbol: Seq<char>, intent_id: u64) -> bool {
    s matches StepView::Retry { symbol: t, intent_id: n, .. } && t == symbol && n == intent_id
}

/// An intent of which the journal says that the broker took its order is never ordered again, and is
/// remembered, wherever in the journal that is said.
pub proof fn law_submitted_intent_is_not_retried(
    entries: Seq<crate::journal::Record>,
    known: Set<Seq<char>>,
    symbol: Seq<char>,
    intent_id: u64,
)
    requires
        reached_broker(entries, symbol, intent_id),
    ensures
        forall|i: int|
            0 <= i < steps_for(entries, known).len() ==> !is_retry(
                #[trigger] steps_for(entries, known)[i],
                symbol,
                intent_id,
            ),
        known.contains(symbol) ==> steps_for(entries, known).contains(
            StepView::Mark { symbol, intent_id },
        ),
{
    lemma_steps_of_reached(entries, entries, known, symbol, intent_id);
}

proof fn lemma_data_len(
    intent_id: u64,
    order_id: Seq<char>,
    side: OrderSide,
    qty_text: Seq<char>,
    request_id: u64,
)
    ensures
        crate::execution_manager::order_data(
            intent_id,
            order_id,
            side,
            qty_text,
            request_id,
        ).len() >= 10,
{
    reveal_strlit("intent_id=");
}

proof fn lemma_sides()
    ensures
        "Buy"@ != "Sell"@,
{
    reveal_strlit("Buy");
    reveal_strlit("Sell");
    assert("Buy"@.len() == 3);
    assert("Sell"@.len() == 4);
}

/// What recovery does about an order, by what the journal last says of it: one that was pending, and
/// of which nothing says that the broker took it, is submitted again with its own figures; the intent
/// of one that was submitted is remembered; about any other, and about one of an unknown symbol,
/// nothing is done.
pub proof fn law_status_decides_on_recovery(
    symbol: Seq<char>,
    f: OrderFields,
    known: Set<Seq<char>>,
    reached: bool,
)
    ensures
        !known.contains(symbol) ==> step_for(symbol, f, known, reached) is None,
        step_for(symbol, f, known, reached) is Some ==> f.status == "Pending"@ || f.status
            == "Submitted"@,
        known.contains(symbol) && f.status == "Submitted"@ ==> step_for(symbol, f, known, reached)
            == Some(StepView::Mark { symbol, intent_id: f.intent_id }),
        known.contains(symbol) && f.status == "Pending"@ && reached ==> step_for(
            symbol,
            f,
            known,
            reached,
        ) is None,
        known.contains(symbol) && f.status == "Pending"@ && !reached ==> step_for(
            symbol,
            f,
            known,
            reached,
        ) == Some(
            StepView::Retry {
                symbol,
                order_id: f.order_id,
                side: if f.side == "Buy"@ {
                    OrderSide::Buy
                } else {
                    OrderSide::Sell
                },
                qty_text: f.qty_text,
                intent_id: f.intent_id,
            },
        ),
{
    reveal_strlit("Pending");
    reveal_strlit("Submitted");
    assert("Pending"@.len() != "Submitted"@.len());
}

/// Each part of what the journal says of an order sets the field of its name and no other.
pub proof fn law_parts_set_their_fields(f: OrderFields, v: Seq<char>)
    ensures
        with_part(f, "intent_id="@ + v) == (OrderFields { intent_id: number_or_zero(v), ..f }),
        with_part(f, "status="@ + v) == (OrderFields { status: v, ..f }),
        with_part(f, "side="@ + v) == (OrderFields { side: v, ..f }),
        with_part(f, "qty="@ + v) == (OrderFields { qty_text: Some(v), ..f }),
        with_part(f, "order_id="@ + v) == (OrderFields { order_id: v, ..f }),
        with_part(f, "request_id="@ + v) == f,
        with_part(f, "execution_id="@ + v) == f,
{
    lemma_with_parts(f, v);
}

/// The number of a text is the one that it writes, and zero where it writes none.
pub proof fn law_number_reads_back(n: u64, s: Seq<char>)
    ensures
        number_or_zero(crate::text::decimal(n as nat)) == n,
        crate::text::parsed_u64(s) is Err ==> number_or_zero(s) == 0,
{
    crate::text::law_parse_of_decimal(n as nat);
}

/// The steps of a recovery come in the order of the journal, one at most for each entry, and only
/// entries of orders call for one.
pub proof fn law_steps_follow_the_journal(
    all: Seq<crate::journal::Record>,
    part: Seq<crate::journal::Record>,
    e: crate::journal::Record,
    known: Set<Seq<char>>,
)
    ensures
        steps_among(all, Seq::empty(), known) == Seq::<StepView>::empty(),
        e.word != "ORDER"@ ==> steps_among(all, part.push(e), known) == steps_among(
            all,
            part,
            known,
        ),
        e.word == "ORDER"@ ==> ({
            let step = step_for(
                e.subject->0,
                fields_of(crate::text::split_all(e.data, ',')),
                known,
                exists|i: int|
                    0 <= i < all.len() && (#[trigger] all[i]).word == "ORDER"@ && all[i].subject->0
                        == e.subject->0 && fields_of(crate::text::split_all(all[i].data, ',')).status
                        == "Submitted"@ && fields_of(
                        crate::text::split_all(all[i].data, ','),
                    ).intent_id == fields_of(crate::text::split_all(e.data, ',')).intent_id,
            );
            steps_among(all, part.push(e), known) == (if step is Some {
                steps_among(all, part, known).push(step->0)
            } else {
                steps_among(all, part, known)
            })
        }),
{
    assert(part.push(e).drop_last() =~= part);
    let intent = order_fields(e).intent_id;
    if reached_broker(all, e.subject->0, intent) {
        let i = choose|i: int|
            0 <= i < all.len() && is_submission(#[trigger] all[i], e.subject->0, intent);
        assert(all[i].word == "ORDER"@);
    }
    if exists|i: int|
        0 <= i < all.len() && (#[trigger] all[i]).word == "ORDER"@ && all[i].subject->0
            == e.subject->0 && fields_of(crate::text::split_all(all[i].data, ',')).status
            == "Submitted"@ && fields_of(crate::text::split_all(all[i].data, ',')).intent_id
            == fields_of(crate::text::split_all(e.data, ',')).intent_id {
        let i = choose|i: int|
            0 <= i < all.len() && (#[trigger] all[i]).word == "ORDER"@ && all[i].subject->0
                == e.subject->0 && fields_of(crate::text::split_all(all[i].data, ',')).status
                == "Submitted"@ && fields_of(crate::text::split_all(all[i].data, ',')).intent_id
                == fields_of(crate::text::split_all(e.data, ',')).intent_id;
        assert(is_submission(all[i], e.subject->0, intent));
    }
}

/// The entries of a kind are counted one by one.
pub proof fn law_entries_are_counted(
    entries: Seq<crate::journal::Record>,
    e: crate::journal::Record,
    word: Seq<char>,
)
    ensures
        count_word(Seq::empty(), word) == 0,
        e.word == word ==> count_word(entries.push(e), word) == count_word(entries, word) + 1,
        e.word != word ==> count_word(entries.push(e), word) == count_word(entries, word),
{
    assert(entries.push(e).drop_last() =~= entries);
}

/// A name is missing just where it is in the first list and not in the second.
pub proof fn law_missing_names_are_the_difference(
    a: Seq<Seq<char>>,
    b: Seq<Seq<char>>,
    name: Seq<char>,
)
    ensures
        missing_in(a, b).contains(name) <==> a.contains(name) && !b.contains(name),
        missing_in(a, b).len() <= a.len(),
        missing_in(a, a).len() == 0,
{
    lemma_missing(a, b, name);
    assert forall|n: Seq<char>| !missing_in(a, a).contains(n) by {
        lemma_missing(a, a, n);
    }
    if missing_in(a, a).len() > 0 {
        assert(missing_in(a, a).contains(missing_in(a, a)[0]));
    }
}

proof fn lemma_missing(a: Seq<Seq<char>>, b: Seq<Seq<char>>, name: Seq<char>)
    ensures
        missing_in(a, b).contains(name) <==> a.contains(name) && !b.contains(name),
        missing_in(a, b).len() <= a.len(),
    decreases a.len(),
{
    if a.len() > 0 {
        let front = a.drop_last();
        lemma_missing(front, b, name);
        let m = missing_in(front, b);
        if a.contains(name) && a.last() != name {
            let i = a.index_of(name);
            assert(a[i] == name);
            assert(front[i] == name);
        }
        if front.contains(name) {
            let i = front.index_of(name);
            assert(a[i] == name);
        }
        if !b.contains(a.last()) {
            let all = m.push(a.last());
            assert(all[m.len() as int] == a.last());
            if m.contains(name) {
                let i = m.index_of(name);
                assert(all[i] == name);
            }
            if all.contains(name) && name != a.last() {
                let i = all.index_of(name);
                assert(m[i] == name);
            }
        }
        if a.last() == name {
            assert(a[a.len() - 1] == name);
        }
    }
}

/// An order of the broker is taken over with its own figures: as submitted where nothing of it was
/// filled, and as filled in part, with what was filled, where something was. Other orders stay.
pub proof fn law_broker_order_is_taken_over(
    before: &OrderTracker,
    info: OpenOrder,
    id: Seq<char>,
    total: Real,
    now: u64,
    after: &OrderTracker,
    other: Seq<char>,
)
    requires
        rehydrated(before, info, id, total, now, after),
        other != id,
    ensures
        after.orders@.dom().contains(id),
        after.orders@[id].symbol@ == info.symbol@,
        info.side is Buy ==> after.orders@[id].side@ == "buy"@,
        info.side is Sell ==> after.orders@[id].side@ == "sell"@,
        after.orders@[id].quantity == info.quantity,
        after.orders@[id].correlation_id@ == info.order_id@,
        after.orders@[id].submitted_ns == now,
        !info.filled_qty.is_nan() && info.filled_qty.rank() > 0 ==> after.orders@[id].status
            is PartiallyFilled && after.orders@[id].filled_quantity == total
            && after.state_machines@[id].state() is PartiallyFilled,
        info.filled_qty.is_nan() || info.filled_qty.rank() <= 0 ==> after.orders@[id].status
            is Submitted && after.orders@[id].filled_quantity.bits == 0
            && after.state_machines@[id].state() is Submitted,
        before.orders@.dom().contains(other) ==> after.orders@.dom().contains(other)
            && after.orders@[other] == before.orders@[other],
{
}

/// A position of the broker is taken over as one fill of its size: bought where it is long, sold
/// where it is short.
pub proof fn law_broker_position_is_taken_over(symbol: Seq<char>)
    ensures
        forall|
            p: &mut PortfolioManager,
            s: &str,
            quantity: Real,
            price: Real,
            v: FillValues,
            equity: Real,
        |
            #![trigger call_ensures(take_over_position, (p, s, quantity, price, v, equity), ())]
            call_ensures(take_over_position, (p, s, quantity, price, v, equity), ()) && s@ == symbol
                && !p.positions@.dom().contains(symbol) ==> {
                let q = final(p).positions@[symbol];
                &&& final(p).positions@.dom().contains(symbol)
                &&& q.net_position == v.net_position
                &&& q.current_price == price
                &&& !quantity.is_nan() && quantity.rank() > 0 ==> q.total_bought == v.traded
                    && q.total_sold.bits == 0
                &&& !quantity.is_nan() && quantity.rank() < 0 ==> q.total_sold == v.traded
                    && q.total_bought.bits == 0
                &&& final(p).current_equity == equity
            },
{
}

/// What is remembered of an intent that recovery found: the broker's id of its order, or that it was
/// recovered where that is not known.
pub proof fn law_recovered_intent_is_named(id: &str)
    ensures
        recovered_as(Some(id)) == id@,
        recovered_as(None) == "recovered"@,
        side_word(OrderSide::Buy) == "buy"@,
        side_word(OrderSide::Sell) == "sell"@,
{
}

/// An order that is sent again asks for what was asked before, under the same id, and names its
/// intent.
pub proof fn law_order_is_sent_again_as_it_was(
    symbol: &str,
    id: &str,
    side: OrderSide,
    quantity: Real,
    intent: u64,
    c: OrderCommand,
)
    requires
        call_ensures(retry_command, (symbol, id, side, quantity, intent), c),
    ensures
        c.order_id@ == id@,
        c.symbol@ == symbol@,
        c.side == side,
        c.quantity == quantity,
        c.correlation_id@ == crate::text::decimal(intent as nat),
        c.trace_id == intent,
{
}

/// The two sides are compared name by name: what is told to be with one side only is with that side
/// and not with the other.
pub proof fn law_drift_names_what_one_side_has(
    broker: &Vec<String>,
    local: &Vec<String>,
    m: usize,
    n: usize,
    r: DriftReport,
    name: Seq<char>,
)
    requires
        call_ensures(compare_with_broker, (broker, local, m, n), r),
    ensures
        crate::text::views(r.broker_only@).contains(name) <==> crate::text::views(broker@).contains(
            name,
        ) && !crate::text::views(local@).contains(name),
        crate::text::views(r.local_only@).contains(name) <==> crate::text::views(local@).contains(
            name,
        ) && !crate::text::views(broker@).contains(name),
        r.open_counts_differ <==> m != n,
{
    lemma_missing(crate::text::views(broker@), crate::text::views(local@), name);
    lemma_missing(crate::text::views(local@), crate::text::views(broker@), name);
}

} // verus!
