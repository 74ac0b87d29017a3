//! A switch that stops all trading, and the orders that are open when it is thrown.

use vstd::prelude::*;

use crate::clock::{instant_elapsed, instant_now, Clock, WallClock};
use crate::metrics::CachePaddedAtomicU64;
use crate::str_map::StrMap;

verus! {

/// A switch that stops all trading.
pub struct KillSwitch<C: Clock = WallClock> {
    active: bool,
    activated_at_ns: u64,
    activation_count: CachePaddedAtomicU64,
    open_orders: StrMap<()>,
    activation_latency_ns: u64,
    clock: C,
}

impl KillSwitch<WallClock> {
    /// A switch that is off and tracks no order, on the machine's clock.
    pub fn new() -> (k: Self)
        ensures
            k.wf(),
            !k.on(),
            k.at_ns() == 0,
            k.count() == 0,
            k.orders() == Seq::<Seq<char>>::empty(),
            k.latency() == 0,
            crate::clock::begun_at(k.clock_of().start_of()),
    {
        KillSwitch::with_clock(WallClock::new())
    }
}

impl<C: Clock> KillSwitch<C> {
    /// Whether trading is stopped.
    pub closed spec fn on(&self) -> bool {
        self.active
    }

    /// The time at which it was last thrown.
    pub closed spec fn at_ns(&self) -> u64 {
        self.activated_at_ns
    }

    /// How often it was thrown.
    pub closed spec fn count(&self) -> u64 {
        self.activation_count@
    }

    /// The ids of the open orders, in the order in which they came in.
    pub closed spec fn orders(&self) -> Seq<Seq<char>> {
        self.open_orders.key_seq()
    }

    /// The clock.
    pub closed spec fn clock_of(&self) -> C {
        self.clock
    }

    /// How long the last call of `activate` took.
    pub closed spec fn latency(&self) -> u64 {
        self.activation_latency_ns
    }

    /// No order is tracked twice.
    pub closed spec fn wf(&self) -> bool {
        self.open_orders.wf()
    }

    /// Whether all but the orders is as in `other`.
    pub open spec fn same_but_orders(&self, other: &KillSwitch<C>) -> bool {
        &&& self.on() == other.on()
        &&& self.at_ns() == other.at_ns()
        &&& self.count() == other.count()
        &&& self.clock_of() == other.clock_of()
        &&& self.latency() == other.latency()
    }

    /// No order is tracked twice.
    pub proof fn law_no_order_twice(&self)
        requires
            self.wf(),
        ensures
            self.orders().no_duplicates(),
    {
        self.open_orders.lemma_entries();
    }

    /// A switch that is off and tracks no order.
    pub fn with_clock(clock: C) -> (k: Self)
        ensures
            k.wf(),
            !k.on(),
            k.at_ns() == 0,
            k.count() == 0,
            k.orders() == Seq::<Seq<char>>::empty(),
            k.clock_of() == clock,
            k.latency() == 0,
    {
        KillSwitch {
            active: false,
            activated_at_ns: 0,
            activation_count: CachePaddedAtomicU64::new(0),
            open_orders: StrMap::new(),
            activation_latency_ns: 0,
            clock,
        }
    }

    /// Stops trading and returns the number of open orders. Time and count change only where
    /// trading was not stopped before.
    pub fn activate(&mut self) -> (n: usize)
        requires
            old(self).wf(),
        ensures
            final(self).wf(),
            n == old(self).orders().len(),
            final(self).on(),
            final(self).orders() == old(self).orders(),
            final(self).clock_of() == old(self).clock_of(),
            old(self).on() ==> final(self).at_ns() == old(self).at_ns() && final(self).count()
                == old(self).count(),
            !old(self).on() ==> final(self).count() == crate::metrics::wrap_u64(
                old(self).count(),
                1,
            ),
            !old(self).on() ==> call_ensures(
                C::now_ns,
                (&old(self).clock_of(),),
                final(self).at_ns(),
            ),
            crate::clock::measured(final(self).latency()),
    {
        let start = instant_now();
        let order_count: usize = self.open_orders.len();
        if !self.active {
            let now: u64 = self.clock.now_ns();
            self.activated_at_ns = now;
            self.activation_count.fetch_add(1);
        }
        self.active = true;
        let took = instant_elapsed(&start);
        proof {
            crate::clock::lemma_begun_at(start);
            crate::clock::lemma_passed_since(start, took);
        }
        self.activation_latency_ns = took.total_ns();
        order_count
    }

    /// Lets trading go on.
    pub fn clear(&mut self)
        ensures
            !final(self).on(),
            final(self).wf() == old(self).wf(),
            final(self).orders() == old(self).orders(),
            final(self).at_ns() == old(self).at_ns(),
            final(self).count() == old(self).count(),
            final(self).clock_of() == old(self).clock_of(),
            final(self).latency() == old(self).latency(),
    {
        self.active = false;
    }

    pub fn activation_latency_ns(&self) -> (n: u64)
        ensures
            n == self.latency(),
    {
        self.activation_latency_ns
    }

    pub fn is_active(&self) -> (r: bool)
        ensures
            r == self.on(),
    {
        self.active
    }

    pub fn activated_at_ns(&self) -> (n: u64)
        ensures
            n == self.at_ns(),
    {
        self.activated_at_ns
    }

    pub fn activation_count(&self) -> (n: u64)
        ensures
            n == self.count(),
    {
        self.activation_count.load()
    }

    /// Tracks an order; the result tells whether it is new.
    pub fn track_open_order(&mut self, order_id: &str) -> (added: bool)
        requires
            old(self).wf(),
        ensures
            final(self).wf(),
            added == !old(self).orders().contains(order_id@),
            final(self).orders() == (if added {
                old(self).orders().push(order_id@)
            } else {
                old(self).orders()
            }),
            final(self).same_but_orders(old(self)),
    {
        proof {
            self.open_orders.lemma_entries();
        }
        if self.open_orders.contains_key(order_id) {
            false
        } else {
            self.open_orders.insert(order_id.to_owned(), ());
            true
        }
    }

    /// Forgets an order; the result tells whether it was tracked.
    pub fn remove_open_order(&mut self, order_id: &str) -> (removed: bool)
        requires
            old(self).wf(),
        ensures
            final(self).wf(),
            removed == old(self).orders().contains(order_id@),
            final(self).orders() == crate::str_map::without(old(self).orders(), order_id@),
            final(self).same_but_orders(old(self)),
    {
        proof {
            self.open_orders.lemma_entries();
        }
        self.open_orders.remove(order_id).is_some()
    }

    pub fn open_order_count(&self) -> (n: usize)
        requires
            self.wf(),
        ensures
            n == self.orders().len(),
    {
        self.open_orders.len()
    }

    /// The ids of the open orders, in the order in which they came in.
    pub fn get_open_orders(&self) -> (v: Vec<String>)
        requires
            self.wf(),
        ensures
            crate::text::views(v@) == self.orders(),
    {
        let mut v: Vec<String> = Vec::new();
        let n: usize = self.open_orders.len();
        let mut i: usize = 0;
        while i < n
            invariant
                i <= n,
                n == self.open_orders.key_seq().len(),
                self.open_orders.wf(),
                crate::text::views(v@) == self.open_orders.key_seq().take(i as int),
            decreases n - i,
        {
            let id = self.open_orders.key_at(i).clone();
            proof {
                crate::text::lemma_views_push(v@, id);
            }
            v.push(id);
            i += 1;
            assert(crate::text::views(v@) =~= self.open_orders.key_seq().take(i as int));
        }
        assert(self.open_orders.key_seq().take(n as int) =~= self.open_orders.key_seq());
        v
    }

    pub fn is_order_tracked(&self, order_id: &str) -> (r: bool)
        requires
            self.wf(),
        ensures
            r == self.orders().contains(order_id@),
    {
        proof {
            self.open_orders.lemma_entries();
        }
        self.open_orders.contains_key(order_id)
    }
}

impl Default for KillSwitch<WallClock> {
    fn default() -> (k: Self)
        ensures
            k.wf(),
            !k.on(),
            k.at_ns() == 0,
            k.count() == 0,
            k.orders() == Seq::<Seq<char>>::empty(),
            k.latency() == 0,
            crate::clock::begun_at(k.clock_of().start_of()),
    {
        KillSwitch::new()
    }
}

/// An order that is tracked and then removed leaves the open orders as they were.
pub proof fn law_remove_undoes_track(orders: Seq<Seq<char>>, id: Seq<char>)
    requires
        orders.no_duplicates(),
        !orders.contains(id),
    ensures
        crate::str_map::without(orders.push(id), id) == orders,
{
    crate::str_map::lemma_without_none(orders, id);
    assert(orders.push(id).drop_last() =~= orders);
}

/// A switch that is thrown stops trading. The orders stay, and their number is returned. Only a
/// switch that was off is thrown once more, at the time that the clock tells.
pub proof fn law_throwing_stops_trading<C: Clock>()
    ensures
        forall|k: &mut KillSwitch<C>, n: usize|
            #![trigger call_ensures(KillSwitch::<C>::activate, (k,), n)]
            call_ensures(KillSwitch::<C>::activate, (k,), n) ==> {
                &&& final(k).on()
                &&& n == k.orders().len()
                &&& final(k).orders() == k.orders()
                &&& final(k).clock_of() == k.clock_of()
                &&& k.on() ==> final(k).count() == k.count() && final(k).at_ns() == k.at_ns()
                &&& !k.on() ==> final(k).count() == (k.count() + 1) % 0x1_0000_0000_0000_0000
                &&& !k.on() ==> call_ensures(C::now_ns, (&k.clock_of(),), final(k).at_ns())
            },
{
}

/// A switch that is cleared lets trading go on, and forgets neither its orders nor how often and
/// when it was thrown.
pub proof fn law_clearing_lets_trading_go_on<C: Clock>()
    ensures
        forall|k: &mut KillSwitch<C>, u: ()|
            #![trigger call_ensures(KillSwitch::<C>::clear, (k,), u)]
            call_ensures(KillSwitch::<C>::clear, (k,), u) ==> {
                &&& !final(k).on()
                &&& final(k).orders() == k.orders()
                &&& final(k).count() == k.count()
                &&& final(k).at_ns() == k.at_ns()
                &&& final(k).latency() == k.latency()
            },
{
}

/// What a switch tells of itself is what was done to it: trading is stopped after it was thrown and
/// goes on after it was cleared, and a new switch is off, was never thrown and has no orders.
pub proof fn law_switch_tells_its_state<C: Clock>(clock: C, fresh: KillSwitch<C>)
    requires
        call_ensures(KillSwitch::<C>::with_clock, (clock,), fresh),
    ensures
        forall|r: bool| #[trigger]
            call_ensures(KillSwitch::<C>::is_active, (&fresh,), r) ==> !r,
        forall|n: u64| #[trigger]
            call_ensures(KillSwitch::<C>::activation_count, (&fresh,), n) ==> n == 0,
        forall|n: u64| #[trigger]
            call_ensures(KillSwitch::<C>::activated_at_ns, (&fresh,), n) ==> n == 0,
        forall|n: usize| #[trigger]
            call_ensures(KillSwitch::<C>::open_order_count, (&fresh,), n) ==> n == 0,
        forall|k: &mut KillSwitch<C>, n: usize, after: KillSwitch<C>, r: bool|
            #![trigger call_ensures(KillSwitch::<C>::activate, (k,), n), call_ensures(KillSwitch::<C>::is_active, (&after,), r)]
            call_ensures(KillSwitch::<C>::activate, (k,), n) && after == *final(k)
                && call_ensures(KillSwitch::<C>::is_active, (&after,), r) ==> r,
        forall|k: &mut KillSwitch<C>, u: (), after: KillSwitch<C>, r: bool|
            #![trigger call_ensures(KillSwitch::<C>::clear, (k,), u), call_ensures(KillSwitch::<C>::is_active, (&after,), r)]
            call_ensures(KillSwitch::<C>::clear, (k,), u) && after == *final(k) && call_ensures(
                KillSwitch::<C>::is_active,
                (&after,),
                r,
            ) ==> !r,
{
}

/// An order that is tracked is open, after all that were open before, and is so once. It is new
/// just where it was not open. Nothing else of the switch changes.
pub proof fn law_tracked_order_is_open<C: Clock>()
    ensures
        forall|k: &mut KillSwitch<C>, id: &str, added: bool|
            #![trigger call_ensures(KillSwitch::<C>::track_open_order, (k, id), added)]
            call_ensures(KillSwitch::<C>::track_open_order, (k, id), added) ==> {
                &&& added <==> !k.orders().contains(id@)
                &&& final(k).orders().contains(id@)
                &&& added ==> final(k).orders().len() == k.orders().len() + 1
                    && final(k).orders().last() == id@
                &&& !added ==> final(k).orders() == k.orders()
                &&& forall|i: int|
                    0 <= i < k.orders().len() ==> #[trigger] final(k).orders()[i] == k.orders()[i]
                &&& final(k).on() == k.on()
                &&& final(k).count() == k.count()
                &&& final(k).at_ns() == k.at_ns()
            },
{
    assert forall|k: &mut KillSwitch<C>, id: &str, added: bool|
        #![trigger call_ensures(KillSwitch::<C>::track_open_order, (k, id), added)]
        call_ensures(KillSwitch::<C>::track_open_order, (k, id), added) implies final(k).orders().contains(id@) by {
        if added {
            let last = final(k).orders().len() - 1;
            assert(final(k).orders()[last] == id@);
        }
    }
}

/// An order that is removed is open no more, and the others stay open. The result tells whether it
/// was open. Nothing else of the switch changes.
pub proof fn law_removed_order_is_closed<C: Clock>()
    ensures
        forall|k: &mut KillSwitch<C>, id: &str, removed: bool, other: Seq<char>|
            #![trigger call_ensures(KillSwitch::<C>::remove_open_order, (k, id), removed), k.orders().contains(other)]
            call_ensures(KillSwitch::<C>::remove_open_order, (k, id), removed) ==> {
                &&& removed <==> k.orders().contains(id@)
                &&& !final(k).orders().contains(id@)
                &&& other != id@ ==> (final(k).orders().contains(other) <==> k.orders().contains(
                    other,
                ))
                &&& final(k).on() == k.on()
                &&& final(k).count() == k.count()
                &&& final(k).at_ns() == k.at_ns()
            },
{
    assert forall|k: &mut KillSwitch<C>, id: &str, removed: bool, other: Seq<char>|
        #![trigger call_ensures(KillSwitch::<C>::remove_open_order, (k, id), removed), k.orders().contains(other)]
        call_ensures(KillSwitch::<C>::remove_open_order, (k, id), removed) implies !final(k).orders().contains(id@) && (other != id@ ==> (final(k).orders().contains(other)
        <==> k.orders().contains(other))) by {
        crate::str_map::law_without_leaves_the_others(k.orders(), id@, other);
    }
}

/// The open orders are listed in the order in which they came in, and an order is told to be open
/// just where it is among them.
pub proof fn law_open_orders_are_told<C: Clock>(k: &KillSwitch<C>, id: &str, v: Vec<String>, r: bool)
    requires
        call_ensures(KillSwitch::<C>::get_open_orders, (k,), v),
        call_ensures(KillSwitch::<C>::is_order_tracked, (k, id), r),
    ensures
        v@.len() == k.orders().len(),
        forall|i: int| 0 <= i < v@.len() ==> (#[trigger] v@[i])@ == k.orders()[i],
        r <==> exists|i: int| 0 <= i < v@.len() && (#[trigger] v@[i])@ == id@,
{
    assert(crate::text::views(v@).len() == v@.len());
    assert forall|i: int| 0 <= i < v@.len() implies (#[trigger] v@[i])@ == k.orders()[i] by {
        assert(crate::text::views(v@)[i] == v@[i]@);
    }
    if r {
        let i = choose|i: int| 0 <= i < k.orders().len() && k.orders()[i] == id@;
        assert(v@[i]@ == id@);
    }
}

} // verus!
