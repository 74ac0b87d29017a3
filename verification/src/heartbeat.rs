//! Heartbeats of threads, and the watchdog that throws the kill switch when one stops.

use vstd::prelude::*;

use crate::clock::Clock;
use crate::kill_switch::KillSwitch;
use crate::metrics::GlobalMetrics;
use crate::str_map::StrMap;
use crate::text::starts_with;

verus! {

/// The side of a thread: it says that it is alive.
pub struct HeartbeatHandle<C: Clock> {
    pub timestamp_ns: u64,
    pub clock: C,
}

impl<C: Clock> HeartbeatHandle<C> {
    pub fn new(clock: C) -> (h: Self)
        ensures
            h.timestamp_ns == 0,
            h.clock == clock,
    {
        HeartbeatHandle { timestamp_ns: 0, clock }
    }

    /// A handle that starts from a given time.
    pub fn with_timestamp(timestamp_ns: u64, clock: C) -> (h: Self)
        ensures
            h.timestamp_ns == timestamp_ns,
            h.clock == clock,
    {
        HeartbeatHandle { timestamp_ns, clock }
    }

    /// Notes the time of the clock.
    pub fn pulse(&mut self)
        ensures
            call_ensures(C::now_ns, (&old(self).clock,), final(self).timestamp_ns),
            final(self).clock == old(self).clock,
    {
        self.timestamp_ns = self.clock.now_ns();
    }
}

/// How long a thread may be silent: asset threads half as long as the others.
pub open spec fn allowed_silence(name: Seq<char>, timeout_ns: u64) -> int {
    if crate::text::has_prefix(name, "asset-"@) {
        asset_timeout(timeout_ns)
    } else {
        timeout_ns as int
    }
}

/// Half of the timeout, at least one nanosecond.
pub open spec fn asset_timeout(timeout_ns: u64) -> int {
    if timeout_ns < 2 {
        1
    } else {
        timeout_ns as int / 2
    }
}

/// Whether a thread that was last heard of at `last` is overdue. One that was never heard of is
/// not, nor one that was heard of later than `now`.
pub open spec fn is_stale(name: Seq<char>, last: u64, now: u64, timeout_ns: u64) -> bool {
    last != 0 && now - last > allowed_silence(name, timeout_ns)
}

/// The number of overdue threads.
pub open spec fn stale_count(
    names: Seq<Seq<char>>,
    times: Seq<u64>,
    now: u64,
    timeout_ns: u64,
) -> nat
    decreases names.len(),
{
    if names.len() == 0 {
        0
    } else {
        stale_count(names.drop_last(), times.drop_last(), now, timeout_ns) + (if is_stale(
            names.last(),
            times.last(),
            now,
            timeout_ns,
        ) {
            1nat
        } else {
            0nat
        })
    }
}

/// The times at which threads were last heard of.
pub struct ThreadHeartbeatMonitor {
    heartbeats: StrMap<u64>,
    running: bool,
    timeout_ns: u64,
    asset_watchdog_timeout_ns: u64,
}

impl ThreadHeartbeatMonitor {
    /// The time at which each thread was last heard of; zero where it never was.
    pub closed spec fn beats(&self) -> Map<Seq<char>, u64> {
        self.heartbeats@
    }

    pub closed spec fn names(&self) -> Seq<Seq<char>> {
        self.heartbeats.key_seq()
    }

    pub closed spec fn times(&self) -> Seq<u64> {
        self.heartbeats.val_seq()
    }

    pub closed spec fn timeout(&self) -> u64 {
        self.timeout_ns
    }

    pub closed spec fn on(&self) -> bool {
        self.running
    }

    pub closed spec fn wf(&self) -> bool {
        &&& self.heartbeats.wf()
        &&& self.asset_watchdog_timeout_ns == asset_timeout(self.timeout_ns)
    }

    pub fn new(timeout_ns: u64) -> (m: Self)
        ensures
            m.wf(),
            m.beats() == Map::<Seq<char>, u64>::empty(),
            m.timeout() == timeout_ns,
            m.on(),
    {
        let half: u64 = timeout_ns / 2;
        let asset_watchdog_timeout_ns: u64 = if half > 1 {
            half
        } else {
            1
        };
        ThreadHeartbeatMonitor {
            heartbeats: StrMap::new(),
            running: true,
            timeout_ns,
            asset_watchdog_timeout_ns,
        }
    }

    /// Watches a thread that was not heard of yet.
    pub fn register_thread(&mut self, name: &str)
        requires
            old(self).wf(),
        ensures
            final(self).wf(),
            final(self).beats() == old(self).beats().insert(name@, 0),
            final(self).timeout() == old(self).timeout(),
            final(self).on() == old(self).on(),
    {
        self.heartbeats.insert(name.to_owned(), 0);
    }

    /// Notes the time at which a thread was heard of. A thread that is not watched is passed
    /// over.
    pub fn record_pulse(&mut self, name: &str, timestamp_ns: u64)
        requires
            old(self).wf(),
        ensures
            final(self).wf(),
            final(self).beats() == (if old(self).beats().dom().contains(name@) {
                old(self).beats().insert(name@, timestamp_ns)
            } else {
                old(self).beats()
            }),
            final(self).timeout() == old(self).timeout(),
            final(self).on() == old(self).on(),
    {
        if self.heartbeats.contains_key(name) {
            self.heartbeats.insert(name.to_owned(), timestamp_ns);
        }
    }

    pub fn heartbeats(&self) -> (m: &StrMap<u64>)
        requires
            self.wf(),
        ensures
            m.wf(),
            m@ == self.beats(),
            m.key_seq() == self.names(),
            m.val_seq() == self.times(),
    {
        &self.heartbeats
    }

    pub fn asset_watchdog_timeout_ns(&self) -> (n: u64)
        requires
            self.wf(),
        ensures
            n == asset_timeout(self.timeout()),
    {
        self.asset_watchdog_timeout_ns
    }

    pub fn is_running(&self) -> (r: bool)
        ensures
            r == self.on(),
    {
        self.running
    }

    /// Ends the watch.
    pub fn shutdown(&mut self)
        ensures
            !final(self).on(),
            final(self).wf() == old(self).wf(),
            final(self).beats() == old(self).beats(),
            final(self).timeout() == old(self).timeout(),
    {
        self.running = false;
    }

    /// Looks for overdue threads, unless trading is stopped already: each is counted, and the
    /// first throws the kill switch.
    pub fn check<C: Clock>(
        &self,
        now: u64,
        kill_switch: &mut KillSwitch<C>,
        metrics: &mut GlobalMetrics,
    )
        requires
            self.wf(),
            old(kill_switch).wf(),
        ensures
            final(kill_switch).wf(),
            final(kill_switch).orders() == old(kill_switch).orders(),
            swept(
                old(kill_switch).on(),
                stale_count(self.names(), self.times(), now, self.timeout()),
                old(kill_switch),
                final(kill_switch),
                *old(metrics),
                *final(metrics),
            ),
    {
        if kill_switch.is_active() {
            return;
        }
        proof {
            self.heartbeats.lemma_entries();
        }
        let n: usize = self.heartbeats.len();
        let ghost names = self.names();
        let ghost times = self.times();
        let mut found: u64 = 0;
        let mut i: usize = 0;
        while i < n
            invariant
                i <= n,
                n == names.len(),
                names.len() == times.len(),
                names == self.heartbeats.key_seq(),
                times == self.heartbeats.val_seq(),
                self.heartbeats.wf(),
                self.asset_watchdog_timeout_ns == asset_timeout(self.timeout_ns),
                found == stale_count(
                    names.take(i as int),
                    times.take(i as int),
                    now,
                    self.timeout_ns,
                ),
                found <= i,
                kill_switch.wf(),
                kill_switch.orders() == old(kill_switch).orders(),
                !old(kill_switch).on(),
                swept(false, found as nat, old(kill_switch), kill_switch, *old(metrics), *metrics),
            decreases n - i,
        {
            let name = self.heartbeats.key_at(i);
            let last: u64 = *self.heartbeats.val_at(i);
            let is_asset = starts_with(name.as_str(), "asset-");
            proof {
                lemma_take_step(names, times, i as int, now, self.timeout_ns);
            }
            if last != 0 {
                let stale_ns: u64 = now.saturating_sub(last);
                let watchdog_timeout_ns: u64 = if is_asset {
                    self.asset_watchdog_timeout_ns
                } else {
                    self.timeout_ns
                };
                if stale_ns > watchdog_timeout_ns {
                    metrics.heartbeat_misses.fetch_add(1);
                    kill_switch.activate();
                    found = found + 1;
                }
            }
            i += 1;
        }
        assert(names.take(n as int) =~= names);
        assert(times.take(n as int) =~= times);
    }
}

/// What a look for overdue threads changes, where `stale` of them were found.
pub open spec fn swept<C: Clock>(
    was_on: bool,
    stale: nat,
    before: &KillSwitch<C>,
    after: &KillSwitch<C>,
    metrics_before: GlobalMetrics,
    metrics_after: GlobalMetrics,
) -> bool {
    if was_on || stale == 0 {
        *after == *before && metrics_after == metrics_before
    } else {
        &&& after.on()
        &&& after.clock_of() == before.clock_of()
        &&& after.count() == crate::metrics::wrap_u64(before.count(), 1)
        &&& call_ensures(C::now_ns, (&before.clock_of(),), after.at_ns())
        &&& crate::clock::measured(after.latency())
        &&& metrics_after.heartbeat_misses@ == crate::metrics::wrap_u64(
            metrics_before.heartbeat_misses@,
            stale as u64,
        )
        &&& metrics_after == (GlobalMetrics {
            heartbeat_misses: metrics_after.heartbeat_misses,
            ..metrics_before
        })
    }
}

proof fn lemma_take_step(
    names: Seq<Seq<char>>,
    times: Seq<u64>,
    i: int,
    now: u64,
    timeout_ns: u64,
)
    requires
        0 <= i < names.len(),
        names.len() == times.len(),
    ensures
        stale_count(names.take(i + 1), times.take(i + 1), now, timeout_ns) == stale_count(
            names.take(i),
            times.take(i),
            now,
            timeout_ns,
        ) + (if is_stale(names[i], times[i], now, timeout_ns) {
            1nat
        } else {
            0nat
        }),
{
    assert(names.take(i + 1).drop_last() =~= names.take(i));
    assert(times.take(i + 1).drop_last() =~= times.take(i));
}

proof fn lemma_count_bound(
    names: Seq<Seq<char>>,
    times: Seq<u64>,
    i: int,
    now: u64,
    timeout_ns: u64,
)
    requires
        0 <= i <= names.len(),
        names.len() == times.len(),
    ensures
        stale_count(names.take(i), times.take(i), now, timeout_ns) <= stale_count(
            names,
            times,
            now,
            timeout_ns,
        ),
    decreases names.len() - i,
{
    if i == names.len() {
        assert(names.take(i) =~= names);
        assert(times.take(i) =~= times);
    } else {
        lemma_take_step(names, times, i, now, timeout_ns);
        lemma_count_bound(names, times, i + 1, now, timeout_ns);
    }
}

/// A thread that goes on pulsing within the allowed silence is never overdue.
pub proof fn law_live_thread_is_safe(name: Seq<char>, last: u64, now: u64, timeout_ns: u64)
    requires
        now - last <= allowed_silence(name, timeout_ns),
    ensures
        !is_stale(name, last, now, timeout_ns),
{
}

/// Any overdue thread is counted.
pub proof fn law_stale_is_found(
    names: Seq<Seq<char>>,
    times: Seq<u64>,
    i: int,
    now: u64,
    timeout_ns: u64,
)
    requires
        names.len() == times.len(),
        0 <= i < names.len(),
        is_stale(names[i], times[i], now, timeout_ns),
    ensures
        stale_count(names, times, now, timeout_ns) > 0,
{
    lemma_take_step(names, times, i, now, timeout_ns);
    lemma_count_bound(names, times, i + 1, now, timeout_ns);
}

/// A thread is overdue just where it was heard of once and has been silent for longer than it may: a
/// thread of an asset for half the time, but no less than a nanosecond, any other for the whole.
pub proof fn law_silence_makes_overdue(name: Seq<char>, last: u64, now: u64, timeout_ns: u64)
    ensures
        last == 0 ==> !is_stale(name, last, now, timeout_ns),
        now <= last ==> !is_stale(name, last, now, timeout_ns),
        last != 0 && !("asset-"@.is_prefix_of(name)) ==> (is_stale(name, last, now, timeout_ns)
            <==> now > last + timeout_ns),
        last != 0 && "asset-"@.is_prefix_of(name) && timeout_ns >= 2 ==> (is_stale(
            name,
            last,
            now,
            timeout_ns,
        ) <==> now > last + timeout_ns / 2),
        last != 0 && "asset-"@.is_prefix_of(name) && timeout_ns < 2 ==> (is_stale(
            name,
            last,
            now,
            timeout_ns,
        ) <==> now > last + 1),
{
    let n = "asset-"@.len() as int;
    if n <= name.len() {
        assert(name.take(n) =~= name.subrange(0, n));
    }
}

/// The overdue threads are counted one by one: none in an empty list, and each thread adds one just
/// where it is overdue.
pub proof fn law_overdue_are_counted_one_by_one(
    names: Seq<Seq<char>>,
    times: Seq<u64>,
    name: Seq<char>,
    last: u64,
    now: u64,
    timeout_ns: u64,
)
    requires
        names.len() == times.len(),
    ensures
        stale_count(Seq::empty(), Seq::empty(), now, timeout_ns) == 0,
        stale_count(names.push(name), times.push(last), now, timeout_ns) == stale_count(
            names,
            times,
            now,
            timeout_ns,
        ) + (if is_stale(name, last, now, timeout_ns) {
            1nat
        } else {
            0nat
        }),
{
    assert(names.push(name).drop_last() =~= names);
    assert(times.push(last).drop_last() =~= times);
}

/// A look for overdue threads stops trading just where trading goes on and one is found; each that
/// was found is a miss more. Else nothing changes.
pub proof fn law_overdue_thread_stops_trading<C: Clock>(
    m: ThreadHeartbeatMonitor,
    now: u64,
    i: int,
)
    ensures
        forall|k: &mut KillSwitch<C>, g: &mut GlobalMetrics|
            #![trigger call_ensures(ThreadHeartbeatMonitor::check::<C>, (&m, now, k, g), ())]
            call_ensures(ThreadHeartbeatMonitor::check::<C>, (&m, now, k, g), ()) ==> {
                let found = stale_count(m.names(), m.times(), now, m.timeout());
                &&& k.on() ==> *final(k) == *k && *final(g) == *g
                &&& found == 0 ==> *final(k) == *k && *final(g) == *g
                &&& !k.on() && found > 0 ==> final(k).on()
                &&& !k.on() && 0 < found <= u64::MAX && k.count() < u64::MAX ==> final(k).count()
                    == k.count() + 1
                &&& !k.on() && 0 < found && g.heartbeat_misses@ + found <= u64::MAX
                    ==> final(g).heartbeat_misses@ == g.heartbeat_misses@ + found
                &&& final(k).orders() == k.orders()
                &&& final(g).errors@ == g.errors@
            },
        m.names().len() == m.times().len() && 0 <= i < m.names().len() && is_stale(
            m.names()[i],
            m.times()[i],
            now,
            m.timeout(),
        ) ==> stale_count(m.names(), m.times(), now, m.timeout()) > 0,
{
    if m.names().len() == m.times().len() && 0 <= i < m.names().len() && is_stale(
        m.names()[i],
        m.times()[i],
        now,
        m.timeout(),
    ) {
        law_stale_is_found(m.names(), m.times(), i, now, m.timeout());
    }
}

/// A thread that is watched counts as not heard of until it is. What is noted of it is the time that
/// was given; a thread that is not watched is not noted, and other threads stay as they are.
pub proof fn law_pulses_are_noted_for_their_thread()
    ensures
        forall|m: &mut ThreadHeartbeatMonitor, name: &str, u: (), other: Seq<char>|
            #![trigger call_ensures(ThreadHeartbeatMonitor::register_thread, (m, name), u), m.beats().dom().contains(other)]
            call_ensures(ThreadHeartbeatMonitor::register_thread, (m, name), u) ==> {
                &&& final(m).beats().dom().contains(name@)
                &&& final(m).beats()[name@] == 0
                &&& other != name@ ==> (final(m).beats().dom().contains(other)
                    <==> m.beats().dom().contains(other))
                &&& other != name@ ==> final(m).beats()[other] == m.beats()[other]
                &&& final(m).timeout() == m.timeout() && final(m).on() == m.on()
            },
        forall|m: &mut ThreadHeartbeatMonitor, name: &str, now: u64, u: (), other: Seq<char>|
            #![trigger call_ensures(ThreadHeartbeatMonitor::record_pulse, (m, name, now), u), m.beats().dom().contains(other)]
            call_ensures(ThreadHeartbeatMonitor::record_pulse, (m, name, now), u) ==> {
                &&& final(m).beats().dom() == m.beats().dom()
                &&& m.beats().dom().contains(name@) ==> final(m).beats()[name@] == now
                &&& other != name@ && m.beats().dom().contains(other) ==> final(m).beats()[other]
                    == m.beats()[other]
                &&& final(m).timeout() == m.timeout() && final(m).on() == m.on()
            },
{
}

/// A new monitor watches, and watches no thread yet; it ends when it is shut down.
pub proof fn law_monitor_watches_until_shut_down(timeout_ns: u64, fresh: ThreadHeartbeatMonitor)
    requires
        call_ensures(ThreadHeartbeatMonitor::new, (timeout_ns,), fresh),
    ensures
        fresh.timeout() == timeout_ns,
        forall|name: Seq<char>| !(#[trigger] fresh.beats().dom().contains(name)),
        forall|r: bool| #[trigger]
            call_ensures(ThreadHeartbeatMonitor::is_running, (&fresh,), r) ==> r,
        forall|m: &mut ThreadHeartbeatMonitor, u: (), after: ThreadHeartbeatMonitor, r: bool|
            #![trigger call_ensures(ThreadHeartbeatMonitor::shutdown, (m,), u), call_ensures(ThreadHeartbeatMonitor::is_running, (&after,), r)]
            call_ensures(ThreadHeartbeatMonitor::shutdown, (m,), u) && after == *final(m)
                && call_ensures(ThreadHeartbeatMonitor::is_running, (&after,), r) ==> !r,
{
}

} // verus!
