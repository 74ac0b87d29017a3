//! Wall time and monotonic time, from the machine or set by hand.

use std::time::Instant;
use vstd::prelude::*;

verus! {

/// `std::time::Instant`, carried through as it is.
#[verifier::external_type_specification]
#[verifier::external_body]
pub struct ExInstant(Instant);

/// A span of time: whole seconds, and nanoseconds below one second.
#[derive(Debug, Clone, Copy, PartialEq, Eq, Structural)]
pub struct Span {
    pub secs: u64,
    pub nanos: u32,
}

/// The low 64 bits of `n`.
pub open spec fn low_u64(n: int) -> u64 {
    (n % 0x1_0000_0000_0000_0000) as u64
}

impl Span {
    /// The nanoseconds of the span.
    pub open spec fn ns(self) -> int {
        self.secs * 1_000_000_000 + self.nanos
    }

    pub fn from_secs(secs: u64) -> (s: Span)
        ensures
            s.ns() == secs * 1_000_000_000,
            s.nanos == 0,
    {
        Span { secs, nanos: 0 }
    }

    /// The span of `ms` milliseconds.
    pub fn from_millis(ms: u64) -> (s: Span)
        ensures
            s.ns() == ms * 1_000_000,
            s.nanos < 1_000_000_000,
    {
        Span { secs: ms / 1000, nanos: ((ms % 1000) * 1_000_000) as u32 }
    }

    /// Whether the span is as long as another or longer.
    pub fn at_least(&self, other: &Span) -> (r: bool)
        ensures
            r == (self.ns() >= other.ns()),
    {
        let a: u128 = (self.secs as u128) * 1_000_000_000 + (self.nanos as u128);
        let b: u128 = (other.secs as u128) * 1_000_000_000 + (other.nanos as u128);
        a >= b
    }

    /// The nanoseconds of the span, or their low 64 bits where they do not fit.
    pub fn total_ns(&self) -> (n: u64)
        ensures
            n == low_u64(self.ns()),
            self.ns() <= u64::MAX ==> n == self.ns(),
    {
        let wide: u128 = (self.secs as u128) * 1_000_000_000 + (self.nanos as u128);
        let low: u128 = wide % 0x1_0000_0000_0000_0000;
        low as u64
    }
}

/// The time since the UNIX epoch, by `SystemTime::elapsed` of the epoch; zero where the clock
/// stands before the epoch. Of the result only that the nanoseconds stay below one second.
#[verifier::external_body]
fn since_epoch() -> (s: Span)
    ensures
        s.nanos < 1_000_000_000,
{
    let d = std::time::UNIX_EPOCH.elapsed().unwrap_or_default();
    Span { secs: d.as_secs(), nanos: d.subsec_nanos() }
}

/// The instant at which it is called, by `Instant::now`. Nothing is claimed of the result.
#[verifier::external_body]
pub(crate) fn instant_now() -> Instant {
    Instant::now()
}

/// The time since an instant, by `Instant::elapsed`. Of the result only that the nanoseconds
/// stay below one second.
#[verifier::external_body]
pub(crate) fn instant_elapsed(start: &Instant) -> (s: Span)
    ensures
        s.nanos < 1_000_000_000,
{
    let d = start.elapsed();
    Span { secs: d.as_secs(), nanos: d.subsec_nanos() }
}

/// Whether `t` is what the machine's wall clock can show, in nanoseconds since the UNIX epoch. Only
/// a look at it shows this.
pub closed spec fn epoch_read(t: u64) -> bool {
    exists|s: Span| #[trigger] call_ensures(since_epoch, (), s) && t == low_u64(s.ns())
}

/// Whether `start` can be the instant of a moment. Only a look at the monotonic clock shows this.
pub closed spec fn begun_at(start: Instant) -> bool {
    call_ensures(instant_now, (), start)
}

/// Whether `s` can be the time since `start`. Only a look at the monotonic clock shows this.
pub closed spec fn passed_since(start: Instant, s: Span) -> bool {
    call_ensures(instant_elapsed, (&start,), s)
}

/// Whether `t` is a time since `start` in nanoseconds, see `passed_since`.
pub open spec fn elapsed_read(start: Instant, t: u64) -> bool {
    exists|s: Span| #[trigger] passed_since(start, s) && t == low_u64(s.ns())
}

/// Whether `t` is a time in nanoseconds that was measured from its begin on.
pub open spec fn measured(t: u64) -> bool {
    exists|start: Instant| #[trigger] begun_at(start) && elapsed_read(start, t)
}

/// An instant that was just taken is one.
pub(crate) proof fn lemma_begun_at(start: Instant)
    requires
        call_ensures(instant_now, (), start),
    ensures
        begun_at(start),
{
}

/// A time that was just read has passed.
pub(crate) proof fn lemma_passed_since(start: Instant, s: Span)
    requires
        call_ensures(instant_elapsed, (&start,), s),
    ensures
        passed_since(start, s),
{
}

/// A source of wall time and of monotonic time.
pub trait Clock {
    /// The wall time in nanoseconds since the UNIX epoch.
    fn now_ns(&self) -> u64;

    /// A time in nanoseconds that never goes back.
    fn now_monotonic_ns(&self) -> u64;
}

/// The machine's clock.
pub struct WallClock {
    start: Instant,
}

impl WallClock {
    /// The moment from which the monotonic time is counted.
    pub closed spec fn start_of(&self) -> Instant {
        self.start
    }

    /// A clock whose monotonic time starts now.
    pub fn new() -> (c: Self)
        ensures
            begun_at(c.start_of()),
    {
        WallClock { start: instant_now() }
    }
}

impl Default for WallClock {
    fn default() -> (c: Self)
        ensures
            begun_at(c.start_of()),
    {
        WallClock::new()
    }
}

impl Clock for WallClock {
    fn now_ns(&self) -> (t: u64)
        ensures
            epoch_read(t),
    {
        since_epoch().total_ns()
    }

    fn now_monotonic_ns(&self) -> (t: u64)
        ensures
            elapsed_read(self.start_of(), t),
    {
        let passed = instant_elapsed(&self.start);
        assert(passed_since(self.start, passed));
        passed.total_ns()
    }
}

/// A clock that is set by hand.
#[derive(Debug, Clone)]
pub struct TestClock {
    time_ns: u64,
}

impl View for TestClock {
    type V = u64;

    /// The time that the clock shows.
    closed spec fn view(&self) -> u64 {
        self.time_ns
    }
}

impl TestClock {
    pub fn new(initial_ns: u64) -> (c: Self)
        ensures
            c@ == initial_ns,
    {
        TestClock { time_ns: initial_ns }
    }

    /// A clock that shows the wall time of this moment.
    pub fn from_system_time() -> (c: Self)
        ensures
            epoch_read(c@),
    {
        Self::new(wall_time_ns())
    }

    /// Moves the clock on; it stops at the largest time.
    pub fn advance(&mut self, duration_ns: u64)
        ensures
            final(self)@ == (if old(self)@ + duration_ns <= u64::MAX {
                (old(self)@ + duration_ns) as u64
            } else {
                u64::MAX
            }),
    {
        self.time_ns = self.time_ns.saturating_add(duration_ns);
    }

    /// Moves the clock on by a span, taken by the low 64 bits of its nanoseconds.
    pub fn advance_duration(&mut self, duration: Span)
        ensures
            final(self)@ == (if old(self)@ + low_u64(duration.ns()) <= u64::MAX {
                (old(self)@ + low_u64(duration.ns())) as u64
            } else {
                u64::MAX
            }),
    {
        self.advance(duration.total_ns());
    }

    /// Sets the time.
    pub fn set_time(&mut self, time_ns: u64)
        ensures
            final(self)@ == time_ns,
    {
        self.time_ns = time_ns;
    }

    /// The time that the clock shows.
    pub fn get_time(&self) -> (t: u64)
        ensures
            t == self@,
    {
        self.time_ns
    }
}

impl Default for TestClock {
    fn default() -> (c: Self)
        ensures
            epoch_read(c@),
    {
        TestClock::from_system_time()
    }
}

impl Clock for TestClock {
    fn now_ns(&self) -> (t: u64)
        ensures
            t == self@,
    {
        self.time_ns
    }

    fn now_monotonic_ns(&self) -> (t: u64)
        ensures
            t == self@,
    {
        self.time_ns
    }
}

/// The wall time in nanoseconds since the UNIX epoch.
pub fn wall_time_ns() -> (t: u64)
    ensures
        epoch_read(t),
{
    since_epoch().total_ns()
}

/// The monotonic time in nanoseconds, counted from `start`.
pub fn monotonic_time_ns(start: &Instant) -> (t: u64)
    ensures
        elapsed_read(*start, t),
{
    let passed = instant_elapsed(start);
    assert(passed_since(*start, passed));
    passed.total_ns()
}

/// A span is as long as its seconds and nanoseconds together; a second has a thousand milliseconds
/// and a millisecond a million nanoseconds.
pub proof fn law_spans_have_their_length(secs: u64, ms: u64, a: Span, b: Span)
    requires
        call_ensures(Span::from_secs, (secs,), a),
        call_ensures(Span::from_millis, (ms,), b),
    ensures
        a.ns() == secs * 1_000_000_000,
        b.ns() == ms * 1_000_000,
{
}

/// A span is at least as long as another just where it has as many nanoseconds or more, and it is
/// told in nanoseconds as long as they fit.
pub proof fn law_spans_are_compared_by_length(a: Span, b: Span, longer: bool, n: u64)
    requires
        call_ensures(Span::at_least, (&a, &b), longer),
        call_ensures(Span::total_ns, (&a,), n),
    ensures
        longer <==> a.secs * 1_000_000_000 + a.nanos >= b.secs * 1_000_000_000 + b.nanos,
        a.secs * 1_000_000_000 + a.nanos <= u64::MAX ==> n == a.secs * 1_000_000_000 + a.nanos,
{
}

/// A time that is told was read: from the start of the epoch, or from the start of a measurement.
proof fn law_only_readings_tell_the_time(t: u64, start: Instant, s: Span)
    ensures
        epoch_read(t) <==> exists|r: Span| #[trigger]
            call_ensures(since_epoch, (), r) && t == (r.secs * 1_000_000_000 + r.nanos)
                % 0x1_0000_0000_0000_0000,
        begun_at(start) <==> call_ensures(instant_now, (), start),
        passed_since(start, s) <==> call_ensures(instant_elapsed, (&start,), s),
        elapsed_read(start, t) <==> exists|r: Span| #[trigger]
            passed_since(start, r) && t == (r.secs * 1_000_000_000 + r.nanos)
                % 0x1_0000_0000_0000_0000,
        measured(t) <==> exists|i: Instant| #[trigger] begun_at(i) && elapsed_read(i, t),
{
}

/// A clock that is set tells the time that it was set to, and one that is moved on tells the sum, as
/// long as it fits.
pub proof fn law_set_clock_tells_its_time()
    ensures
        forall|c: &mut TestClock, t: u64, u: ()|
            #![trigger call_ensures(TestClock::set_time, (c, t), u)]
            call_ensures(TestClock::set_time, (c, t), u) ==> final(c)@ == t,
        forall|c: &mut TestClock, d: u64, u: ()|
            #![trigger call_ensures(TestClock::advance, (c, d), u)]
            call_ensures(TestClock::advance, (c, d), u) ==> {
                &&& c@ + d <= u64::MAX ==> final(c)@ == c@ + d
                &&& c@ + d > u64::MAX ==> final(c)@ == u64::MAX
            },
        forall|c: &mut TestClock, d: Span, u: ()|
            #![trigger call_ensures(TestClock::advance_duration, (c, d), u)]
            call_ensures(TestClock::advance_duration, (c, d), u) && c@ + d.ns() <= u64::MAX
                ==> final(c)@ == c@ + d.ns(),
        forall|c: &TestClock, t: u64|
            #![trigger call_ensures(TestClock::get_time, (c,), t)]
            call_ensures(TestClock::get_time, (c,), t) ==> t == c@,
{
}

} // verus!
