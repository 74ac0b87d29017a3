//! Limits on the rate of orders: one for all symbols, and one for each.
//!
//! Sums and quotients of the figures come in from outside; which figure goes where, and when, is
//! decided here.

use vstd::prelude::*;

use crate::quantity::Real;
use crate::str_map::StrMap;

verus! {

/// Tokens that are used up by orders and come back with time.
#[derive(Debug, Clone, Copy, PartialEq, Eq, Structural)]
pub struct TokenBucket {
    pub tokens: Real,
    pub max_tokens: Real,
    pub refill_rate: Real,
    pub last_refill_ns: u64,
}

impl TokenBucket {
    /// A full bucket.
    pub open spec fn full(max_tokens: Real, refill_rate: Real, now_ns: u64) -> TokenBucket {
        TokenBucket { tokens: max_tokens, max_tokens, refill_rate, last_refill_ns: now_ns }
    }

    /// A full bucket.
    pub fn new(max_tokens: Real, refill_rate: Real, now_ns: u64) -> (b: Self)
        ensures
            b == TokenBucket::full(max_tokens, refill_rate, now_ns),
    {
        TokenBucket { tokens: max_tokens, max_tokens, refill_rate, last_refill_ns: now_ns }
    }

    /// The nanoseconds since tokens last came back.
    pub fn elapsed_ns(&self, now_ns: u64) -> (n: u64)
        requires
            self.last_refill_ns <= now_ns,
        ensures
            n == now_ns - self.last_refill_ns,
    {
        now_ns - self.last_refill_ns
    }

    /// After tokens came back: `grown` are the tokens with those that came back, of which no more
    /// than the bucket holds are kept.
    pub open spec fn refilled(self, grown: Real, now_ns: u64) -> TokenBucket {
        TokenBucket {
            tokens: grown.smaller(self.max_tokens),
            last_refill_ns: now_ns,
            ..self
        }
    }

    /// Lets tokens come back.
    pub fn refill(&mut self, grown: Real, now_ns: u64)
        ensures
            *final(self) == old(self).refilled(grown, now_ns),
    {
        self.tokens = grown.min(&self.max_tokens);
        self.last_refill_ns = now_ns;
    }

    /// Whether there are enough tokens.
    pub open spec fn has(self, count: Real) -> bool {
        count.less_eq(self.tokens)
    }

    /// After tokens were taken where there are enough: `left` are the tokens without them.
    pub open spec fn taken(self, count: Real, left: Real) -> TokenBucket {
        if self.has(count) {
            TokenBucket { tokens: left, ..self }
        } else {
            self
        }
    }

    /// Takes tokens where there are enough.
    pub fn take(&mut self, count: Real, left: Real) -> (r: bool)
        ensures
            r == old(self).has(count),
            *final(self) == old(self).taken(count, left),
    {
        if count.le(&self.tokens) {
            self.tokens = left;
            true
        } else {
            false
        }
    }

    /// Lets tokens come back and takes some where there are enough.
    pub fn try_consume(&mut self, count: Real, grown: Real, left: Real, now_ns: u64) -> (r: bool)
        ensures
            r == old(self).refilled(grown, now_ns).has(count),
            *final(self) == old(self).refilled(grown, now_ns).taken(count, left),
    {
        self.refill(grown, now_ns);
        self.take(count, left)
    }

    pub fn tokens_available(&self) -> (t: Real)
        ensures
            t == self.tokens,
    {
        self.tokens
    }

    /// The share of tokens that is left: `percent`, but zero where the bucket holds none.
    pub open spec fn share(self, percent: Real) -> Real {
        if self.max_tokens.positive() {
            percent
        } else {
            Real { bits: 0 }
        }
    }

    /// The share of tokens that is left, in percent: `percent`, but zero where the bucket holds
    /// none.
    pub fn percent_remaining(&self, percent: Real) -> (r: Real)
        ensures
            r == self.share(percent),
    {
        if self.max_tokens.is_positive() {
            percent
        } else {
            Real { bits: 0 }
        }
    }

    /// Whether less than a threshold is left.
    pub fn is_near_limit(&self, percent: Real, threshold_percent: Real) -> (r: bool)
        ensures
            r == self.share(percent).less(threshold_percent),
    {
        self.percent_remaining(percent).lt(&threshold_percent)
    }
}

/// The figures of one attempt to take tokens.
#[derive(Debug, Clone, Copy, PartialEq, Eq, Structural)]
pub struct ConsumeFigures {
    /// The tokens for all symbols with those that came back.
    pub global_grown: Real,
    /// Those that are left without the ones to be taken.
    pub global_left: Real,
    /// Those with the ones given back again.
    pub global_refunded: Real,
    /// The tokens of the symbol with those that came back.
    pub symbol_grown: Real,
    /// Those that are left without the ones to be taken.
    pub symbol_left: Real,
}

/// Limits for all symbols together, and for each.
pub struct RateLimiter {
    pub global: TokenBucket,
    pub per_symbol: StrMap<TokenBucket>,
    pub default_per_symbol_rate: Real,
}

impl RateLimiter {
    pub open spec fn wf(&self) -> bool {
        self.per_symbol.wf()
    }

    /// The bucket of a symbol: a full one where it has none yet.
    pub open spec fn bucket(&self, symbol: Seq<char>, now_ns: u64) -> TokenBucket {
        if self.per_symbol@.dom().contains(symbol) {
            self.per_symbol@[symbol]
        } else {
            TokenBucket::full(self.default_per_symbol_rate, self.default_per_symbol_rate, now_ns)
        }
    }

    pub fn new(global_rate: Real, per_symbol_rate: Real, now_ns: u64) -> (l: Self)
        ensures
            l.wf(),
            l.global == TokenBucket::full(global_rate, global_rate, now_ns),
            l.per_symbol@ == Map::<Seq<char>, TokenBucket>::empty(),
            l.default_per_symbol_rate == per_symbol_rate,
    {
        RateLimiter {
            global: TokenBucket::new(global_rate, global_rate, now_ns),
            per_symbol: StrMap::new(),
            default_per_symbol_rate: per_symbol_rate,
        }
    }

    /// The bucket of a symbol: a full one where it has none yet.
    pub fn bucket_of(&self, symbol: &str, now_ns: u64) -> (b: TokenBucket)
        requires
            self.wf(),
        ensures
            b == self.bucket(symbol@, now_ns),
    {
        match self.per_symbol.get(symbol) {
            Some(b) => *b,
            None => TokenBucket::new(
                self.default_per_symbol_rate,
                self.default_per_symbol_rate,
                now_ns,
            ),
        }
    }

    /// Takes tokens for an order, from those for all symbols and from those of its symbol. Where
    /// the symbol has not enough, the others are given back.
    pub fn try_consume(&mut self, symbol: &str, count: Real, f: ConsumeFigures, now_ns: u64) -> (
        r: bool)
        requires
            old(self).wf(),
        ensures
            final(self).wf(),
            final(self).default_per_symbol_rate == old(self).default_per_symbol_rate,
            ({
                let g = old(self).global.refilled(f.global_grown, now_ns);
                let s = old(self).bucket(symbol@, now_ns).refilled(f.symbol_grown, now_ns);
                &&& r == (g.has(count) && s.has(count))
                &&& final(self).global == (if g.has(count) && !s.has(count) {
                    TokenBucket { tokens: f.global_refunded, ..g }
                } else {
                    g.taken(count, f.global_left)
                })
                &&& final(self).per_symbol@ == (if g.has(count) {
                    old(self).per_symbol@.insert(symbol@, s.taken(count, f.symbol_left))
                } else {
                    old(self).per_symbol@
                })
            }),
    {
        if !self.global.try_consume(count, f.global_grown, f.global_left, now_ns) {
            return false;
        }
        let mut bucket = self.bucket_of(symbol, now_ns);
        let r = bucket.try_consume(count, f.symbol_grown, f.symbol_left, now_ns);
        self.per_symbol.insert(symbol.to_owned(), bucket);
        if !r {
            self.global.tokens = f.global_refunded;
        }
        r
    }

    /// Sets the rate of a symbol. A symbol that has a bucket keeps its tokens.
    pub fn set_symbol_rate(&mut self, symbol: &str, rate: Real, now_ns: u64)
        requires
            old(self).wf(),
        ensures
            final(self).wf(),
            final(self).global == old(self).global,
            final(self).default_per_symbol_rate == old(self).default_per_symbol_rate,
            final(self).per_symbol@ == old(self).per_symbol@.insert(
                symbol@,
                if old(self).per_symbol@.dom().contains(symbol@) {
                    TokenBucket {
                        max_tokens: rate,
                        refill_rate: rate,
                        ..old(self).per_symbol@[symbol@]
                    }
                } else {
                    TokenBucket::full(rate, rate, now_ns)
                },
            ),
    {
        let bucket: TokenBucket = match self.per_symbol.get(symbol) {
            Some(b) => TokenBucket { max_tokens: rate, refill_rate: rate, ..*b },
            None => TokenBucket::new(rate, rate, now_ns),
        };
        self.per_symbol.insert(symbol.to_owned(), bucket);
    }

    /// The tokens of a symbol, their share, and whether less than a threshold is left.
    pub fn get_back_pressure_status(
        &self,
        symbol: &str,
        percent: Real,
        threshold_percent: Real,
    ) -> (r: Option<(Real, Real, bool)>)
        requires
            self.wf(),
        ensures
            r == (if self.per_symbol@.dom().contains(symbol@) {
                let b = self.per_symbol@[symbol@];
                Some((b.tokens, b.share(percent), b.share(percent).less(threshold_percent)))
            } else {
                None
            }),
    {
        match self.per_symbol.get(symbol) {
            Some(b) => Some(
                (
                    b.tokens,
                    b.percent_remaining(percent),
                    b.is_near_limit(percent, threshold_percent),
                ),
            ),
            None => None,
        }
    }

    /// Whether less than a threshold is left to a symbol.
    pub fn is_near_limit(&self, symbol: &str, percent: Real, threshold_percent: Real) -> (r: bool)
        requires
            self.wf(),
        ensures
            r == (self.per_symbol@.dom().contains(symbol@) && self.per_symbol@[symbol@].share(
                percent,
            ).less(threshold_percent)),
    {
        match self.per_symbol.get(symbol) {
            Some(b) => b.is_near_limit(percent, threshold_percent),
            None => false,
        }
    }

    pub fn global_tokens_remaining(&self) -> (t: Real)
        ensures
            t == self.global.tokens,
    {
        self.global.tokens
    }
}

/// A bucket never holds more tokens than it has room for.
pub proof fn law_tokens_are_capped(b: TokenBucket, grown: Real, now_ns: u64)
    requires
        !b.max_tokens.is_nan(),
    ensures
        b.refilled(grown, now_ns).tokens.less_eq(b.max_tokens),
{
}

/// A bucket that refuses loses no tokens.
pub proof fn law_refusal_takes_nothing(b: TokenBucket, count: Real, left: Real)
    requires
        !b.has(count),
    ensures
        b.taken(count, left) == b,
{
}

/// One use of a bucket: how many tokens were asked for and when, the tokens with those that came
/// back until then, and those that are left without the ones asked for.
pub ghost struct BucketUse {
    pub count: Real,
    pub grown: Real,
    pub left: Real,
    pub now_ns: u64,
}

/// A bucket after uses in turn.
pub open spec fn after_uses(b: TokenBucket, uses: Seq<BucketUse>) -> TokenBucket
    decreases uses.len(),
{
    if uses.len() == 0 {
        b
    } else {
        let u = uses.last();
        after_uses(b, uses.drop_last()).refilled(u.grown, u.now_ns).taken(u.count, u.left)
    }
}

/// The nanoseconds that uses in turn bring tokens for: at each the time since tokens last came back.
pub open spec fn credited(b: TokenBucket, uses: Seq<BucketUse>) -> int
    decreases uses.len(),
{
    if uses.len() == 0 {
        0
    } else {
        let front = uses.drop_last();
        credited(b, front) + (uses.last().now_ns - after_uses(b, front).last_refill_ns)
    }
}

/// Time brings tokens once: after any uses, granted or refused, the bucket stands at the time of the
/// last one, and the times that brought tokens add up to that time less the one at which the first
/// use found the bucket.
pub proof fn law_time_is_credited_once(b: TokenBucket, uses: Seq<BucketUse>)
    requires
        uses.len() > 0,
    ensures
        after_uses(b, uses).last_refill_ns == uses.last().now_ns,
        credited(b, uses) == uses.last().now_ns - b.last_refill_ns,
        after_uses(b, uses).max_tokens == b.max_tokens,
        after_uses(b, uses).refill_rate == b.refill_rate,
    decreases uses.len(),
{
    if uses.len() > 1 {
        law_time_is_credited_once(b, uses.drop_last());
    } else {
        let front = uses.drop_last();
        assert(front.len() == 0);
        assert(after_uses(b, front) == b);
        assert(credited(b, front) == 0);
    }
}

/// After tokens came back at one time, the time that the next return of tokens counts is the time
/// since then.
pub proof fn law_next_refill_counts_from_here()
    ensures
        forall|b: &mut TokenBucket, c: &TokenBucket, grown: Real, now_ns: u64, later: u64, n: u64|
            #![trigger call_ensures(TokenBucket::refill, (b, grown, now_ns), ()), call_ensures(
                TokenBucket::elapsed_ns,
                (c, later),
                n,
            )]
            call_ensures(TokenBucket::refill, (b, grown, now_ns), ()) && *final(b) == *c
                && call_ensures(TokenBucket::elapsed_ns, (c, later), n) ==> n == later - now_ns,
        forall|
            b: &mut TokenBucket,
            c: &TokenBucket,
            count: Real,
            grown: Real,
            left: Real,
            now_ns: u64,
            r: bool,
            later: u64,
            n: u64,
        |
            #![trigger call_ensures(TokenBucket::try_consume, (b, count, grown, left, now_ns), r), call_ensures(
                TokenBucket::elapsed_ns,
                (c, later),
                n,
            )]
            call_ensures(TokenBucket::try_consume, (b, count, grown, left, now_ns), r) && *final(b)
                == *c && call_ensures(TokenBucket::elapsed_ns, (c, later), n) ==> n == later
                - now_ns,
{
}

/// Tokens are granted just where there are as many as asked for, of those that came back no more
/// counting than the bucket holds; they are then taken, and where they are refused none is.
pub proof fn law_grant_takes_what_is_there()
    ensures
        forall|b: &mut TokenBucket, count: Real, grown: Real, left: Real, now_ns: u64, r: bool|
            #![trigger call_ensures(TokenBucket::try_consume, (b, count, grown, left, now_ns), r)]
            call_ensures(TokenBucket::try_consume, (b, count, grown, left, now_ns), r)
                && !count.is_nan() && !grown.is_nan() && !b.max_tokens.is_nan() ==> {
                &&& r <==> count.rank() <= grown.rank() && count.rank() <= b.max_tokens.rank()
                &&& r ==> final(b).tokens == left
                &&& !r && grown.rank() <= b.max_tokens.rank() ==> final(b).tokens.rank()
                    == grown.rank()
                &&& !r && grown.rank() > b.max_tokens.rank() ==> final(b).tokens == b.max_tokens
                &&& final(b).max_tokens == b.max_tokens
                &&& final(b).refill_rate == b.refill_rate
                &&& final(b).last_refill_ns == now_ns
            },
{
}

/// A new bucket is full and its time starts when it is made.
pub proof fn law_new_bucket_is_full(max_tokens: Real, refill_rate: Real, now_ns: u64, b: TokenBucket)
    requires
        call_ensures(TokenBucket::new, (max_tokens, refill_rate, now_ns), b),
    ensures
        b.tokens == max_tokens,
        b.max_tokens == max_tokens,
        b.refill_rate == refill_rate,
        b.last_refill_ns == now_ns,
{
}

/// An order needs tokens of both kinds: it is let through just where all symbols together and its
/// own symbol have as many as it asks for. What is refused for want of tokens of the symbol gives
/// the others back, and tokens of other symbols are never touched.
pub proof fn law_order_needs_both_limits()
    ensures
        forall|
            l: &mut RateLimiter,
            symbol: &str,
            count: Real,
            f: ConsumeFigures,
            now_ns: u64,
            r: bool,
            other: Seq<char>,
        |
            #![trigger call_ensures(RateLimiter::try_consume, (l, symbol, count, f, now_ns), r), l.per_symbol@.dom().contains(
                other,
            )]
            call_ensures(RateLimiter::try_consume, (l, symbol, count, f, now_ns), r)
                && !count.is_nan() && !f.global_grown.is_nan() && !f.symbol_grown.is_nan()
                && !l.global.max_tokens.is_nan() && !l.default_per_symbol_rate.is_nan() && (
            l.per_symbol@.dom().contains(symbol@) ==> !l.per_symbol@[symbol@].max_tokens.is_nan())
                ==> {
                let room = if l.per_symbol@.dom().contains(symbol@) {
                    l.per_symbol@[symbol@].max_tokens
                } else {
                    l.default_per_symbol_rate
                };
                let all = count.rank() <= f.global_grown.rank() && count.rank()
                    <= l.global.max_tokens.rank();
                let own = count.rank() <= f.symbol_grown.rank() && count.rank() <= room.rank();
                &&& r == (all && own)
                &&& final(l).global.last_refill_ns == now_ns
                &&& r ==> final(l).global.tokens == f.global_left
                    && final(l).per_symbol@[symbol@].tokens == f.symbol_left
                &&& all && !own ==> final(l).global.tokens == f.global_refunded
                    && final(l).per_symbol@[symbol@].tokens.rank() == (if f.symbol_grown.rank()
                    <= room.rank() {
                    f.symbol_grown.rank()
                } else {
                    room.rank()
                })
                &&& all ==> final(l).per_symbol@.dom().contains(symbol@)
                    && final(l).per_symbol@[symbol@].last_refill_ns == now_ns
                    && final(l).per_symbol@[symbol@].max_tokens == room
                &&& !all ==> final(l).per_symbol@ == l.per_symbol@
                &&& other != symbol@ ==> final(l).per_symbol@.dom().contains(other)
                    == l.per_symbol@.dom().contains(other)
                &&& other != symbol@ && l.per_symbol@.dom().contains(other)
                    ==> final(l).per_symbol@[other] == l.per_symbol@[other]
            },
{
}

/// The share that is left is zero of a bucket that holds nothing, and else the one that came in;
/// the limit is near just where the share lies below the threshold.
pub proof fn law_share_tells_the_limit(b: TokenBucket, percent: Real, threshold: Real, r: bool)
    requires
        call_ensures(TokenBucket::is_near_limit, (&b, percent, threshold), r),
        !percent.is_nan(),
        !threshold.is_nan(),
        !b.max_tokens.is_nan(),
    ensures
        b.max_tokens.rank() > 0 ==> r == (percent.rank() < threshold.rank()),
        b.max_tokens.rank() <= 0 ==> r == (0 < threshold.rank()),
{
}

/// A new rate for a symbol is its limit and its pace from then on. Tokens that it has stay, a symbol
/// that is new starts with all of them, and other symbols keep what they have.
pub proof fn law_rate_is_set_for_its_symbol()
    ensures
        forall|l: &mut RateLimiter, symbol: &str, rate: Real, now: u64, u: (), other: Seq<char>|
            #![trigger call_ensures(RateLimiter::set_symbol_rate, (l, symbol, rate, now), u), l.per_symbol@.dom().contains(other)]
            call_ensures(RateLimiter::set_symbol_rate, (l, symbol, rate, now), u) ==> {
                &&& final(l).per_symbol@.dom().contains(symbol@)
                &&& final(l).per_symbol@[symbol@].max_tokens == rate
                &&& final(l).per_symbol@[symbol@].refill_rate == rate
                &&& l.per_symbol@.dom().contains(symbol@) ==> final(l).per_symbol@[symbol@].tokens
                    == l.per_symbol@[symbol@].tokens
                    && final(l).per_symbol@[symbol@].last_refill_ns
                    == l.per_symbol@[symbol@].last_refill_ns
                &&& !l.per_symbol@.dom().contains(symbol@) ==> final(l).per_symbol@[symbol@].tokens
                    == rate && final(l).per_symbol@[symbol@].last_refill_ns == now
                &&& other != symbol@ ==> (final(l).per_symbol@.dom().contains(other)
                    <==> l.per_symbol@.dom().contains(other))
                &&& other != symbol@ && l.per_symbol@.dom().contains(other)
                    ==> final(l).per_symbol@[other] == l.per_symbol@[other]
                &&& final(l).global == l.global
            },
{
}

/// Of a symbol that was never seen nothing is told; of another its tokens, and a warning just where
/// the share that is left lies below the threshold.
pub proof fn law_pressure_is_told_of_known_symbols(
    l: &RateLimiter,
    symbol: &str,
    percent: Real,
    threshold: Real,
    r: Option<(Real, Real, bool)>,
    near: bool,
)
    requires
        call_ensures(RateLimiter::get_back_pressure_status, (l, symbol, percent, threshold), r),
        call_ensures(RateLimiter::is_near_limit, (l, symbol, percent, threshold), near),
    ensures
        r is Some <==> l.per_symbol@.dom().contains(symbol@),
        r matches Some(t) ==> t.0 == l.per_symbol@[symbol@].tokens && t.2 == near,
        r matches Some(t) ==> (near <==> t.1.less(threshold)),
        r is None ==> !near,
{
}

/// The bucket of a symbol is the one that it has; a symbol that was never seen starts with a full
/// one, of the rate that all symbols have.
pub proof fn law_new_symbol_starts_full(l: &RateLimiter, symbol: &str, now: u64, b: TokenBucket)
    requires
        call_ensures(RateLimiter::bucket_of, (l, symbol, now), b),
    ensures
        l.per_symbol@.dom().contains(symbol@) ==> b == l.per_symbol@[symbol@],
        !l.per_symbol@.dom().contains(symbol@) ==> {
            &&& b.tokens == l.default_per_symbol_rate
            &&& b.max_tokens == l.default_per_symbol_rate
            &&& b.refill_rate == l.default_per_symbol_rate
            &&& b.last_refill_ns == now
        },
{
}

} // verus!
