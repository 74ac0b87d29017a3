//! Counters, latency histograms and channel depths.

use crossbeam_channel::Sender;
use std::time::Instant;
use vstd::prelude::*;



use crate::channel_utils::send;
use crate::clock::{instant_elapsed, instant_now, Span};
use crate::str_map::StrMap;


verus! {

/// The sum of `a` and `b` as a counter of 64 bits shows it.
pub open spec fn wrap_u64(a: u64, b: u64) -> u64 {
    if a + b > u64::MAX {
        (a + b - 0x1_0000_0000_0000_0000) as u64
    } else {
        (a + b) as u64
    }
}

/// The sum of `a` and `b` as a gauge of 64 bits shows it.
pub open spec fn wrap_i64(a: i64, b: i64) -> i64 {
    if a + b > i64::MAX {
        (a + b - 0x1_0000_0000_0000_0000) as i64
    } else if a + b < i64::MIN {
        (a + b + 0x1_0000_0000_0000_0000) as i64
    } else {
        (a + b) as i64
    }
}

/// Adds to a gauge.
pub fn gauge_add(gauge: &mut i64, delta: i64)
    ensures
        *final(gauge) == wrap_i64(*old(gauge), delta),
{
    *gauge = (*gauge).wrapping_add(delta);
}

/// A counter.
#[derive(Debug)]
pub struct CachePaddedAtomicU64 {
    value: u64,
}

impl View for CachePaddedAtomicU64 {
    type V = u64;

    closed spec fn view(&self) -> u64 {
        self.value
    }
}

impl CachePaddedAtomicU64 {
    pub fn new(value: u64) -> (c: Self)
        ensures
            c@ == value,
    {
        CachePaddedAtomicU64 { value }
    }

    /// Adds `val`, starting again at zero after the largest value, and returns the value before.
    pub fn fetch_add(&mut self, val: u64) -> (before: u64)
        ensures
            before == old(self)@,
            final(self)@ == wrap_u64(old(self)@, val),
    {
        let before = self.value;
        self.value = before.wrapping_add(val);
        before
    }

    pub fn load(&self) -> (v: u64)
        ensures
            v == self@,
    {
        self.value
    }

    pub fn store(&mut self, val: u64)
        ensures
            final(self)@ == val,
    {
        self.value = val;
    }
}

/// The number of buckets of a histogram: below 1 us, 10 us, 100 us, 1 ms, 10 ms, and the rest.
pub const BUCKETS: usize = 6;

/// The bucket of a latency in nanoseconds.
pub open spec fn bucket_of(latency_ns: u64) -> int {
    if latency_ns < 1_000 {
        0
    } else if latency_ns < 10_000 {
        1
    } else if latency_ns < 100_000 {
        2
    } else if latency_ns < 1_000_000 {
        3
    } else if latency_ns < 10_000_000 {
        4
    } else {
        5
    }
}

fn bucket_index(latency_ns: u64) -> (i: usize)
    ensures
        i == bucket_of(latency_ns),
        i < 6,
{
    if latency_ns < 1_000 {
        0
    } else if latency_ns < 10_000 {
        1
    } else if latency_ns < 100_000 {
        2
    } else if latency_ns < 1_000_000 {
        3
    } else if latency_ns < 10_000_000 {
        4
    } else {
        5
    }
}

/// The buckets `a` with those of `b` added.
pub open spec fn wrapped_buckets(a: Seq<u64>, b: Seq<u64>) -> Seq<u64> {
    Seq::new(a.len(), |i: int| wrap_u64(a[i], b[i]))
}

/// The buckets `before` after a latency was counted, as counters of 64 bits show them.
pub open spec fn histogram_recorded(before: Seq<u64>, latency_ns: u64) -> Seq<u64> {
    before.update(bucket_of(latency_ns), wrap_u64(before[bucket_of(latency_ns)], 1))
}

/// A histogram of latencies.
#[derive(Debug)]
pub struct LatencyHistogram {
    pub buckets: [u64; 6],
}

impl View for LatencyHistogram {
    type V = Seq<u64>;

    open spec fn view(&self) -> Seq<u64> {
        self.buckets@
    }
}

impl LatencyHistogram {
    pub fn new() -> (h: Self)
        ensures
            h@ == seq![0u64, 0u64, 0u64, 0u64, 0u64, 0u64],
    {
        let h = LatencyHistogram { buckets: [0, 0, 0, 0, 0, 0] };
        assert(h@ =~= seq![0u64, 0u64, 0u64, 0u64, 0u64, 0u64]);
        h
    }

    /// Counts a latency in its bucket.
    pub fn record(&mut self, latency_ns: u64)
        ensures
            final(self)@ == histogram_recorded(old(self)@, latency_ns),
    {
        let i: usize = bucket_index(latency_ns);
        self.buckets[i] = self.buckets[i].wrapping_add(1);
        assert(self@ =~= histogram_recorded(old(self)@, latency_ns));
    }

    /// The counts of all buckets.
    pub fn snapshot(&self) -> (s: [u64; 6])
        ensures
            s@ == self@,
    {
        self.buckets
    }

    /// Sets all counts to zero.
    pub fn reset(&mut self)
        ensures
            final(self)@ == seq![0u64, 0u64, 0u64, 0u64, 0u64, 0u64],
    {
        self.buckets = [0, 0, 0, 0, 0, 0];
        assert(self@ =~= seq![0u64, 0u64, 0u64, 0u64, 0u64, 0u64]);
    }

    /// Adds the counts of another histogram.
    pub fn absorb(&mut self, other: &[u64; 6])
        ensures
            final(self)@ == wrapped_buckets(old(self)@, other@),
    {
        let mut i: usize = 0;
        while i < 6
            invariant
                i <= 6,
                self.buckets@.len() == 6,
                other@.len() == 6,
                forall|j: int| 0 <= j < i ==> self.buckets@[j] == wrap_u64(old(self)@[j], other@[j]),
                forall|j: int| i <= j < 6 ==> self.buckets@[j] == old(self)@[j],
            decreases 6 - i,
        {
            self.buckets[i] = self.buckets[i].wrapping_add(other[i]);
            i += 1;
        }
        assert(self@ =~= wrapped_buckets(old(self)@, other@));
    }
}

/// A latency goes into one bucket, and every latency has one.
pub proof fn law_bucket_is_unique(latency_ns: u64)
    ensures
        0 <= bucket_of(latency_ns) < 6,
        latency_ns < 1_000 <==> bucket_of(latency_ns) == 0,
        1_000 <= latency_ns < 10_000 <==> bucket_of(latency_ns) == 1,
        10_000 <= latency_ns < 100_000 <==> bucket_of(latency_ns) == 2,
        100_000 <= latency_ns < 1_000_000 <==> bucket_of(latency_ns) == 3,
        1_000_000 <= latency_ns < 10_000_000 <==> bucket_of(latency_ns) == 4,
        10_000_000 <= latency_ns <==> bucket_of(latency_ns) == 5,
{
}

/// The buckets `a` with those of `b` added, where the sums fit.
pub open spec fn summed_buckets(a: Seq<u64>, b: Seq<u64>, r: Seq<u64>) -> bool {
    r.len() == a.len() && forall|i: int| 0 <= i < a.len() ==> r[i] == #[trigger] a[i] + b[i]
}

/// Whether the sums of the buckets fit.
pub open spec fn buckets_fit(a: Seq<u64>, b: Seq<u64>) -> bool {
    forall|i: int| 0 <= i < 6 ==> #[trigger] a[i] + b[i] <= u64::MAX
}

fn add_buckets(a: &mut [u64; 6], b: &[u64; 6])
    requires
        buckets_fit(old(a)@, b@),
    ensures
        summed_buckets(old(a)@, b@, final(a)@),
{
    let mut i: usize = 0;
    while i < 6
        invariant
            i <= 6,
            buckets_fit(old(a)@, b@),
            a@.len() == 6,
            b@.len() == 6,
            forall|j: int| 0 <= j < i ==> a@[j] == #[trigger] old(a)@[j] + b@[j],
            forall|j: int| i <= j < 6 ==> a@[j] == old(a)@[j],
        decreases 6 - i,
    {
        assert(old(a)@[i as int] + b@[i as int] <= u64::MAX);
        a[i] = a[i] + b[i];
        i += 1;
    }
}

/// The count of a symbol, zero where there is none.
pub open spec fn count_of(m: Map<Seq<char>, u64>, k: Seq<char>) -> u64 {
    if m.dom().contains(k) {
        m[k]
    } else {
        0
    }
}

/// Whether the sums of the counts fit.
pub open spec fn counts_fit(a: Map<Seq<char>, u64>, b: Map<Seq<char>, u64>) -> bool {
    forall|k: Seq<char>| #[trigger] count_of(a, k) + count_of(b, k) <= u64::MAX
}

/// The counts `a` with those of `b` added.
pub open spec fn summed_counts(
    a: Map<Seq<char>, u64>,
    b: Map<Seq<char>, u64>,
) -> Map<Seq<char>, u64> {
    Map::new(
        |k: Seq<char>| a.dom().contains(k) || b.dom().contains(k),
        |k: Seq<char>| (count_of(a, k) + count_of(b, k)) as u64,
    )
}

/// The counts `a` with those of `b` added, as counters of 64 bits show them.
pub open spec fn wrapped_counts(
    a: Map<Seq<char>, u64>,
    b: Map<Seq<char>, u64>,
) -> Map<Seq<char>, u64> {
    Map::new(
        |k: Seq<char>| a.dom().contains(k) || b.dom().contains(k),
        |k: Seq<char>| wrap_u64(count_of(a, k), count_of(b, k)),
    )
}

/// The counts with `n` added to one symbol.
pub open spec fn bumped(m: Map<Seq<char>, u64>, k: Seq<char>, n: u64) -> Map<Seq<char>, u64> {
    m.insert(k, wrap_u64(count_of(m, k), n))
}

fn bump(m: &mut StrMap<u64>, symbol: &str, n: u64)
    requires
        old(m).wf(),
    ensures
        final(m).wf(),
        final(m)@ == bumped(old(m)@, symbol@, n),
{
    let before: u64 = match m.get(symbol) {
        Some(v) => *v,
        None => 0,
    };
    m.insert(symbol.to_owned(), before.wrapping_add(n));
}

/// The entries of the first `n` keys of `m`.
pub open spec fn prefix_counts(m: &StrMap<u64>, n: int) -> Map<Seq<char>, u64> {
    m@.restrict(m.key_seq().take(n).to_set())
}

fn absorb_counts(a: &mut StrMap<u64>, b: &StrMap<u64>)
    requires
        old(a).wf(),
        b.wf(),
    ensures
        final(a).wf(),
        final(a)@ == wrapped_counts(old(a)@, b@),
{
    let n: usize = b.len();
    let mut i: usize = 0;
    proof {
        b.lemma_entries();
        assert(a@ =~= wrapped_counts(old(a)@, prefix_counts(b, 0)));
    }
    while i < n
        invariant
            i <= n,
            n == b.key_seq().len(),
            a.wf(),
            b.wf(),
            a@ == wrapped_counts(old(a)@, prefix_counts(b, i as int)),
        decreases n - i,
    {
        let ghost before = a@;
        let ghost k = b.key_seq()[i as int];
        proof {
            b.lemma_entries();
            assert(!b.key_seq().take(i as int).contains(k));
            assert(!prefix_counts(b, i as int).dom().contains(k));
        }
        bump(a, b.key_at(i).as_str(), *b.val_at(i));
        proof {
            let p0 = prefix_counts(b, i as int);
            let p1 = prefix_counts(b, i + 1);
            assert forall|x: Seq<char>| p1.dom().contains(x) <==> (p0.dom().contains(x) || x
                == k) by {
                let t0 = b.key_seq().take(i as int);
                let t1 = b.key_seq().take(i + 1);
                if t1.contains(x) {
                    let j = t1.index_of(x);
                    assert(t1[j] == x);
                    if j < i {
                        assert(t0[j] == x);
                    }
                }
                if t0.contains(x) {
                    let j = t0.index_of(x);
                    assert(t1[j] == x);
                }
                if x == k {
                    assert(t1[i as int] == x);
                }
            }
            assert(a@ =~= wrapped_counts(old(a)@, p1));
        }
        i += 1;
    }
    proof {
        b.lemma_entries();
        assert(b.key_seq().take(n as int) =~= b.key_seq());
        assert(prefix_counts(b, n as int) =~= b@);
    }
}

fn add_counts(a: &mut StrMap<u64>, b: &StrMap<u64>)
    requires
        old(a).wf(),
        b.wf(),
        counts_fit(old(a)@, b@),
    ensures
        final(a).wf(),
        final(a)@ == summed_counts(old(a)@, b@),
{
    absorb_counts(a, b);
    assert(wrapped_counts(old(a)@, b@) =~= summed_counts(old(a)@, b@)) by {
        assert forall|k: Seq<char>| wrapped_counts(old(a)@, b@).dom().contains(k) implies
            #[trigger] wrapped_counts(old(a)@, b@)[k] == summed_counts(old(a)@, b@)[k] by {
            assert(count_of(old(a)@, k) + count_of(b@, k) <= u64::MAX);
        }
    }
}

/// Counts that one thread collected since it last handed them on.
#[derive(Debug)]
pub struct MetricsBatch {
    pub ticks_processed: u64,
    pub features_computed: u64,
    pub intents_generated: u64,
    pub intents_approved: u64,
    pub intents_rejected: u64,
    pub dropped_intents: u64,
    pub stale_predictions: u64,
    pub model_fallback_activations: u64,
    pub ticks_skipped: u64,
    pub orders_submitted: u64,
    pub orders_filled: u64,
    pub orders_cancelled: u64,
    pub orders_rejected: u64,
    pub orders_lifecycle_events: u64,
    pub circuit_breaker_trips: u64,
    pub kill_switch_activations: u64,
    pub config_reloads: u64,
    pub journal_writes: u64,
    pub heartbeat_misses: u64,
    pub errors: u64,
    pub feed_gaps: u64,
    pub tick_to_intent_latency: [u64; 6],
    pub risk_check_latency: [u64; 6],
    pub journal_flush_latency: [u64; 6],
    pub broker_send_latency: [u64; 6],
    pub feed_latency: [u64; 6],
    pub broker_round_trip_latency: [u64; 6],
    pub decision_latency: [u64; 6],
    pub model_divergence: [u64; 6],
    pub feature_channel_depth_delta: i64,
    pub risk_channel_depth_delta: i64,
    pub decision_channel_depth_delta: i64,
    pub lifecycle_channel_depth_delta: i64,
    pub command_channel_depth_delta: i64,
    pub journal_channel_depth_delta: i64,
    pub per_symbol_ticks: StrMap<u64>,
    pub per_symbol_features: StrMap<u64>,
    pub per_symbol_intents_approved: StrMap<u64>,
    pub per_symbol_intents_rejected: StrMap<u64>,
    pub per_symbol_ticks_skipped: StrMap<u64>,
}

impl MetricsBatch {
    pub open spec fn wf(&self) -> bool {
        &&& self.per_symbol_ticks.wf()
        &&& self.per_symbol_features.wf()
        &&& self.per_symbol_intents_approved.wf()
        &&& self.per_symbol_intents_rejected.wf()
        &&& self.per_symbol_ticks_skipped.wf()
    }

    /// Whether nothing was counted.
    pub open spec fn is_zero(&self) -> bool {
        &&& self.ticks_processed == 0
        &&& self.features_computed == 0
        &&& self.intents_generated == 0
        &&& self.intents_approved == 0
        &&& self.intents_rejected == 0
        &&& self.dropped_intents == 0
        &&& self.stale_predictions == 0
        &&& self.model_fallback_activations == 0
        &&& self.ticks_skipped == 0
        &&& self.orders_submitted == 0
        &&& self.orders_filled == 0
        &&& self.orders_cancelled == 0
        &&& self.orders_rejected == 0
        &&& self.orders_lifecycle_events == 0
        &&& self.circuit_breaker_trips == 0
        &&& self.kill_switch_activations == 0
        &&& self.config_reloads == 0
        &&& self.journal_writes == 0
        &&& self.heartbeat_misses == 0
        &&& self.errors == 0
        &&& self.feed_gaps == 0
        &&& self.tick_to_intent_latency@ == seq![0u64, 0u64, 0u64, 0u64, 0u64, 0u64]
        &&& self.risk_check_latency@ == seq![0u64, 0u64, 0u64, 0u64, 0u64, 0u64]
        &&& self.journal_flush_latency@ == seq![0u64, 0u64, 0u64, 0u64, 0u64, 0u64]
        &&& self.broker_send_latency@ == seq![0u64, 0u64, 0u64, 0u64, 0u64, 0u64]
        &&& self.feed_latency@ == seq![0u64, 0u64, 0u64, 0u64, 0u64, 0u64]
        &&& self.broker_round_trip_latency@ == seq![0u64, 0u64, 0u64, 0u64, 0u64, 0u64]
        &&& self.decision_latency@ == seq![0u64, 0u64, 0u64, 0u64, 0u64, 0u64]
        &&& self.model_divergence@ == seq![0u64, 0u64, 0u64, 0u64, 0u64, 0u64]
        &&& self.feature_channel_depth_delta == 0
        &&& self.risk_channel_depth_delta == 0
        &&& self.decision_channel_depth_delta == 0
        &&& self.lifecycle_channel_depth_delta == 0
        &&& self.command_channel_depth_delta == 0
        &&& self.journal_channel_depth_delta == 0
        &&& self.per_symbol_ticks@ == Map::<Seq<char>, u64>::empty()
        &&& self.per_symbol_features@ == Map::<Seq<char>, u64>::empty()
        &&& self.per_symbol_intents_approved@ == Map::<Seq<char>, u64>::empty()
        &&& self.per_symbol_intents_rejected@ == Map::<Seq<char>, u64>::empty()
        &&& self.per_symbol_ticks_skipped@ == Map::<Seq<char>, u64>::empty()
    }

    pub fn new() -> (b: Self)
        ensures
            b.wf(),
            b.is_zero(),
    {
        let b = MetricsBatch {
            ticks_processed: 0,
            features_computed: 0,
            intents_generated: 0,
            intents_approved: 0,
            intents_rejected: 0,
            dropped_intents: 0,
            stale_predictions: 0,
            model_fallback_activations: 0,
            ticks_skipped: 0,
            orders_submitted: 0,
            orders_filled: 0,
            orders_cancelled: 0,
            orders_rejected: 0,
            orders_lifecycle_events: 0,
            circuit_breaker_trips: 0,
            kill_switch_activations: 0,
            config_reloads: 0,
            journal_writes: 0,
            heartbeat_misses: 0,
            errors: 0,
            feed_gaps: 0,
            tick_to_intent_latency: [0, 0, 0, 0, 0, 0],
            risk_check_latency: [0, 0, 0, 0, 0, 0],
            journal_flush_latency: [0, 0, 0, 0, 0, 0],
            broker_send_latency: [0, 0, 0, 0, 0, 0],
            feed_latency: [0, 0, 0, 0, 0, 0],
            broker_round_trip_latency: [0, 0, 0, 0, 0, 0],
            decision_latency: [0, 0, 0, 0, 0, 0],
            model_divergence: [0, 0, 0, 0, 0, 0],
            feature_channel_depth_delta: 0,
            risk_channel_depth_delta: 0,
            decision_channel_depth_delta: 0,
            lifecycle_channel_depth_delta: 0,
            command_channel_depth_delta: 0,
            journal_channel_depth_delta: 0,
            per_symbol_ticks: StrMap::new(),
            per_symbol_features: StrMap::new(),
            per_symbol_intents_approved: StrMap::new(),
            per_symbol_intents_rejected: StrMap::new(),
            per_symbol_ticks_skipped: StrMap::new(),
        };
        assert(b.tick_to_intent_latency@ =~= seq![0u64, 0u64, 0u64, 0u64, 0u64, 0u64]);
        assert(b.risk_check_latency@ =~= seq![0u64, 0u64, 0u64, 0u64, 0u64, 0u64]);
        assert(b.journal_flush_latency@ =~= seq![0u64, 0u64, 0u64, 0u64, 0u64, 0u64]);
        assert(b.broker_send_latency@ =~= seq![0u64, 0u64, 0u64, 0u64, 0u64, 0u64]);
        assert(b.feed_latency@ =~= seq![0u64, 0u64, 0u64, 0u64, 0u64, 0u64]);
        assert(b.broker_round_trip_latency@ =~= seq![0u64, 0u64, 0u64, 0u64, 0u64, 0u64]);
        assert(b.decision_latency@ =~= seq![0u64, 0u64, 0u64, 0u64, 0u64, 0u64]);
        assert(b.model_divergence@ =~= seq![0u64, 0u64, 0u64, 0u64, 0u64, 0u64]);
        b
    }

    /// Whether all sums of the two batches fit.
    pub open spec fn sums_fit(&self, other: &MetricsBatch) -> bool {
        &&& self.ticks_processed + other.ticks_processed <= u64::MAX
        &&& self.features_computed + other.features_computed <= u64::MAX
        &&& self.intents_generated + other.intents_generated <= u64::MAX
        &&& self.intents_approved + other.intents_approved <= u64::MAX
        &&& self.intents_rejected + other.intents_rejected <= u64::MAX
        &&& self.dropped_intents + other.dropped_intents <= u64::MAX
        &&& self.stale_predictions + other.stale_predictions <= u64::MAX
        &&& self.model_fallback_activations + other.model_fallback_activations <= u64::MAX
        &&& self.ticks_skipped + other.ticks_skipped <= u64::MAX
        &&& self.orders_submitted + other.orders_submitted <= u64::MAX
        &&& self.orders_filled + other.orders_filled <= u64::MAX
        &&& self.orders_cancelled + other.orders_cancelled <= u64::MAX
        &&& self.orders_rejected + other.orders_rejected <= u64::MAX
        &&& self.orders_lifecycle_events + other.orders_lifecycle_events <= u64::MAX
        &&& self.circuit_breaker_trips + other.circuit_breaker_trips <= u64::MAX
        &&& self.kill_switch_activations + other.kill_switch_activations <= u64::MAX
        &&& self.config_reloads + other.config_reloads <= u64::MAX
        &&& self.journal_writes + other.journal_writes <= u64::MAX
        &&& self.heartbeat_misses + other.heartbeat_misses <= u64::MAX
        &&& self.errors + other.errors <= u64::MAX
        &&& self.feed_gaps + other.feed_gaps <= u64::MAX
        &&& buckets_fit(self.tick_to_intent_latency@, other.tick_to_intent_latency@)
        &&& buckets_fit(self.risk_check_latency@, other.risk_check_latency@)
        &&& buckets_fit(self.journal_flush_latency@, other.journal_flush_latency@)
        &&& buckets_fit(self.broker_send_latency@, other.broker_send_latency@)
        &&& buckets_fit(self.feed_latency@, other.feed_latency@)
        &&& buckets_fit(self.broker_round_trip_latency@, other.broker_round_trip_latency@)
        &&& buckets_fit(self.decision_latency@, other.decision_latency@)
        &&& buckets_fit(self.model_divergence@, other.model_divergence@)
        &&& i64::MIN <= self.feature_channel_depth_delta + other.feature_channel_depth_delta <= i64::MAX
        &&& i64::MIN <= self.risk_channel_depth_delta + other.risk_channel_depth_delta <= i64::MAX
        &&& i64::MIN
            <= self.decision_channel_depth_delta + other.decision_channel_depth_delta <= i64::MAX
        &&& i64::MIN
            <= self.lifecycle_channel_depth_delta + other.lifecycle_channel_depth_delta <= i64::MAX
        &&& i64::MIN <= self.command_channel_depth_delta + other.command_channel_depth_delta <= i64::MAX
        &&& i64::MIN <= self.journal_channel_depth_delta + other.journal_channel_depth_delta <= i64::MAX
        &&& counts_fit(self.per_symbol_ticks@, other.per_symbol_ticks@)
        &&& counts_fit(self.per_symbol_features@, other.per_symbol_features@)
        &&& counts_fit(self.per_symbol_intents_approved@, other.per_symbol_intents_approved@)
        &&& counts_fit(self.per_symbol_intents_rejected@, other.per_symbol_intents_rejected@)
        &&& counts_fit(self.per_symbol_ticks_skipped@, other.per_symbol_ticks_skipped@)
    }

    /// Whether `r` holds the sums of `self` and `other`.
    pub open spec fn merged_into(&self, other: &MetricsBatch, r: &MetricsBatch) -> bool {
        &&& r.ticks_processed == self.ticks_processed + other.ticks_processed
        &&& r.features_computed == self.features_computed + other.features_computed
        &&& r.intents_generated == self.intents_generated + other.intents_generated
        &&& r.intents_approved == self.intents_approved + other.intents_approved
        &&& r.intents_rejected == self.intents_rejected + other.intents_rejected
        &&& r.dropped_intents == self.dropped_intents + other.dropped_intents
        &&& r.stale_predictions == self.stale_predictions + other.stale_predictions
        &&& r.model_fallback_activations
            == self.model_fallback_activations + other.model_fallback_activations
        &&& r.ticks_skipped == self.ticks_skipped + other.ticks_skipped
        &&& r.orders_submitted == self.orders_submitted + other.orders_submitted
        &&& r.orders_filled == self.orders_filled + other.orders_filled
        &&& r.orders_cancelled == self.orders_cancelled + other.orders_cancelled
        &&& r.orders_rejected == self.orders_rejected + other.orders_rejected
        &&& r.orders_lifecycle_events == self.orders_lifecycle_events + other.orders_lifecycle_events
        &&& r.circuit_breaker_trips == self.circuit_breaker_trips + other.circuit_breaker_trips
        &&& r.kill_switch_activations == self.kill_switch_activations + other.kill_switch_activations
        &&& r.config_reloads == self.config_reloads + other.config_reloads
        &&& r.journal_writes == self.journal_writes + other.journal_writes
        &&& r.heartbeat_misses == self.heartbeat_misses + other.heartbeat_misses
        &&& r.errors == self.errors + other.errors
        &&& r.feed_gaps == self.feed_gaps + other.feed_gaps
        &&& summed_buckets(
            self.tick_to_intent_latency@,
            other.tick_to_intent_latency@,
            r.tick_to_intent_latency@,
        )
        &&& summed_buckets(self.risk_check_latency@, other.risk_check_latency@, r.risk_check_latency@)
        &&& summed_buckets(
            self.journal_flush_latency@,
            other.journal_flush_latency@,
            r.journal_flush_latency@,
        )
        &&& summed_buckets(
            self.broker_send_latency@,
            other.broker_send_latency@,
            r.broker_send_latency@,
        )
        &&& summed_buckets(self.feed_latency@, other.feed_latency@, r.feed_latency@)
        &&& summed_buckets(
            self.broker_round_trip_latency@,
            other.broker_round_trip_latency@,
            r.broker_round_trip_latency@,
        )
        &&& summed_buckets(self.decision_latency@, other.decision_latency@, r.decision_latency@)
        &&& summed_buckets(self.model_divergence@, other.model_divergence@, r.model_divergence@)
        &&& r.feature_channel_depth_delta
            == self.feature_channel_depth_delta + other.feature_channel_depth_delta
        &&& r.risk_channel_depth_delta == self.risk_channel_depth_delta + other.risk_channel_depth_delta
        &&& r.decision_channel_depth_delta
            == self.decision_channel_depth_delta + other.decision_channel_depth_delta
        &&& r.lifecycle_channel_depth_delta
            == self.lifecycle_channel_depth_delta + other.lifecycle_channel_depth_delta
        &&& r.command_channel_depth_delta
            == self.command_channel_depth_delta + other.command_channel_depth_delta
        &&& r.journal_channel_depth_delta
            == self.journal_channel_depth_delta + other.journal_channel_depth_delta
        &&& r.per_symbol_ticks@ == summed_counts(self.per_symbol_ticks@, other.per_symbol_ticks@)
        &&& r.per_symbol_features@
            == summed_counts(self.per_symbol_features@, other.per_symbol_features@)
        &&& r.per_symbol_intents_approved@
            == summed_counts(self.per_symbol_intents_approved@, other.per_symbol_intents_approved@)
        &&& r.per_symbol_intents_rejected@
            == summed_counts(self.per_symbol_intents_rejected@, other.per_symbol_intents_rejected@)
        &&& r.per_symbol_ticks_skipped@
            == summed_counts(self.per_symbol_ticks_skipped@, other.per_symbol_ticks_skipped@)
    }

    /// Adds another batch to this one.
    pub fn merge(&mut self, other: &MetricsBatch)
        requires
            old(self).wf(),
            other.wf(),
            old(self).sums_fit(other),
        ensures
            final(self).wf(),
            old(self).merged_into(other, final(self)),
    {
        self.ticks_processed = self.ticks_processed + other.ticks_processed;
        self.features_computed = self.features_computed + other.features_computed;
        self.intents_generated = self.intents_generated + other.intents_generated;
        self.intents_approved = self.intents_approved + other.intents_approved;
        self.intents_rejected = self.intents_rejected + other.intents_rejected;
        self.dropped_intents = self.dropped_intents + other.dropped_intents;
        self.stale_predictions = self.stale_predictions + other.stale_predictions;
        self.model_fallback_activations =
            self.model_fallback_activations + other.model_fallback_activations;
        self.ticks_skipped = self.ticks_skipped + other.ticks_skipped;
        self.orders_submitted = self.orders_submitted + other.orders_submitted;
        self.orders_filled = self.orders_filled + other.orders_filled;
        self.orders_cancelled = self.orders_cancelled + other.orders_cancelled;
        self.orders_rejected = self.orders_rejected + other.orders_rejected;
        self.orders_lifecycle_events = self.orders_lifecycle_events + other.orders_lifecycle_events;
        self.circuit_breaker_trips = self.circuit_breaker_trips + other.circuit_breaker_trips;
        self.kill_switch_activations = self.kill_switch_activations + other.kill_switch_activations;
        self.config_reloads = self.config_reloads + other.config_reloads;
        self.journal_writes = self.journal_writes + other.journal_writes;
        self.heartbeat_misses = self.heartbeat_misses + other.heartbeat_misses;
        self.errors = self.errors + other.errors;
        self.feed_gaps = self.feed_gaps + other.feed_gaps;
        add_buckets(&mut self.tick_to_intent_latency, &other.tick_to_intent_latency);
        add_buckets(&mut self.risk_check_latency, &other.risk_check_latency);
        add_buckets(&mut self.journal_flush_latency, &other.journal_flush_latency);
        add_buckets(&mut self.broker_send_latency, &other.broker_send_latency);
        add_buckets(&mut self.feed_latency, &other.feed_latency);
        add_buckets(&mut self.broker_round_trip_latency, &other.broker_round_trip_latency);
        add_buckets(&mut self.decision_latency, &other.decision_latency);
        add_buckets(&mut self.model_divergence, &other.model_divergence);
        self.feature_channel_depth_delta =
            self.feature_channel_depth_delta + other.feature_channel_depth_delta;
        self.risk_channel_depth_delta = self.risk_channel_depth_delta + other.risk_channel_depth_delta;
        self.decision_channel_depth_delta =
            self.decision_channel_depth_delta + other.decision_channel_depth_delta;
        self.lifecycle_channel_depth_delta =
            self.lifecycle_channel_depth_delta + other.lifecycle_channel_depth_delta;
        self.command_channel_depth_delta =
            self.command_channel_depth_delta + other.command_channel_depth_delta;
        self.journal_channel_depth_delta =
            self.journal_channel_depth_delta + other.journal_channel_depth_delta;
        add_counts(&mut self.per_symbol_ticks, &other.per_symbol_ticks);
        add_counts(&mut self.per_symbol_features, &other.per_symbol_features);
        add_counts(&mut self.per_symbol_intents_approved, &other.per_symbol_intents_approved);
        add_counts(&mut self.per_symbol_intents_rejected, &other.per_symbol_intents_rejected);
        add_counts(&mut self.per_symbol_ticks_skipped, &other.per_symbol_ticks_skipped);
    }
}

/// Merging does not depend on the order of the two batches.
pub proof fn law_merge_commutes(a: &MetricsBatch, b: &MetricsBatch, r: &MetricsBatch)
    requires
        a.merged_into(b, r),
    ensures
        b.merged_into(a, r),
{
    assert forall|i: int| 0 <= i < b.tick_to_intent_latency@.len() implies
        r.tick_to_intent_latency@[i]
            == #[trigger] b.tick_to_intent_latency@[i] + a.tick_to_intent_latency@[i] by {
        assert(
            r.tick_to_intent_latency@[i]
                == a.tick_to_intent_latency@[i] + b.tick_to_intent_latency@[i]
        );
    }
    assert forall|i: int| 0 <= i < b.risk_check_latency@.len() implies
        r.risk_check_latency@[i]
            == #[trigger] b.risk_check_latency@[i] + a.risk_check_latency@[i] by {
        assert(r.risk_check_latency@[i] == a.risk_check_latency@[i] + b.risk_check_latency@[i]);
    }
    assert forall|i: int| 0 <= i < b.journal_flush_latency@.len() implies
        r.journal_flush_latency@[i]
            == #[trigger] b.journal_flush_latency@[i] + a.journal_flush_latency@[i] by {
        assert(
            r.journal_flush_latency@[i] == a.journal_flush_latency@[i] + b.journal_flush_latency@[i]
        );
    }
    assert forall|i: int| 0 <= i < b.broker_send_latency@.len() implies
        r.broker_send_latency@[i]
            == #[trigger] b.broker_send_latency@[i] + a.broker_send_latency@[i] by {
        assert(r.broker_send_latency@[i] == a.broker_send_latency@[i] + b.broker_send_latency@[i]);
    }
    assert forall|i: int| 0 <= i < b.feed_latency@.len() implies
        r.feed_latency@[i] == #[trigger] b.feed_latency@[i] + a.feed_latency@[i] by {
        assert(r.feed_latency@[i] == a.feed_latency@[i] + b.feed_latency@[i]);
    }
    assert forall|i: int| 0 <= i < b.broker_round_trip_latency@.len() implies
        r.broker_round_trip_latency@[i]
            == #[trigger] b.broker_round_trip_latency@[i] + a.broker_round_trip_latency@[i] by {
        assert(
            r.broker_round_trip_latency@[i]
                == a.broker_round_trip_latency@[i] + b.broker_round_trip_latency@[i]
        );
    }
    assert forall|i: int| 0 <= i < b.decision_latency@.len() implies
        r.decision_latency@[i] == #[trigger] b.decision_latency@[i] + a.decision_latency@[i] by {
        assert(r.decision_latency@[i] == a.decision_latency@[i] + b.decision_latency@[i]);
    }
    assert forall|i: int| 0 <= i < b.model_divergence@.len() implies
        r.model_divergence@[i] == #[trigger] b.model_divergence@[i] + a.model_divergence@[i] by {
        assert(r.model_divergence@[i] == a.model_divergence@[i] + b.model_divergence@[i]);
    }
    assert(
        summed_counts(a.per_symbol_ticks@, b.per_symbol_ticks@)
            =~= summed_counts(b.per_symbol_ticks@, a.per_symbol_ticks@)
    );
    assert(
        summed_counts(a.per_symbol_features@, b.per_symbol_features@)
            =~= summed_counts(b.per_symbol_features@, a.per_symbol_features@)
    );
    assert(
        summed_counts(a.per_symbol_intents_approved@, b.per_symbol_intents_approved@)
            =~= summed_counts(b.per_symbol_intents_approved@, a.per_symbol_intents_approved@)
    );
    assert(
        summed_counts(a.per_symbol_intents_rejected@, b.per_symbol_intents_rejected@)
            =~= summed_counts(b.per_symbol_intents_rejected@, a.per_symbol_intents_rejected@)
    );
    assert(
        summed_counts(a.per_symbol_ticks_skipped@, b.per_symbol_ticks_skipped@)
            =~= summed_counts(b.per_symbol_ticks_skipped@, a.per_symbol_ticks_skipped@)
    );
}

/// The counters of the whole engine.
#[derive(Debug)]
pub struct GlobalMetrics {
    pub ticks_processed: CachePaddedAtomicU64,
    pub features_computed: CachePaddedAtomicU64,
    pub inferences_run: CachePaddedAtomicU64,
    pub intents_generated: CachePaddedAtomicU64,
    pub intents_approved: CachePaddedAtomicU64,
    pub intents_rejected: CachePaddedAtomicU64,
    pub dropped_intents: CachePaddedAtomicU64,
    pub stale_predictions: CachePaddedAtomicU64,
    pub model_fallback_activations: CachePaddedAtomicU64,
    pub ticks_skipped: CachePaddedAtomicU64,
    pub orders_submitted: CachePaddedAtomicU64,
    pub orders_filled: CachePaddedAtomicU64,
    pub orders_cancelled: CachePaddedAtomicU64,
    pub orders_rejected: CachePaddedAtomicU64,
    pub orders_lifecycle_events: CachePaddedAtomicU64,
    pub circuit_breaker_trips: CachePaddedAtomicU64,
    pub kill_switch_activations: CachePaddedAtomicU64,
    pub config_reloads: CachePaddedAtomicU64,
    pub journal_writes: CachePaddedAtomicU64,
    pub heartbeat_misses: CachePaddedAtomicU64,
    pub errors: CachePaddedAtomicU64,
    pub feed_gaps: CachePaddedAtomicU64,
    pub tick_to_intent_latency: LatencyHistogram,
    pub risk_check_latency: LatencyHistogram,
    pub journal_flush_latency: LatencyHistogram,
    pub broker_send_latency: LatencyHistogram,
    pub feed_latency: LatencyHistogram,
    pub broker_round_trip_latency: LatencyHistogram,
    pub decision_latency: LatencyHistogram,
    pub model_divergence: LatencyHistogram,
    pub feature_channel_depth: i64,
    pub risk_channel_depth: i64,
    pub decision_channel_depth: i64,
    pub lifecycle_channel_depth: i64,
    pub command_channel_depth: i64,
    pub journal_channel_depth: i64,
    pub per_symbol_ticks: StrMap<u64>,
    pub per_symbol_features: StrMap<u64>,
    pub per_symbol_intents_approved: StrMap<u64>,
    pub per_symbol_intents_rejected: StrMap<u64>,
    pub per_symbol_ticks_skipped: StrMap<u64>,
}

/// The values of all counters at one moment.
#[derive(Debug)]
pub struct MetricsSnapshot {
    pub ticks_processed: u64,
    pub features_computed: u64,
    pub inferences_run: u64,
    pub intents_generated: u64,
    pub intents_approved: u64,
    pub intents_rejected: u64,
    pub dropped_intents: u64,
    pub stale_predictions: u64,
    pub model_fallback_activations: u64,
    pub ticks_skipped: u64,
    pub orders_submitted: u64,
    pub orders_filled: u64,
    pub orders_cancelled: u64,
    pub orders_rejected: u64,
    pub orders_lifecycle_events: u64,
    pub circuit_breaker_trips: u64,
    pub kill_switch_activations: u64,
    pub config_reloads: u64,
    pub journal_writes: u64,
    pub heartbeat_misses: u64,
    pub errors: u64,
    pub feed_gaps: u64,
    pub tick_to_intent_latency: [u64; 6],
    pub risk_check_latency: [u64; 6],
    pub journal_flush_latency: [u64; 6],
    pub broker_send_latency: [u64; 6],
    pub feed_latency: [u64; 6],
    pub broker_round_trip_latency: [u64; 6],
    pub decision_latency: [u64; 6],
    pub model_divergence: [u64; 6],
    pub feature_channel_depth: i64,
    pub risk_channel_depth: i64,
    pub decision_channel_depth: i64,
    pub lifecycle_channel_depth: i64,
    pub command_channel_depth: i64,
    pub journal_channel_depth: i64,
    pub per_symbol_ticks: StrMap<u64>,
    pub per_symbol_features: StrMap<u64>,
    pub per_symbol_intents_approved: StrMap<u64>,
    pub per_symbol_intents_rejected: StrMap<u64>,
    pub per_symbol_ticks_skipped: StrMap<u64>,
}

impl GlobalMetrics {
    pub open spec fn wf(&self) -> bool {
        &&& self.per_symbol_ticks.wf()
        &&& self.per_symbol_features.wf()
        &&& self.per_symbol_intents_approved.wf()
        &&& self.per_symbol_intents_rejected.wf()
        &&& self.per_symbol_ticks_skipped.wf()
    }

    /// Whether all counters are zero.
    pub open spec fn is_zero(&self) -> bool {
        &&& self.ticks_processed@ == 0
        &&& self.features_computed@ == 0
        &&& self.inferences_run@ == 0
        &&& self.intents_generated@ == 0
        &&& self.intents_approved@ == 0
        &&& self.intents_rejected@ == 0
        &&& self.dropped_intents@ == 0
        &&& self.stale_predictions@ == 0
        &&& self.model_fallback_activations@ == 0
        &&& self.ticks_skipped@ == 0
        &&& self.orders_submitted@ == 0
        &&& self.orders_filled@ == 0
        &&& self.orders_cancelled@ == 0
        &&& self.orders_rejected@ == 0
        &&& self.orders_lifecycle_events@ == 0
        &&& self.circuit_breaker_trips@ == 0
        &&& self.kill_switch_activations@ == 0
        &&& self.config_reloads@ == 0
        &&& self.journal_writes@ == 0
        &&& self.heartbeat_misses@ == 0
        &&& self.errors@ == 0
        &&& self.feed_gaps@ == 0
        &&& self.tick_to_intent_latency@ == seq![0u64, 0u64, 0u64, 0u64, 0u64, 0u64]
        &&& self.risk_check_latency@ == seq![0u64, 0u64, 0u64, 0u64, 0u64, 0u64]
        &&& self.journal_flush_latency@ == seq![0u64, 0u64, 0u64, 0u64, 0u64, 0u64]
        &&& self.broker_send_latency@ == seq![0u64, 0u64, 0u64, 0u64, 0u64, 0u64]
        &&& self.feed_latency@ == seq![0u64, 0u64, 0u64, 0u64, 0u64, 0u64]
        &&& self.broker_round_trip_latency@ == seq![0u64, 0u64, 0u64, 0u64, 0u64, 0u64]
        &&& self.decision_latency@ == seq![0u64, 0u64, 0u64, 0u64, 0u64, 0u64]
        &&& self.model_divergence@ == seq![0u64, 0u64, 0u64, 0u64, 0u64, 0u64]
        &&& self.feature_channel_depth == 0
        &&& self.risk_channel_depth == 0
        &&& self.decision_channel_depth == 0
        &&& self.lifecycle_channel_depth == 0
        &&& self.command_channel_depth == 0
        &&& self.journal_channel_depth == 0
        &&& self.per_symbol_ticks@ == Map::<Seq<char>, u64>::empty()
        &&& self.per_symbol_features@ == Map::<Seq<char>, u64>::empty()
        &&& self.per_symbol_intents_approved@ == Map::<Seq<char>, u64>::empty()
        &&& self.per_symbol_intents_rejected@ == Map::<Seq<char>, u64>::empty()
        &&& self.per_symbol_ticks_skipped@ == Map::<Seq<char>, u64>::empty()
    }

    pub fn new() -> (m: Self)
        ensures
            m.wf(),
            m.is_zero(),
    {
        GlobalMetrics {
            ticks_processed: CachePaddedAtomicU64::new(0),
            features_computed: CachePaddedAtomicU64::new(0),
            inferences_run: CachePaddedAtomicU64::new(0),
            intents_generated: CachePaddedAtomicU64::new(0),
            intents_approved: CachePaddedAtomicU64::new(0),
            intents_rejected: CachePaddedAtomicU64::new(0),
            dropped_intents: CachePaddedAtomicU64::new(0),
            stale_predictions: CachePaddedAtomicU64::new(0),
            model_fallback_activations: CachePaddedAtomicU64::new(0),
            ticks_skipped: CachePaddedAtomicU64::new(0),
            orders_submitted: CachePaddedAtomicU64::new(0),
            orders_filled: CachePaddedAtomicU64::new(0),
            orders_cancelled: CachePaddedAtomicU64::new(0),
            orders_rejected: CachePaddedAtomicU64::new(0),
            orders_lifecycle_events: CachePaddedAtomicU64::new(0),
            circuit_breaker_trips: CachePaddedAtomicU64::new(0),
            kill_switch_activations: CachePaddedAtomicU64::new(0),
            config_reloads: CachePaddedAtomicU64::new(0),
            journal_writes: CachePaddedAtomicU64::new(0),
            heartbeat_misses: CachePaddedAtomicU64::new(0),
            errors: CachePaddedAtomicU64::new(0),
            feed_gaps: CachePaddedAtomicU64::new(0),
            tick_to_intent_latency: LatencyHistogram::new(),
            risk_check_latency: LatencyHistogram::new(),
            journal_flush_latency: LatencyHistogram::new(),
            broker_send_latency: LatencyHistogram::new(),
            feed_latency: LatencyHistogram::new(),
            broker_round_trip_latency: LatencyHistogram::new(),
            decision_latency: LatencyHistogram::new(),
            model_divergence: LatencyHistogram::new(),
            feature_channel_depth: 0,
            risk_channel_depth: 0,
            decision_channel_depth: 0,
            lifecycle_channel_depth: 0,
            command_channel_depth: 0,
            journal_channel_depth: 0,
            per_symbol_ticks: StrMap::new(),
            per_symbol_features: StrMap::new(),
            per_symbol_intents_approved: StrMap::new(),
            per_symbol_intents_rejected: StrMap::new(),
            per_symbol_ticks_skipped: StrMap::new(),
        }
    }

    /// Sets all counters to zero.
    pub fn reset(&mut self)
        ensures
            final(self).wf(),
            final(self).is_zero(),
    {
        self.ticks_processed.store(0);
        self.features_computed.store(0);
        self.inferences_run.store(0);
        self.intents_generated.store(0);
        self.intents_approved.store(0);
        self.intents_rejected.store(0);
        self.dropped_intents.store(0);
        self.stale_predictions.store(0);
        self.model_fallback_activations.store(0);
        self.ticks_skipped.store(0);
        self.orders_submitted.store(0);
        self.orders_filled.store(0);
        self.orders_cancelled.store(0);
        self.orders_rejected.store(0);
        self.orders_lifecycle_events.store(0);
        self.circuit_breaker_trips.store(0);
        self.kill_switch_activations.store(0);
        self.config_reloads.store(0);
        self.journal_writes.store(0);
        self.heartbeat_misses.store(0);
        self.errors.store(0);
        self.feed_gaps.store(0);
        self.tick_to_intent_latency.reset();
        self.risk_check_latency.reset();
        self.journal_flush_latency.reset();
        self.broker_send_latency.reset();
        self.feed_latency.reset();
        self.broker_round_trip_latency.reset();
        self.decision_latency.reset();
        self.model_divergence.reset();
        self.feature_channel_depth = 0;
        self.risk_channel_depth = 0;
        self.decision_channel_depth = 0;
        self.lifecycle_channel_depth = 0;
        self.command_channel_depth = 0;
        self.journal_channel_depth = 0;
        self.per_symbol_ticks.clear();
        self.per_symbol_features.clear();
        self.per_symbol_intents_approved.clear();
        self.per_symbol_intents_rejected.clear();
        self.per_symbol_ticks_skipped.clear();
    }

    /// The values of all counters.
    pub fn snapshot(&self) -> (s: MetricsSnapshot)
        requires
            self.wf(),
        ensures
            s.wf(),
            s.values_of(self),
    {
        MetricsSnapshot {
            ticks_processed: self.ticks_processed.load(),
            features_computed: self.features_computed.load(),
            inferences_run: self.inferences_run.load(),
            intents_generated: self.intents_generated.load(),
            intents_approved: self.intents_approved.load(),
            intents_rejected: self.intents_rejected.load(),
            dropped_intents: self.dropped_intents.load(),
            stale_predictions: self.stale_predictions.load(),
            model_fallback_activations: self.model_fallback_activations.load(),
            ticks_skipped: self.ticks_skipped.load(),
            orders_submitted: self.orders_submitted.load(),
            orders_filled: self.orders_filled.load(),
            orders_cancelled: self.orders_cancelled.load(),
            orders_rejected: self.orders_rejected.load(),
            orders_lifecycle_events: self.orders_lifecycle_events.load(),
            circuit_breaker_trips: self.circuit_breaker_trips.load(),
            kill_switch_activations: self.kill_switch_activations.load(),
            config_reloads: self.config_reloads.load(),
            journal_writes: self.journal_writes.load(),
            heartbeat_misses: self.heartbeat_misses.load(),
            errors: self.errors.load(),
            feed_gaps: self.feed_gaps.load(),
            tick_to_intent_latency: self.tick_to_intent_latency.snapshot(),
            risk_check_latency: self.risk_check_latency.snapshot(),
            journal_flush_latency: self.journal_flush_latency.snapshot(),
            broker_send_latency: self.broker_send_latency.snapshot(),
            feed_latency: self.feed_latency.snapshot(),
            broker_round_trip_latency: self.broker_round_trip_latency.snapshot(),
            decision_latency: self.decision_latency.snapshot(),
            model_divergence: self.model_divergence.snapshot(),
            feature_channel_depth: self.feature_channel_depth,
            risk_channel_depth: self.risk_channel_depth,
            decision_channel_depth: self.decision_channel_depth,
            lifecycle_channel_depth: self.lifecycle_channel_depth,
            command_channel_depth: self.command_channel_depth,
            journal_channel_depth: self.journal_channel_depth,
            per_symbol_ticks: self.per_symbol_ticks.clone(),
            per_symbol_features: self.per_symbol_features.clone(),
            per_symbol_intents_approved: self.per_symbol_intents_approved.clone(),
            per_symbol_intents_rejected: self.per_symbol_intents_rejected.clone(),
            per_symbol_ticks_skipped: self.per_symbol_ticks_skipped.clone(),
        }
    }

    pub fn increment_per_symbol_tick(&mut self, symbol: &str)
        requires
            old(self).wf(),
        ensures
            final(self).wf(),
            final(self).per_symbol_ticks@ == bumped(old(self).per_symbol_ticks@, symbol@, 1),
            *final(self) == (GlobalMetrics {
                per_symbol_ticks: final(self).per_symbol_ticks,
                ..*old(self)
            }),
    {
        bump(&mut self.per_symbol_ticks, symbol, 1);
    }

    pub fn increment_per_symbol_feature(&mut self, symbol: &str)
        requires
            old(self).wf(),
        ensures
            final(self).wf(),
            final(self).per_symbol_features@ == bumped(old(self).per_symbol_features@, symbol@, 1),
            *final(self) == (GlobalMetrics {
                per_symbol_features: final(self).per_symbol_features,
                ..*old(self)
            }),
    {
        bump(&mut self.per_symbol_features, symbol, 1);
    }

    pub fn increment_per_symbol_intent_approved(&mut self, symbol: &str)
        requires
            old(self).wf(),
        ensures
            final(self).wf(),
            final(self).per_symbol_intents_approved@
                == bumped(old(self).per_symbol_intents_approved@, symbol@, 1),
            *final(self) == (GlobalMetrics {
                per_symbol_intents_approved: final(self).per_symbol_intents_approved,
                ..*old(self)
            }),
    {
        bump(&mut self.per_symbol_intents_approved, symbol, 1);
    }

    pub fn increment_per_symbol_intent_rejected(&mut self, symbol: &str)
        requires
            old(self).wf(),
        ensures
            final(self).wf(),
            final(self).per_symbol_intents_rejected@
                == bumped(old(self).per_symbol_intents_rejected@, symbol@, 1),
            *final(self) == (GlobalMetrics {
                per_symbol_intents_rejected: final(self).per_symbol_intents_rejected,
                ..*old(self)
            }),
    {
        bump(&mut self.per_symbol_intents_rejected, symbol, 1);
    }

    pub fn increment_per_symbol_tick_skipped(&mut self, symbol: &str)
        requires
            old(self).wf(),
        ensures
            final(self).wf(),
            final(self).per_symbol_ticks_skipped@
                == bumped(old(self).per_symbol_ticks_skipped@, symbol@, 1),
            *final(self) == (GlobalMetrics {
                per_symbol_ticks_skipped: final(self).per_symbol_ticks_skipped,
                ..*old(self)
            }),
    {
        bump(&mut self.per_symbol_ticks_skipped, symbol, 1);
    }

}

impl MetricsSnapshot {
    pub open spec fn wf(&self) -> bool {
        &&& self.per_symbol_ticks.wf()
        &&& self.per_symbol_features.wf()
        &&& self.per_symbol_intents_approved.wf()
        &&& self.per_symbol_intents_rejected.wf()
        &&& self.per_symbol_ticks_skipped.wf()
    }

    /// Whether the snapshot shows the counters `m`.
    pub open spec fn values_of(&self, m: &GlobalMetrics) -> bool {
        &&& self.ticks_processed == m.ticks_processed@
        &&& self.features_computed == m.features_computed@
        &&& self.inferences_run == m.inferences_run@
        &&& self.intents_generated == m.intents_generated@
        &&& self.intents_approved == m.intents_approved@
        &&& self.intents_rejected == m.intents_rejected@
        &&& self.dropped_intents == m.dropped_intents@
        &&& self.stale_predictions == m.stale_predictions@
        &&& self.model_fallback_activations == m.model_fallback_activations@
        &&& self.ticks_skipped == m.ticks_skipped@
        &&& self.orders_submitted == m.orders_submitted@
        &&& self.orders_filled == m.orders_filled@
        &&& self.orders_cancelled == m.orders_cancelled@
        &&& self.orders_rejected == m.orders_rejected@
        &&& self.orders_lifecycle_events == m.orders_lifecycle_events@
        &&& self.circuit_breaker_trips == m.circuit_breaker_trips@
        &&& self.kill_switch_activations == m.kill_switch_activations@
        &&& self.config_reloads == m.config_reloads@
        &&& self.journal_writes == m.journal_writes@
        &&& self.heartbeat_misses == m.heartbeat_misses@
        &&& self.errors == m.errors@
        &&& self.feed_gaps == m.feed_gaps@
        &&& self.tick_to_intent_latency@ == m.tick_to_intent_latency@
        &&& self.risk_check_latency@ == m.risk_check_latency@
        &&& self.journal_flush_latency@ == m.journal_flush_latency@
        &&& self.broker_send_latency@ == m.broker_send_latency@
        &&& self.feed_latency@ == m.feed_latency@
        &&& self.broker_round_trip_latency@ == m.broker_round_trip_latency@
        &&& self.decision_latency@ == m.decision_latency@
        &&& self.model_divergence@ == m.model_divergence@
        &&& self.feature_channel_depth == m.feature_channel_depth
        &&& self.risk_channel_depth == m.risk_channel_depth
        &&& self.decision_channel_depth == m.decision_channel_depth
        &&& self.lifecycle_channel_depth == m.lifecycle_channel_depth
        &&& self.command_channel_depth == m.command_channel_depth
        &&& self.journal_channel_depth == m.journal_channel_depth
        &&& self.per_symbol_ticks@ == m.per_symbol_ticks@
            && self.per_symbol_ticks.key_seq() == m.per_symbol_ticks.key_seq()
            && self.per_symbol_ticks.val_seq() == m.per_symbol_ticks.val_seq()
        &&& self.per_symbol_features@ == m.per_symbol_features@
            && self.per_symbol_features.key_seq() == m.per_symbol_features.key_seq()
            && self.per_symbol_features.val_seq() == m.per_symbol_features.val_seq()
        &&& self.per_symbol_intents_approved@ == m.per_symbol_intents_approved@
            && self.per_symbol_intents_approved.key_seq() == m.per_symbol_intents_approved.key_seq()
            && self.per_symbol_intents_approved.val_seq() == m.per_symbol_intents_approved.val_seq()
        &&& self.per_symbol_intents_rejected@ == m.per_symbol_intents_rejected@
            && self.per_symbol_intents_rejected.key_seq() == m.per_symbol_intents_rejected.key_seq()
            && self.per_symbol_intents_rejected.val_seq() == m.per_symbol_intents_rejected.val_seq()
        &&& self.per_symbol_ticks_skipped@ == m.per_symbol_ticks_skipped@
            && self.per_symbol_ticks_skipped.key_seq() == m.per_symbol_ticks_skipped.key_seq()
            && self.per_symbol_ticks_skipped.val_seq() == m.per_symbol_ticks_skipped.val_seq()
    }
}

impl Default for GlobalMetrics {
    fn default() -> (m: Self)
        ensures
            m.wf(),
            m.is_zero(),
    {
        GlobalMetrics::new()
    }
}

/// Adds the batches that the threads collect to the counters of the engine.
pub struct MetricsAggregator {
    pub global_metrics: GlobalMetrics,
}

/// What the aggregator gets to know next.
pub enum AggregatorEvent {
    /// A batch came in.
    Batch(MetricsBatch),
    /// No batch came in for a while; whether a shutdown was asked for.
    Idle(bool),
    /// All senders are gone.
    Disconnected,
}

/// Whether `r` is `m` after batch `b` was added to it. The ticks of a batch are not added: they
/// are counted where they come in.
pub open spec fn batch_applied(m: &GlobalMetrics, b: &MetricsBatch, r: &GlobalMetrics) -> bool {
    &&& r.ticks_processed@ == m.ticks_processed@
    &&& r.inferences_run@ == m.inferences_run@
    &&& r.features_computed@ == wrap_u64(m.features_computed@, b.features_computed)
    &&& r.intents_generated@ == wrap_u64(m.intents_generated@, b.intents_generated)
    &&& r.intents_approved@ == wrap_u64(m.intents_approved@, b.intents_approved)
    &&& r.intents_rejected@ == wrap_u64(m.intents_rejected@, b.intents_rejected)
    &&& r.dropped_intents@ == wrap_u64(m.dropped_intents@, b.dropped_intents)
    &&& r.stale_predictions@ == wrap_u64(m.stale_predictions@, b.stale_predictions)
    &&& r.model_fallback_activations@
        == wrap_u64(m.model_fallback_activations@, b.model_fallback_activations)
    &&& r.ticks_skipped@ == wrap_u64(m.ticks_skipped@, b.ticks_skipped)
    &&& r.orders_submitted@ == wrap_u64(m.orders_submitted@, b.orders_submitted)
    &&& r.orders_filled@ == wrap_u64(m.orders_filled@, b.orders_filled)
    &&& r.orders_cancelled@ == wrap_u64(m.orders_cancelled@, b.orders_cancelled)
    &&& r.orders_rejected@ == wrap_u64(m.orders_rejected@, b.orders_rejected)
    &&& r.orders_lifecycle_events@ == wrap_u64(m.orders_lifecycle_events@, b.orders_lifecycle_events)
    &&& r.circuit_breaker_trips@ == wrap_u64(m.circuit_breaker_trips@, b.circuit_breaker_trips)
    &&& r.kill_switch_activations@ == wrap_u64(m.kill_switch_activations@, b.kill_switch_activations)
    &&& r.config_reloads@ == wrap_u64(m.config_reloads@, b.config_reloads)
    &&& r.journal_writes@ == wrap_u64(m.journal_writes@, b.journal_writes)
    &&& r.heartbeat_misses@ == wrap_u64(m.heartbeat_misses@, b.heartbeat_misses)
    &&& r.errors@ == wrap_u64(m.errors@, b.errors)
    &&& r.feed_gaps@ == wrap_u64(m.feed_gaps@, b.feed_gaps)
    &&& r.tick_to_intent_latency@
        == wrapped_buckets(m.tick_to_intent_latency@, b.tick_to_intent_latency@)
    &&& r.risk_check_latency@ == wrapped_buckets(m.risk_check_latency@, b.risk_check_latency@)
    &&& r.journal_flush_latency@ == wrapped_buckets(m.journal_flush_latency@, b.journal_flush_latency@)
    &&& r.broker_send_latency@ == wrapped_buckets(m.broker_send_latency@, b.broker_send_latency@)
    &&& r.feed_latency@ == wrapped_buckets(m.feed_latency@, b.feed_latency@)
    &&& r.broker_round_trip_latency@
        == wrapped_buckets(m.broker_round_trip_latency@, b.broker_round_trip_latency@)
    &&& r.decision_latency@ == wrapped_buckets(m.decision_latency@, b.decision_latency@)
    &&& r.model_divergence@ == wrapped_buckets(m.model_divergence@, b.model_divergence@)
    &&& r.feature_channel_depth == wrap_i64(m.feature_channel_depth, b.feature_channel_depth_delta)
    &&& r.risk_channel_depth == wrap_i64(m.risk_channel_depth, b.risk_channel_depth_delta)
    &&& r.decision_channel_depth == wrap_i64(m.decision_channel_depth, b.decision_channel_depth_delta)
    &&& r.lifecycle_channel_depth
        == wrap_i64(m.lifecycle_channel_depth, b.lifecycle_channel_depth_delta)
    &&& r.command_channel_depth == wrap_i64(m.command_channel_depth, b.command_channel_depth_delta)
    &&& r.journal_channel_depth == wrap_i64(m.journal_channel_depth, b.journal_channel_depth_delta)
    &&& r.per_symbol_ticks@ == wrapped_counts(m.per_symbol_ticks@, b.per_symbol_ticks@)
    &&& r.per_symbol_features@ == wrapped_counts(m.per_symbol_features@, b.per_symbol_features@)
    &&& r.per_symbol_intents_approved@
        == wrapped_counts(m.per_symbol_intents_approved@, b.per_symbol_intents_approved@)
    &&& r.per_symbol_intents_rejected@
        == wrapped_counts(m.per_symbol_intents_rejected@, b.per_symbol_intents_rejected@)
    &&& r.per_symbol_ticks_skipped@
        == wrapped_counts(m.per_symbol_ticks_skipped@, b.per_symbol_ticks_skipped@)
}

proof fn lemma_buckets_in_turn(m: Seq<u64>, a: Seq<u64>, b: Seq<u64>, c: Seq<u64>)
    requires
        summed_buckets(a, b, c),
        m.len() == a.len(),
    ensures
        wrapped_buckets(wrapped_buckets(m, a), b) == wrapped_buckets(m, c),
{
    assert forall|i: int| 0 <= i < m.len() implies #[trigger] wrapped_buckets(
        wrapped_buckets(m, a),
        b,
    )[i] == wrapped_buckets(m, c)[i] by {
        assert(c[i] == a[i] + b[i]);
    }
    assert(wrapped_buckets(wrapped_buckets(m, a), b) =~= wrapped_buckets(m, c));
}

proof fn lemma_counts_in_turn(
    m: Map<Seq<char>, u64>,
    a: Map<Seq<char>, u64>,
    b: Map<Seq<char>, u64>,
)
    requires
        counts_fit(a, b),
    ensures
        wrapped_counts(wrapped_counts(m, a), b) == wrapped_counts(m, summed_counts(a, b)),
{
    let left = wrapped_counts(wrapped_counts(m, a), b);
    let right = wrapped_counts(m, summed_counts(a, b));
    assert forall|k: Seq<char>| #[trigger] left.dom().contains(k) implies left[k] == right[k] by {
        assert(count_of(a, k) + count_of(b, k) <= u64::MAX);
    }
    assert(left =~= right);
}

/// Adding two batches one after the other has the effect of adding the two merged.
pub proof fn law_merged_batch_applies_both(
    m: &GlobalMetrics,
    a: &MetricsBatch,
    b: &MetricsBatch,
    c: &MetricsBatch,
    during: &GlobalMetrics,
    after: &GlobalMetrics,
)
    requires
        a.sums_fit(b),
        a.merged_into(b, c),
        batch_applied(m, a, during),
        batch_applied(during, b, after),
    ensures
        batch_applied(m, c, after),
{
    lemma_buckets_in_turn(
        m.tick_to_intent_latency@,
        a.tick_to_intent_latency@,
        b.tick_to_intent_latency@,
        c.tick_to_intent_latency@,
    );
    lemma_buckets_in_turn(
        m.risk_check_latency@,
        a.risk_check_latency@,
        b.risk_check_latency@,
        c.risk_check_latency@,
    );
    lemma_buckets_in_turn(
        m.journal_flush_latency@,
        a.journal_flush_latency@,
        b.journal_flush_latency@,
        c.journal_flush_latency@,
    );
    lemma_buckets_in_turn(
        m.broker_send_latency@,
        a.broker_send_latency@,
        b.broker_send_latency@,
        c.broker_send_latency@,
    );
    lemma_buckets_in_turn(m.feed_latency@, a.feed_latency@, b.feed_latency@, c.feed_latency@);
    lemma_buckets_in_turn(
        m.broker_round_trip_latency@,
        a.broker_round_trip_latency@,
        b.broker_round_trip_latency@,
        c.broker_round_trip_latency@,
    );
    lemma_buckets_in_turn(
        m.decision_latency@,
        a.decision_latency@,
        b.decision_latency@,
        c.decision_latency@,
    );
    lemma_buckets_in_turn(
        m.model_divergence@,
        a.model_divergence@,
        b.model_divergence@,
        c.model_divergence@,
    );
    lemma_counts_in_turn(m.per_symbol_ticks@, a.per_symbol_ticks@, b.per_symbol_ticks@);
    lemma_counts_in_turn(m.per_symbol_features@, a.per_symbol_features@, b.per_symbol_features@);
    lemma_counts_in_turn(
        m.per_symbol_intents_approved@,
        a.per_symbol_intents_approved@,
        b.per_symbol_intents_approved@,
    );
    lemma_counts_in_turn(
        m.per_symbol_intents_rejected@,
        a.per_symbol_intents_rejected@,
        b.per_symbol_intents_rejected@,
    );
    lemma_counts_in_turn(
        m.per_symbol_ticks_skipped@,
        a.per_symbol_ticks_skipped@,
        b.per_symbol_ticks_skipped@,
    );
}

impl MetricsAggregator {
    pub fn new(global_metrics: GlobalMetrics) -> (a: Self)
        ensures
            a.global_metrics == global_metrics,
    {
        MetricsAggregator { global_metrics }
    }

    /// Adds a batch to the counters.
    pub fn apply_batch(&mut self, batch: &MetricsBatch)
        requires
            old(self).global_metrics.wf(),
            batch.wf(),
        ensures
            final(self).global_metrics.wf(),
            batch_applied(&old(self).global_metrics, batch, &final(self).global_metrics),
    {
        apply_batch_to(&mut self.global_metrics, batch);
    }

    /// Handles one event; the result tells whether to go on.
    pub fn step(&mut self, event: AggregatorEvent) -> (go_on: bool)
        requires
            old(self).global_metrics.wf(),
            event matches AggregatorEvent::Batch(b) ==> b.wf(),
        ensures
            final(self).global_metrics.wf(),
            match event {
                AggregatorEvent::Batch(b) => go_on && batch_applied(
                    &old(self).global_metrics,
                    &b,
                    &final(self).global_metrics,
                ),
                AggregatorEvent::Idle(shutdown) => go_on == !shutdown && *final(self) == *old(self),
                AggregatorEvent::Disconnected => !go_on && *final(self) == *old(self),
            },
    {
        match event {
            AggregatorEvent::Batch(b) => {
                self.apply_batch(&b);
                true
            },
            AggregatorEvent::Idle(shutdown) => !shutdown,
            AggregatorEvent::Disconnected => false,
        }
    }
}

/// Adds a batch to the counters `m`.
pub fn apply_batch_to(m: &mut GlobalMetrics, batch: &MetricsBatch)
    requires
        old(m).wf(),
        batch.wf(),
    ensures
        final(m).wf(),
        batch_applied(old(m), batch, final(m)),
{
    m.features_computed.fetch_add(batch.features_computed);
    m.intents_generated.fetch_add(batch.intents_generated);
    m.intents_approved.fetch_add(batch.intents_approved);
    m.intents_rejected.fetch_add(batch.intents_rejected);
    m.dropped_intents.fetch_add(batch.dropped_intents);
    m.stale_predictions.fetch_add(batch.stale_predictions);
    m.model_fallback_activations.fetch_add(batch.model_fallback_activations);
    m.ticks_skipped.fetch_add(batch.ticks_skipped);
    m.orders_submitted.fetch_add(batch.orders_submitted);
    m.orders_filled.fetch_add(batch.orders_filled);
    m.orders_cancelled.fetch_add(batch.orders_cancelled);
    m.orders_rejected.fetch_add(batch.orders_rejected);
    m.orders_lifecycle_events.fetch_add(batch.orders_lifecycle_events);
    m.circuit_breaker_trips.fetch_add(batch.circuit_breaker_trips);
    m.kill_switch_activations.fetch_add(batch.kill_switch_activations);
    m.config_reloads.fetch_add(batch.config_reloads);
    m.journal_writes.fetch_add(batch.journal_writes);
    m.heartbeat_misses.fetch_add(batch.heartbeat_misses);
    m.errors.fetch_add(batch.errors);
    m.feed_gaps.fetch_add(batch.feed_gaps);
    m.tick_to_intent_latency.absorb(&batch.tick_to_intent_latency);
    m.risk_check_latency.absorb(&batch.risk_check_latency);
    m.journal_flush_latency.absorb(&batch.journal_flush_latency);
    m.broker_send_latency.absorb(&batch.broker_send_latency);
    m.feed_latency.absorb(&batch.feed_latency);
    m.broker_round_trip_latency.absorb(&batch.broker_round_trip_latency);
    m.decision_latency.absorb(&batch.decision_latency);
    m.model_divergence.absorb(&batch.model_divergence);
    gauge_add(&mut m.feature_channel_depth, batch.feature_channel_depth_delta);
    gauge_add(&mut m.risk_channel_depth, batch.risk_channel_depth_delta);
    gauge_add(&mut m.decision_channel_depth, batch.decision_channel_depth_delta);
    gauge_add(&mut m.lifecycle_channel_depth, batch.lifecycle_channel_depth_delta);
    gauge_add(&mut m.command_channel_depth, batch.command_channel_depth_delta);
    gauge_add(&mut m.journal_channel_depth, batch.journal_channel_depth_delta);
    absorb_counts(&mut m.per_symbol_ticks, &batch.per_symbol_ticks);
    absorb_counts(&mut m.per_symbol_features, &batch.per_symbol_features);
    absorb_counts(&mut m.per_symbol_intents_approved, &batch.per_symbol_intents_approved);
    absorb_counts(&mut m.per_symbol_intents_rejected, &batch.per_symbol_intents_rejected);
    absorb_counts(&mut m.per_symbol_ticks_skipped, &batch.per_symbol_ticks_skipped);
}

/// The buckets `before` after a latency was counted.
pub open spec fn recorded(before: Seq<u64>, latency_ns: u64) -> Seq<u64> {
    before.update(bucket_of(latency_ns), (before[bucket_of(latency_ns)] + 1) as u64)
}

fn record_latency(latency_ns: u64, histogram: &mut [u64; 6])
    requires
        old(histogram)@[bucket_of(latency_ns)] < u64::MAX,
    ensures
        final(histogram)@ == recorded(old(histogram)@, latency_ns),
{
    let i: usize = bucket_index(latency_ns);
    histogram[i] = histogram[i] + 1;
    assert(histogram@ =~= recorded(old(histogram)@, latency_ns));
}

/// Counts of one thread, handed on in batches. What was counted since the last batch is handed on by
/// `flush`, which is to be called before the value goes out of use.
pub struct ThreadLocalMetrics {
    batch: MetricsBatch,
    tick_count: u64,
    last_flush: Instant,
    flush_interval: Span,
    flush_tick_threshold: u64,
    batch_tx: Sender<MetricsBatch>,
}

/// Whether a batch is to be handed on: enough ticks were counted, or enough time has passed.
pub open spec fn is_due(
    tick_count: u64,
    threshold: u64,
    since_flush: Span,
    flush_interval: Span,
) -> bool {
    tick_count >= threshold || since_flush.ns() >= flush_interval.ns()
}

/// Whether a batch is to be handed on, see `is_due`.
pub fn flush_due(tick_count: u64, threshold: u64, since_flush: &Span, flush_interval: &Span) -> (r:
    bool)
    ensures
        r == is_due(tick_count, threshold, *since_flush, *flush_interval),
{
    tick_count >= threshold || since_flush.at_least(flush_interval)
}

/// Whether `r` is batch `b` after one more tick of a symbol.
pub open spec fn tick_added(b: &MetricsBatch, symbol: Seq<char>, r: &MetricsBatch) -> bool {
    &&& r.ticks_processed == b.ticks_processed + 1
    &&& r.features_computed == b.features_computed + 1
    &&& r.per_symbol_ticks@ == bumped(b.per_symbol_ticks@, symbol, 1)
    &&& r.per_symbol_features@ == bumped(b.per_symbol_features@, symbol, 1)
    &&& *r == (MetricsBatch {
        ticks_processed: r.ticks_processed,
        features_computed: r.features_computed,
        per_symbol_ticks: r.per_symbol_ticks,
        per_symbol_features: r.per_symbol_features,
        ..*b
    })
}

impl ThreadLocalMetrics {
    /// What was counted since the last batch.
    pub closed spec fn pending(&self) -> MetricsBatch {
        self.batch
    }

    /// The ticks since the last batch.
    pub closed spec fn ticks(&self) -> u64 {
        self.tick_count
    }

    /// The number of ticks after which a batch is handed on.
    pub closed spec fn threshold(&self) -> u64 {
        self.flush_tick_threshold
    }

    /// The time after which a batch is handed on.
    pub closed spec fn interval(&self) -> Span {
        self.flush_interval
    }

    /// The channel that batches are handed on through.
    pub closed spec fn channel(&self) -> Sender<MetricsBatch> {
        self.batch_tx
    }

    /// The moment at which the last batch was taken out.
    pub closed spec fn flushed_at(&self) -> Instant {
        self.last_flush
    }

    pub open spec fn wf(&self) -> bool {
        self.pending().wf()
    }

    /// Whether all that is not counted is as in `other`.
    pub open spec fn same_limits(&self, other: &ThreadLocalMetrics) -> bool {
        &&& self.threshold() == other.threshold()
        &&& self.interval() == other.interval()
        &&& self.channel() == other.channel()
    }

    pub fn new(
        batch_tx: Sender<MetricsBatch>,
        flush_interval: Span,
        flush_tick_threshold: u64,
    ) -> (m: Self)
        ensures
            m.wf(),
            m.pending().is_zero(),
            m.ticks() == 0,
            m.threshold() == flush_tick_threshold,
            m.interval() == flush_interval,
            m.channel() == batch_tx,
            crate::clock::begun_at(m.flushed_at()),
    {
        let last_flush = instant_now();
        proof {
            crate::clock::lemma_begun_at(last_flush);
        }
        ThreadLocalMetrics {
            batch: MetricsBatch::new(),
            tick_count: 0,
            last_flush,
            flush_interval,
            flush_tick_threshold,
            batch_tx,
        }
    }

    /// What was counted since the last batch.
    pub fn batch(&self) -> (b: &MetricsBatch)
        ensures
            *b == self.pending(),
    {
        &self.batch
    }

    /// Counts a tick of the whole engine.
    pub fn record_tick(&self, global_metrics: &mut GlobalMetrics)
        ensures
            final(global_metrics).ticks_processed@ == wrap_u64(
                old(global_metrics).ticks_processed@,
                1,
            ),
            *final(global_metrics) == (GlobalMetrics {
                ticks_processed: final(global_metrics).ticks_processed,
                ..*old(global_metrics)
            }),
    {
        global_metrics.ticks_processed.fetch_add(1);
    }

    /// Counts a tick of a symbol, without handing anything on.
    pub fn count_tick(&mut self, symbol: &str)
        requires
            old(self).wf(),
            old(self).pending().ticks_processed < u64::MAX,
            old(self).pending().features_computed < u64::MAX,
            old(self).ticks() < u64::MAX,
        ensures
            final(self).wf(),
            tick_added(&old(self).pending(), symbol@, &final(self).pending()),
            final(self).ticks() == old(self).ticks() + 1,
            final(self).flushed_at() == old(self).flushed_at(),
            final(self).same_limits(old(self)),
    {
        self.batch.ticks_processed = self.batch.ticks_processed + 1;
        self.batch.features_computed = self.batch.features_computed + 1;
        self.tick_count = self.tick_count + 1;
        bump(&mut self.batch.per_symbol_ticks, symbol, 1);
        bump(&mut self.batch.per_symbol_features, symbol, 1);
    }

    /// Whether `after` is `self` after one more tick of a symbol, where `since` has passed since the
    /// last batch: the batch was handed on where it was due.
    pub open spec fn tick_settled(
        &self,
        symbol: Seq<char>,
        since: Span,
        after: &ThreadLocalMetrics,
    ) -> bool {
        if is_due((self.ticks() + 1) as u64, self.threshold(), since, self.interval()) {
            &&& after.ticks() == 0
            &&& after.pending().is_zero()
            &&& crate::clock::begun_at(after.flushed_at())
            &&& exists|b: MetricsBatch, sent: Result<(), MetricsBatch>| #[trigger]
                crate::channel_utils::handed(&self.channel(), b, sent) && tick_added(
                    &self.pending(),
                    symbol,
                    &b,
                )
        } else {
            &&& after.ticks() == self.ticks() + 1
            &&& tick_added(&self.pending(), symbol, &after.pending())
            &&& after.flushed_at() == self.flushed_at()
        }
    }

    /// Counts a tick of a symbol, and hands the batch on where it is due: when the ticks reach the
    /// threshold, or when enough time has passed since the last batch.
    pub fn accumulate(&mut self, symbol: &str)
        requires
            old(self).wf(),
            old(self).pending().ticks_processed < u64::MAX,
            old(self).pending().features_computed < u64::MAX,
            old(self).ticks() < u64::MAX,
        ensures
            final(self).wf(),
            final(self).same_limits(old(self)),
            exists|since: Span| #[trigger]
                crate::clock::passed_since(old(self).flushed_at(), since) && old(
                    self,
                ).tick_settled(symbol@, since, final(self)),
    {
        self.count_tick(symbol);
        let since = instant_elapsed(&self.last_flush);
        proof {
            crate::clock::lemma_passed_since(self.last_flush, since);
        }
        if flush_due(self.tick_count, self.flush_tick_threshold, &since, &self.flush_interval) {
            self.flush();
        }
    }

    /// Takes the batch out, where it counts ticks or features.
    pub fn take_batch(&mut self) -> (r: Option<MetricsBatch>)
        requires
            old(self).wf(),
        ensures
            final(self).wf(),
            final(self).same_limits(old(self)),
            match r {
                Some(b) => {
                    &&& old(self).pending().ticks_processed != 0
                        || old(self).pending().features_computed != 0
                    &&& b == old(self).pending()
                    &&& final(self).pending().is_zero()
                    &&& final(self).ticks() == 0
                    &&& crate::clock::begun_at(final(self).flushed_at())
                },
                None => {
                    &&& old(self).pending().ticks_processed == 0
                    &&& old(self).pending().features_computed == 0
                    &&& *final(self) == *old(self)
                },
            },
    {
        if self.batch.ticks_processed == 0 && self.batch.features_computed == 0 {
            return None;
        }
        let mut batch = MetricsBatch::new();
        std::mem::swap(&mut self.batch, &mut batch);
        self.tick_count = 0;
        self.last_flush = instant_now();
        proof {
            crate::clock::lemma_begun_at(self.last_flush);
        }
        Some(batch)
    }

    /// Hands the batch on, where it counts ticks or features; it is lost where no receiver is
    /// left.
    pub fn flush(&mut self)
        requires
            old(self).wf(),
        ensures
            final(self).wf(),
            final(self).same_limits(old(self)),
            if old(self).pending().ticks_processed == 0 && old(self).pending().features_computed
                == 0 {
                *final(self) == *old(self)
            } else {
                &&& final(self).pending().is_zero()
                &&& final(self).ticks() == 0
                &&& crate::clock::begun_at(final(self).flushed_at())
                &&& exists|sent: Result<(), MetricsBatch>| #[trigger]
                    crate::channel_utils::handed(
                        &old(self).channel(),
                        old(self).pending(),
                        sent,
                    )
            },
    {
        match self.take_batch() {
            Some(batch) => {
                let sent = send(&self.batch_tx, batch);
                proof {
                    crate::channel_utils::lemma_handed(&self.batch_tx, batch, sent);
                }
            },
            None => {},
        }
    }

    /// Counts a generated intent.
    pub fn record_intent_generated(&mut self)
        requires
            old(self).pending().intents_generated < u64::MAX,
        ensures
            final(self).pending() == (MetricsBatch {
                intents_generated: (old(self).pending().intents_generated + 1) as u64,
                ..old(self).pending()
            }),
            final(self).ticks() == old(self).ticks(),
            final(self).flushed_at() == old(self).flushed_at(),
            final(self).same_limits(old(self)),
    {
        self.batch.intents_generated = self.batch.intents_generated + 1;
    }

    /// Counts a dropped intent.
    pub fn record_dropped_intent(&mut self)
        requires
            old(self).pending().dropped_intents < u64::MAX,
        ensures
            final(self).pending() == (MetricsBatch {
                dropped_intents: (old(self).pending().dropped_intents + 1) as u64,
                ..old(self).pending()
            }),
            final(self).ticks() == old(self).ticks(),
            final(self).flushed_at() == old(self).flushed_at(),
            final(self).same_limits(old(self)),
    {
        self.batch.dropped_intents = self.batch.dropped_intents + 1;
    }

    /// Counts a fallback of the model.
    pub fn record_model_fallback(&mut self)
        requires
            old(self).pending().model_fallback_activations < u64::MAX,
        ensures
            final(self).pending() == (MetricsBatch {
                model_fallback_activations: (old(self).pending().model_fallback_activations + 1) as u64,
                ..old(self).pending()
            }),
            final(self).ticks() == old(self).ticks(),
            final(self).flushed_at() == old(self).flushed_at(),
            final(self).same_limits(old(self)),
    {
        self.batch.model_fallback_activations = self.batch.model_fallback_activations + 1;
    }

    /// Counts a gap of the feed.
    pub fn record_feed_gap(&mut self)
        requires
            old(self).pending().feed_gaps < u64::MAX,
        ensures
            final(self).pending() == (MetricsBatch {
                feed_gaps: (old(self).pending().feed_gaps + 1) as u64,
                ..old(self).pending()
            }),
            final(self).ticks() == old(self).ticks(),
            final(self).flushed_at() == old(self).flushed_at(),
            final(self).same_limits(old(self)),
    {
        self.batch.feed_gaps = self.batch.feed_gaps + 1;
    }

    /// Records a change of the depth of the feature channel.
    pub fn record_feature_channel_depth(&mut self, delta: i64)
        requires
            i64::MIN <= old(self).pending().feature_channel_depth_delta + delta <= i64::MAX,
        ensures
            final(self).pending() == (MetricsBatch {
                feature_channel_depth_delta: (old(self).pending().feature_channel_depth_delta + delta) as i64,
                ..old(self).pending()
            }),
            final(self).ticks() == old(self).ticks(),
            final(self).flushed_at() == old(self).flushed_at(),
            final(self).same_limits(old(self)),
    {
        self.batch.feature_channel_depth_delta = self.batch.feature_channel_depth_delta + delta;
    }

    /// Records a change of the depth of the risk channel.
    pub fn record_risk_channel_depth(&mut self, delta: i64)
        requires
            i64::MIN <= old(self).pending().risk_channel_depth_delta + delta <= i64::MAX,
        ensures
            final(self).pending() == (MetricsBatch {
                risk_channel_depth_delta: (old(self).pending().risk_channel_depth_delta + delta) as i64,
                ..old(self).pending()
            }),
            final(self).ticks() == old(self).ticks(),
            final(self).flushed_at() == old(self).flushed_at(),
            final(self).same_limits(old(self)),
    {
        self.batch.risk_channel_depth_delta = self.batch.risk_channel_depth_delta + delta;
    }

    /// Records the latency from a tick to an intent.
    pub fn record_tick_to_intent_latency(&mut self, latency_ns: u64)
        requires
            old(self).pending().tick_to_intent_latency@[bucket_of(latency_ns)] < u64::MAX,
        ensures
            final(self).pending().tick_to_intent_latency@
                == recorded(old(self).pending().tick_to_intent_latency@, latency_ns),
            final(self).pending() == (MetricsBatch {
                tick_to_intent_latency: final(self).pending().tick_to_intent_latency,
                ..old(self).pending()
            }),
            final(self).ticks() == old(self).ticks(),
            final(self).flushed_at() == old(self).flushed_at(),
            final(self).same_limits(old(self)),
    {
        record_latency(latency_ns, &mut self.batch.tick_to_intent_latency);
    }

    /// Records the latency of the feed.
    pub fn record_feed_latency(&mut self, latency_ns: u64)
        requires
            old(self).pending().feed_latency@[bucket_of(latency_ns)] < u64::MAX,
        ensures
            final(self).pending().feed_latency@
                == recorded(old(self).pending().feed_latency@, latency_ns),
            final(self).pending() == (MetricsBatch {
                feed_latency: final(self).pending().feed_latency,
                ..old(self).pending()
            }),
            final(self).ticks() == old(self).ticks(),
            final(self).flushed_at() == old(self).flushed_at(),
            final(self).same_limits(old(self)),
    {
        record_latency(latency_ns, &mut self.batch.feed_latency);
    }

    /// Records how far two models differ, in millionths.
    pub fn record_model_divergence(&mut self, scaled: u64)
        requires
            old(self).pending().model_divergence@[bucket_of(scaled)] < u64::MAX,
        ensures
            final(self).pending().model_divergence@
                == recorded(old(self).pending().model_divergence@, scaled),
            final(self).pending() == (MetricsBatch {
                model_divergence: final(self).pending().model_divergence,
                ..old(self).pending()
            }),
            final(self).ticks() == old(self).ticks(),
            final(self).flushed_at() == old(self).flushed_at(),
            final(self).same_limits(old(self)),
    {
        record_latency(scaled, &mut self.batch.model_divergence);
    }
}

/// The sum of two counts is the true one as long as it fits, and starts over from zero after that;
/// a gauge goes through its range in the same way, in both directions.
pub proof fn law_counters_add(a: u64, b: u64, c: i64, d: i64)
    ensures
        wrap_u64(a, b) == (a + b) % 0x1_0000_0000_0000_0000,
        a + b <= u64::MAX ==> wrap_u64(a, b) == a + b,
        i64::MIN <= c + d <= i64::MAX ==> wrap_i64(c, d) == c + d,
        (wrap_i64(c, d) - (c + d)) % 0x1_0000_0000_0000_0000 == 0,
{
}

/// A latency adds one to the bucket of its size and leaves the others as they are.
pub proof fn law_latency_counts_in_its_bucket(before: Seq<u64>, latency_ns: u64, i: int)
    requires
        before.len() == 6,
        0 <= i < 6,
        before[i] < u64::MAX,
    ensures
        ({
            let low: int = if i == 0 {
                0
            } else if i == 1 {
                1_000
            } else if i == 2 {
                10_000
            } else if i == 3 {
                100_000
            } else if i == 4 {
                1_000_000
            } else {
                10_000_000
            };
            let own = low <= latency_ns && (i == 5 || latency_ns < (if i == 0 {
                1_000
            } else {
                10 * low
            }));
            &&& histogram_recorded(before, latency_ns).len() == 6
            &&& histogram_recorded(before, latency_ns)[i] == before[i] + (if own {
                1int
            } else {
                0int
            })
            &&& recorded(before, latency_ns)[i] == before[i] + (if own {
                1int
            } else {
                0int
            })
        }),
{
}

/// A count of one symbol goes up by what is added to it, from zero where there was none, and the
/// counts of the other symbols stay.
pub proof fn law_symbol_is_counted_alone(
    m: Map<Seq<char>, u64>,
    k: Seq<char>,
    n: u64,
    other: Seq<char>,
)
    ensures
        bumped(m, k, n).dom() == m.dom().insert(k),
        m.dom().contains(k) && m[k] + n <= u64::MAX ==> bumped(m, k, n)[k] == m[k] + n,
        !m.dom().contains(k) ==> bumped(m, k, n)[k] == n,
        other != k && m.dom().contains(other) ==> bumped(m, k, n)[other] == m[other],
{
}

/// Counts by symbol are added symbol by symbol.
pub proof fn law_symbols_are_added_one_by_one(
    a: Map<Seq<char>, u64>,
    b: Map<Seq<char>, u64>,
    k: Seq<char>,
)
    requires
        a.dom().contains(k) && b.dom().contains(k) ==> a[k] + b[k] <= u64::MAX,
    ensures
        summed_counts(a, b).dom() == a.dom() + b.dom(),
        wrapped_counts(a, b).dom() == a.dom() + b.dom(),
        a.dom().contains(k) && b.dom().contains(k) ==> summed_counts(a, b)[k] == a[k] + b[k]
            && wrapped_counts(a, b)[k] == a[k] + b[k],
        a.dom().contains(k) && !b.dom().contains(k) ==> summed_counts(a, b)[k] == a[k]
            && wrapped_counts(a, b)[k] == a[k],
        !a.dom().contains(k) && b.dom().contains(k) ==> summed_counts(a, b)[k] == b[k]
            && wrapped_counts(a, b)[k] == b[k],
{
    assert(summed_counts(a, b).dom() =~= a.dom() + b.dom());
    assert(wrapped_counts(a, b).dom() =~= a.dom() + b.dom());
}

/// Merging a batch with one that counted nothing changes nothing: every count is still its own.
pub proof fn law_merge_with_nothing(a: &MetricsBatch, none: &MetricsBatch, r: &MetricsBatch)
    requires
        none.is_zero(),
        a.merged_into(none, r) || none.merged_into(a, r),
    ensures
        r.ticks_processed == a.ticks_processed,
        r.features_computed == a.features_computed,
        r.intents_generated == a.intents_generated,
        r.intents_approved == a.intents_approved,
        r.intents_rejected == a.intents_rejected,
        r.dropped_intents == a.dropped_intents,
        r.stale_predictions == a.stale_predictions,
        r.model_fallback_activations == a.model_fallback_activations,
        r.ticks_skipped == a.ticks_skipped,
        r.orders_submitted == a.orders_submitted,
        r.orders_filled == a.orders_filled,
        r.orders_cancelled == a.orders_cancelled,
        r.orders_rejected == a.orders_rejected,
        r.orders_lifecycle_events == a.orders_lifecycle_events,
        r.circuit_breaker_trips == a.circuit_breaker_trips,
        r.kill_switch_activations == a.kill_switch_activations,
        r.config_reloads == a.config_reloads,
        r.journal_writes == a.journal_writes,
        r.heartbeat_misses == a.heartbeat_misses,
        r.errors == a.errors,
        r.feed_gaps == a.feed_gaps,
        r.feature_channel_depth_delta == a.feature_channel_depth_delta,
        r.risk_channel_depth_delta == a.risk_channel_depth_delta,
        r.decision_channel_depth_delta == a.decision_channel_depth_delta,
        r.lifecycle_channel_depth_delta == a.lifecycle_channel_depth_delta,
        r.command_channel_depth_delta == a.command_channel_depth_delta,
        r.journal_channel_depth_delta == a.journal_channel_depth_delta,
        r.tick_to_intent_latency@ == a.tick_to_intent_latency@,
        r.risk_check_latency@ == a.risk_check_latency@,
        r.journal_flush_latency@ == a.journal_flush_latency@,
        r.broker_send_latency@ == a.broker_send_latency@,
        r.feed_latency@ == a.feed_latency@,
        r.broker_round_trip_latency@ == a.broker_round_trip_latency@,
        r.decision_latency@ == a.decision_latency@,
        r.model_divergence@ == a.model_divergence@,
        r.per_symbol_ticks@ == a.per_symbol_ticks@,
        r.per_symbol_features@ == a.per_symbol_features@,
        r.per_symbol_intents_approved@ == a.per_symbol_intents_approved@,
        r.per_symbol_intents_rejected@ == a.per_symbol_intents_rejected@,
        r.per_symbol_ticks_skipped@ == a.per_symbol_ticks_skipped@,
{
    let e = Map::<Seq<char>, u64>::empty();
    assert(r.tick_to_intent_latency@ =~= a.tick_to_intent_latency@) by {
        assert forall|i: int| 0 <= i < 6 implies r.tick_to_intent_latency@[i] == a.tick_to_intent_latency@[i] by {
            assert(none.tick_to_intent_latency@[i] == 0);
            assert(a.merged_into(none, r) ==> r.tick_to_intent_latency@[i] == #[trigger] a.tick_to_intent_latency@[i] + none.tick_to_intent_latency@[i]);
            assert(none.merged_into(a, r) ==> r.tick_to_intent_latency@[i] == #[trigger] none.tick_to_intent_latency@[i] + a.tick_to_intent_latency@[i]);
        }
    }
    assert(r.risk_check_latency@ =~= a.risk_check_latency@) by {
        assert forall|i: int| 0 <= i < 6 implies r.risk_check_latency@[i] == a.risk_check_latency@[i] by {
            assert(none.risk_check_latency@[i] == 0);
            assert(a.merged_into(none, r) ==> r.risk_check_latency@[i] == #[trigger] a.risk_check_latency@[i] + none.risk_check_latency@[i]);
            assert(none.merged_into(a, r) ==> r.risk_check_latency@[i] == #[trigger] none.risk_check_latency@[i] + a.risk_check_latency@[i]);
        }
    }
    assert(r.journal_flush_latency@ =~= a.journal_flush_latency@) by {
        assert forall|i: int| 0 <= i < 6 implies r.journal_flush_latency@[i] == a.journal_flush_latency@[i] by {
            assert(none.journal_flush_latency@[i] == 0);
            assert(a.merged_into(none, r) ==> r.journal_flush_latency@[i] == #[trigger] a.journal_flush_latency@[i] + none.journal_flush_latency@[i]);
            assert(none.merged_into(a, r) ==> r.journal_flush_latency@[i] == #[trigger] none.journal_flush_latency@[i] + a.journal_flush_latency@[i]);
        }
    }
    assert(r.broker_send_latency@ =~= a.broker_send_latency@) by {
        assert forall|i: int| 0 <= i < 6 implies r.broker_send_latency@[i] == a.broker_send_latency@[i] by {
            assert(none.broker_send_latency@[i] == 0);
            assert(a.merged_into(none, r) ==> r.broker_send_latency@[i] == #[trigger] a.broker_send_latency@[i] + none.broker_send_latency@[i]);
            assert(none.merged_into(a, r) ==> r.broker_send_latency@[i] == #[trigger] none.broker_send_latency@[i] + a.broker_send_latency@[i]);
        }
    }
    assert(r.feed_latency@ =~= a.feed_latency@) by {
        assert forall|i: int| 0 <= i < 6 implies r.feed_latency@[i] == a.feed_latency@[i] by {
            assert(none.feed_latency@[i] == 0);
            assert(a.merged_into(none, r) ==> r.feed_latency@[i] == #[trigger] a.feed_latency@[i] + none.feed_latency@[i]);
            assert(none.merged_into(a, r) ==> r.feed_latency@[i] == #[trigger] none.feed_latency@[i] + a.feed_latency@[i]);
        }
    }
    assert(r.broker_round_trip_latency@ =~= a.broker_round_trip_latency@) by {
        assert forall|i: int| 0 <= i < 6 implies r.broker_round_trip_latency@[i] == a.broker_round_trip_latency@[i] by {
            assert(none.broker_round_trip_latency@[i] == 0);
            assert(a.merged_into(none, r) ==> r.broker_round_trip_latency@[i] == #[trigger] a.broker_round_trip_latency@[i] + none.broker_round_trip_latency@[i]);
            assert(none.merged_into(a, r) ==> r.broker_round_trip_latency@[i] == #[trigger] none.broker_round_trip_latency@[i] + a.broker_round_trip_latency@[i]);
        }
    }
    assert(r.decision_latency@ =~= a.decision_latency@) by {
        assert forall|i: int| 0 <= i < 6 implies r.decision_latency@[i] == a.decision_latency@[i] by {
            assert(none.decision_latency@[i] == 0);
            assert(a.merged_into(none, r) ==> r.decision_latency@[i] == #[trigger] a.decision_latency@[i] + none.decision_latency@[i]);
            assert(none.merged_into(a, r) ==> r.decision_latency@[i] == #[trigger] none.decision_latency@[i] + a.decision_latency@[i]);
        }
    }
    assert(r.model_divergence@ =~= a.model_divergence@) by {
        assert forall|i: int| 0 <= i < 6 implies r.model_divergence@[i] == a.model_divergence@[i] by {
            assert(none.model_divergence@[i] == 0);
            assert(a.merged_into(none, r) ==> r.model_divergence@[i] == #[trigger] a.model_divergence@[i] + none.model_divergence@[i]);
            assert(none.merged_into(a, r) ==> r.model_divergence@[i] == #[trigger] none.model_divergence@[i] + a.model_divergence@[i]);
        }
    }
    assert(summed_counts(a.per_symbol_ticks@, e) =~= a.per_symbol_ticks@);
    assert(summed_counts(e, a.per_symbol_ticks@) =~= a.per_symbol_ticks@);
    assert(summed_counts(a.per_symbol_features@, e) =~= a.per_symbol_features@);
    assert(summed_counts(e, a.per_symbol_features@) =~= a.per_symbol_features@);
    assert(summed_counts(a.per_symbol_intents_approved@, e) =~= a.per_symbol_intents_approved@);
    assert(summed_counts(e, a.per_symbol_intents_approved@) =~= a.per_symbol_intents_approved@);
    assert(summed_counts(a.per_symbol_intents_rejected@, e) =~= a.per_symbol_intents_rejected@);
    assert(summed_counts(e, a.per_symbol_intents_rejected@) =~= a.per_symbol_intents_rejected@);
    assert(summed_counts(a.per_symbol_ticks_skipped@, e) =~= a.per_symbol_ticks_skipped@);
    assert(summed_counts(e, a.per_symbol_ticks_skipped@) =~= a.per_symbol_ticks_skipped@);
}

/// A batch adds each of its counts to the counter of the same name; the ticks are counted as they
/// come and are not added again.
pub proof fn law_batch_adds_to_its_counters(m: &GlobalMetrics, b: &MetricsBatch, r: &GlobalMetrics)
    requires
        batch_applied(m, b, r),
    ensures
        r.ticks_processed@ == m.ticks_processed@,
        r.inferences_run@ == m.inferences_run@,
        r.features_computed@ == (m.features_computed@ + b.features_computed) % 0x1_0000_0000_0000_0000,
        r.intents_generated@ == (m.intents_generated@ + b.intents_generated) % 0x1_0000_0000_0000_0000,
        r.intents_approved@ == (m.intents_approved@ + b.intents_approved) % 0x1_0000_0000_0000_0000,
        r.intents_rejected@ == (m.intents_rejected@ + b.intents_rejected) % 0x1_0000_0000_0000_0000,
        r.dropped_intents@ == (m.dropped_intents@ + b.dropped_intents) % 0x1_0000_0000_0000_0000,
        r.stale_predictions@ == (m.stale_predictions@ + b.stale_predictions) % 0x1_0000_0000_0000_0000,
        r.model_fallback_activations@ == (m.model_fallback_activations@ + b.model_fallback_activations) % 0x1_0000_0000_0000_0000,
        r.ticks_skipped@ == (m.ticks_skipped@ + b.ticks_skipped) % 0x1_0000_0000_0000_0000,
        r.orders_submitted@ == (m.orders_submitted@ + b.orders_submitted) % 0x1_0000_0000_0000_0000,
        r.orders_filled@ == (m.orders_filled@ + b.orders_filled) % 0x1_0000_0000_0000_0000,
        r.orders_cancelled@ == (m.orders_cancelled@ + b.orders_cancelled) % 0x1_0000_0000_0000_0000,
        r.orders_rejected@ == (m.orders_rejected@ + b.orders_rejected) % 0x1_0000_0000_0000_0000,
        r.orders_lifecycle_events@ == (m.orders_lifecycle_events@ + b.orders_lifecycle_events) % 0x1_0000_0000_0000_0000,
        r.circuit_breaker_trips@ == (m.circuit_breaker_trips@ + b.circuit_breaker_trips) % 0x1_0000_0000_0000_0000,
        r.kill_switch_activations@ == (m.kill_switch_activations@ + b.kill_switch_activations) % 0x1_0000_0000_0000_0000,
        r.config_reloads@ == (m.config_reloads@ + b.config_reloads) % 0x1_0000_0000_0000_0000,
        r.journal_writes@ == (m.journal_writes@ + b.journal_writes) % 0x1_0000_0000_0000_0000,
        r.heartbeat_misses@ == (m.heartbeat_misses@ + b.heartbeat_misses) % 0x1_0000_0000_0000_0000,
        r.errors@ == (m.errors@ + b.errors) % 0x1_0000_0000_0000_0000,
        r.feed_gaps@ == (m.feed_gaps@ + b.feed_gaps) % 0x1_0000_0000_0000_0000,
        i64::MIN <= m.feature_channel_depth + b.feature_channel_depth_delta <= i64::MAX ==> r.feature_channel_depth == m.feature_channel_depth
            + b.feature_channel_depth_delta,
        i64::MIN <= m.risk_channel_depth + b.risk_channel_depth_delta <= i64::MAX ==> r.risk_channel_depth == m.risk_channel_depth
            + b.risk_channel_depth_delta,
        i64::MIN <= m.decision_channel_depth + b.decision_channel_depth_delta <= i64::MAX ==> r.decision_channel_depth == m.decision_channel_depth
            + b.decision_channel_depth_delta,
        i64::MIN <= m.lifecycle_channel_depth + b.lifecycle_channel_depth_delta <= i64::MAX ==> r.lifecycle_channel_depth == m.lifecycle_channel_depth
            + b.lifecycle_channel_depth_delta,
        i64::MIN <= m.command_channel_depth + b.command_channel_depth_delta <= i64::MAX ==> r.command_channel_depth == m.command_channel_depth
            + b.command_channel_depth_delta,
        i64::MIN <= m.journal_channel_depth + b.journal_channel_depth_delta <= i64::MAX ==> r.journal_channel_depth == m.journal_channel_depth
            + b.journal_channel_depth_delta,
{
}

/// The latencies and the counts by symbol of a batch are added to those of the same name, bucket by
/// bucket and symbol by symbol.
pub proof fn law_batch_adds_latencies_and_symbols(
    m: &GlobalMetrics,
    b: &MetricsBatch,
    r: &GlobalMetrics,
    i: int,
    k: Seq<char>,
)
    requires
        batch_applied(m, b, r),
        0 <= i < 6,
    ensures
        r.tick_to_intent_latency@[i] == (m.tick_to_intent_latency@[i] + b.tick_to_intent_latency@[i]) % 0x1_0000_0000_0000_0000,
        r.risk_check_latency@[i] == (m.risk_check_latency@[i] + b.risk_check_latency@[i]) % 0x1_0000_0000_0000_0000,
        r.journal_flush_latency@[i] == (m.journal_flush_latency@[i] + b.journal_flush_latency@[i]) % 0x1_0000_0000_0000_0000,
        r.broker_send_latency@[i] == (m.broker_send_latency@[i] + b.broker_send_latency@[i]) % 0x1_0000_0000_0000_0000,
        r.feed_latency@[i] == (m.feed_latency@[i] + b.feed_latency@[i]) % 0x1_0000_0000_0000_0000,
        r.broker_round_trip_latency@[i] == (m.broker_round_trip_latency@[i] + b.broker_round_trip_latency@[i]) % 0x1_0000_0000_0000_0000,
        r.decision_latency@[i] == (m.decision_latency@[i] + b.decision_latency@[i]) % 0x1_0000_0000_0000_0000,
        r.model_divergence@[i] == (m.model_divergence@[i] + b.model_divergence@[i]) % 0x1_0000_0000_0000_0000,
        m.per_symbol_ticks@.dom().contains(k) && !b.per_symbol_ticks@.dom().contains(k) ==> r.per_symbol_ticks@.dom().contains(k)
            && r.per_symbol_ticks@[k] == m.per_symbol_ticks@[k],
        !m.per_symbol_ticks@.dom().contains(k) && b.per_symbol_ticks@.dom().contains(k) ==> r.per_symbol_ticks@.dom().contains(k)
            && r.per_symbol_ticks@[k] == b.per_symbol_ticks@[k],
        m.per_symbol_ticks@.dom().contains(k) && b.per_symbol_ticks@.dom().contains(k) ==> r.per_symbol_ticks@.dom().contains(k)
            && r.per_symbol_ticks@[k] == (m.per_symbol_ticks@[k] + b.per_symbol_ticks@[k]) % 0x1_0000_0000_0000_0000,
        m.per_symbol_features@.dom().contains(k) && !b.per_symbol_features@.dom().contains(k) ==> r.per_symbol_features@.dom().contains(k)
            && r.per_symbol_features@[k] == m.per_symbol_features@[k],
        !m.per_symbol_features@.dom().contains(k) && b.per_symbol_features@.dom().contains(k) ==> r.per_symbol_features@.dom().contains(k)
            && r.per_symbol_features@[k] == b.per_symbol_features@[k],
        m.per_symbol_features@.dom().contains(k) && b.per_symbol_features@.dom().contains(k) ==> r.per_symbol_features@.dom().contains(k)
            && r.per_symbol_features@[k] == (m.per_symbol_features@[k] + b.per_symbol_features@[k]) % 0x1_0000_0000_0000_0000,
        m.per_symbol_intents_approved@.dom().contains(k) && !b.per_symbol_intents_approved@.dom().contains(k) ==> r.per_symbol_intents_approved@.dom().contains(k)
            && r.per_symbol_intents_approved@[k] == m.per_symbol_intents_approved@[k],
        !m.per_symbol_intents_approved@.dom().contains(k) && b.per_symbol_intents_approved@.dom().contains(k) ==> r.per_symbol_intents_approved@.dom().contains(k)
            && r.per_symbol_intents_approved@[k] == b.per_symbol_intents_approved@[k],
        m.per_symbol_intents_approved@.dom().contains(k) && b.per_symbol_intents_approved@.dom().contains(k) ==> r.per_symbol_intents_approved@.dom().contains(k)
            && r.per_symbol_intents_approved@[k] == (m.per_symbol_intents_approved@[k] + b.per_symbol_intents_approved@[k]) % 0x1_0000_0000_0000_0000,
        m.per_symbol_intents_rejected@.dom().contains(k) && !b.per_symbol_intents_rejected@.dom().contains(k) ==> r.per_symbol_intents_rejected@.dom().contains(k)
            && r.per_symbol_intents_rejected@[k] == m.per_symbol_intents_rejected@[k],
        !m.per_symbol_intents_rejected@.dom().contains(k) && b.per_symbol_intents_rejected@.dom().contains(k) ==> r.per_symbol_intents_rejected@.dom().contains(k)
            && r.per_symbol_intents_rejected@[k] == b.per_symbol_intents_rejected@[k],
        m.per_symbol_intents_rejected@.dom().contains(k) && b.per_symbol_intents_rejected@.dom().contains(k) ==> r.per_symbol_intents_rejected@.dom().contains(k)
            && r.per_symbol_intents_rejected@[k] == (m.per_symbol_intents_rejected@[k] + b.per_symbol_intents_rejected@[k]) % 0x1_0000_0000_0000_0000,
        m.per_symbol_ticks_skipped@.dom().contains(k) && !b.per_symbol_ticks_skipped@.dom().contains(k) ==> r.per_symbol_ticks_skipped@.dom().contains(k)
            && r.per_symbol_ticks_skipped@[k] == m.per_symbol_ticks_skipped@[k],
        !m.per_symbol_ticks_skipped@.dom().contains(k) && b.per_symbol_ticks_skipped@.dom().contains(k) ==> r.per_symbol_ticks_skipped@.dom().contains(k)
            && r.per_symbol_ticks_skipped@[k] == b.per_symbol_ticks_skipped@[k],
        m.per_symbol_ticks_skipped@.dom().contains(k) && b.per_symbol_ticks_skipped@.dom().contains(k) ==> r.per_symbol_ticks_skipped@.dom().contains(k)
            && r.per_symbol_ticks_skipped@[k] == (m.per_symbol_ticks_skipped@[k] + b.per_symbol_ticks_skipped@[k]) % 0x1_0000_0000_0000_0000,
{
    assert(r.per_symbol_ticks@.dom().contains(k) <==> m.per_symbol_ticks@.dom().contains(k) || b.per_symbol_ticks@.dom().contains(k));
    assert(r.per_symbol_features@.dom().contains(k) <==> m.per_symbol_features@.dom().contains(k) || b.per_symbol_features@.dom().contains(k));
    assert(r.per_symbol_intents_approved@.dom().contains(k) <==> m.per_symbol_intents_approved@.dom().contains(k) || b.per_symbol_intents_approved@.dom().contains(k));
    assert(r.per_symbol_intents_rejected@.dom().contains(k) <==> m.per_symbol_intents_rejected@.dom().contains(k) || b.per_symbol_intents_rejected@.dom().contains(k));
    assert(r.per_symbol_ticks_skipped@.dom().contains(k) <==> m.per_symbol_ticks_skipped@.dom().contains(k) || b.per_symbol_ticks_skipped@.dom().contains(k));
}

/// A view of the counters at one moment shows each under its own name.
pub proof fn law_snapshot_shows_the_counters(m: &GlobalMetrics, s: MetricsSnapshot)
    requires
        call_ensures(GlobalMetrics::snapshot, (m,), s),
    ensures
        s.inferences_run == m.inferences_run@,
        s.ticks_processed == m.ticks_processed@,
        s.features_computed == m.features_computed@,
        s.intents_generated == m.intents_generated@,
        s.intents_approved == m.intents_approved@,
        s.intents_rejected == m.intents_rejected@,
        s.dropped_intents == m.dropped_intents@,
        s.stale_predictions == m.stale_predictions@,
        s.model_fallback_activations == m.model_fallback_activations@,
        s.ticks_skipped == m.ticks_skipped@,
        s.orders_submitted == m.orders_submitted@,
        s.orders_filled == m.orders_filled@,
        s.orders_cancelled == m.orders_cancelled@,
        s.orders_rejected == m.orders_rejected@,
        s.orders_lifecycle_events == m.orders_lifecycle_events@,
        s.circuit_breaker_trips == m.circuit_breaker_trips@,
        s.kill_switch_activations == m.kill_switch_activations@,
        s.config_reloads == m.config_reloads@,
        s.journal_writes == m.journal_writes@,
        s.heartbeat_misses == m.heartbeat_misses@,
        s.errors == m.errors@,
        s.feed_gaps == m.feed_gaps@,
        s.feature_channel_depth == m.feature_channel_depth,
        s.risk_channel_depth == m.risk_channel_depth,
        s.decision_channel_depth == m.decision_channel_depth,
        s.lifecycle_channel_depth == m.lifecycle_channel_depth,
        s.command_channel_depth == m.command_channel_depth,
        s.journal_channel_depth == m.journal_channel_depth,
        s.tick_to_intent_latency@ == m.tick_to_intent_latency@,
        s.risk_check_latency@ == m.risk_check_latency@,
        s.journal_flush_latency@ == m.journal_flush_latency@,
        s.broker_send_latency@ == m.broker_send_latency@,
        s.feed_latency@ == m.feed_latency@,
        s.broker_round_trip_latency@ == m.broker_round_trip_latency@,
        s.decision_latency@ == m.decision_latency@,
        s.model_divergence@ == m.model_divergence@,
        s.per_symbol_ticks@ == m.per_symbol_ticks@,
        s.per_symbol_features@ == m.per_symbol_features@,
        s.per_symbol_intents_approved@ == m.per_symbol_intents_approved@,
        s.per_symbol_intents_rejected@ == m.per_symbol_intents_rejected@,
        s.per_symbol_ticks_skipped@ == m.per_symbol_ticks_skipped@,
{
}

/// What was counted is handed on once there are as many ticks as the threshold, or once the interval
/// has passed, and not before.
pub proof fn law_flush_is_due_by_count_or_time(
    tick_count: u64,
    threshold: u64,
    since_flush: Span,
    flush_interval: Span,
    due: bool,
)
    requires
        call_ensures(flush_due, (tick_count, threshold, &since_flush, &flush_interval), due),
    ensures
        tick_count >= threshold ==> due,
        since_flush.ns() >= flush_interval.ns() ==> due,
        tick_count < threshold && since_flush.ns() < flush_interval.ns() ==> !due,
{
}

/// A tick of a symbol is one tick more, and one tick with features more, for all and for the symbol,
/// and nothing else.
pub proof fn law_tick_is_added_once(b: &MetricsBatch, symbol: Seq<char>, r: &MetricsBatch)
    requires
        tick_added(b, symbol, r),
        count_of(b.per_symbol_ticks@, symbol) < u64::MAX,
        count_of(b.per_symbol_features@, symbol) < u64::MAX,
    ensures
        r.ticks_processed == b.ticks_processed + 1,
        r.features_computed == b.features_computed + 1,
        r.per_symbol_ticks@.dom().contains(symbol),
        r.per_symbol_ticks@[symbol] == (if b.per_symbol_ticks@.dom().contains(symbol) {
            b.per_symbol_ticks@[symbol] + 1
        } else {
            1
        }),
        r.per_symbol_features@.dom().contains(symbol),
        r.per_symbol_features@[symbol] == (if b.per_symbol_features@.dom().contains(symbol) {
            b.per_symbol_features@[symbol] + 1
        } else {
            1
        }),
        r.intents_generated == b.intents_generated,
        r.orders_submitted == b.orders_submitted,
        r.ticks_skipped == b.ticks_skipped,
        r.errors == b.errors,
        r.feed_gaps == b.feed_gaps,
{
}

/// A tick is counted once, in the batch that is handed on where one is due, else in the one that is
/// kept. After a batch is handed on nothing is kept, and the limits never change.
pub proof fn law_tick_is_kept_or_handed_on(
    a: &ThreadLocalMetrics,
    symbol: Seq<char>,
    since: Span,
    b: &ThreadLocalMetrics,
)
    requires
        a.ticks() < u64::MAX,
        a.pending().ticks_processed < u64::MAX,
        a.tick_settled(symbol, since, b),
    ensures
        is_due((a.ticks() + 1) as u64, a.threshold(), since, a.interval()) ==> {
            &&& b.ticks() == 0
            &&& b.pending().ticks_processed == 0 && b.pending().features_computed == 0
            &&& exists|batch: MetricsBatch, sent: Result<(), MetricsBatch>| #[trigger]
                crate::channel_utils::handed(&a.channel(), batch, sent) && batch.ticks_processed
                    == a.pending().ticks_processed + 1
        },
        !is_due((a.ticks() + 1) as u64, a.threshold(), since, a.interval()) ==> {
            &&& b.ticks() == a.ticks() + 1
            &&& b.pending().ticks_processed == a.pending().ticks_processed + 1
            &&& b.flushed_at() == a.flushed_at()
        },
{
}

/// What is taken out is all that was counted, and nothing is left behind. Where neither ticks nor
/// features were counted nothing is taken.
pub proof fn law_batch_is_taken_whole()
    ensures
        forall|t: &mut ThreadLocalMetrics, r: Option<MetricsBatch>|
            #![trigger call_ensures(ThreadLocalMetrics::take_batch, (t,), r)]
            call_ensures(ThreadLocalMetrics::take_batch, (t,), r) ==> {
                &&& r is Some <==> t.pending().ticks_processed > 0 || t.pending().features_computed
                    > 0
                &&& r matches Some(b) ==> b == t.pending()
                &&& r is Some ==> final(t).ticks() == 0 && final(t).pending().ticks_processed == 0
                    && final(t).pending().features_computed == 0
                    && final(t).pending().intents_generated == 0
                &&& r is None ==> *final(t) == *t
                &&& final(t).threshold() == t.threshold()
                &&& final(t).interval() == t.interval()
                &&& final(t).channel() == t.channel()
            },
{
}

/// What is flushed is all that was counted, on the channel for batches, and nothing is left behind.
pub proof fn law_flush_hands_on_what_was_counted()
    ensures
        forall|t: &mut ThreadLocalMetrics, u: ()|
            #![trigger call_ensures(ThreadLocalMetrics::flush, (t,), u)]
            call_ensures(ThreadLocalMetrics::flush, (t,), u) ==> {
                &&& t.pending().ticks_processed > 0 || t.pending().features_computed > 0 ==> {
                    &&& exists|sent: Result<(), MetricsBatch>| #[trigger]
                        crate::channel_utils::handed(&t.channel(), t.pending(), sent)
                    &&& final(t).ticks() == 0
                    &&& final(t).pending().ticks_processed == 0
                    &&& final(t).pending().features_computed == 0
                }
                &&& t.pending().ticks_processed == 0 && t.pending().features_computed == 0
                    ==> *final(t) == *t
                &&& final(t).channel() == t.channel()
            },
{
}

} // verus!
