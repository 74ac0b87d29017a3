//! The features of a tick and the windows that they are computed over.

use vstd::prelude::*;

use crate::quantity::{Real, Real32};
use crate::symbol_registry::SymbolId;

verus! {

/// The version of the set of features, so that a model is not served with other features than it
/// was trained on.
pub const FEATURE_SCHEMA_VERSION: u32 = 1;

/// The number of features.
pub const FEATURE_COUNT: usize = 17;

/// The features.
#[derive(Debug, Clone, Copy, PartialEq, Eq, Structural)]
pub enum FeatureIndex {
    MidPrice,
    SpreadBps,
    SpreadAbs,
    Rsi14,
    MacdLine,
    MacdSignal,
    MacdHistogram,
    Atr14,
    RollingStd,
    VolumeRatio,
    OrderFlowImbalance,
    Regime,
    RegimeStrength,
    Ema9,
    Ema21,
    Ema50,
    Confidence,
}

impl FeatureIndex {
    /// The place of the feature.
    pub open spec fn place(self) -> int {
        match self {
            FeatureIndex::MidPrice => 0,
            FeatureIndex::SpreadBps => 1,
            FeatureIndex::SpreadAbs => 2,
            FeatureIndex::Rsi14 => 3,
            FeatureIndex::MacdLine => 4,
            FeatureIndex::MacdSignal => 5,
            FeatureIndex::MacdHistogram => 6,
            FeatureIndex::Atr14 => 7,
            FeatureIndex::RollingStd => 8,
            FeatureIndex::VolumeRatio => 9,
            FeatureIndex::OrderFlowImbalance => 10,
            FeatureIndex::Regime => 11,
            FeatureIndex::RegimeStrength => 12,
            FeatureIndex::Ema9 => 13,
            FeatureIndex::Ema21 => 14,
            FeatureIndex::Ema50 => 15,
            FeatureIndex::Confidence => 16,
        }
    }

    /// The place of the feature.
    pub fn index(&self) -> (i: usize)
        ensures
            i == self.place(),
            i < FEATURE_COUNT,
    {
        match self {
            FeatureIndex::MidPrice => 0,
            FeatureIndex::SpreadBps => 1,
            FeatureIndex::SpreadAbs => 2,
            FeatureIndex::Rsi14 => 3,
            FeatureIndex::MacdLine => 4,
            FeatureIndex::MacdSignal => 5,
            FeatureIndex::MacdHistogram => 6,
            FeatureIndex::Atr14 => 7,
            FeatureIndex::RollingStd => 8,
            FeatureIndex::VolumeRatio => 9,
            FeatureIndex::OrderFlowImbalance => 10,
            FeatureIndex::Regime => 11,
            FeatureIndex::RegimeStrength => 12,
            FeatureIndex::Ema9 => 13,
            FeatureIndex::Ema21 => 14,
            FeatureIndex::Ema50 => 15,
            FeatureIndex::Confidence => 16,
        }
    }

    /// The name of the feature.
    pub open spec fn name(self) -> Seq<char> {
        match self {
            FeatureIndex::MidPrice => "mid_price"@,
            FeatureIndex::SpreadBps => "spread_bps"@,
            FeatureIndex::SpreadAbs => "spread_abs"@,
            FeatureIndex::Rsi14 => "rsi_14"@,
            FeatureIndex::MacdLine => "macd_line"@,
            FeatureIndex::MacdSignal => "macd_signal"@,
            FeatureIndex::MacdHistogram => "macd_histogram"@,
            FeatureIndex::Atr14 => "atr_14"@,
            FeatureIndex::RollingStd => "rolling_std"@,
            FeatureIndex::VolumeRatio => "volume_ratio"@,
            FeatureIndex::OrderFlowImbalance => "order_flow_imbalance"@,
            FeatureIndex::Regime => "regime"@,
            FeatureIndex::RegimeStrength => "regime_strength"@,
            FeatureIndex::Ema9 => "ema_9"@,
            FeatureIndex::Ema21 => "ema_21"@,
            FeatureIndex::Ema50 => "ema_50"@,
            FeatureIndex::Confidence => "confidence"@,
        }
    }
}

/// Every place belongs to one feature.
pub proof fn law_places_differ(a: FeatureIndex, b: FeatureIndex)
    ensures
        0 <= a.place() < FEATURE_COUNT,
        a.place() == b.place() ==> a == b,
{
}

/// The features of a tick.
#[derive(Debug, Clone)]
pub struct FeatureVector {
    pub symbol_id: SymbolId,
    pub timestamp_ns: u64,
    pub values: [Real32; 17],
    pub feature_schema_version: u32,
}

impl FeatureVector {
    /// Features that are all zero.
    pub fn new(symbol_id: SymbolId, timestamp_ns: u64) -> (v: Self)
        ensures
            v.symbol_id == symbol_id,
            v.timestamp_ns == timestamp_ns,
            forall|i: int| 0 <= i < 17 ==> (#[trigger] v.values@[i]).bits == 0,
            v.feature_schema_version == FEATURE_SCHEMA_VERSION,
    {
        let z = Real32 { bits: 0 };
        FeatureVector {
            symbol_id,
            timestamp_ns,
            values: [z, z, z, z, z, z, z, z, z, z, z, z, z, z, z, z, z],
            feature_schema_version: FEATURE_SCHEMA_VERSION,
        }
    }

    /// Sets a feature.
    pub fn set(&mut self, index: FeatureIndex, value: Real32)
        ensures
            final(self).values@ == old(self).values@.update(index.place(), value),
            *final(self) == (FeatureVector { values: final(self).values, ..*old(self) }),
    {
        let i: usize = index.index();
        self.values[i] = value;
        assert(self.values@ =~= old(self).values@.update(index.place(), value));
    }

    /// The value of a feature.
    pub fn get(&self, index: FeatureIndex) -> (v: Real32)
        ensures
            v == self.values@[index.place()],
    {
        let i: usize = index.index();
        self.values[i]
    }

    pub fn len(&self) -> (n: usize)
        ensures
            n == FEATURE_COUNT,
    {
        FEATURE_COUNT
    }

    pub fn is_empty(&self) -> (r: bool)
        ensures
            !r,
    {
        false
    }

    /// The first `n` features, with zeros after the last one.
    pub fn to_array(&self, n: usize) -> (v: Vec<Real32>)
        ensures
            v@.len() == n,
            forall|i: int|
                0 <= i < n ==> #[trigger] v@[i] == (if i < FEATURE_COUNT {
                    self.values@[i]
                } else {
                    Real32 { bits: 0 }
                }),
    {
        let mut v: Vec<Real32> = Vec::new();
        let mut i: usize = 0;
        while i < n
            invariant
                i <= n,
                v@.len() == i,
                forall|j: int|
                    0 <= j < i ==> #[trigger] v@[j] == (if j < FEATURE_COUNT {
                        self.values@[j]
                    } else {
                        Real32 { bits: 0 }
                    }),
            decreases n - i,
        {
            if i < FEATURE_COUNT {
                v.push(self.values[i]);
            } else {
                v.push(Real32 { bits: 0 });
            }
            i += 1;
        }
        v
    }

    /// The name of a feature.
    pub fn feature_name(index: FeatureIndex) -> (s: &'static str)
        ensures
            s@ == index.name(),
    {
        match index {
            FeatureIndex::MidPrice => "mid_price",
            FeatureIndex::SpreadBps => "spread_bps",
            FeatureIndex::SpreadAbs => "spread_abs",
            FeatureIndex::Rsi14 => "rsi_14",
            FeatureIndex::MacdLine => "macd_line",
            FeatureIndex::MacdSignal => "macd_signal",
            FeatureIndex::MacdHistogram => "macd_histogram",
            FeatureIndex::Atr14 => "atr_14",
            FeatureIndex::RollingStd => "rolling_std",
            FeatureIndex::VolumeRatio => "volume_ratio",
            FeatureIndex::OrderFlowImbalance => "order_flow_imbalance",
            FeatureIndex::Regime => "regime",
            FeatureIndex::RegimeStrength => "regime_strength",
            FeatureIndex::Ema9 => "ema_9",
            FeatureIndex::Ema21 => "ema_21",
            FeatureIndex::Ema50 => "ema_50",
            FeatureIndex::Confidence => "confidence",
        }
    }
}

/// A feature that was set reads back, and the others stay as they were.
pub proof fn law_set_then_get(values: Seq<Real32>, a: FeatureIndex, b: FeatureIndex, v: Real32)
    requires
        values.len() == FEATURE_COUNT,
    ensures
        values.update(a.place(), v)[b.place()] == (if a == b {
            v
        } else {
            values[b.place()]
        }),
{
    law_places_differ(a, b);
}

/// How a market behaves.
#[derive(Debug, Clone, Copy, PartialEq, Eq, Structural)]
pub enum RegimeLabel {
    Ranging,
    Trending,
    Volatile,
}

impl Default for RegimeLabel {
    fn default() -> (r: Self)
        ensures
            r == RegimeLabel::Ranging,
    {
        RegimeLabel::Ranging
    }
}

/// The last values of a series, as many as the window takes.
pub struct RollingWindow<T> {
    data: Vec<T>,
    capacity: usize,
    index: usize,
    full: bool,
}

/// The values in a window of size `capacity` after one more.
pub open spec fn rolled<T>(s: Seq<T>, capacity: nat, v: T) -> Seq<T> {
    if s.len() < capacity {
        s.push(v)
    } else {
        s.skip(1).push(v)
    }
}

impl<T> View for RollingWindow<T> {
    type V = Seq<T>;

    /// The values, oldest first.
    closed spec fn view(&self) -> Seq<T> {
        if self.full {
            self.data@.skip(self.index as int) + self.data@.take(self.index as int)
        } else {
            self.data@.take(self.index as int)
        }
    }
}

impl<T> RollingWindow<T> {
    /// How many values the window takes.
    pub closed spec fn size(&self) -> usize {
        self.capacity
    }

    pub closed spec fn wf(&self) -> bool {
        &&& self.data@.len() == self.capacity
        &&& self.capacity > 0 ==> self.index < self.capacity
        &&& self.capacity == 0 ==> self.index == 0 && !self.full
    }

    /// The window holds no more values than it takes.
    pub proof fn lemma_len(&self)
        requires
            self.wf(),
        ensures
            self@.len() <= self.size(),
    {
    }
}

impl<T: Clone + Default> RollingWindow<T> {
    /// An empty window.
    pub fn new(capacity: usize) -> (w: Self)
        ensures
            w.wf(),
            w@ == Seq::<T>::empty(),
            w.size() == capacity,
    {
        let mut data: Vec<T> = Vec::new();
        let mut i: usize = 0;
        while i < capacity
            invariant
                i <= capacity,
                data@.len() == i,
            decreases capacity - i,
        {
            data.push(T::default());
            i += 1;
        }
        let w = RollingWindow { data, capacity, index: 0, full: false };
        assert(w@ =~= Seq::<T>::empty());
        w
    }

    /// Takes in a value; a full window gives up its oldest one.
    pub fn push(&mut self, value: T)
        requires
            old(self).wf(),
            old(self).size() > 0,
        ensures
            final(self).wf(),
            final(self).size() == old(self).size(),
            final(self)@ == rolled(old(self)@, old(self).size() as nat, value),
    {
        let ghost before = *self;
        let at: usize = self.index;
        self.data.set(at, value);
        self.index = if at + 1 >= self.capacity {
            0
        } else {
            at + 1
        };
        if self.index == 0 {
            self.full = true;
        }
        assert(self@ =~= rolled(before@, before.size() as nat, value));
    }

    /// The values, oldest first.
    pub fn values(&self) -> (v: Vec<T>)
        requires
            self.wf(),
        ensures
            v@.len() == self@.len(),
            forall|i: int| 0 <= i < v@.len() ==> cloned(self@[i], #[trigger] v@[i]),
    {
        let mut v: Vec<T> = Vec::new();
        let n: usize = self.len();
        let mut i: usize = 0;
        while i < n
            invariant
                self.wf(),
                i <= n,
                n == self@.len(),
                n == (if self.full {
                    self.capacity
                } else {
                    self.index
                }),
                v@.len() == i,
                forall|j: int| 0 <= j < i ==> cloned(self@[j], #[trigger] v@[j]),
            decreases n - i,
        {
            let at: usize = if self.full {
                if i < self.capacity - self.index {
                    self.index + i
                } else {
                    i - (self.capacity - self.index)
                }
            } else {
                i
            };
            assert(self.data@[at as int] == self@[i as int]);
            v.push(self.data[at].clone());
            i += 1;
        }
        v
    }

    pub fn len(&self) -> (n: usize)
        requires
            self.wf(),
        ensures
            n == self@.len(),
    {
        if self.full {
            self.capacity
        } else {
            self.index
        }
    }

    pub fn is_empty(&self) -> (r: bool)
        requires
            self.wf(),
        ensures
            r == (self@.len() == 0),
    {
        self.len() == 0
    }

    /// The newest value.
    pub fn last(&self) -> (r: Option<&T>)
        requires
            self.wf(),
        ensures
            match r {
                Some(v) => self@.len() > 0 && *v == self@.last(),
                None => self@.len() == 0,
            },
    {
        if self.is_empty() {
            None
        } else if self.index == 0 {
            assert(self.data@[self.capacity - 1] == self@.last());
            Some(&self.data[self.capacity - 1])
        } else {
            assert(self.data@[self.index - 1] == self@.last());
            Some(&self.data[self.index - 1])
        }
    }
}

impl RollingWindow<Real> {
    /// The mean, where `sum` is the sum of the values and `quotient` that sum by their number: zero
    /// where there are none, or where the sum is not finite.
    pub open spec fn mean_of(len: nat, sum: Real, quotient: Real) -> Real {
        if len == 0 || !sum.is_finite() {
            Real { bits: 0 }
        } else {
            quotient
        }
    }

    /// The mean, where `sum` is the sum of the values and `quotient` that sum by their number.
    pub fn mean(&self, sum: Real, quotient: Real) -> (r: Real)
        requires
            self.wf(),
        ensures
            r == Self::mean_of(self@.len(), sum, quotient),
    {
        if self.is_empty() || !sum.finite() {
            Real { bits: 0 }
        } else {
            quotient
        }
    }

    /// The standard deviation, where `root` is the root of the variance: zero for less than two
    /// values, or where the variance is not finite or below zero.
    pub open spec fn deviation_of(len: nat, variance: Real, root: Real) -> Real {
        if len < 2 || !variance.is_finite() || variance.less(Real { bits: 0 }) {
            Real { bits: 0 }
        } else {
            root
        }
    }

    /// The standard deviation, where `root` is the root of the variance.
    pub fn std_dev(&self, variance: Real, root: Real) -> (r: Real)
        requires
            self.wf(),
        ensures
            r == Self::deviation_of(self@.len(), variance, root),
    {
        let zero = Real { bits: 0 };
        if self.len() < 2 || !variance.finite() || variance.lt(&zero) {
            zero
        } else {
            root
        }
    }
}

/// The mean is finite, as long as the quotient of a finite sum is.
pub proof fn law_mean_is_finite(len: nat, sum: Real, quotient: Real)
    requires
        sum.is_finite() && len > 0 ==> quotient.is_finite(),
    ensures
        RollingWindow::<Real>::mean_of(len, sum, quotient).is_finite(),
{
}

/// The standard deviation is never below zero, as long as a root is not.
pub proof fn law_deviation_is_not_negative(len: nat, variance: Real, root: Real)
    requires
        variance.is_finite() && !variance.less(Real { bits: 0 }) ==> (Real { bits: 0 }).less_eq(
            root,
        ),
    ensures
        (Real { bits: 0 }).less_eq(RollingWindow::<Real>::deviation_of(len, variance, root)),
{
}

/// The values in a window after a series of values.
pub open spec fn rolled_all<T>(capacity: nat, values: Seq<T>) -> Seq<T>
    decreases values.len(),
{
    if values.len() == 0 {
        Seq::empty()
    } else {
        rolled(rolled_all(capacity, values.drop_last()), capacity, values.last())
    }
}

/// A window holds the newest values, as many as it takes.
pub proof fn law_window_keeps_newest<T>(capacity: nat, values: Seq<T>)
    requires
        capacity > 0,
    ensures
        rolled_all(capacity, values) == (if values.len() <= capacity {
            values
        } else {
            values.skip(values.len() - capacity)
        }),
    decreases values.len(),
{
    if values.len() == 0 {
        assert(rolled_all(capacity, values) =~= values);
    } else {
        law_window_keeps_newest(capacity, values.drop_last());
        if values.len() <= capacity {
            assert(values.drop_last().push(values.last()) =~= values);
        } else if values.len() == capacity + 1 {
            assert(values.drop_last().skip(1).push(values.last()) =~= values.skip(1));
        } else {
            let front = values.drop_last();
            assert(front.skip(front.len() - capacity).skip(1).push(values.last())
                =~= values.skip(values.len() - capacity));
        }
    }
}

/// The features stand in the order in which they are listed, from the price to the confidence, and
/// each is called by its own name.
pub proof fn law_features_have_their_places_and_names()
    ensures
        FeatureIndex::MidPrice.place() == 0,
        FeatureIndex::SpreadBps.place() == 1,
        FeatureIndex::SpreadAbs.place() == 2,
        FeatureIndex::Rsi14.place() == 3,
        FeatureIndex::MacdLine.place() == 4,
        FeatureIndex::MacdSignal.place() == 5,
        FeatureIndex::MacdHistogram.place() == 6,
        FeatureIndex::Atr14.place() == 7,
        FeatureIndex::RollingStd.place() == 8,
        FeatureIndex::VolumeRatio.place() == 9,
        FeatureIndex::OrderFlowImbalance.place() == 10,
        FeatureIndex::Regime.place() == 11,
        FeatureIndex::RegimeStrength.place() == 12,
        FeatureIndex::Ema9.place() == 13,
        FeatureIndex::Ema21.place() == 14,
        FeatureIndex::Ema50.place() == 15,
        FeatureIndex::Confidence.place() == 16,
        FeatureIndex::MidPrice.name() == "mid_price"@,
        FeatureIndex::SpreadBps.name() == "spread_bps"@,
        FeatureIndex::SpreadAbs.name() == "spread_abs"@,
        FeatureIndex::Rsi14.name() == "rsi_14"@,
        FeatureIndex::MacdLine.name() == "macd_line"@,
        FeatureIndex::MacdSignal.name() == "macd_signal"@,
        FeatureIndex::MacdHistogram.name() == "macd_histogram"@,
        FeatureIndex::Atr14.name() == "atr_14"@,
        FeatureIndex::RollingStd.name() == "rolling_std"@,
        FeatureIndex::VolumeRatio.name() == "volume_ratio"@,
        FeatureIndex::OrderFlowImbalance.name() == "order_flow_imbalance"@,
        FeatureIndex::Regime.name() == "regime"@,
        FeatureIndex::RegimeStrength.name() == "regime_strength"@,
        FeatureIndex::Ema9.name() == "ema_9"@,
        FeatureIndex::Ema21.name() == "ema_21"@,
        FeatureIndex::Ema50.name() == "ema_50"@,
        FeatureIndex::Confidence.name() == "confidence"@,
{
}

/// The name of each feature is its own.
pub proof fn law_names_differ(a: FeatureIndex, b: FeatureIndex)
    ensures
        a.name() == b.name() ==> a == b,
{
    reveal_strlit("mid_price");
    reveal_strlit("spread_bps");
    reveal_strlit("spread_abs");
    reveal_strlit("rsi_14");
    reveal_strlit("macd_line");
    reveal_strlit("macd_signal");
    reveal_strlit("macd_histogram");
    reveal_strlit("atr_14");
    reveal_strlit("rolling_std");
    reveal_strlit("volume_ratio");
    reveal_strlit("order_flow_imbalance");
    reveal_strlit("regime");
    reveal_strlit("regime_strength");
    reveal_strlit("ema_9");
    reveal_strlit("ema_21");
    reveal_strlit("ema_50");
    reveal_strlit("confidence");
    let s = a.name();
    let t = b.name();
    assert(s == t ==> s.len() == t.len() && s[0] == t[0] && s[1] == t[1] && s[s.len() - 1]
        == t[t.len() - 1] && s[4] == t[4] && (s.len() > 7 ==> s[7] == t[7]));
}

/// A value that is set is the one that is read, until it is set again, and setting one feature
/// leaves the others as they are.
pub proof fn law_set_feature_is_read_back(a: FeatureIndex, b: FeatureIndex)
    ensures
        forall|v: &mut FeatureVector, w: &FeatureVector, x: Real32, y: Real32|
            #![trigger call_ensures(FeatureVector::set, (v, a, x), ()), call_ensures(
                FeatureVector::get,
                (w, b),
                y,
            )]
            call_ensures(FeatureVector::set, (v, a, x), ()) && *final(v) == *w && call_ensures(
                FeatureVector::get,
                (w, b),
                y,
            ) ==> y == (if a == b {
                x
            } else {
                v.values@[b.place()]
            }),
{
    law_places_differ(a, b);
}

/// A window that takes in a value ends with it and is never longer than its size; below that size
/// nothing is lost.
pub proof fn law_push_is_last<T>(s: Seq<T>, capacity: nat, v: T)
    requires
        capacity > 0,
        s.len() <= capacity,
    ensures
        rolled(s, capacity, v).len() <= capacity,
        rolled(s, capacity, v).last() == v,
        s.len() < capacity ==> rolled(s, capacity, v).drop_last() == s,
        s.len() == capacity ==> rolled(s, capacity, v).drop_last() == s.drop_first(),
{
    if s.len() < capacity {
        assert(rolled(s, capacity, v).drop_last() =~= s);
    } else {
        assert(rolled(s, capacity, v).drop_last() =~= s.drop_first());
    }
}

/// The mean is the quotient of a finite sum, and zero of nothing or of a sum that is not finite; the
/// deviation is the root of a finite variance that is not below zero, of two values at least.
pub proof fn law_mean_and_deviation_have_their_cases(
    len: nat,
    sum: Real,
    quotient: Real,
    variance: Real,
    root: Real,
)
    ensures
        len > 0 && sum.is_finite() ==> RollingWindow::<Real>::mean_of(len, sum, quotient)
            == quotient,
        len == 0 || !sum.is_finite() ==> RollingWindow::<Real>::mean_of(
            len,
            sum,
            quotient,
        ).bits == 0,
        len >= 2 && variance.is_finite() && variance.rank() >= 0
            ==> RollingWindow::<Real>::deviation_of(len, variance, root) == root,
        len < 2 || !variance.is_finite() || variance.rank() < 0
            ==> RollingWindow::<Real>::deviation_of(len, variance, root).bits == 0,
{
}

} // verus!
