//! How the features of a tick are put together.
//!
//! Sums, products and quotients come in from outside; bounds, special cases and the places of the
//! features are decided here.

use vstd::prelude::*;

use crate::features::{FeatureIndex, FeatureVector, RegimeLabel};
use crate::quantity::{Real, Real32};
use crate::symbol_registry::SymbolId;

verus! {

/// The bit pattern of 1 in 32 bits.
pub const ONE_BITS_32: u32 = 0x3f80_0000;

/// The bit pattern of 2 in 32 bits.
pub const TWO_BITS_32: u32 = 0x4000_0000;

/// The bit pattern of 500 in 32 bits, the largest spread that is believed.
pub const MAX_SPREAD_BITS_32: u32 = 0x43fa_0000;

/// A tick with the figures that go with it.
#[derive(Debug, Clone, Copy)]
pub struct NormalizedTick {
    pub symbol_id: SymbolId,
    pub timestamp_ns: u64,
    pub mid_price: Real,
    pub spread: Real,
    pub spread_bps: Real,
    pub bid: Real,
    pub ask: Real,
    pub bid_size: u64,
    pub ask_size: u64,
    pub volume: u64,
}

/// Compares the volume of a tick with the mean.
pub struct VolumeComputer;

impl VolumeComputer {
    /// The volume in relation to the mean: `ratio`, but one where the mean is not above zero.
    pub open spec fn ratio_of(mean: Real, ratio: Real32) -> Real32 {
        if mean.positive() {
            ratio
        } else {
            Real32 { bits: ONE_BITS_32 }
        }
    }

    /// The volume in relation to the mean: `ratio`, but one where the mean is not above zero.
    pub fn compute(mean: Real, ratio: Real32) -> (r: Real32)
        ensures
            r == Self::ratio_of(mean, ratio),
    {
        if mean.is_positive() {
            ratio
        } else {
            Real32 { bits: ONE_BITS_32 }
        }
    }
}

/// Compares both sides of the book.
pub struct MicrostructureComputer;

impl MicrostructureComputer {
    /// How far the bids outweigh the asks: `computed`, but zero for an empty book.
    pub open spec fn imbalance(bid_size: u64, ask_size: u64, computed: Real32) -> Real32 {
        if bid_size + ask_size == 0 {
            Real32 { bits: 0 }
        } else {
            computed
        }
    }

    /// How far the bids outweigh the asks: `computed`, but zero for an empty book.
    pub fn compute_order_flow_imbalance(tick: &NormalizedTick, computed: Real32) -> (r: Real32)
        ensures
            r == Self::imbalance(tick.bid_size, tick.ask_size, computed),
    {
        if tick.bid_size == 0 && tick.ask_size == 0 {
            Real32 { bits: 0 }
        } else {
            computed
        }
    }
}

/// The figures by which the behavior of the market is told.
#[derive(Debug, Clone, Copy, PartialEq, Eq, Structural)]
pub struct RegimeFigures {
    pub last_mid_price: Real,
    /// The range of prices in relation to the price.
    pub atr_ratio: Real,
    pub volatile_atr_threshold: Real,
    pub macd_histogram: Real32,
    pub trending_threshold: Real32,
    /// The strength of a volatile market.
    pub volatile_strength: Real32,
    /// What the strength of the trend leaves of one.
    pub ranging_strength: Real32,
}

impl RegimeFigures {
    /// The range of prices in relation to the price, which is zero without a price.
    pub open spec fn ratio(self) -> Real {
        if self.last_mid_price.positive() {
            self.atr_ratio
        } else {
            Real { bits: 0 }
        }
    }

    /// The behavior: the first figure above its threshold decides.
    pub open spec fn label(self) -> RegimeLabel {
        if self.volatile_atr_threshold.less(self.ratio()) {
            RegimeLabel::Volatile
        } else if self.trending_threshold.less(self.macd_histogram.absolute()) {
            RegimeLabel::Trending
        } else {
            RegimeLabel::Ranging
        }
    }

    /// How clear the behavior is, one at most.
    pub open spec fn strength(self) -> Real32 {
        let one = Real32 { bits: ONE_BITS_32 };
        match self.label() {
            RegimeLabel::Volatile => self.volatile_strength.smaller(one),
            RegimeLabel::Trending => self.macd_histogram.absolute().smaller(one),
            RegimeLabel::Ranging => self.ranging_strength.smaller(one),
        }
    }
}

/// Tells how a market behaves.
pub struct RegimeComputer;

impl RegimeComputer {
    /// The behavior of the market, and how clear it is.
    pub fn compute(f: &RegimeFigures) -> (r: (RegimeLabel, Real32))
        ensures
            r.0 == f.label(),
            r.1 == f.strength(),
    {
        let one = Real32 { bits: ONE_BITS_32 };
        let ratio = if f.last_mid_price.is_positive() {
            f.atr_ratio
        } else {
            Real { bits: 0 }
        };
        let trend = f.macd_histogram.abs();
        if f.volatile_atr_threshold.lt(&ratio) {
            (RegimeLabel::Volatile, f.volatile_strength.min(&one))
        } else if f.trending_threshold.lt(&trend) {
            (RegimeLabel::Trending, trend.min(&one))
        } else {
            (RegimeLabel::Ranging, f.ranging_strength.min(&one))
        }
    }
}

/// The pattern that stands for a label among the features.
pub open spec fn label_pattern(r: RegimeLabel) -> Real32 {
    match r {
        RegimeLabel::Ranging => Real32 { bits: 0 },
        RegimeLabel::Trending => Real32 { bits: ONE_BITS_32 },
        RegimeLabel::Volatile => Real32 { bits: TWO_BITS_32 },
    }
}

fn pattern_of(r: RegimeLabel) -> (v: Real32)
    ensures
        v == label_pattern(r),
{
    match r {
        RegimeLabel::Ranging => Real32 { bits: 0 },
        RegimeLabel::Trending => Real32 { bits: ONE_BITS_32 },
        RegimeLabel::Volatile => Real32 { bits: TWO_BITS_32 },
    }
}

/// The label that a feature stands for, by its whole part: zero and one have a label of their own,
/// and what is no number counts as zero.
pub open spec fn label_of(v: Real32) -> RegimeLabel {
    let one = Real32 { bits: ONE_BITS_32 };
    let two = Real32 { bits: TWO_BITS_32 };
    if v.is_nan() || v.absolute().less(one) {
        RegimeLabel::Ranging
    } else if !v.less(one) && v.less(two) {
        RegimeLabel::Trending
    } else {
        RegimeLabel::Volatile
    }
}

fn label_in(v: Real32) -> (r: RegimeLabel)
    ensures
        r == label_of(v),
{
    let one = Real32 { bits: ONE_BITS_32 };
    let two = Real32 { bits: TWO_BITS_32 };
    if v.nan() || v.abs().lt(&one) {
        RegimeLabel::Ranging
    } else if !v.lt(&one) && v.lt(&two) {
        RegimeLabel::Trending
    } else {
        RegimeLabel::Volatile
    }
}

/// The figures of a tick, before bounds and special cases.
#[derive(Debug, Clone, Copy, PartialEq, Eq, Structural)]
pub struct FeatureFigures {
    pub mid: Real32,
    pub spread_bps: Real32,
    pub spread_abs: Real32,
    pub rsi: Real32,
    pub macd_line: Real32,
    pub macd_signal: Real32,
    pub atr: Real32,
    pub std_dev: Real32,
    pub mean_volume: Real,
    pub volume_ratio: Real32,
    pub volume_ratio_clamp: Real32,
    pub imbalance: Real32,
    pub regime: RegimeFigures,
    pub ema_9: Real32,
    pub ema_21: Real32,
    pub ema_50: Real32,
}

/// A number that is cut to lie between zero and `upper`.
pub open spec fn clamped(v: Real32, upper: Real32) -> Real32 {
    v.smaller(upper).larger(Real32 { bits: 0 })
}

/// The value of a feature.
pub open spec fn feature(index: FeatureIndex, tick: NormalizedTick, f: FeatureFigures) -> Real32 {
    match index {
        FeatureIndex::MidPrice => f.mid,
        FeatureIndex::SpreadBps => clamped(f.spread_bps, Real32 { bits: MAX_SPREAD_BITS_32 }),
        FeatureIndex::SpreadAbs => f.spread_abs,
        FeatureIndex::Rsi14 => f.rsi,
        FeatureIndex::MacdLine => f.macd_line,
        FeatureIndex::MacdSignal => f.macd_signal,
        FeatureIndex::MacdHistogram => f.regime.macd_histogram,
        FeatureIndex::Atr14 => f.atr,
        FeatureIndex::RollingStd => f.std_dev,
        FeatureIndex::VolumeRatio => clamped(
            VolumeComputer::ratio_of(f.mean_volume, f.volume_ratio),
            f.volume_ratio_clamp,
        ),
        FeatureIndex::OrderFlowImbalance => MicrostructureComputer::imbalance(
            tick.bid_size,
            tick.ask_size,
            f.imbalance,
        ),
        FeatureIndex::Regime => label_pattern(f.regime.label()),
        FeatureIndex::RegimeStrength => f.regime.strength(),
        FeatureIndex::Ema9 => f.ema_9,
        FeatureIndex::Ema21 => f.ema_21,
        FeatureIndex::Ema50 => f.ema_50,
        FeatureIndex::Confidence => Real32 { bits: 0 },
    }
}

/// What is shown of the features of a tick.
#[derive(Debug, Clone, Copy, PartialEq, Eq, Structural)]
pub struct FeatureSnapshot {
    pub symbol_id: SymbolId,
    pub timestamp_ns: u64,
    pub mid_price: Real32,
    pub spread_bps: Real32,
    pub rsi_14: Real32,
    pub macd_line: Real32,
    pub macd_signal: Real32,
    pub macd_histogram: Real32,
    pub atr_14: Real32,
    pub ema_9: Real32,
    pub ema_21: Real32,
    pub ema_50: Real32,
    pub volume_ratio: Real32,
    pub order_flow_imbalance: Real32,
    pub regime: RegimeLabel,
    pub regime_strength: Real32,
}

/// Puts features together.
pub struct FeatureEngine;

impl FeatureEngine {
    /// The features of a tick.
    pub fn compute(tick: &NormalizedTick, f: &FeatureFigures) -> (v: FeatureVector)
        ensures
            v.symbol_id == tick.symbol_id,
            v.timestamp_ns == tick.timestamp_ns,
            v.feature_schema_version == crate::features::FEATURE_SCHEMA_VERSION,
            forall|index: FeatureIndex|
                v.values@[#[trigger] index.place()] == feature(index, *tick, *f),
            v.values@[FeatureIndex::MidPrice.place()] == f.mid,
            v.values@[FeatureIndex::SpreadAbs.place()] == f.spread_abs,
            v.values@[FeatureIndex::Rsi14.place()] == f.rsi,
            v.values@[FeatureIndex::MacdLine.place()] == f.macd_line,
            v.values@[FeatureIndex::MacdSignal.place()] == f.macd_signal,
            v.values@[FeatureIndex::MacdHistogram.place()] == f.regime.macd_histogram,
            v.values@[FeatureIndex::Atr14.place()] == f.atr,
            v.values@[FeatureIndex::RollingStd.place()] == f.std_dev,
            v.values@[FeatureIndex::Ema9.place()] == f.ema_9,
            v.values@[FeatureIndex::Ema21.place()] == f.ema_21,
            v.values@[FeatureIndex::Ema50.place()] == f.ema_50,
    {
        let mut v = FeatureVector::new(tick.symbol_id, tick.timestamp_ns);
        let zero = Real32 { bits: 0 };
        let max_spread = Real32 { bits: MAX_SPREAD_BITS_32 };
        v.set(FeatureIndex::MidPrice, f.mid);
        v.set(FeatureIndex::SpreadBps, f.spread_bps.min(&max_spread).max(&zero));
        v.set(FeatureIndex::SpreadAbs, f.spread_abs);
        v.set(FeatureIndex::Rsi14, f.rsi);
        v.set(FeatureIndex::MacdLine, f.macd_line);
        v.set(FeatureIndex::MacdSignal, f.macd_signal);
        v.set(FeatureIndex::MacdHistogram, f.regime.macd_histogram);
        v.set(FeatureIndex::Atr14, f.atr);
        v.set(FeatureIndex::RollingStd, f.std_dev);
        let ratio = VolumeComputer::compute(f.mean_volume, f.volume_ratio);
        v.set(FeatureIndex::VolumeRatio, ratio.min(&f.volume_ratio_clamp).max(&zero));
        v.set(
            FeatureIndex::OrderFlowImbalance,
            MicrostructureComputer::compute_order_flow_imbalance(tick, f.imbalance),
        );
        let (regime, strength) = RegimeComputer::compute(&f.regime);
        v.set(FeatureIndex::Regime, pattern_of(regime));
        v.set(FeatureIndex::RegimeStrength, strength);
        v.set(FeatureIndex::Ema9, f.ema_9);
        v.set(FeatureIndex::Ema21, f.ema_21);
        v.set(FeatureIndex::Ema50, f.ema_50);
        v
    }

    /// What is shown of the features of a tick.
    pub fn compute_snapshot(v: &FeatureVector) -> (s: FeatureSnapshot)
        ensures
            s.symbol_id == v.symbol_id,
            s.timestamp_ns == v.timestamp_ns,
            s.mid_price == v.values@[FeatureIndex::MidPrice.place()],
            s.spread_bps == v.values@[FeatureIndex::SpreadBps.place()],
            s.rsi_14 == v.values@[FeatureIndex::Rsi14.place()],
            s.macd_line == v.values@[FeatureIndex::MacdLine.place()],
            s.macd_signal == v.values@[FeatureIndex::MacdSignal.place()],
            s.macd_histogram == v.values@[FeatureIndex::MacdHistogram.place()],
            s.atr_14 == v.values@[FeatureIndex::Atr14.place()],
            s.ema_9 == v.values@[FeatureIndex::Ema9.place()],
            s.ema_21 == v.values@[FeatureIndex::Ema21.place()],
            s.ema_50 == v.values@[FeatureIndex::Ema50.place()],
            s.volume_ratio == v.values@[FeatureIndex::VolumeRatio.place()],
            s.order_flow_imbalance == v.values@[FeatureIndex::OrderFlowImbalance.place()],
            s.regime == label_of(v.values@[FeatureIndex::Regime.place()]),
            s.regime_strength == v.values@[FeatureIndex::RegimeStrength.place()],
    {
        FeatureSnapshot {
            symbol_id: v.symbol_id,
            timestamp_ns: v.timestamp_ns,
            mid_price: v.get(FeatureIndex::MidPrice),
            spread_bps: v.get(FeatureIndex::SpreadBps),
            rsi_14: v.get(FeatureIndex::Rsi14),
            macd_line: v.get(FeatureIndex::MacdLine),
            macd_signal: v.get(FeatureIndex::MacdSignal),
            macd_histogram: v.get(FeatureIndex::MacdHistogram),
            atr_14: v.get(FeatureIndex::Atr14),
            ema_9: v.get(FeatureIndex::Ema9),
            ema_21: v.get(FeatureIndex::Ema21),
            ema_50: v.get(FeatureIndex::Ema50),
            volume_ratio: v.get(FeatureIndex::VolumeRatio),
            order_flow_imbalance: v.get(FeatureIndex::OrderFlowImbalance),
            regime: label_in(v.get(FeatureIndex::Regime)),
            regime_strength: v.get(FeatureIndex::RegimeStrength),
        }
    }
}

/// A label reads back from the feature that stands for it.
pub proof fn law_label_reads_back(r: RegimeLabel)
    ensures
        label_of(label_pattern(r)) == r,
{
}

/// The spread among the features lies between 0 and 500, whatever came in.
pub proof fn law_spread_is_bounded(tick: NormalizedTick, f: FeatureFigures)
    ensures
        ({
            let v = feature(FeatureIndex::SpreadBps, tick, f);
            &&& !v.is_nan()
            &&& 0 <= v.rank() <= (Real32 { bits: MAX_SPREAD_BITS_32 }).rank()
        }),
{
}

/// The strength of a regime is never above one.
pub proof fn law_strength_is_bounded(f: RegimeFigures)
    ensures
        !f.strength().is_nan(),
        f.strength().rank() <= (Real32 { bits: ONE_BITS_32 }).rank(),
{
}

/// Each figure of a tick that is passed on stands at its own place among the features: the distance
/// of the fast and the slow average at the fifth, the average of that distance at the sixth, what
/// lies between the two at the seventh, and so on. The last place, for the confidence, stays zero.
pub proof fn law_figures_stand_at_their_places(
    tick: NormalizedTick,
    f: FeatureFigures,
    v: FeatureVector,
)
    requires
        call_ensures(FeatureEngine::compute, (&tick, &f), v),
    ensures
        v.symbol_id == tick.symbol_id,
        v.timestamp_ns == tick.timestamp_ns,
        v.values@[0] == f.mid,
        v.values@[2] == f.spread_abs,
        v.values@[3] == f.rsi,
        v.values@[4] == f.macd_line,
        v.values@[5] == f.macd_signal,
        v.values@[6] == f.regime.macd_histogram,
        v.values@[7] == f.atr,
        v.values@[8] == f.std_dev,
        v.values@[13] == f.ema_9,
        v.values@[14] == f.ema_21,
        v.values@[15] == f.ema_50,
        v.values@[16].bits == 0,
{
    assert(v.values@[FeatureIndex::Confidence.place()] == feature(
        FeatureIndex::Confidence,
        tick,
        f,
    ));
}

/// The spread at the second place is the one that came in where it lies between 0 and 500; a lower
/// one counts as zero and a higher one, or what is no number, as 500.
pub proof fn law_spread_is_cut(tick: NormalizedTick, f: FeatureFigures, v: FeatureVector)
    requires
        call_ensures(FeatureEngine::compute, (&tick, &f), v),
    ensures
        !f.spread_bps.is_nan() && 0 < f.spread_bps.rank() <= 0x43fa_0000 ==> v.values@[1]
            == f.spread_bps,
        !f.spread_bps.is_nan() && f.spread_bps.rank() <= 0 ==> v.values@[1].rank() == 0,
        f.spread_bps.is_nan() || f.spread_bps.rank() > 0x43fa_0000 ==> v.values@[1].bits
            == 0x43fa_0000,
{
    assert(v.values@[FeatureIndex::SpreadBps.place()] == feature(
        FeatureIndex::SpreadBps,
        tick,
        f,
    ));
}

/// The volume at the tenth place is in relation to the mean, one where there is no mean above zero,
/// and cut to lie between zero and the bound.
pub proof fn law_volume_is_relative(tick: NormalizedTick, f: FeatureFigures, v: FeatureVector)
    requires
        call_ensures(FeatureEngine::compute, (&tick, &f), v),
        !f.volume_ratio_clamp.is_nan(),
        f.volume_ratio_clamp.rank() > 0,
    ensures
        ({
            let ratio = if !f.mean_volume.is_nan() && f.mean_volume.rank() > 0 {
                f.volume_ratio
            } else {
                Real32 { bits: 0x3f80_0000 }
            };
            &&& !ratio.is_nan() && 0 < ratio.rank() <= f.volume_ratio_clamp.rank()
                ==> v.values@[9] == ratio
            &&& !ratio.is_nan() && ratio.rank() <= 0 ==> v.values@[9].rank() == 0
            &&& ratio.is_nan() || ratio.rank() > f.volume_ratio_clamp.rank() ==> v.values@[9]
                == f.volume_ratio_clamp
        }),
{
    assert(v.values@[FeatureIndex::VolumeRatio.place()] == feature(
        FeatureIndex::VolumeRatio,
        tick,
        f,
    ));
}

/// How far the bids outweigh the asks stands at the eleventh place, and is zero just for an empty
/// book or where it came in as zero.
pub proof fn law_empty_book_has_no_imbalance(
    tick: NormalizedTick,
    f: FeatureFigures,
    v: FeatureVector,
)
    requires
        call_ensures(FeatureEngine::compute, (&tick, &f), v),
    ensures
        tick.bid_size == 0 && tick.ask_size == 0 ==> v.values@[10].bits == 0,
        tick.bid_size > 0 || tick.ask_size > 0 ==> v.values@[10] == f.imbalance,
{
    assert(v.values@[FeatureIndex::OrderFlowImbalance.place()] == feature(
        FeatureIndex::OrderFlowImbalance,
        tick,
        f,
    ));
}

/// The behavior of the market stands at the twelfth place: two for a volatile one, whose range in
/// relation to the price is above its threshold; else one for a trend above its threshold, upwards
/// or downwards; else zero. How clear it is stands next to it, and is never above one.
pub proof fn law_regime_is_told_by_the_thresholds(
    tick: NormalizedTick,
    f: FeatureFigures,
    v: FeatureVector,
)
    requires
        call_ensures(FeatureEngine::compute, (&tick, &f), v),
        !f.regime.last_mid_price.is_nan(),
        !f.regime.atr_ratio.is_nan(),
        !f.regime.volatile_atr_threshold.is_nan(),
        !f.regime.macd_histogram.is_nan(),
        !f.regime.trending_threshold.is_nan(),
        !f.regime.volatile_strength.is_nan(),
        !f.regime.ranging_strength.is_nan(),
    ensures
        ({
            let g = f.regime;
            let range = if g.last_mid_price.rank() > 0 {
                g.atr_ratio.rank()
            } else {
                0
            };
            let trend = if g.macd_histogram.rank() >= 0 {
                g.macd_histogram.rank()
            } else {
                -g.macd_histogram.rank()
            };
            let one: int = 0x3f80_0000;
            let volatile = range > g.volatile_atr_threshold.rank();
            let trending = !volatile && trend > g.trending_threshold.rank();
            let clear = if volatile {
                g.volatile_strength.rank()
            } else if trending {
                trend
            } else {
                g.ranging_strength.rank()
            };
            &&& volatile ==> v.values@[11].bits == 0x4000_0000
            &&& trending ==> v.values@[11].bits == 0x3f80_0000
            &&& !volatile && !trending ==> v.values@[11].bits == 0
            &&& v.values@[12].rank() == (if clear <= one {
                clear
            } else {
                one
            })
        }),
{
    assert(v.values@[FeatureIndex::Regime.place()] == feature(FeatureIndex::Regime, tick, f));
    assert(v.values@[FeatureIndex::RegimeStrength.place()] == feature(
        FeatureIndex::RegimeStrength,
        tick,
        f,
    ));
}

/// What is shown of a tick are its figures, each under its own name, and the behavior of the market
/// as it was told.
pub proof fn law_snapshot_shows_the_figures(
    tick: NormalizedTick,
    f: FeatureFigures,
    v: FeatureVector,
    s: FeatureSnapshot,
)
    requires
        call_ensures(FeatureEngine::compute, (&tick, &f), v),
        call_ensures(FeatureEngine::compute_snapshot, (&v,), s),
    ensures
        s.symbol_id == tick.symbol_id,
        s.timestamp_ns == tick.timestamp_ns,
        s.mid_price == f.mid,
        s.spread_bps == v.values@[1],
        s.rsi_14 == f.rsi,
        s.macd_line == f.macd_line,
        s.macd_signal == f.macd_signal,
        s.macd_histogram == f.regime.macd_histogram,
        s.atr_14 == f.atr,
        s.ema_9 == f.ema_9,
        s.ema_21 == f.ema_21,
        s.ema_50 == f.ema_50,
        s.volume_ratio == v.values@[9],
        s.order_flow_imbalance == v.values@[10],
        s.regime is Volatile <==> v.values@[11].bits == 0x4000_0000,
        s.regime is Trending <==> v.values@[11].bits == 0x3f80_0000,
        s.regime is Ranging <==> v.values@[11].bits == 0,
        s.regime_strength == v.values@[12],
{
    assert(v.values@[FeatureIndex::Regime.place()] == feature(FeatureIndex::Regime, tick, f));
    law_label_reads_back(f.regime.label());
}

} // verus!
