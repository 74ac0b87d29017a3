//! The indicators that are kept up from tick to tick.
//!
//! Sums, products and quotients of prices come in from outside; which figure goes where, and when,
//! is decided here.

use vstd::prelude::*;

use crate::features::RollingWindow;
use crate::quantity::{Real, HUNDRED_BITS};

verus! {

/// A moving average that weighs new prices more.
#[derive(Debug, Clone, Copy, PartialEq, Eq, Structural)]
pub struct EMAState {
    pub value: Real,
    pub multiplier: Real,
    pub initialized: bool,
}

impl EMAState {
    /// An average that has seen no price.
    pub fn new(multiplier: Real) -> (e: Self)
        ensures
            e == (EMAState { value: (Real { bits: 0 }), multiplier, initialized: false }),
    {
        EMAState { value: Real { bits: 0 }, multiplier, initialized: false }
    }

    /// After a price: `moved` is the average moved towards the price.
    pub open spec fn updated(self, price: Real, moved: Real) -> EMAState {
        EMAState {
            value: if self.initialized {
                moved
            } else {
                price
            },
            initialized: true,
            ..self
        }
    }

    /// Takes in a price. The first price is the average.
    pub fn update(&mut self, price: Real, moved: Real) -> (value: Real)
        ensures
            *final(self) == old(self).updated(price, moved),
            value == final(self).value,
    {
        if !self.initialized {
            self.value = price;
            self.initialized = true;
        } else {
            self.value = moved;
        }
        self.value
    }
}

/// The gains and losses of the last price changes.
pub struct RSIState {
    pub gains: RollingWindow<Real>,
    pub losses: RollingWindow<Real>,
    pub last_price: Real,
}

/// The gain and the loss in a change of the price.
pub open spec fn gain_and_loss(change: Real) -> (Real, Real) {
    let zero = Real { bits: 0 };
    if zero.less(change) {
        (change, zero)
    } else {
        (zero, change.opposite())
    }
}

impl RSIState {
    pub open spec fn wf(&self) -> bool {
        &&& self.gains.wf()
        &&& self.losses.wf()
        &&& self.gains.size() > 0
        &&& self.losses.size() > 0
    }

    pub fn new(period: usize) -> (s: Self)
        requires
            period > 0,
        ensures
            s.wf(),
            s.gains@ == Seq::<Real>::empty(),
            s.losses@ == Seq::<Real>::empty(),
            s.gains.size() == period,
            s.losses.size() == period,
            s.last_price == (Real { bits: 0 }),
    {
        RSIState {
            gains: RollingWindow::new(period),
            losses: RollingWindow::new(period),
            last_price: Real { bits: 0 },
        }
    }

    /// Takes in a price: `change` is its distance from the last one. The first price changes
    /// nothing.
    pub fn record(&mut self, price: Real, change: Real)
        requires
            old(self).wf(),
        ensures
            final(self).wf(),
            final(self).gains.size() == old(self).gains.size(),
            final(self).losses.size() == old(self).losses.size(),
            final(self).last_price == price,
            ({
                let (gain, loss) = gain_and_loss(change);
                if old(self).last_price.positive() {
                    &&& final(self).gains@ == crate::features::rolled(
                        old(self).gains@,
                        old(self).gains.size() as nat,
                        gain,
                    )
                    &&& final(self).losses@ == crate::features::rolled(
                        old(self).losses@,
                        old(self).losses.size() as nat,
                        loss,
                    )
                } else {
                    &&& final(self).gains == old(self).gains
                    &&& final(self).losses == old(self).losses
                }
            }),
    {
        let zero = Real { bits: 0 };
        if self.last_price.is_positive() {
            if zero.lt(&change) {
                self.gains.push(change);
                self.losses.push(zero);
            } else {
                self.gains.push(zero);
                self.losses.push(change.neg());
            }
        }
        self.last_price = price;
    }

    /// The strength: `computed` from both averages, or a hundred where there were no losses.
    pub fn strength(avg_loss: Real, computed: Real) -> (r: Real)
        ensures
            r == (if !avg_loss.is_nan() && avg_loss.rank() == 0 {
                Real { bits: HUNDRED_BITS }
            } else {
                computed
            }),
    {
        let zero = Real { bits: 0 };
        if avg_loss.le(&zero) && zero.le(&avg_loss) {
            Real { bits: HUNDRED_BITS }
        } else {
            computed
        }
    }
}

/// The last ranges of prices.
pub struct ATRState {
    pub tr_values: RollingWindow<Real>,
    pub last_high: Real,
    pub last_low: Real,
    pub last_close: Real,
}

impl ATRState {
    pub open spec fn wf(&self) -> bool {
        self.tr_values.wf() && self.tr_values.size() > 0
    }

    pub fn new(period: usize) -> (s: Self)
        requires
            period > 0,
        ensures
            s.wf(),
            s.tr_values@ == Seq::<Real>::empty(),
            s.tr_values.size() == period,
            s.last_high == (Real { bits: 0 }),
            s.last_low == (Real { bits: 0 }),
            s.last_close == (Real { bits: 0 }),
    {
        let zero = Real { bits: 0 };
        ATRState {
            tr_values: RollingWindow::new(period),
            last_high: zero,
            last_low: zero,
            last_close: zero,
        }
    }

    /// Takes in the prices of a span: `range` is the range that they reach, the last close
    /// included. The first prices have none.
    pub fn record(&mut self, high: Real, low: Real, close: Real, range: Real)
        requires
            old(self).wf(),
        ensures
            final(self).wf(),
            final(self).tr_values.size() == old(self).tr_values.size(),
            final(self).tr_values@ == (if old(self).last_close.positive() {
                crate::features::rolled(
                    old(self).tr_values@,
                    old(self).tr_values.size() as nat,
                    range,
                )
            } else {
                old(self).tr_values@
            }),
            !old(self).last_close.positive() ==> final(self).tr_values == old(self).tr_values,
            final(self).last_high == high,
            final(self).last_low == low,
            final(self).last_close == close,
    {
        if self.last_close.is_positive() {
            self.tr_values.push(range);
        }
        self.last_high = high;
        self.last_low = low;
        self.last_close = close;
    }
}

/// The figures of a tick in relation to what came before it.
#[derive(Debug, Clone, Copy, PartialEq, Eq, Structural)]
pub struct WindowFigures {
    /// The averages moved towards the price.
    pub ema_9: Real,
    pub ema_21: Real,
    pub ema_50: Real,
    /// The distance of the two shorter averages after the tick.
    pub macd_line: Real,
    /// The signal moved towards that distance.
    pub macd_signal: Real,
    /// The distance from the last price.
    pub change: Real,
    pub high: Real,
    pub low: Real,
    /// The range that the prices reach, the last close included.
    pub range: Real,
    /// The distance from the last price in relation to it.
    pub gain: Real,
}

/// The sizes of the windows of a symbol, and the multipliers of its averages.
#[derive(Debug, Clone, Copy, PartialEq, Eq, Structural)]
pub struct WindowSizes {
    pub rsi_period: usize,
    pub atr_period: usize,
    pub price_window: usize,
    pub volume_window: usize,
    pub spread_window: usize,
    pub return_1_window: usize,
    pub return_5_window: usize,
    pub return_20_window: usize,
    pub ema_9: Real,
    pub ema_21: Real,
    pub ema_50: Real,
    pub macd_signal: Real,
}

impl WindowSizes {
    /// No window is of size zero.
    pub open spec fn nonzero(self) -> bool {
        &&& self.rsi_period > 0
        &&& self.atr_period > 0
        &&& self.price_window > 0
        &&& self.volume_window > 0
        &&& self.spread_window > 0
        &&& self.return_1_window > 0
        &&& self.return_5_window > 0
        &&& self.return_20_window > 0
    }
}

/// All windows and indicators of a symbol.
pub struct WindowManager {
    pub symbol: String,
    pub price_window: RollingWindow<Real>,
    pub volume_window: RollingWindow<Real>,
    pub spread_window: RollingWindow<Real>,
    pub ema_9: EMAState,
    pub ema_21: EMAState,
    pub ema_50: EMAState,
    pub macd_signal_ema: EMAState,
    pub rsi_14: RSIState,
    pub atr_14: ATRState,
    pub return_1: RollingWindow<Real>,
    pub return_5: RollingWindow<Real>,
    pub return_20: RollingWindow<Real>,
    pub last_mid_price: Real,
}

/// Whether a window has taken in a value.
pub open spec fn took(before: RollingWindow<Real>, after: RollingWindow<Real>, v: Real) -> bool {
    &&& after.size() == before.size()
    &&& after@ == crate::features::rolled(before@, before.size() as nat, v)
}

/// Whether a window is in order and takes values.
pub open spec fn ready(w: RollingWindow<Real>) -> bool {
    w.wf() && w.size() > 0
}

impl WindowManager {
    pub open spec fn wf(&self) -> bool {
        &&& ready(self.price_window)
        &&& ready(self.volume_window)
        &&& ready(self.spread_window)
        &&& self.rsi_14.wf()
        &&& self.atr_14.wf()
        &&& ready(self.return_1)
        &&& ready(self.return_5)
        &&& ready(self.return_20)
    }

    /// Empty windows.
    pub fn new(symbol: &str, sizes: WindowSizes) -> (w: Self)
        requires
            sizes.nonzero(),
        ensures
            w.wf(),
            w.symbol@ == symbol@,
            w.price_window.size() == sizes.price_window,
            w.volume_window.size() == sizes.volume_window,
            w.spread_window.size() == sizes.spread_window,
            w.rsi_14.gains.size() == sizes.rsi_period,
            w.rsi_14.losses.size() == sizes.rsi_period,
            w.rsi_14.gains@.len() == 0,
            w.rsi_14.losses@.len() == 0,
            w.rsi_14.last_price == (Real { bits: 0 }),
            w.atr_14.tr_values.size() == sizes.atr_period,
            w.atr_14.tr_values@.len() == 0,
            w.atr_14.last_high == (Real { bits: 0 }),
            w.atr_14.last_low == (Real { bits: 0 }),
            w.atr_14.last_close == (Real { bits: 0 }),
            w.return_1.size() == sizes.return_1_window,
            w.return_5.size() == sizes.return_5_window,
            w.return_20.size() == sizes.return_20_window,
            w.price_window@.len() == 0,
            w.volume_window@.len() == 0,
            w.spread_window@.len() == 0,
            w.return_1@.len() == 0,
            w.return_5@.len() == 0,
            w.return_20@.len() == 0,
            w.ema_9 == (EMAState {
                value: (Real { bits: 0 }),
                multiplier: sizes.ema_9,
                initialized: false,
            }),
            w.ema_21 == (EMAState { multiplier: sizes.ema_21, ..w.ema_9 }),
            w.ema_50 == (EMAState { multiplier: sizes.ema_50, ..w.ema_9 }),
            w.macd_signal_ema == (EMAState { multiplier: sizes.macd_signal, ..w.ema_9 }),
            w.last_mid_price == (Real { bits: 0 }),
    {
        WindowManager {
            symbol: symbol.to_owned(),
            price_window: RollingWindow::new(sizes.price_window),
            volume_window: RollingWindow::new(sizes.volume_window),
            spread_window: RollingWindow::new(sizes.spread_window),
            ema_9: EMAState::new(sizes.ema_9),
            ema_21: EMAState::new(sizes.ema_21),
            ema_50: EMAState::new(sizes.ema_50),
            macd_signal_ema: EMAState::new(sizes.macd_signal),
            rsi_14: RSIState::new(sizes.rsi_period),
            atr_14: ATRState::new(sizes.atr_period),
            return_1: RollingWindow::new(sizes.return_1_window),
            return_5: RollingWindow::new(sizes.return_5_window),
            return_20: RollingWindow::new(sizes.return_20_window),
            last_mid_price: Real { bits: 0 },
        }
    }

    /// Takes in a tick. The first price has no return.
    pub fn update(&mut self, mid_price: Real, volume: Real, spread: Real, f: WindowFigures)
        requires
            old(self).wf(),
        ensures
            final(self).wf(),
            final(self).symbol == old(self).symbol,
            took(old(self).price_window, final(self).price_window, mid_price),
            took(old(self).volume_window, final(self).volume_window, volume),
            took(old(self).spread_window, final(self).spread_window, spread),
            final(self).ema_9 == old(self).ema_9.updated(mid_price, f.ema_9),
            final(self).ema_21 == old(self).ema_21.updated(mid_price, f.ema_21),
            final(self).ema_50 == old(self).ema_50.updated(mid_price, f.ema_50),
            final(self).macd_signal_ema == old(self).macd_signal_ema.updated(
                f.macd_line,
                f.macd_signal,
            ),
            final(self).rsi_14.last_price == mid_price,
            old(self).rsi_14.last_price.positive() ==> {
                &&& took(
                    old(self).rsi_14.gains,
                    final(self).rsi_14.gains,
                    gain_and_loss(f.change).0,
                )
                &&& took(
                    old(self).rsi_14.losses,
                    final(self).rsi_14.losses,
                    gain_and_loss(f.change).1,
                )
            },
            !old(self).rsi_14.last_price.positive() ==> final(self).rsi_14.gains
                == old(self).rsi_14.gains && final(self).rsi_14.losses == old(self).rsi_14.losses,
            old(self).atr_14.last_close.positive() ==> took(
                old(self).atr_14.tr_values,
                final(self).atr_14.tr_values,
                f.range,
            ),
            !old(self).atr_14.last_close.positive() ==> final(self).atr_14.tr_values
                == old(self).atr_14.tr_values,
            final(self).atr_14.last_high == f.high,
            final(self).atr_14.last_low == f.low,
            final(self).atr_14.last_close == mid_price,
            old(self).last_mid_price.positive() ==> {
                &&& took(old(self).return_1, final(self).return_1, f.gain)
                &&& took(old(self).return_5, final(self).return_5, f.gain)
                &&& took(old(self).return_20, final(self).return_20, f.gain)
            },
            !old(self).last_mid_price.positive() ==> {
                &&& final(self).return_1 == old(self).return_1
                &&& final(self).return_5 == old(self).return_5
                &&& final(self).return_20 == old(self).return_20
            },
            final(self).last_mid_price == mid_price,
    {
        self.price_window.push(mid_price);
        self.volume_window.push(volume);
        self.spread_window.push(spread);
        self.ema_9.update(mid_price, f.ema_9);
        self.ema_21.update(mid_price, f.ema_21);
        self.ema_50.update(mid_price, f.ema_50);
        self.macd_signal_ema.update(f.macd_line, f.macd_signal);
        self.rsi_14.record(mid_price, f.change);
        self.atr_14.record(f.high, f.low, mid_price, f.range);
        if self.last_mid_price.is_positive() {
            self.return_1.push(f.gain);
            self.return_5.push(f.gain);
            self.return_20.push(f.gain);
        }
        self.last_mid_price = mid_price;
    }
}

/// A gain has no loss and a loss has no gain, and neither is below zero.
pub proof fn law_gain_or_loss(change: Real)
    requires
        !change.is_nan(),
    ensures
        ({
            let zero = Real { bits: 0 };
            let (gain, loss) = gain_and_loss(change);
            &&& gain == zero || loss == zero
            &&& zero.less_eq(gain)
            &&& zero.less_eq(loss)
        }),
{
}

/// A change upwards is a gain of its size and no loss; a change downwards is a loss of its size and
/// no gain.
pub proof fn law_change_is_gain_or_loss_of_its_size(change: Real)
    requires
        !change.is_nan(),
    ensures
        change.rank() > 0 ==> gain_and_loss(change).0 == change && gain_and_loss(change).1.rank()
            == 0,
        change.rank() <= 0 ==> gain_and_loss(change).0.rank() == 0 && gain_and_loss(change).1.rank()
            == -change.rank(),
{
}

/// The first price is the average, and every later one moves it to the value that came in; the
/// multiplier never changes.
pub proof fn law_first_price_is_the_average()
    ensures
        forall|e: &mut EMAState, price: Real, moved: Real, value: Real|
            #![trigger call_ensures(EMAState::update, (e, price, moved), value)]
            call_ensures(EMAState::update, (e, price, moved), value) ==> {
                &&& !e.initialized ==> value == price
                &&& e.initialized ==> value == moved
                &&& final(e).value == value
                &&& final(e).initialized
                &&& final(e).multiplier == e.multiplier
            },
        forall|multiplier: Real, e: EMAState|
            call_ensures(EMAState::new, (multiplier,), e) ==> !e.initialized && e.value.bits == 0
                && e.multiplier == multiplier,
{
}

/// What a tick leaves in the windows of its symbol: the newest price, volume and spread are its own,
/// and each average moved to its own figure. A first price has neither gain nor loss nor range nor
/// return.
pub proof fn law_tick_enters_its_windows()
    ensures
        forall|w: &mut WindowManager, mid: Real, volume: Real, spread: Real, f: WindowFigures|
            #![trigger call_ensures(WindowManager::update, (w, mid, volume, spread, f), ())]
            call_ensures(WindowManager::update, (w, mid, volume, spread, f), ()) && w.wf() ==> {
                &&& final(w).price_window@.len() > 0 && final(w).price_window@.last() == mid
                &&& final(w).volume_window@.len() > 0 && final(w).volume_window@.last() == volume
                &&& final(w).spread_window@.len() > 0 && final(w).spread_window@.last() == spread
                &&& final(w).last_mid_price == mid
                &&& final(w).rsi_14.last_price == mid
                &&& final(w).atr_14.last_close == mid
                &&& final(w).atr_14.last_high == f.high
                &&& final(w).atr_14.last_low == f.low
                &&& w.ema_9.initialized ==> final(w).ema_9.value == f.ema_9
                &&& w.ema_21.initialized ==> final(w).ema_21.value == f.ema_21
                &&& w.ema_50.initialized ==> final(w).ema_50.value == f.ema_50
                &&& w.macd_signal_ema.initialized ==> final(w).macd_signal_ema.value
                    == f.macd_signal
                &&& !w.ema_9.initialized ==> final(w).ema_9.value == mid
                &&& !w.ema_21.initialized ==> final(w).ema_21.value == mid
                &&& !w.ema_50.initialized ==> final(w).ema_50.value == mid
                &&& !w.macd_signal_ema.initialized ==> final(w).macd_signal_ema.value
                    == f.macd_line
                &&& !w.last_mid_price.is_nan() && w.last_mid_price.rank() > 0
                    ==> final(w).return_1@.last() == f.gain && final(w).return_5@.last() == f.gain
                    && final(w).return_20@.last() == f.gain
                &&& w.last_mid_price.is_nan() || w.last_mid_price.rank() <= 0 ==> final(w).return_1@
                    == w.return_1@ && final(w).return_5@ == w.return_5@ && final(w).return_20@
                    == w.return_20@
                &&& !w.rsi_14.last_price.is_nan() && w.rsi_14.last_price.rank() > 0
                    && !f.change.is_nan() && f.change.rank() > 0 ==> final(w).rsi_14.gains@.last()
                    == f.change && final(w).rsi_14.losses@.last().rank() == 0
                &&& !w.rsi_14.last_price.is_nan() && w.rsi_14.last_price.rank() > 0
                    && !f.change.is_nan() && f.change.rank() <= 0
                    ==> final(w).rsi_14.losses@.last().rank() == -f.change.rank()
                    && final(w).rsi_14.gains@.last().rank() == 0
                &&& w.rsi_14.last_price.is_nan() || w.rsi_14.last_price.rank() <= 0
                    ==> final(w).rsi_14.gains@ == w.rsi_14.gains@ && final(w).rsi_14.losses@
                    == w.rsi_14.losses@
                &&& !w.atr_14.last_close.is_nan() && w.atr_14.last_close.rank() > 0
                    ==> final(w).atr_14.tr_values@.last() == f.range
                &&& w.atr_14.last_close.is_nan() || w.atr_14.last_close.rank() <= 0
                    ==> final(w).atr_14.tr_values@ == w.atr_14.tr_values@
            },
{
}

/// Where nothing was lost the strength is a hundred, else the one that was computed.
pub proof fn law_strength_is_full_without_losses(avg_loss: Real, computed: Real, r: Real)
    requires
        call_ensures(RSIState::strength, (avg_loss, computed), r),
        !avg_loss.is_nan(),
    ensures
        avg_loss.rank() == 0 ==> r.bits == 0x4059_0000_0000_0000,
        avg_loss.rank() != 0 ==> r == computed,
{
}

/// A price is remembered for the next one. Its change counts, as a gain or as a loss, only where
/// there was a price above zero before it.
pub proof fn law_changes_need_an_earlier_price()
    ensures
        forall|s: &mut RSIState, price: Real, change: Real, u: ()|
            #![trigger call_ensures(RSIState::record, (s, price, change), u)]
            call_ensures(RSIState::record, (s, price, change), u) ==> {
                &&& final(s).last_price == price
                &&& !s.last_price.positive() ==> final(s).gains == s.gains && final(s).losses
                    == s.losses
                &&& s.last_price.positive() && s.gains@.len() < s.gains.size() && change.positive()
                    ==> final(s).gains@ == s.gains@.push(change)
                &&& final(s).gains.size() == s.gains.size()
            },
        forall|s: &mut ATRState, high: Real, low: Real, close: Real, range: Real, u: ()|
            #![trigger call_ensures(ATRState::record, (s, high, low, close, range), u)]
            call_ensures(ATRState::record, (s, high, low, close, range), u) ==> {
                &&& final(s).last_high == high
                &&& final(s).last_low == low
                &&& final(s).last_close == close
                &&& !s.last_close.positive() ==> final(s).tr_values == s.tr_values
                &&& s.last_close.positive() && s.tr_values@.len() < s.tr_values.size()
                    ==> final(s).tr_values@ == s.tr_values@.push(range)
                &&& final(s).tr_values.size() == s.tr_values.size()
            },
{
}

} // verus!
