//! The positions of the portfolio and its equity.
//!
//! Sums, products and quotients of the figures come in from outside; which figure goes where, and
//! when, is decided here.

use vstd::prelude::*;

use crate::quantity::Real;
use crate::str_map::StrMap;

verus! {

/// The bit pattern of 0.0001, below which a position counts as flat.
pub const FLAT_BITS: u64 = 0x3f1a_36e2_eb1c_432d;

/// The bit pattern of 0.
const NOTHING: u64 = 0;

/// The position in one symbol.
#[derive(Debug, Clone)]
pub struct Position {
    pub symbol: String,
    pub net_position: Real,
    pub avg_entry_price: Real,
    pub current_price: Real,
    pub realized_pnl: Real,
    pub total_bought: Real,
    pub total_sold: Real,
}

impl Position {
    /// Whether the position is that of a symbol without trades.
    pub open spec fn untouched(self, symbol: Seq<char>) -> bool {
        let zero = Real { bits: 0 };
        &&& self.symbol@ == symbol
        &&& self.net_position == zero
        &&& self.avg_entry_price == zero
        &&& self.current_price == zero
        &&& self.realized_pnl == zero
        &&& self.total_bought == zero
        &&& self.total_sold == zero
    }

    /// No position.
    pub fn new(symbol: &str) -> (p: Self)
        ensures
            p.untouched(symbol@),
    {
        let zero = Real { bits: NOTHING };
        Position {
            symbol: symbol.to_owned(),
            net_position: zero,
            avg_entry_price: zero,
            current_price: zero,
            realized_pnl: zero,
            total_bought: zero,
            total_sold: zero,
        }
    }

    /// Whether the position is as good as none.
    pub open spec fn flat(self) -> bool {
        self.net_position.absolute().less(Real { bits: FLAT_BITS })
    }

    /// Whether the position is as good as none.
    pub fn is_flat(&self) -> (r: bool)
        ensures
            r == self.flat(),
    {
        self.net_position.abs().lt(&Real { bits: FLAT_BITS })
    }

    /// The unrealized profit: `computed`, the product of position and price difference, but zero
    /// where there is no position.
    pub fn unrealized_pnl(&self, computed: Real) -> (r: Real)
        ensures
            r == (if !self.net_position.is_nan() && self.net_position.rank() == 0 {
                Real { bits: 0 }
            } else {
                computed
            }),
    {
        let zero = Real { bits: NOTHING };
        if self.net_position.le(&zero) && zero.le(&self.net_position) {
            zero
        } else {
            computed
        }
    }
}

/// What a fill does to a position.
#[derive(Debug, Clone, Copy, PartialEq, Eq, Structural)]
pub enum FillKind {
    /// It adds to the position.
    Adding,
    /// It closes the position, in part or as a whole, or turns it around.
    Closing,
}

/// The change of a position by a fill.
pub open spec fn signed(quantity: Real, is_buy: bool) -> Real {
    if is_buy {
        quantity
    } else {
        quantity.opposite()
    }
}

/// The change of a position by a fill.
pub fn signed_quantity(quantity: Real, is_buy: bool) -> (r: Real)
    ensures
        r == signed(quantity, is_buy),
{
    if is_buy {
        quantity
    } else {
        quantity.neg()
    }
}

/// What a change does to a position.
pub open spec fn kind_of(net: Real, delta: Real) -> FillKind {
    let zero = Real { bits: 0 };
    if (zero.less_eq(net) && zero.less(delta)) || (net.less_eq(zero) && delta.less(zero)) {
        FillKind::Adding
    } else {
        FillKind::Closing
    }
}

/// What a change does to a position.
pub fn fill_kind(net: Real, delta: Real) -> (k: FillKind)
    ensures
        k == kind_of(net, delta),
{
    let zero = Real { bits: NOTHING };
    if (zero.le(&net) && zero.lt(&delta)) || (net.le(&zero) && delta.lt(&zero)) {
        FillKind::Adding
    } else {
        FillKind::Closing
    }
}

/// The figures of a position after a fill.
#[derive(Debug, Clone, Copy, PartialEq, Eq, Structural)]
pub struct FillValues {
    /// The average entry price, where the fill adds.
    pub avg_entry_price: Real,
    /// The realized profit, where the fill closes.
    pub realized_pnl: Real,
    /// The position.
    pub net_position: Real,
    /// All that was bought or sold, by the side of the fill.
    pub traded: Real,
}

/// A position after a fill.
pub open spec fn after_fill(
    p: Position,
    price: Real,
    quantity: Real,
    is_buy: bool,
    v: FillValues,
) -> Position {
    let adding = kind_of(p.net_position, signed(quantity, is_buy)) is Adding;
    let q = Position {
        avg_entry_price: if adding {
            v.avg_entry_price
        } else {
            p.avg_entry_price
        },
        realized_pnl: if adding {
            p.realized_pnl
        } else {
            v.realized_pnl
        },
        net_position: v.net_position,
        current_price: price,
        total_bought: if is_buy {
            v.traded
        } else {
            p.total_bought
        },
        total_sold: if is_buy {
            p.total_sold
        } else {
            v.traded
        },
        ..p
    };
    if q.flat() {
        Position { avg_entry_price: Real { bits: 0 }, ..q }
    } else {
        q
    }
}

/// Enters a fill in a position.
fn fill_position(pos: &mut Position, price: Real, quantity: Real, is_buy: bool, values: FillValues)
    ensures
        *final(pos) == after_fill(*old(pos), price, quantity, is_buy, values),
{
    match fill_kind(pos.net_position, signed_quantity(quantity, is_buy)) {
        FillKind::Adding => {
            pos.avg_entry_price = values.avg_entry_price;
        },
        FillKind::Closing => {
            pos.realized_pnl = values.realized_pnl;
        },
    }
    pos.net_position = values.net_position;
    pos.current_price = price;
    if is_buy {
        pos.total_bought = values.traded;
    } else {
        pos.total_sold = values.traded;
    }
    if pos.is_flat() {
        pos.avg_entry_price = Real { bits: NOTHING };
    }
}

/// The peak of the equity after it came to `equity`.
pub open spec fn peak_after(peak: Real, equity: Real) -> Real {
    if peak.less(equity) {
        equity
    } else {
        peak
    }
}

/// The figures of the portfolio as a whole.
#[derive(Debug, Clone, Copy, PartialEq, Eq, Structural)]
pub struct PortfolioMetrics {
    pub total_exposure: Real,
    pub net_exposure: Real,
    pub gross_exposure: Real,
    pub leverage: Real,
    pub total_unrealized_pnl: Real,
    pub total_realized_pnl: Real,
    pub peak_equity: Real,
    pub current_equity: Real,
    pub drawdown_pct: Real,
}

/// Sums over all positions, and the two quotients that are shown where their divisor is above zero.
#[derive(Debug, Clone, Copy, PartialEq, Eq, Structural)]
pub struct PortfolioSums {
    pub gross: Real,
    pub net: Real,
    pub unrealized: Real,
    pub realized: Real,
    /// The fall from the peak in percent of the peak.
    pub drawdown: Real,
    /// The gross exposure in relation to the equity.
    pub leverage: Real,
}

/// A view of the portfolio at one moment.
pub struct RiskSnapshot {
    pub metrics: PortfolioMetrics,
    pub net_positions: StrMap<Real>,
}

/// How many positions are not flat.
pub open spec fn open_positions(v: Seq<Position>) -> nat
    decreases v.len(),
{
    if v.len() == 0 {
        0
    } else {
        open_positions(v.drop_last()) + if v.last().flat() {
            0nat
        } else {
            1nat
        }
    }
}

/// The positions, and how the equity went.
pub struct PortfolioManager {
    pub positions: StrMap<Position>,
    pub peak_equity: Real,
    pub current_equity: Real,
    pub initial_equity: Real,
    pub flat_threshold: Real,
}

impl PortfolioManager {
    pub open spec fn wf(&self) -> bool {
        self.positions.wf()
    }

    /// Whether nothing but the positions and the equity differs, the equity being `equity` and the
    /// peak raised to it where it was lower.
    pub open spec fn revalued(&self, equity: Real, other: &PortfolioManager) -> bool {
        *other == (PortfolioManager {
            positions: other.positions,
            current_equity: equity,
            peak_equity: peak_after(self.peak_equity, equity),
            ..*self
        })
    }

    /// A portfolio without positions.
    pub fn new(initial_equity: Real, flat_threshold: Real) -> (p: Self)
        ensures
            p.wf(),
            p.positions@ == Map::<Seq<char>, Position>::empty(),
            p.peak_equity == initial_equity,
            p.current_equity == initial_equity,
            p.initial_equity == initial_equity,
            p.flat_threshold == flat_threshold,
    {
        PortfolioManager {
            positions: StrMap::new(),
            peak_equity: initial_equity,
            current_equity: initial_equity,
            initial_equity,
            flat_threshold,
        }
    }

    /// Whether `after` is `self` after a fill.
    pub open spec fn filled(
        &self,
        symbol: Seq<char>,
        price: Real,
        quantity: Real,
        is_buy: bool,
        values: FillValues,
        equity: Real,
        after: &PortfolioManager,
    ) -> bool {
        &&& self.revalued(equity, after)
        &&& exists|before: Position|
            {
                &&& if self.positions@.dom().contains(symbol) {
                    before == self.positions@[symbol]
                } else {
                    before.untouched(symbol)
                }
                &&& after.positions@ == self.positions@.insert(
                    symbol,
                    #[trigger] after_fill(before, price, quantity, is_buy, values),
                )
            }
    }

    /// The position in a symbol as a fill would leave it: `values` are its figures after the fill.
    pub fn position_after(
        &self,
        symbol: &str,
        price: Real,
        quantity: Real,
        is_buy: bool,
        values: FillValues,
    ) -> (p: Position)
        requires
            self.wf(),
        ensures
            exists|before: Position|
                {
                    &&& if self.positions@.dom().contains(symbol@) {
                        before == self.positions@[symbol@]
                    } else {
                        before.untouched(symbol@)
                    }
                    &&& p == #[trigger] after_fill(before, price, quantity, is_buy, values)
                },
    {
        let mut pos = match self.positions.get(symbol) {
            Some(p) => Position {
                symbol: p.symbol.clone(),
                net_position: p.net_position,
                avg_entry_price: p.avg_entry_price,
                current_price: p.current_price,
                realized_pnl: p.realized_pnl,
                total_bought: p.total_bought,
                total_sold: p.total_sold,
            },
            None => Position::new(symbol),
        };
        fill_position(&mut pos, price, quantity, is_buy, values);
        pos
    }

    /// Enters a fill: `values` are the figures of the position after it, and `equity` is the
    /// equity that the positions then come to.
    pub fn on_fill(
        &mut self,
        symbol: &str,
        price: Real,
        quantity: Real,
        is_buy: bool,
        values: FillValues,
        equity: Real,
    )
        requires
            old(self).wf(),
        ensures
            final(self).wf(),
            old(self).filled(symbol@, price, quantity, is_buy, values, equity, final(self)),
    {
        if !self.positions.contains_key(symbol) {
            self.positions.insert(symbol.to_owned(), Position::new(symbol));
        }
        let ghost map = self.positions@;
        let ghost before = self.positions@[symbol@];
        match self.positions.position(symbol) {
            Some(i) => {
                let pos = self.positions.val_mut(i);
                fill_position(pos, price, quantity, is_buy, values);
            },
            None => {},
        }
        self.recalculate_equity(equity);
        proof {
            assert(self.positions@ =~= map.insert(
                symbol@,
                after_fill(before, price, quantity, is_buy, values),
            ));
            assert(self.positions@ =~= old(self).positions@.insert(
                symbol@,
                after_fill(before, price, quantity, is_buy, values),
            ));
        }
    }

    /// Takes note of the equity as it was summed up.
    fn recalculate_equity(&mut self, equity: Real)
        ensures
            *final(self) == (PortfolioManager {
                current_equity: equity,
                peak_equity: peak_after(old(self).peak_equity, equity),
                ..*old(self)
            }),
    {
        self.current_equity = equity;
        if self.peak_equity.lt(&equity) {
            self.peak_equity = equity;
        }
    }

    /// Takes note of the price of a symbol, where there is a position in it, and of the equity
    /// that the positions then come to.
    pub fn update_price(&mut self, symbol: &str, price: Real, equity: Real)
        requires
            old(self).wf(),
        ensures
            final(self).wf(),
            old(self).revalued(equity, final(self)),
            final(self).positions@ == (if old(self).positions@.dom().contains(symbol@) {
                old(self).positions@.insert(
                    symbol@,
                    Position { current_price: price, ..old(self).positions@[symbol@] },
                )
            } else {
                old(self).positions@
            }),
    {
        match self.positions.position(symbol) {
            Some(i) => {
                let pos = self.positions.val_mut(i);
                pos.current_price = price;
            },
            None => {},
        }
        self.recalculate_equity(equity);
    }

    /// Sets the average entry price of a position, where there is one, and takes note of the equity
    /// that the positions then come to.
    pub fn set_avg_entry_price(&mut self, symbol: &str, price: Real, equity: Real)
        requires
            old(self).wf(),
        ensures
            final(self).wf(),
            old(self).revalued(equity, final(self)),
            final(self).positions@ == (if old(self).positions@.dom().contains(symbol@) {
                old(self).positions@.insert(
                    symbol@,
                    Position { avg_entry_price: price, ..old(self).positions@[symbol@] },
                )
            } else {
                old(self).positions@
            }),
    {
        match self.positions.position(symbol) {
            Some(i) => {
                let pos = self.positions.val_mut(i);
                pos.avg_entry_price = price;
            },
            None => {},
        }
        self.recalculate_equity(equity);
    }

    /// The metrics with given sums. There is no leverage without equity and no drawdown without
    /// a peak.
    pub open spec fn metrics_of(&self, sums: PortfolioSums) -> PortfolioMetrics {
        PortfolioMetrics {
            total_exposure: sums.gross,
            net_exposure: sums.net,
            gross_exposure: sums.gross,
            leverage: if self.current_equity.positive() {
                sums.leverage
            } else {
                Real { bits: 0 }
            },
            total_unrealized_pnl: sums.unrealized,
            total_realized_pnl: sums.realized,
            peak_equity: self.peak_equity,
            current_equity: self.current_equity,
            drawdown_pct: if self.peak_equity.positive() {
                sums.drawdown
            } else {
                Real { bits: 0 }
            },
        }
    }

    /// The figures of the portfolio.
    pub fn get_metrics(&self, sums: PortfolioSums) -> (m: PortfolioMetrics)
        ensures
            m == self.metrics_of(sums),
    {
        let zero = Real { bits: NOTHING };
        PortfolioMetrics {
            total_exposure: sums.gross,
            net_exposure: sums.net,
            gross_exposure: sums.gross,
            leverage: if self.current_equity.is_positive() {
                sums.leverage
            } else {
                zero
            },
            total_unrealized_pnl: sums.unrealized,
            total_realized_pnl: sums.realized,
            peak_equity: self.peak_equity,
            current_equity: self.current_equity,
            drawdown_pct: if self.peak_equity.is_positive() {
                sums.drawdown
            } else {
                zero
            },
        }
    }

    /// The figures and the positions at one moment.
    pub fn get_risk_snapshot(&self, sums: PortfolioSums) -> (s: RiskSnapshot)
        requires
            self.wf(),
        ensures
            s.metrics == self.metrics_of(sums),
            s.net_positions.wf(),
            s.net_positions@ == self.positions@.map_values(|p: Position| p.net_position),
    {
        let metrics = self.get_metrics(sums);
        let mut net: StrMap<Real> = StrMap::new();
        let n: usize = self.positions.len();
        let mut i: usize = 0;
        let ghost keys = self.positions.key_seq();
        let ghost vals = self.positions.val_seq();
        proof {
            self.positions.lemma_entries();
        }
        while i < n
            invariant
                self.wf(),
                net.wf(),
                keys == self.positions.key_seq(),
                vals == self.positions.val_seq(),
                keys.no_duplicates(),
                n == keys.len(),
                n == vals.len(),
                i <= n,
                forall|k: Seq<char>|
                    net@.dom().contains(k) <==> exists|j: int| 0 <= j < i && #[trigger] keys[j] == k,
                forall|j: int| 0 <= j < i ==> net@[#[trigger] keys[j]] == vals[j].net_position,
            decreases n - i,
        {
            let ghost before = net@;
            net.insert(
                self.positions.key_at(i).as_str().to_owned(),
                self.positions.val_at(i).net_position,
            );
            i += 1;
            proof {
                assert forall|k: Seq<char>| net@.dom().contains(k) implies exists|j: int|
                    0 <= j < i && #[trigger] keys[j] == k by {
                    if k == keys[i - 1] {
                        assert(keys[i - 1] == k);
                    } else {
                        assert(before.dom().contains(k));
                    }
                }
            }
        }
        proof {
            self.positions.lemma_entries();
            assert forall|k: Seq<char>| self.positions@.dom().contains(k) implies
                net@.dom().contains(k) by {
                assert(keys.contains(k));
                let j = keys.index_of(k);
                assert(keys[j] == k);
            }
            assert(net@ =~= self.positions@.map_values(|p: Position| p.net_position)) by {
                assert forall|k: Seq<char>| net@.dom().contains(k) implies
                    self.positions@.dom().contains(k) && net@[k] == self.positions@[k].net_position by {
                    let j = choose|j: int| 0 <= j < n && #[trigger] keys[j] == k;
                }
            }
        }
        RiskSnapshot { metrics, net_positions: net }
    }

    /// The position in a symbol.
    pub fn get_position(&self, symbol: &str) -> (r: Option<&Position>)
        requires
            self.wf(),
        ensures
            match r {
                Some(p) => self.positions@.dom().contains(symbol@) && *p
                    == self.positions@[symbol@],
                None => !self.positions@.dom().contains(symbol@),
            },
    {
        self.positions.get(symbol)
    }

    /// All positions.
    pub fn get_all_positions(&self) -> (v: Vec<&Position>)
        requires
            self.wf(),
        ensures
            v@.len() == self.positions.val_seq().len(),
            forall|i: int| 0 <= i < v@.len() ==> *(#[trigger] v@[i]) == self.positions.val_seq()[i],
    {
        let mut v: Vec<&Position> = Vec::new();
        let n: usize = self.positions.len();
        let mut i: usize = 0;
        proof {
            self.positions.lemma_entries();
        }
        while i < n
            invariant
                self.wf(),
                n == self.positions.key_seq().len(),
                i <= n,
                v@.len() == i,
                forall|j: int| 0 <= j < i ==> *(#[trigger] v@[j]) == self.positions.val_seq()[j],
            decreases n - i,
        {
            v.push(self.positions.val_at(i));
            i += 1;
        }
        v
    }

    /// How many positions are not flat.
    pub fn position_count(&self) -> (n: usize)
        requires
            self.wf(),
        ensures
            n == open_positions(self.positions.val_seq()),
    {
        let total: usize = self.positions.len();
        let ghost vals = self.positions.val_seq();
        let mut n: usize = 0;
        let mut i: usize = 0;
        proof {
            self.positions.lemma_entries();
        }
        assert(open_positions(vals.take(0)) == 0);
        while i < total
            invariant
                self.wf(),
                vals == self.positions.val_seq(),
                total == self.positions.key_seq().len(),
                total == vals.len(),
                n <= i <= total,
                n == open_positions(vals.take(i as int)),
            decreases total - i,
        {
            assert(vals.take(i + 1).drop_last() =~= vals.take(i as int));
            if !self.positions.val_at(i).is_flat() {
                n += 1;
            }
            i += 1;
        }
        assert(vals.take(total as int) =~= vals);
        n
    }

    /// The net position in a symbol, which is zero where there is none.
    pub fn net_position(&self, symbol: &str) -> (r: Real)
        requires
            self.wf(),
        ensures
            r == (if self.positions@.dom().contains(symbol@) {
                self.positions@[symbol@].net_position
            } else {
                Real { bits: 0 }
            }),
    {
        match self.positions.get(symbol) {
            Some(p) => p.net_position,
            None => Real { bits: NOTHING },
        }
    }
}

impl Default for PortfolioManager {
    /// A portfolio with an equity of 100,000 and a flat threshold of 0.001.
    fn default() -> (p: Self)
        ensures
            p.wf(),
            p.positions@ == Map::<Seq<char>, Position>::empty(),
            p.initial_equity.bits == 0x40f8_6a00_0000_0000,
            p.peak_equity == p.initial_equity,
            p.current_equity == p.initial_equity,
            p.flat_threshold.bits == 0x3f50_624d_d2f1_a9fc,
    {
        PortfolioManager::new(
            Real { bits: 0x40f8_6a00_0000_0000 },
            Real { bits: 0x3f50_624d_d2f1_a9fc },
        )
    }
}

/// The peak of the equity never falls, and is no lower than the equity.
pub proof fn law_peak_is_highest(p: PortfolioManager, equity: Real, after: PortfolioManager)
    requires
        p.revalued(equity, &after),
        !p.peak_equity.is_nan(),
        !equity.is_nan(),
    ensures
        p.peak_equity.less_eq(after.peak_equity),
        after.current_equity.less_eq(after.peak_equity),
        p.initial_equity.less_eq(p.peak_equity) ==> after.initial_equity.less_eq(
            after.peak_equity,
        ),
{
}

/// A position that a fill leaves flat has no entry price.
pub proof fn law_flat_has_no_entry_price(
    p: Position,
    price: Real,
    quantity: Real,
    is_buy: bool,
    v: FillValues,
)
    requires
        after_fill(p, price, quantity, is_buy, v).flat(),
    ensures
        after_fill(p, price, quantity, is_buy, v).avg_entry_price == (Real { bits: 0 }),
{
}

/// A fill changes the entry price or the realized profit, never both, unless it leaves the position
/// flat.
pub proof fn law_fill_adds_or_closes(
    p: Position,
    price: Real,
    quantity: Real,
    is_buy: bool,
    v: FillValues,
)
    requires
        !after_fill(p, price, quantity, is_buy, v).flat(),
    ensures
        ({
            let q = after_fill(p, price, quantity, is_buy, v);
            q.avg_entry_price == p.avg_entry_price || q.realized_pnl == p.realized_pnl
        }),
{
}

/// A fill in the direction of the position adds to it: the entry price becomes the new average and
/// nothing is realized. Any other fill closes: the profit is realized and the entry price stays.
/// The direction is that of the signs: a purchase counts upwards and a sale downwards, and with no
/// position either adds. A position that the fill leaves flat has no entry price.
pub proof fn law_fill_follows_the_signs(
    p: PortfolioManager,
    symbol: Seq<char>,
    price: Real,
    quantity: Real,
    is_buy: bool,
    v: FillValues,
    equity: Real,
    after: PortfolioManager,
)
    requires
        p.filled(symbol, price, quantity, is_buy, v, equity, &after),
    ensures
        ({
            let known = p.positions@.dom().contains(symbol);
            let none = Real { bits: 0 };
            let net = if known {
                p.positions@[symbol].net_position
            } else {
                none
            };
            let entry = if known {
                p.positions@[symbol].avg_entry_price
            } else {
                none
            };
            let realized = if known {
                p.positions@[symbol].realized_pnl
            } else {
                none
            };
            let q = after.positions@[symbol];
            let change = if is_buy {
                quantity.rank()
            } else {
                -quantity.rank()
            };
            let adds = !net.is_nan() && !quantity.is_nan() && ((net.rank() > 0 && change > 0) || (
            net.rank() < 0 && change < 0) || (net.rank() == 0 && change != 0));
            let flat = !q.net_position.is_nan() && -0x3f1a_36e2_eb1c_432d < q.net_position.rank()
                < 0x3f1a_36e2_eb1c_432d;
            &&& after.positions@.dom() == p.positions@.dom().insert(symbol)
            &&& adds ==> q.realized_pnl == realized
            &&& adds && !flat ==> q.avg_entry_price == v.avg_entry_price
            &&& !adds ==> q.realized_pnl == v.realized_pnl
            &&& !adds && !flat ==> q.avg_entry_price == entry
            &&& flat ==> q.avg_entry_price.bits == 0
            &&& q.net_position == v.net_position
            &&& q.current_price == price
        }),
{
}

/// A purchase is added to what was bought and a sale to what was sold, never to both.
pub proof fn law_fill_counts_on_one_side(
    p: PortfolioManager,
    symbol: Seq<char>,
    price: Real,
    quantity: Real,
    is_buy: bool,
    v: FillValues,
    equity: Real,
    after: PortfolioManager,
)
    requires
        p.filled(symbol, price, quantity, is_buy, v, equity, &after),
        p.positions@.dom().contains(symbol),
    ensures
        is_buy ==> after.positions@[symbol].total_bought == v.traded
            && after.positions@[symbol].total_sold == p.positions@[symbol].total_sold,
        !is_buy ==> after.positions@[symbol].total_sold == v.traded
            && after.positions@[symbol].total_bought == p.positions@[symbol].total_bought,
        after.positions@[symbol].symbol@ == p.positions@[symbol].symbol@,
{
}

/// The first fill of a symbol opens a position under its name.
pub proof fn law_first_fill_opens_a_position(
    p: PortfolioManager,
    symbol: Seq<char>,
    price: Real,
    quantity: Real,
    is_buy: bool,
    v: FillValues,
    equity: Real,
    after: PortfolioManager,
)
    requires
        p.filled(symbol, price, quantity, is_buy, v, equity, &after),
        !p.positions@.dom().contains(symbol),
    ensures
        after.positions@.dom().contains(symbol),
        after.positions@[symbol].symbol@ == symbol,
        is_buy ==> after.positions@[symbol].total_bought == v.traded
            && after.positions@[symbol].total_sold.bits == 0,
        !is_buy ==> after.positions@[symbol].total_sold == v.traded
            && after.positions@[symbol].total_bought.bits == 0,
{
}

/// A fill changes nothing of the other symbols.
pub proof fn law_fill_leaves_the_others(
    p: PortfolioManager,
    symbol: Seq<char>,
    price: Real,
    quantity: Real,
    is_buy: bool,
    v: FillValues,
    equity: Real,
    after: PortfolioManager,
    other: Seq<char>,
)
    requires
        p.filled(symbol, price, quantity, is_buy, v, equity, &after),
        other != symbol,
    ensures
        after.positions@.dom().contains(other) == p.positions@.dom().contains(other),
        p.positions@.dom().contains(other) ==> after.positions@[other] == p.positions@[other],
{
}

/// The equity is the one that came in. The peak is that equity where it is higher, and else what it
/// was; the equity at the start never changes.
pub proof fn law_equity_is_taken_over(p: PortfolioManager, equity: Real, after: PortfolioManager)
    requires
        p.revalued(equity, &after),
    ensures
        after.current_equity == equity,
        after.initial_equity == p.initial_equity,
        after.flat_threshold == p.flat_threshold,
        !p.peak_equity.is_nan() && !equity.is_nan() && equity.rank() > p.peak_equity.rank()
            ==> after.peak_equity == equity,
        p.peak_equity.is_nan() || equity.is_nan() || equity.rank() <= p.peak_equity.rank()
            ==> after.peak_equity == p.peak_equity,
{
}

/// What is shown of the portfolio: the sums as they came in, the drawdown only from a peak above
/// zero, and the leverage only on an equity above zero.
pub proof fn law_metrics_show_the_sums(p: PortfolioManager, sums: PortfolioSums, m: PortfolioMetrics)
    requires
        call_ensures(PortfolioManager::get_metrics, (&p, sums), m),
    ensures
        m.total_exposure == sums.gross,
        m.gross_exposure == sums.gross,
        m.net_exposure == sums.net,
        m.total_unrealized_pnl == sums.unrealized,
        m.total_realized_pnl == sums.realized,
        m.peak_equity == p.peak_equity,
        m.current_equity == p.current_equity,
        !p.peak_equity.is_nan() && p.peak_equity.rank() > 0 ==> m.drawdown_pct == sums.drawdown,
        p.peak_equity.is_nan() || p.peak_equity.rank() <= 0 ==> m.drawdown_pct.bits == 0,
        !p.current_equity.is_nan() && p.current_equity.rank() > 0 ==> m.leverage == sums.leverage,
        p.current_equity.is_nan() || p.current_equity.rank() <= 0 ==> m.leverage.bits == 0,
{
}

/// A position counts as open unless it lies closer to zero than 0.0001, on either side.
pub proof fn law_open_positions_are_counted(v: Seq<Position>, p: Position)
    ensures
        open_positions(Seq::empty()) == 0,
        open_positions(v.push(p)) == open_positions(v) + (if !p.net_position.is_nan()
            && -0x3f1a_36e2_eb1c_432d < p.net_position.rank() < 0x3f1a_36e2_eb1c_432d {
            0nat
        } else {
            1nat
        }),
{
    assert(v.push(p).drop_last() =~= v);
}

/// A sale is a purchase of the opposite quantity: it changes the position by as much, downwards.
pub proof fn law_sale_is_opposite(quantity: Real)
    ensures
        signed(quantity, true) == quantity,
        signed(quantity, false).rank() == -quantity.rank(),
        signed(quantity, false).is_nan() == quantity.is_nan(),
        signed(quantity, false) != quantity,
        signed(signed(quantity, false), false) == quantity,
{
}

/// A price that comes in is the price of its symbol and of no other, and opens no position.
pub proof fn law_price_is_that_of_its_symbol()
    ensures
        forall|p: &mut PortfolioManager, symbol: &str, price: Real, equity: Real, u: (), s: Seq<char>|
            #![trigger call_ensures(PortfolioManager::update_price, (p, symbol, price, equity), u), p.positions@.dom().contains(s)]
            call_ensures(PortfolioManager::update_price, (p, symbol, price, equity), u) ==> {
                &&& final(p).positions@.dom().contains(s) <==> p.positions@.dom().contains(s)
                &&& s == symbol@ && p.positions@.dom().contains(s) ==> {
                    &&& final(p).positions@[s].current_price == price
                    &&& final(p).positions@[s].net_position == p.positions@[s].net_position
                    &&& final(p).positions@[s].avg_entry_price == p.positions@[s].avg_entry_price
                    &&& final(p).positions@[s].realized_pnl == p.positions@[s].realized_pnl
                }
                &&& s != symbol@ && p.positions@.dom().contains(s) ==> final(p).positions@[s]
                    == p.positions@[s]
                &&& final(p).current_equity == equity
                &&& final(p).initial_equity == p.initial_equity
                &&& final(p).flat_threshold == p.flat_threshold
            },
        forall|p: &mut PortfolioManager, symbol: &str, price: Real, equity: Real, u: (), s: Seq<char>|
            #![trigger call_ensures(PortfolioManager::set_avg_entry_price, (p, symbol, price, equity), u), p.positions@.dom().contains(s)]
            call_ensures(PortfolioManager::set_avg_entry_price, (p, symbol, price, equity), u) ==> {
                &&& final(p).positions@.dom().contains(s) <==> p.positions@.dom().contains(s)
                &&& s == symbol@ && p.positions@.dom().contains(s) ==> {
                    &&& final(p).positions@[s].avg_entry_price == price
                    &&& final(p).positions@[s].net_position == p.positions@[s].net_position
                    &&& final(p).positions@[s].current_price == p.positions@[s].current_price
                    &&& final(p).positions@[s].realized_pnl == p.positions@[s].realized_pnl
                }
                &&& s != symbol@ && p.positions@.dom().contains(s) ==> final(p).positions@[s]
                    == p.positions@[s]
                &&& final(p).current_equity == equity
            },
{
}

/// A position of zero has no open profit; any other has the one that was computed.
pub proof fn law_no_position_has_no_open_profit(p: &Position, computed: Real, r: Real)
    requires
        call_ensures(Position::unrealized_pnl, (p, computed), r),
        !p.net_position.is_nan(),
    ensures
        p.net_position.rank() == 0 ==> r.bits == 0,
        p.net_position.rank() != 0 ==> r == computed,
{
}

/// The position that is told of a symbol is the one that is kept under its name, and none where
/// there is none.
pub proof fn law_position_is_told_by_its_symbol(
    p: &PortfolioManager,
    symbol: &str,
    r: Option<&Position>,
    n: Real,
)
    requires
        call_ensures(PortfolioManager::get_position, (p, symbol), r),
        call_ensures(PortfolioManager::net_position, (p, symbol), n),
    ensures
        r is Some <==> p.positions@.dom().contains(symbol@),
        r matches Some(x) ==> *x == p.positions@[symbol@] && n == x.net_position,
        r is None ==> n.bits == 0,
{
}

/// A new portfolio has no positions, and its equity and its peak are what it started with.
pub proof fn law_new_portfolio_is_empty(equity: Real, flat: Real, p: PortfolioManager)
    requires
        call_ensures(PortfolioManager::new, (equity, flat), p),
    ensures
        forall|s: Seq<char>| !(#[trigger] p.positions@.dom().contains(s)),
        p.current_equity == equity,
        p.peak_equity == equity,
        p.initial_equity == equity,
        p.flat_threshold == flat,
{
}

/// What the risk checks see of a symbol is its position.
pub proof fn law_risk_checks_see_the_positions(
    p: &PortfolioManager,
    sums: PortfolioSums,
    s: RiskSnapshot,
    symbol: Seq<char>,
)
    requires
        call_ensures(PortfolioManager::get_risk_snapshot, (p, sums), s),
    ensures
        s.net_positions@.dom().contains(symbol) <==> p.positions@.dom().contains(symbol),
        p.positions@.dom().contains(symbol) ==> s.net_positions@[symbol]
            == p.positions@[symbol].net_position,
{
}

} // verus!
