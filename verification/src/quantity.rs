//! Binary floating-point numbers by their bit patterns.
//!
//! The library carries, stores and compares such numbers; it does no arithmetic on them.

use vstd::prelude::*;

verus! {

/// A 64-bit floating-point number, held as its IEEE 754 bit pattern.
#[derive(Debug, Clone, Copy, PartialEq, Eq, Structural)]
pub struct Real {
    pub bits: u64,
}

/// A 32-bit floating-point number, held as its IEEE 754 bit pattern.
#[derive(Debug, Clone, Copy, PartialEq, Eq, Structural)]
pub struct Real32 {
    pub bits: u32,
}

/// The bit pattern of 0.
pub const ZERO_BITS: u64 = 0;

/// The bit pattern of 1.
pub const ONE_BITS: u64 = 0x3ff0_0000_0000_0000;

/// The bit pattern of 100.
pub const HUNDRED_BITS: u64 = 0x4059_0000_0000_0000;

const SIGN_BIT: u64 = 0x8000_0000_0000_0000;

const INFINITY_BITS: u64 = 0x7ff0_0000_0000_0000;

const FRACTION_SPAN: u64 = 0x0010_0000_0000_0000;

impl Real {
    /// The bits without the sign.
    pub open spec fn magnitude(self) -> int {
        self.bits as int % 0x8000_0000_0000_0000
    }

    /// Whether the pattern stands for no number.
    pub open spec fn is_nan(self) -> bool {
        self.magnitude() > 0x7ff0_0000_0000_0000
    }

    /// Whether the pattern stands for a finite number.
    pub open spec fn is_finite(self) -> bool {
        self.magnitude() < 0x7ff0_0000_0000_0000
    }

    /// A whole number that orders the patterns as the numbers they stand for; both zeros have
    /// the same one.
    pub open spec fn rank(self) -> int {
        if self.bits < 0x8000_0000_0000_0000u64 {
            self.magnitude()
        } else {
            -self.magnitude()
        }
    }

    /// Whether `self` stands for a number below that of `other`.
    pub open spec fn less(self, other: Real) -> bool {
        !self.is_nan() && !other.is_nan() && self.rank() < other.rank()
    }

    /// Whether `self` stands for a number not above that of `other`.
    pub open spec fn less_eq(self, other: Real) -> bool {
        !self.is_nan() && !other.is_nan() && self.rank() <= other.rank()
    }

    /// The significand: the fraction bits, with the leading one of a normal number.
    pub open spec fn significand(self) -> nat {
        if self.magnitude() / 0x0010_0000_0000_0000 == 0 {
            (self.magnitude() % 0x0010_0000_0000_0000) as nat
        } else {
            (self.magnitude() % 0x0010_0000_0000_0000 + 0x0010_0000_0000_0000) as nat
        }
    }

    /// The power of two by which the significand is scaled.
    pub open spec fn scale(self) -> int {
        if self.magnitude() / 0x0010_0000_0000_0000 == 0 {
            -1074
        } else {
            self.magnitude() / 0x0010_0000_0000_0000 - 1075
        }
    }

    /// The whole part of the absolute value of a finite number.
    pub open spec fn whole_part(self) -> nat {
        if self.scale() >= 0 {
            self.significand() * vstd::arithmetic::power2::pow2(self.scale() as nat)
        } else {
            self.significand() / vstd::arithmetic::power2::pow2((-self.scale()) as nat)
        }
    }

    /// The number cut to the range of `usize`: towards zero, zero for what is negative or no
    /// number, the largest value for what is too large.
    pub open spec fn clamped(self) -> usize {
        if self.is_nan() || self.rank() <= 0 {
            0
        } else if !self.is_finite() || self.whole_part() > usize::MAX {
            usize::MAX
        } else {
            self.whole_part() as usize
        }
    }

    pub fn from_bits(bits: u64) -> (r: Real)
        ensures
            r.bits == bits,
    {
        Real { bits }
    }

    fn abs_bits(&self) -> (m: u64)
        ensures
            m == self.magnitude(),
    {
        self.bits % SIGN_BIT
    }

    /// Whether the pattern stands for no number.
    pub fn nan(&self) -> (r: bool)
        ensures
            r == self.is_nan(),
    {
        self.abs_bits() > INFINITY_BITS
    }

    /// Whether the pattern stands for a finite number.
    pub fn finite(&self) -> (r: bool)
        ensures
            r == self.is_finite(),
    {
        self.abs_bits() < INFINITY_BITS
    }

    fn rank_of(&self) -> (k: i64)
        ensures
            k == self.rank(),
    {
        let m: u64 = self.abs_bits();
        if self.bits < SIGN_BIT {
            m as i64
        } else {
            -(m as i64)
        }
    }

    /// `self < other`.
    pub fn lt(&self, other: &Real) -> (r: bool)
        ensures
            r == self.less(*other),
    {
        !self.nan() && !other.nan() && self.rank_of() < other.rank_of()
    }

    /// `self <= other`.
    pub fn le(&self, other: &Real) -> (r: bool)
        ensures
            r == self.less_eq(*other),
    {
        !self.nan() && !other.nan() && self.rank_of() <= other.rank_of()
    }

    /// Whether the number is above zero.
    pub open spec fn positive(self) -> bool {
        !self.is_nan() && self.rank() > 0
    }

    /// Whether the number is above zero.
    pub fn is_positive(&self) -> (r: bool)
        ensures
            r == self.positive(),
    {
        !self.nan() && self.rank_of() > 0
    }

    /// Whether the number is zero or below.
    pub open spec fn not_positive(self) -> bool {
        !self.is_nan() && self.rank() <= 0
    }

    /// Whether the number is zero or below.
    pub fn is_not_positive(&self) -> (r: bool)
        ensures
            r == self.not_positive(),
    {
        !self.nan() && self.rank_of() <= 0
    }

    /// The number without its sign.
    pub open spec fn absolute(self) -> Real {
        Real { bits: self.magnitude() as u64 }
    }

    /// The number without its sign.
    pub fn abs(&self) -> (r: Real)
        ensures
            r == self.absolute(),
    {
        Real { bits: self.abs_bits() }
    }

    /// The number with the other sign.
    pub open spec fn opposite(self) -> Real {
        if self.bits < 0x8000_0000_0000_0000u64 {
            Real { bits: (self.bits + 0x8000_0000_0000_0000) as u64 }
        } else {
            Real { bits: (self.bits - 0x8000_0000_0000_0000) as u64 }
        }
    }

    /// The number with the other sign.
    pub fn neg(&self) -> (r: Real)
        ensures
            r == self.opposite(),
    {
        if self.bits < SIGN_BIT {
            Real { bits: self.bits + SIGN_BIT }
        } else {
            Real { bits: self.bits - SIGN_BIT }
        }
    }

    /// The smaller of two numbers; where one is no number, the other.
    pub open spec fn smaller(self, other: Real) -> Real {
        if self.is_nan() || other.less(self) {
            other
        } else {
            self
        }
    }

    /// The smaller of two numbers; where one is no number, the other.
    pub fn min(&self, other: &Real) -> (r: Real)
        ensures
            r == self.smaller(*other),
    {
        if self.nan() || other.lt(self) {
            *other
        } else {
            *self
        }
    }

    /// Whether the number lies between zero and `upper`, both included.
    pub open spec fn between_zero_and(self, upper: Real) -> bool {
        !self.is_nan() && self.rank() >= 0 && self.less_eq(upper)
    }

    /// Whether the number lies between zero and `upper`, both included.
    pub fn in_zero_to(&self, upper: &Real) -> (r: bool)
        ensures
            r == self.between_zero_and(*upper),
    {
        !self.nan() && self.rank_of() >= 0 && self.le(upper)
    }

    /// The number cut to the range of `usize`.
    pub fn to_usize(&self) -> (n: usize)
        ensures
            n == self.clamped(),
    {
        if self.nan() || self.rank_of() <= 0 {
            return 0;
        }
        if !self.finite() {
            return usize::MAX;
        }
        let m: u64 = self.abs_bits();
        let exponent: u64 = m / FRACTION_SPAN;
        let fraction: u64 = m % FRACTION_SPAN;
        let (sig, up, down): (u64, u64, u64) = if exponent == 0 {
            (fraction, 0, 1074)
        } else if exponent >= 1075 {
            (fraction + FRACTION_SPAN, exponent - 1075, 0)
        } else {
            (fraction + FRACTION_SPAN, 0, 1075 - exponent)
        };
        assert(sig == self.significand());
        assert(up > 0 ==> self.scale() == up);
        assert(down > 0 ==> self.scale() == -(down as int));
        assert(up == 0 && down == 0 ==> self.scale() == 0);
        if down > 0 {
            let q: u64 = halved(sig, down);
            if q > usize::MAX as u64 {
                return usize::MAX;
            }
            return q as usize;
        }
        doubled(sig, up)
    }
}

/// `n` divided by two `k` times.
fn halved(n: u64, k: u64) -> (q: u64)
    ensures
        q == n as nat / vstd::arithmetic::power2::pow2(k as nat),
{
    let mut q: u64 = n;
    let mut i: u64 = 0;
    proof {
        vstd::arithmetic::power2::lemma2_to64();
    }
    while i < k
        invariant
            i <= k,
            q == n as nat / vstd::arithmetic::power2::pow2(i as nat),
        decreases k - i,
    {
        proof {
            vstd::arithmetic::power2::lemma_pow2_pos(i as nat);
            vstd::arithmetic::power2::lemma_pow2_unfold((i + 1) as nat);
            vstd::arithmetic::div_mod::lemma_div_denominator(
                n as int,
                vstd::arithmetic::power2::pow2(i as nat) as int,
                2,
            );
            assert(
                vstd::arithmetic::power2::pow2((i + 1) as nat)
                    == vstd::arithmetic::power2::pow2(i as nat) * 2
            );
        }
        q = q / 2;
        i += 1;
    }
    q
}

/// `n` multiplied by two `k` times, or the largest value where that does not fit.
fn doubled(n: u64, k: u64) -> (p: usize)
    ensures
        p == (if n as nat * vstd::arithmetic::power2::pow2(k as nat) > usize::MAX {
            usize::MAX as int
        } else {
            (n as nat * vstd::arithmetic::power2::pow2(k as nat)) as int
        }),
{
    let mut p: u128 = n as u128;
    let mut i: u64 = 0;
    proof {
        vstd::arithmetic::power2::lemma2_to64();
    }
    while i < k && p <= usize::MAX as u128
        invariant
            i <= k,
            p == n as nat * vstd::arithmetic::power2::pow2(i as nat),
            p <= 2 * 0xffff_ffff_ffff_ffff,
        decreases k - i,
    {
        proof {
            vstd::arithmetic::power2::lemma_pow2_unfold((i + 1) as nat);
            assert(
                n as nat * vstd::arithmetic::power2::pow2((i + 1) as nat)
                    == 2 * (n as nat * vstd::arithmetic::power2::pow2(i as nat))
            )
                by (nonlinear_arith)
                requires
                    vstd::arithmetic::power2::pow2((i + 1) as nat)
                        == 2 * vstd::arithmetic::power2::pow2(i as nat),
            ;
        }
        p = p * 2;
        i += 1;
    }
    proof {
        if p > usize::MAX {
            if i < k {
                vstd::arithmetic::power2::lemma_pow2_strictly_increases(i as nat, k as nat);
                assert(
                    n as nat * vstd::arithmetic::power2::pow2(k as nat)
                        >= n as nat * vstd::arithmetic::power2::pow2(i as nat)
                ) by (nonlinear_arith)
                    requires
                        vstd::arithmetic::power2::pow2(k as nat)
                            >= vstd::arithmetic::power2::pow2(i as nat),
                ;
            }
        }
    }
    if p > usize::MAX as u128 {
        usize::MAX
    } else {
        p as usize
    }
}

/// The order of the patterns has no two ends: one number is below another, above it, or equal to
/// it, unless one of them is no number.
pub proof fn law_order_is_total(a: Real, b: Real)
    requires
        !a.is_nan(),
        !b.is_nan(),
    ensures
        a.less(b) || b.less_eq(a),
        !(a.less(b) && b.less_eq(a)),
{
}

impl Default for Real {
    fn default() -> (r: Self)
        ensures
            r.bits == 0,
    {
        Real { bits: 0 }
    }
}

impl Real32 {
    /// The bits without the sign.
    pub open spec fn magnitude(self) -> int {
        self.bits as int % 0x8000_0000
    }

    /// Whether the pattern stands for no number.
    pub open spec fn is_nan(self) -> bool {
        self.magnitude() > 0x7f80_0000
    }

    /// A whole number that orders the patterns as the numbers they stand for; both zeros have
    /// the same one.
    pub open spec fn rank(self) -> int {
        if self.bits < 0x8000_0000u32 {
            self.magnitude()
        } else {
            -self.magnitude()
        }
    }

    /// Whether `self` stands for a number below that of `other`.
    pub open spec fn less(self, other: Real32) -> bool {
        !self.is_nan() && !other.is_nan() && self.rank() < other.rank()
    }

    /// Whether the pattern stands for no number.
    pub fn nan(&self) -> (r: bool)
        ensures
            r == self.is_nan(),
    {
        self.bits % 0x8000_0000 > 0x7f80_0000
    }

    fn rank_of(&self) -> (k: i64)
        ensures
            k == self.rank(),
    {
        let m: u32 = self.bits % 0x8000_0000;
        if self.bits < 0x8000_0000 {
            m as i64
        } else {
            -(m as i64)
        }
    }

    /// `self < other`.
    pub fn lt(&self, other: &Real32) -> (r: bool)
        ensures
            r == self.less(*other),
    {
        !self.nan() && !other.nan() && self.rank_of() < other.rank_of()
    }

    /// The number without its sign.
    pub open spec fn absolute(self) -> Real32 {
        Real32 { bits: self.magnitude() as u32 }
    }

    /// The number without its sign.
    pub fn abs(&self) -> (r: Real32)
        ensures
            r == self.absolute(),
    {
        Real32 { bits: self.bits % 0x8000_0000 }
    }

    /// The smaller of two numbers; where one is no number, the other.
    pub open spec fn smaller(self, other: Real32) -> Real32 {
        if self.is_nan() || other.less(self) {
            other
        } else {
            self
        }
    }

    /// The smaller of two numbers; where one is no number, the other.
    pub fn min(&self, other: &Real32) -> (r: Real32)
        ensures
            r == self.smaller(*other),
    {
        if self.nan() || other.lt(self) {
            *other
        } else {
            *self
        }
    }

    /// The larger of two numbers; where one is no number, the other.
    pub open spec fn larger(self, other: Real32) -> Real32 {
        if self.is_nan() || self.less(other) {
            other
        } else {
            self
        }
    }

    /// The larger of two numbers; where one is no number, the other.
    pub fn max(&self, other: &Real32) -> (r: Real32)
        ensures
            r == self.larger(*other),
    {
        if self.nan() || self.lt(other) {
            *other
        } else {
            *self
        }
    }
}

/// How a pattern of 64 bits is read: without its first bit it stands for a number that grows with
/// the pattern, up to infinity, beyond which it stands for none; the first bit takes the number to
/// the other side of zero.
pub proof fn law_patterns_are_read_by_their_bits(bits: u64)
    ensures
        ({
            let r = Real { bits };
            let top: int = 0x8000_0000_0000_0000;
            let infinity: int = 0x7ff0_0000_0000_0000;
            &&& bits < top ==> r.rank() == bits && r.magnitude() == bits
            &&& bits >= top ==> r.rank() == top - bits && r.magnitude() == bits - top
            &&& r.is_nan() <==> r.magnitude() > infinity
            &&& r.is_finite() <==> r.magnitude() < infinity
        }),
{
}

/// The same for 32 bits.
pub proof fn law_short_patterns_are_read_by_their_bits(bits: u32)
    ensures
        ({
            let r = Real32 { bits };
            let top: int = 0x8000_0000;
            &&& bits < top ==> r.rank() == bits && r.magnitude() == bits
            &&& bits >= top ==> r.rank() == top - bits && r.magnitude() == bits - top
            &&& r.is_nan() <==> r.magnitude() > 0x7f80_0000
        }),
{
}

/// Numbers are compared by their order; what is no number is neither below nor above anything.
pub proof fn law_comparisons_follow_the_order(a: Real, b: Real, lt: bool, le: bool)
    requires
        call_ensures(Real::lt, (&a, &b), lt),
        call_ensures(Real::le, (&a, &b), le),
    ensures
        a.is_nan() || b.is_nan() ==> !lt && !le,
        !a.is_nan() && !b.is_nan() ==> (lt <==> a.rank() < b.rank()) && (le <==> a.rank()
            <= b.rank()),
        a.positive() <==> !a.is_nan() && a.rank() > 0,
        a.not_positive() <==> !a.is_nan() && a.rank() <= 0,
        a.between_zero_and(b) <==> !a.is_nan() && !b.is_nan() && 0 <= a.rank() <= b.rank(),
{
}

/// The sign changes the side of zero and nothing else: taken off, it leaves the distance; turned
/// around twice, it is as before.
pub proof fn law_sign_is_taken_off_or_turned(a: Real)
    ensures
        a.absolute().rank() == (if a.rank() >= 0 {
            a.rank()
        } else {
            -a.rank()
        }),
        a.absolute().is_nan() == a.is_nan(),
        a.opposite().rank() == -a.rank(),
        a.opposite().is_nan() == a.is_nan(),
        a.opposite() != a,
        a.opposite().opposite() == a,
{
}

/// The smaller of two numbers is one of them and not above either; beside what is no number, the
/// other is taken.
pub proof fn law_smaller_is_not_above_either(a: Real, b: Real)
    ensures
        a.smaller(b) == a || a.smaller(b) == b,
        !a.is_nan() && !b.is_nan() ==> a.smaller(b).rank() <= a.rank() && a.smaller(b).rank()
            <= b.rank(),
        a.is_nan() ==> a.smaller(b) == b,
        b.is_nan() && !a.is_nan() ==> a.smaller(b) == a,
{
}

/// The same for 32 bits, and for the larger of two.
pub proof fn law_short_numbers_have_smaller_and_larger(a: Real32, b: Real32, lt: bool)
    requires
        call_ensures(Real32::lt, (&a, &b), lt),
    ensures
        lt <==> !a.is_nan() && !b.is_nan() && a.rank() < b.rank(),
        a.smaller(b) == a || a.smaller(b) == b,
        a.larger(b) == a || a.larger(b) == b,
        !a.is_nan() && !b.is_nan() ==> a.smaller(b).rank() <= a.rank() && a.smaller(b).rank()
            <= b.rank() && a.larger(b).rank() >= a.rank() && a.larger(b).rank() >= b.rank(),
        a.is_nan() ==> a.smaller(b) == b && a.larger(b) == b,
        b.is_nan() && !a.is_nan() ==> a.smaller(b) == a && a.larger(b) == a,
        a.absolute().rank() == (if a.rank() >= 0 {
            a.rank()
        } else {
            -a.rank()
        }),
{
}

/// A number is cut to a whole one: to zero where it is none or not above zero, to the largest where
/// it is infinite or too large, and else to its whole part, which is the significand scaled by a
/// power of two and cut.
pub proof fn law_numbers_are_cut_to_whole_ones(a: Real)
    ensures
        a.is_nan() || a.rank() <= 0 ==> a.clamped() == 0,
        !a.is_nan() && a.rank() > 0 && !a.is_finite() ==> a.clamped() == usize::MAX,
        a.is_finite() && a.rank() > 0 && a.whole_part() <= usize::MAX ==> a.clamped()
            == a.whole_part(),
        a.is_finite() && a.rank() > 0 && a.whole_part() > usize::MAX ==> a.clamped() == usize::MAX,
        a.scale() >= 0 ==> a.whole_part() == a.significand() * vstd::arithmetic::power2::pow2(
            a.scale() as nat,
        ),
        a.scale() < 0 ==> {
            let p = vstd::arithmetic::power2::pow2((-a.scale()) as nat);
            a.whole_part() * p <= a.significand() < (a.whole_part() + 1) * p
        },
        a.magnitude() < 0x0010_0000_0000_0000 ==> a.significand() == a.magnitude() && a.scale()
            == -1074,
        a.magnitude() >= 0x0010_0000_0000_0000 ==> a.magnitude() == (a.scale() + 1074)
            * 0x0010_0000_0000_0000 + a.significand(),
{
    if a.scale() < 0 {
        let p = vstd::arithmetic::power2::pow2((-a.scale()) as nat);
        vstd::arithmetic::power2::lemma_pow2_pos((-a.scale()) as nat);
        let s = a.significand();
        vstd::arithmetic::div_mod::lemma_fundamental_div_mod(s as int, p as int);
        vstd::arithmetic::div_mod::lemma_mod_bound(s as int, p as int);
        let q = s / p;
        assert(q * p == p * q) by (nonlinear_arith);
        assert((q + 1) * p == p * q + p) by (nonlinear_arith);
    }
}

} // verus!
