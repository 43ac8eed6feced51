//! Real numbers in their IEEE 754 binary64 encoding.
//!
//! The tracer never computes with a real number: its callers evaluate the
//! formulas of the geometry and hand the results over. What the tracer does
//! with such a result is to compare it, and a comparison can be read off the
//! encoding exactly. A [`Real`] is therefore the 64 bits of a binary64 number,
//! and this module says which bit patterns are numbers and how they order.

use vstd::prelude::*;
use vstd::arithmetic::power2::{
    lemma2_to64, lemma_pow2_adds, lemma_pow2_pos, lemma_pow2_strictly_increases,
    lemma_pow2_unfold, pow2,
};

verus! {

/// The sign bit of an encoding.
pub const SIGN: u64 = 0x8000_0000_0000_0000;

/// The encoding of positive infinity. Among the encodings with a clear sign
/// bit the finite numbers lie below it and the NaNs above it.
pub const INFINITY: u64 = 0x7FF0_0000_0000_0000;

/// The encoding of the number one.
pub const ONE: u64 = 0x3FF0_0000_0000_0000;

/// Two to the power of 52: an encoding without its sign bit is its exponent
/// field times this, plus its fraction field.
pub const HIDDEN: u64 = 0x0010_0000_0000_0000;

/// A binary64 number, held by its encoding.
#[derive(Clone, Copy, Debug, PartialEq, Eq, Structural)]
pub struct Real {
    pub bits: u64,
}

impl Real {
    /// Whether the sign bit is set.
    pub open spec fn negative(self) -> bool {
        self.bits >= SIGN
    }

    /// The encoding without its sign bit.
    pub open spec fn magnitude(self) -> int {
        if self.negative() {
            self.bits - SIGN
        } else {
            self.bits as int
        }
    }

    /// Whether the encoding is not a number.
    pub open spec fn nan(self) -> bool {
        self.magnitude() > INFINITY
    }

    /// Whether the encoding is a number other than an infinity.
    pub open spec fn finite(self) -> bool {
        self.magnitude() < INFINITY
    }

    /// The exponent field of the encoding.
    pub open spec fn exponent(self) -> int {
        self.magnitude() / (HIDDEN as int)
    }

    /// The fraction field of the encoding.
    pub open spec fn fraction(self) -> int {
        self.magnitude() % (HIDDEN as int)
    }

    /// The size of a finite number, in units of two to the power of -1074:
    /// the fraction of a subnormal number; for a normal number the fraction
    /// with the hidden bit before it, doubled once for each step of the
    /// exponent above 1.
    pub open spec fn size(self) -> int {
        if self.exponent() == 0 {
            self.fraction()
        } else {
            (HIDDEN + self.fraction()) * pow2((self.exponent() - 1) as nat)
        }
    }

    /// The value of a finite number, in units of two to the power of -1074.
    pub open spec fn scaled(self) -> int {
        if self.negative() {
            -self.size()
        } else {
            self.size()
        }
    }

    /// Position of a number on the real line: binary64 numbers of the same
    /// sign order as their magnitudes do, and the two zeros share position 0.
    /// Means nothing for a NaN.
    pub open spec fn rank(self) -> int {
        if self.negative() {
            -self.magnitude()
        } else {
            self.magnitude()
        }
    }

    /// `self < other` as IEEE 754 defines it: false as soon as either side is
    /// a NaN.
    pub open spec fn below(self, other: Real) -> bool {
        !self.nan() && !other.nan() && self.rank() < other.rank()
    }

    /// `self == other` as IEEE 754 defines it: a NaN equals nothing, and the
    /// two zeros equal each other.
    pub open spec fn same(self, other: Real) -> bool {
        !self.nan() && !other.nan() && self.rank() == other.rank()
    }

    /// `self > other` as IEEE 754 defines it.
    pub open spec fn above(self, other: Real) -> bool {
        other.below(self)
    }

    /// `self >= other` as IEEE 754 defines it.
    pub open spec fn at_least(self, other: Real) -> bool {
        other.below(self) || other.same(self)
    }

    /// The encoding of the number of the same size and the other sign.
    pub open spec fn negated(self) -> Real {
        Real { bits: if self.negative() { (self.bits - SIGN) as u64 } else { (self.bits + SIGN) as u64 } }
    }

    /// The number with the given encoding.
    pub fn from_bits(bits: u64) -> (r: Real)
        ensures
            r.bits == bits,
    {
        Real { bits }
    }

    /// Positive zero.
    pub fn zero() -> (r: Real)
        ensures
            r.bits == 0,
    {
        Real { bits: 0 }
    }

    /// The number one.
    pub fn one() -> (r: Real)
        ensures
            r.bits == ONE,
    {
        Real { bits: ONE }
    }

    /// Positive infinity.
    pub fn infinity() -> (r: Real)
        ensures
            r.bits == INFINITY,
    {
        Real { bits: INFINITY }
    }

    fn magnitude_bits(self) -> (m: u64)
        ensures
            m == self.magnitude(),
    {
        if self.bits >= SIGN {
            self.bits - SIGN
        } else {
            self.bits
        }
    }

    fn rank_bits(self) -> (k: i64)
        ensures
            k == self.rank(),
    {
        let m: u64 = self.magnitude_bits();
        if self.bits >= SIGN {
            -(m as i64)
        } else {
            m as i64
        }
    }

    /// `-self`: the sign bit flipped, whatever else the encoding holds.
    pub fn neg(self) -> (r: Real)
        ensures
            r == self.negated(),
            r.magnitude() == self.magnitude(),
            r.negative() != self.negative(),
    {
        if self.bits >= SIGN {
            Real { bits: self.bits - SIGN }
        } else {
            Real { bits: self.bits + SIGN }
        }
    }

    /// Whether the encoding is not a number.
    pub fn is_nan(self) -> (r: bool)
        ensures
            r == self.nan(),
    {
        self.magnitude_bits() > INFINITY
    }

    /// Whether the encoding is a number other than an infinity.
    pub fn is_finite(self) -> (r: bool)
        ensures
            r == self.finite(),
    {
        self.magnitude_bits() < INFINITY
    }

    /// `self < other`.
    pub fn lt(self, other: Real) -> (r: bool)
        ensures
            r == self.below(other),
    {
        !self.is_nan() && !other.is_nan() && self.rank_bits() < other.rank_bits()
    }

    /// `self > other`.
    pub fn gt(self, other: Real) -> (r: bool)
        ensures
            r == self.above(other),
    {
        other.lt(self)
    }

    /// `self >= other`.
    pub fn ge(self, other: Real) -> (r: bool)
        ensures
            r == self.at_least(other),
    {
        !self.is_nan() && !other.is_nan() && self.rank_bits() >= other.rank_bits()
    }

    /// `self == other`, as numbers: not as encodings, which `==` compares.
    pub fn eq_value(self, other: Real) -> (r: bool)
        ensures
            r == self.same(other),
    {
        !self.is_nan() && !other.is_nan() && self.rank_bits() == other.rank_bits()
    }
}

/// Of two finite numbers the one with the larger encoding, signs apart, is
/// the larger in size.
proof fn lemma_size_increases(a: Real, b: Real)
    requires
        b.finite(),
        a.magnitude() < b.magnitude(),
    ensures
        0 <= a.size() < b.size(),
{
    let h = HIDDEN as int;
    let (ea, fa) = (a.exponent(), a.fraction());
    let (eb, fb) = (b.exponent(), b.fraction());
    assert(0 <= ea <= eb && 0 <= fa < h && 0 <= fb < h);
    if ea == 0 {
        if eb != 0 {
            let pb = pow2((eb - 1) as nat) as int;
            lemma_pow2_pos((eb - 1) as nat);
            assert((h + fb) * pb >= h) by (nonlinear_arith)
                requires
                    pb >= 1,
                    fb >= 0,
                    h >= 0,
            ;
        }
    } else {
        let pa = pow2((ea - 1) as nat) as int;
        let pb = pow2((eb - 1) as nat) as int;
        lemma_pow2_pos((ea - 1) as nat);
        assert(0 <= (h + fa) * pa) by (nonlinear_arith)
            requires
                pa >= 1,
                fa >= 0,
                h >= 0,
        ;
        if ea == eb {
            assert((h + fa) * pa < (h + fb) * pa) by (nonlinear_arith)
                requires
                    pa >= 1,
                    fa < fb,
            ;
        } else {
            // One step of the exponent doubles the size, and a fraction is
            // less than the hidden bit: less than doubling.
            lemma_pow2_unfold(ea as nat);
            if ea < eb - 1 {
                lemma_pow2_strictly_increases(ea as nat, (eb - 1) as nat);
            }
            assert(2 * pa <= pb);
            assert((h + fa) * pa < (h + fb) * pb) by (nonlinear_arith)
                requires
                    pa >= 1,
                    2 * pa <= pb,
                    0 <= fa < h,
                    0 <= fb,
            ;
        }
    }
}

/// Finite numbers lie on the real line as their encodings rank them: the
/// rank of one is below the rank of another exactly where its value is, and
/// two have one rank exactly where they have one value.
pub proof fn lemma_rank_orders_values(a: Real, b: Real)
    requires
        a.finite(),
        b.finite(),
    ensures
        a.rank() < b.rank() <==> a.scaled() < b.scaled(),
        a.rank() == b.rank() <==> a.scaled() == b.scaled(),
{
    let nought = Real { bits: 0 };
    assert(nought.size() == 0);
    if a.magnitude() < b.magnitude() {
        lemma_size_increases(a, b);
    }
    if b.magnitude() < a.magnitude() {
        lemma_size_increases(b, a);
    }
    if 0 < a.magnitude() {
        lemma_size_increases(nought, a);
    }
    if 0 < b.magnitude() {
        lemma_size_increases(nought, b);
    }
    if a.magnitude() == 0 {
        assert(a.size() == 0);
    }
    if b.magnitude() == 0 {
        assert(b.size() == 0);
    }
}

/// The encoding [`ONE`] is that of the number one: its value, in units of
/// two to the power of -1074, is two to the power of 1074.
pub proof fn lemma_one_is_one()
    ensures
        (Real { bits: ONE }).finite(),
        (Real { bits: ONE }).scaled() == pow2(1074),
{
    let one = Real { bits: ONE };
    assert(one.exponent() == 1023 && one.fraction() == 0);
    lemma2_to64();
    lemma_pow2_adds(32, 20);
    lemma_pow2_adds(52, 1022);
}

} // verus!
