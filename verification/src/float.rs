//! Double-precision numbers, held by their IEEE-754 bit pattern.
//!
//! The machine never computes with these numbers itself. It classifies and
//! compares them, which the bit pattern alone decides, and hands sums,
//! products and quotients to its driver.

use vstd::prelude::*;

verus! {

/// Two to the power 63: the weight of the sign bit.
pub const SIGN_WEIGHT: u64 = 0x8000_0000_0000_0000;

/// Two to the power 52: the weight of the lowest exponent bit.
pub const EXPONENT_WEIGHT: u64 = 0x0010_0000_0000_0000;

/// The exponent field of infinities and of values that are not numbers.
pub const EXPONENT_MAX: u64 = 0x7ff;

/// A double-precision number, held by its IEEE-754 binary64 bit pattern.
///
/// The derived `==` compares bit patterns. Numeric equality, under which a
/// value that is not a number differs from itself and the two zeros are
/// equal, is [`Float::numeric_eq`].
#[derive(Clone, Copy, Debug, PartialEq, Eq, Structural)]
pub struct Float {
    /// The bit pattern: one sign bit, eleven exponent bits, 52 fraction bits.
    pub bits: u64,
}

impl Float {
    /// Whether the sign bit is set.
    pub open spec fn negative(self) -> bool {
        self.bits >= SIGN_WEIGHT
    }

    /// The pattern without its sign bit.
    pub open spec fn magnitude(self) -> int {
        self.bits as int % (SIGN_WEIGHT as int)
    }

    /// The eleven exponent bits.
    pub open spec fn exponent(self) -> int {
        self.magnitude() / (EXPONENT_WEIGHT as int)
    }

    /// The 52 fraction bits.
    pub open spec fn fraction(self) -> int {
        self.magnitude() % (EXPONENT_WEIGHT as int)
    }

    /// Whether the pattern stands for no number at all.
    pub open spec fn spec_is_nan(self) -> bool {
        self.exponent() == EXPONENT_MAX && self.fraction() != 0
    }

    /// Whether the pattern stands for a number that is neither infinite nor
    /// missing.
    pub open spec fn spec_is_finite(self) -> bool {
        self.exponent() != EXPONENT_MAX
    }

    /// The rank of a pattern among all patterns that stand for a number:
    /// the magnitude, negated under a sign bit. Both zeros have rank zero.
    pub open spec fn rank(self) -> int {
        if self.negative() {
            -self.magnitude()
        } else {
            self.magnitude()
        }
    }

    /// Numeric equality: both are numbers and have the same rank.
    pub open spec fn spec_numeric_eq(self, other: Float) -> bool {
        !self.spec_is_nan() && !other.spec_is_nan() && self.rank() == other.rank()
    }

    /// Numeric `<`: both are numbers and the first ranks lower.
    pub open spec fn spec_lt(self, other: Float) -> bool {
        !self.spec_is_nan() && !other.spec_is_nan() && self.rank() < other.rank()
    }

    /// Numeric `<=`: both are numbers and the first ranks no higher.
    pub open spec fn spec_le(self, other: Float) -> bool {
        !self.spec_is_nan() && !other.spec_is_nan() && self.rank() <= other.rank()
    }

    /// Wrap a bit pattern.
    pub fn from_bits(bits: u64) -> (float: Float)
        ensures
            float.bits == bits,
    {
        Float { bits }
    }

    /// The bit pattern.
    pub fn to_bits(self) -> (bits: u64)
        ensures
            bits == self.bits,
    {
        self.bits
    }

    /// Whether the pattern stands for no number at all.
    pub fn is_nan(self) -> (nan: bool)
        ensures
            nan == self.spec_is_nan(),
    {
        let magnitude = self.bits % SIGN_WEIGHT;
        magnitude / EXPONENT_WEIGHT == EXPONENT_MAX && magnitude % EXPONENT_WEIGHT != 0
    }

    /// Whether the pattern stands for a number that is neither infinite nor
    /// missing.
    pub fn is_finite(self) -> (finite: bool)
        ensures
            finite == self.spec_is_finite(),
    {
        let magnitude = self.bits % SIGN_WEIGHT;
        magnitude / EXPONENT_WEIGHT != EXPONENT_MAX
    }

    /// The rank of the pattern, as a machine integer.
    fn rank_i64(self) -> (rank: i64)
        ensures
            rank == self.rank(),
    {
        let magnitude = (self.bits % SIGN_WEIGHT) as i64;
        if self.bits >= SIGN_WEIGHT {
            -magnitude
        } else {
            magnitude
        }
    }

    /// Numeric equality.
    pub fn numeric_eq(self, other: Float) -> (eq: bool)
        ensures
            eq == self.spec_numeric_eq(other),
    {
        !self.is_nan() && !other.is_nan() && self.rank_i64() == other.rank_i64()
    }

    /// Numeric `<`.
    pub fn lt(self, other: Float) -> (lt: bool)
        ensures
            lt == self.spec_lt(other),
    {
        !self.is_nan() && !other.is_nan() && self.rank_i64() < other.rank_i64()
    }

    /// Numeric `<=`.
    pub fn le(self, other: Float) -> (le: bool)
        ensures
            le == self.spec_le(other),
    {
        !self.is_nan() && !other.is_nan() && self.rank_i64() <= other.rank_i64()
    }
}

} // verus!
