//! Prices and indicator readings, carried as IEEE-754 binary64 bit patterns.
//!
//! The library never does arithmetic on these values: it stores them, moves
//! them and compares them. A reading is kept exactly, by its 64 bits, and two
//! readings are compared as IEEE-754 compares doubles: a NaN is unordered
//! with everything, and the two zeros are equal.
use vstd::prelude::*;
use vstd::std_specs::cmp::PartialEqSpecImpl;

verus! {

/// The sign bit of a binary64 value.
pub const SIGN_BIT: u64 = 0x8000_0000_0000_0000;

/// Every bit but the sign: exponent and fraction together.
pub const MAGNITUDE_MASK: u64 = 0x7fff_ffff_ffff_ffff;

/// The eleven exponent bits.
pub const EXPONENT_MASK: u64 = 0x7ff0_0000_0000_0000;

/// The fifty-two fraction bits.
pub const FRACTION_MASK: u64 = 0x000f_ffff_ffff_ffff;

/// A binary64 number, held by its bit pattern.
#[derive(Clone, Copy, Debug)]
pub struct Double {
    pub bits: u64,
}

impl Double {
    /// NaN: all exponent bits set and a fraction that is not zero.
    pub open spec fn nan(self) -> bool {
        (self.bits & EXPONENT_MASK) == EXPONENT_MASK && (self.bits & FRACTION_MASK) != 0
    }

    /// The place of a value that is not NaN on the number line: for binary64
    /// the magnitude bits, read as an unsigned integer, grow with the
    /// absolute value, infinity included, and both zeros stand at 0.
    pub open spec fn rank(self) -> int {
        if (self.bits & SIGN_BIT) != 0 {
            -((self.bits & MAGNITUDE_MASK) as int)
        } else {
            (self.bits & MAGNITUDE_MASK) as int
        }
    }

    /// `a > b` as IEEE-754 defines it.
    pub open spec fn above(a: Double, b: Double) -> bool {
        !a.nan() && !b.nan() && a.rank() > b.rank()
    }

    /// `a == b` as IEEE-754 defines it: neither is NaN and both stand at
    /// the same place (so the two zeros are equal).
    pub open spec fn same(a: Double, b: Double) -> bool {
        !a.nan() && !b.nan() && a.rank() == b.rank()
    }

    /// `a < b` as IEEE-754 defines it.
    pub open spec fn below(a: Double, b: Double) -> bool {
        Double::above(b, a)
    }

    /// The value whose bit pattern is `bits`.
    pub fn from_bits(bits: u64) -> (d: Double)
        ensures
            d.bits == bits,
    {
        Double { bits }
    }

    /// Positive zero.
    pub fn zero() -> (d: Double)
        ensures
            d.bits == 0,
            !d.nan(),
            d.rank() == 0,
    {
        assert((0u64 & EXPONENT_MASK) == 0u64) by (bit_vector);
        assert((0u64 & SIGN_BIT) == 0u64) by (bit_vector);
        assert((0u64 & MAGNITUDE_MASK) == 0u64) by (bit_vector);
        Double { bits: 0 }
    }

    /// Whether this value is NaN.
    pub fn is_nan(&self) -> (r: bool)
        ensures
            r == self.nan(),
    {
        (self.bits & EXPONENT_MASK) == EXPONENT_MASK && (self.bits & FRACTION_MASK) != 0
    }

    /// `self > other`, with IEEE-754 semantics.
    pub fn gt(&self, other: &Double) -> (r: bool)
        ensures
            r == Double::above(*self, *other),
    {
        if self.is_nan() || other.is_nan() {
            return false;
        }
        let a = self.bits & MAGNITUDE_MASK;
        let b = other.bits & MAGNITUDE_MASK;
        let a_negative = (self.bits & SIGN_BIT) != 0;
        let b_negative = (other.bits & SIGN_BIT) != 0;
        if !a_negative && !b_negative {
            a > b
        } else if !a_negative && b_negative {
            a != 0 || b != 0
        } else if a_negative && !b_negative {
            false
        } else {
            a < b
        }
    }

    /// `self < other`, with IEEE-754 semantics.
    pub fn lt(&self, other: &Double) -> (r: bool)
        ensures
            r == Double::below(*self, *other),
    {
        other.gt(self)
    }
}

/// Two values that are not NaN stand at the same place exactly when they
/// have the same bits or are the two zeros.
proof fn lemma_same_place(a: u64, b: u64)
    ensures
        (((a & SIGN_BIT) != 0) == ((b & SIGN_BIT) != 0) && (a & MAGNITUDE_MASK) == (b
            & MAGNITUDE_MASK)) ==> a == b,
{
    assert((((a & 0x8000_0000_0000_0000u64) != 0) == ((b & 0x8000_0000_0000_0000u64) != 0) && (a
        & 0x7fff_ffff_ffff_ffffu64) == (b & 0x7fff_ffff_ffff_ffffu64)) ==> a == b) by (bit_vector);
}

impl PartialEq for Double {
    /// IEEE-754 equality: NaN equals nothing, and +0.0 equals -0.0.
    fn eq(&self, other: &Double) -> (r: bool) {
        if self.is_nan() || other.is_nan() {
            return false;
        }
        let a = self.bits & MAGNITUDE_MASK;
        let b = other.bits & MAGNITUDE_MASK;
        proof {
            lemma_same_place(self.bits, other.bits);
        }
        (a == 0 && b == 0) || self.bits == other.bits
    }
}

impl PartialEqSpecImpl for Double {
    open spec fn obeys_eq_spec() -> bool {
        true
    }

    open spec fn eq_spec(&self, other: &Double) -> bool {
        Double::same(*self, *other)
    }
}

} // verus!
