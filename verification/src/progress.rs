//! The load progress of a page: a fraction between zero and one.
//!
//! The web engine reports progress as a double-precision number. The shell
//! only ever stores such a number and hands it on, so it is kept here as the
//! 64 bits of its IEEE 754 encoding: nothing is rounded, and every value that
//! the engine can report has exactly one representation.
//!
//! For numbers of the unit interval the encoding is monotone: apart from
//! negative zero, a smaller number has a smaller bit pattern. The order and
//! the range test below are stated over the bit patterns on that ground.
use vstd::prelude::*;

verus! {

/// The encoding of 1.0.
pub const ONE_BITS: u64 = 0x3FF0_0000_0000_0000;

/// The encoding of -0.0, which compares equal to 0.0.
pub const NEGATIVE_ZERO_BITS: u64 = 0x8000_0000_0000_0000;

/// A progress value, by the bits of its encoding.
#[derive(Clone, Copy, Debug, PartialEq, Eq, Structural)]
pub struct Fraction {
    pub bits: u64,
}

impl Fraction {
    /// Positive zero: what the indicator shows while nothing loads.
    pub open spec fn spec_zero() -> Fraction {
        Fraction { bits: 0 }
    }

    /// Whether the number lies in the closed interval from zero to one.
    pub open spec fn is_unit(self) -> bool {
        self.bits <= ONE_BITS || self.bits == NEGATIVE_ZERO_BITS
    }

    /// The place of a number of the unit interval among all of them, counted
    /// from zero upwards. Both zeros share the first place.
    pub open spec fn rank(self) -> u64
        recommends
            self.is_unit(),
    {
        if self.bits == NEGATIVE_ZERO_BITS {
            0
        } else {
            self.bits
        }
    }

    /// Numeric `<=` on numbers of the unit interval.
    pub open spec fn spec_at_most(self, other: Fraction) -> bool
        recommends
            self.is_unit(),
            other.is_unit(),
    {
        self.rank() <= other.rank()
    }

    /// The fraction with the given encoding.
    pub fn from_bits(bits: u64) -> (r: Fraction)
        ensures
            r.bits == bits,
    {
        Fraction { bits }
    }

    /// The encoding of this fraction.
    pub fn to_bits(self) -> (r: u64)
        ensures
            r == self.bits,
    {
        self.bits
    }

    /// Positive zero.
    #[verifier::when_used_as_spec(spec_zero)]
    pub fn zero() -> (r: Fraction)
        ensures
            r == Fraction::spec_zero(),
    {
        Fraction { bits: 0 }
    }

    /// Tests whether the number lies between zero and one, both included.
    pub fn in_unit_interval(self) -> (r: bool)
        ensures
            r == self.is_unit(),
    {
        self.bits <= ONE_BITS || self.bits == NEGATIVE_ZERO_BITS
    }

    /// Compares two numbers by their places. For two numbers of the unit
    /// interval this is numeric `<=`.
    #[verifier::when_used_as_spec(spec_at_most)]
    pub fn at_most(self, other: Fraction) -> (r: bool)
        ensures
            r == self.spec_at_most(other),
    {
        let a: u64 = if self.bits == NEGATIVE_ZERO_BITS { 0 } else { self.bits };
        let b: u64 = if other.bits == NEGATIVE_ZERO_BITS { 0 } else { other.bits };
        a <= b
    }
}

} // verus!
