//! Single-precision real numbers held as their IEEE-754 bit patterns.
//!
//! The library never does arithmetic on these values: it only orders them
//! and compares them with zero, which the bit pattern decides exactly.
use vstd::prelude::*;

verus! {

/// An IEEE-754 binary32 value, held as its bit pattern.
#[derive(Clone, Copy, Debug, PartialEq, Eq, Structural)]
pub struct Scalar {
    pub bits: u32,
}

/// Sign bit of a binary32 pattern.
pub const SIGN_MASK: u32 = 0x8000_0000;

/// Exponent field of a binary32 pattern.
pub const EXPONENT_MASK: u32 = 0x7f80_0000;

/// Fraction field of a binary32 pattern.
pub const FRACTION_MASK: u32 = 0x007f_ffff;

/// Bit pattern of `90.0`.
pub const NINETY_BITS: u32 = 0x42b4_0000;

/// Bit pattern of `-90.0`.
pub const MINUS_NINETY_BITS: u32 = 0xc2b4_0000;

/// Bit pattern of `+0.0`.
pub const ZERO_BITS: u32 = 0;

/// The pattern encodes a NaN: all exponent bits set and a nonzero fraction.
pub open spec fn is_nan_spec(bits: u32) -> bool {
    bits & EXPONENT_MASK == EXPONENT_MASK && bits & FRACTION_MASK != 0
}

/// Position of a non-NaN value on the number line. The order of binary32
/// values is the order of their magnitude bits, mirrored for negative signs;
/// both zeros sit at 0.
pub open spec fn order_key(bits: u32) -> int {
    if bits & SIGN_MASK == 0 {
        (bits & !SIGN_MASK) as int
    } else {
        -((bits & !SIGN_MASK) as int)
    }
}

impl Scalar {
    /// `self < other` as IEEE-754 defines it: false whenever either is NaN.
    pub open spec fn spec_lt(self, other: Scalar) -> bool {
        !is_nan_spec(self.bits) && !is_nan_spec(other.bits) && order_key(self.bits) < order_key(
            other.bits,
        )
    }

    /// `self <= other` as IEEE-754 defines it: false whenever either is NaN.
    pub open spec fn spec_le(self, other: Scalar) -> bool {
        !is_nan_spec(self.bits) && !is_nan_spec(other.bits) && order_key(self.bits) <= order_key(
            other.bits,
        )
    }

    /// The value is `+0.0` or `-0.0`.
    pub open spec fn spec_is_zero(self) -> bool {
        self.bits & !SIGN_MASK == 0
    }

    pub fn from_bits(bits: u32) -> (r: Scalar)
        ensures
            r.bits == bits,
    {
        Scalar { bits }
    }

    pub fn ninety() -> (r: Scalar)
        ensures
            r.bits == NINETY_BITS,
    {
        Scalar { bits: NINETY_BITS }
    }

    pub fn minus_ninety() -> (r: Scalar)
        ensures
            r.bits == MINUS_NINETY_BITS,
    {
        Scalar { bits: MINUS_NINETY_BITS }
    }

    pub fn zero() -> (r: Scalar)
        ensures
            r.bits == ZERO_BITS,
    {
        Scalar { bits: ZERO_BITS }
    }

    pub fn is_nan(&self) -> (r: bool)
        ensures
            r == is_nan_spec(self.bits),
    {
        self.bits & EXPONENT_MASK == EXPONENT_MASK && self.bits & FRACTION_MASK != 0
    }

    fn key(&self) -> (r: i64)
        ensures
            r as int == order_key(self.bits),
    {
        let magnitude: u32 = self.bits & !SIGN_MASK;
        if self.bits & SIGN_MASK == 0 {
            magnitude as i64
        } else {
            -(magnitude as i64)
        }
    }

    pub fn lt(&self, other: &Scalar) -> (r: bool)
        ensures
            r == self.spec_lt(*other),
    {
        !self.is_nan() && !other.is_nan() && self.key() < other.key()
    }

    pub fn le(&self, other: &Scalar) -> (r: bool)
        ensures
            r == self.spec_le(*other),
    {
        !self.is_nan() && !other.is_nan() && self.key() <= other.key()
    }

    pub fn is_zero(&self) -> (r: bool)
        ensures
            r == self.spec_is_zero(),
    {
        self.bits & !SIGN_MASK == 0
    }
}

} // verus!
