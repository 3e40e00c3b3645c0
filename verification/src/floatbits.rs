//! IEEE-754 binary64 values carried by their bit pattern.
//!
//! Measurements, thresholds and percentages travel through the library as
//! the 64-bit pattern of a binary64 value. The library never does
//! arithmetic on them; it only classifies (finite, zero, sign) and orders
//! them, and both are exact functions of the bit pattern.
use vstd::prelude::*;

verus! {

/// Mask of the eleven exponent bits.
pub const EXPONENT_MASK: u64 = 0x7ff0_0000_0000_0000u64;

/// Mask of every bit but the sign bit.
pub const MAGNITUDE_MASK: u64 = 0x7fff_ffff_ffff_ffffu64;

/// The sign bit.
pub const SIGN_MASK: u64 = 0x8000_0000_0000_0000u64;

/// Bit pattern of positive zero.
pub const ZERO_BITS: u64 = 0u64;

/// Bit pattern of positive infinity.
pub const INFINITY_BITS: u64 = 0x7ff0_0000_0000_0000u64;

/// A binary64 value given by its bit pattern.
#[derive(Clone, Copy, Debug, PartialEq, Eq, Structural)]
pub struct FloatBits {
    pub bits: u64,
}

impl FloatBits {
    /// The exponent field is all ones exactly for infinities and NaNs.
    pub open spec fn spec_is_finite(self) -> bool {
        self.bits & EXPONENT_MASK != EXPONENT_MASK
    }

    /// NaN: exponent all ones, fraction not zero.
    pub open spec fn spec_is_nan(self) -> bool {
        self.bits & EXPONENT_MASK == EXPONENT_MASK && self.bits & 0x000f_ffff_ffff_ffffu64 != 0
    }

    /// Both zeros (positive and negative).
    pub open spec fn spec_is_zero(self) -> bool {
        self.bits & MAGNITUDE_MASK == 0
    }

    pub open spec fn spec_sign_set(self) -> bool {
        self.bits & SIGN_MASK != 0
    }

    /// The pattern without its sign bit, which orders the magnitudes of
    /// non-NaN values.
    pub open spec fn spec_magnitude(self) -> u64 {
        self.bits & MAGNITUDE_MASK
    }

    /// An integer that orders non-NaN values exactly as their real values
    /// are ordered, with both zeros at 0.
    pub open spec fn order_key(self) -> int {
        if self.spec_sign_set() {
            -(self.spec_magnitude() as int)
        } else {
            self.spec_magnitude() as int
        }
    }

    /// `self <= other` as binary64 comparison defines it: false when either
    /// side is NaN.
    pub open spec fn spec_le(self, other: FloatBits) -> bool {
        !self.spec_is_nan() && !other.spec_is_nan() && self.order_key() <= other.order_key()
    }

    /// `self > 0.0`.
    pub open spec fn spec_is_positive(self) -> bool {
        !self.spec_is_nan() && self.order_key() > 0
    }

    /// `self == 0.0` (true for both zeros, false for NaN).
    pub open spec fn spec_eq_zero(self) -> bool {
        self.spec_is_zero()
    }

    /// `|self|`: the sign bit cleared.
    pub open spec fn spec_abs(self) -> FloatBits {
        FloatBits { bits: self.bits & MAGNITUDE_MASK }
    }

    /// `-self`: the sign bit flipped.
    pub open spec fn spec_neg(self) -> FloatBits {
        FloatBits { bits: self.bits ^ SIGN_MASK }
    }

    pub fn from_bits(bits: u64) -> (r: FloatBits)
        ensures
            r.bits == bits,
    {
        FloatBits { bits }
    }

    pub fn zero() -> (r: FloatBits)
        ensures
            r.bits == ZERO_BITS,
            r.spec_is_zero(),
            r.spec_is_finite(),
    {
        assert(0u64 & MAGNITUDE_MASK == 0) by (bit_vector);
        assert(0u64 & EXPONENT_MASK != EXPONENT_MASK) by (bit_vector);
        FloatBits { bits: 0 }
    }

    pub fn infinity() -> (r: FloatBits)
        ensures
            r.bits == INFINITY_BITS,
            !r.spec_is_finite(),
            !r.spec_is_nan(),
    {
        assert(0x7ff0_0000_0000_0000u64 & EXPONENT_MASK == EXPONENT_MASK) by (bit_vector);
        assert(0x7ff0_0000_0000_0000u64 & 0x000f_ffff_ffff_ffffu64 == 0) by (bit_vector);
        FloatBits { bits: INFINITY_BITS }
    }

    pub fn is_finite(&self) -> (r: bool)
        ensures
            r == self.spec_is_finite(),
    {
        self.bits & EXPONENT_MASK != EXPONENT_MASK
    }

    /// The biased exponent field.
    pub open spec fn spec_exponent(self) -> u64 {
        (self.bits >> 52u64) & 0x7ffu64
    }

    /// The significand with its implicit leading one.
    pub open spec fn spec_significand(self) -> u64 {
        (self.bits & 0x000f_ffff_ffff_ffffu64) | 0x0010_0000_0000_0000u64
    }

    /// `self as u64`, the saturating conversion: NaN, negative values and
    /// values below one give 0, values of 2^64 and above (infinity among
    /// them) give `u64::MAX`, and the others are truncated toward zero
    /// (the value is the significand times 2^(exponent - 1075)).
    pub open spec fn spec_to_u64(self) -> u64 {
        let e = self.spec_exponent();
        let m = self.spec_significand();
        if self.spec_is_nan() || self.spec_sign_set() || e < 1023 {
            0
        } else if e >= 1087 {
            u64::MAX
        } else if e >= 1075 {
            m << ((e - 1075) as u64)
        } else {
            m >> ((1075 - e) as u64)
        }
    }

    /// `self as u64` (saturating, truncating toward zero).
    pub fn to_u64_saturating(&self) -> (r: u64)
        ensures
            r == self.spec_to_u64(),
    {
        let b: u64 = self.bits;
        let e: u64 = (b >> 52u64) & 0x7ffu64;
        let m: u64 = (b & 0x000f_ffff_ffff_ffffu64) | 0x0010_0000_0000_0000u64;
        assert(e <= 0x7ff) by (bit_vector)
            requires
                e == (b >> 52u64) & 0x7ffu64,
        ;
        if self.is_nan() || self.bits & SIGN_MASK != 0 || e < 1023 {
            0
        } else if e >= 1087 {
            u64::MAX
        } else if e >= 1075 {
            m << (e - 1075)
        } else {
            m >> (1075 - e)
        }
    }

    pub fn is_nan(&self) -> (r: bool)
        ensures
            r == self.spec_is_nan(),
    {
        self.bits & EXPONENT_MASK == EXPONENT_MASK && self.bits & 0x000f_ffff_ffff_ffffu64 != 0
    }

    pub fn is_zero(&self) -> (r: bool)
        ensures
            r == self.spec_is_zero(),
    {
        self.bits & MAGNITUDE_MASK == 0
    }

    pub fn abs(&self) -> (r: FloatBits)
        ensures
            r == self.spec_abs(),
    {
        FloatBits { bits: self.bits & MAGNITUDE_MASK }
    }

    pub fn neg(&self) -> (r: FloatBits)
        ensures
            r == self.spec_neg(),
    {
        FloatBits { bits: self.bits ^ SIGN_MASK }
    }

    /// `self <= other` under binary64 comparison.
    pub fn le(&self, other: &FloatBits) -> (r: bool)
        ensures
            r == self.spec_le(*other),
    {
        if self.is_nan() || other.is_nan() {
            return false;
        }
        let a = self.bits;
        let b = other.bits;
        let ma = a & MAGNITUDE_MASK;
        let mb = b & MAGNITUDE_MASK;
        let sa = a & SIGN_MASK != 0;
        let sb = b & SIGN_MASK != 0;
        if !sa && !sb {
            ma <= mb
        } else if sa && sb {
            mb <= ma
        } else if sa {
            true
        } else {
            ma == 0 && mb == 0
        }
    }

    /// `self > 0.0` under binary64 comparison.
    pub fn is_positive(&self) -> (r: bool)
        ensures
            r == self.spec_is_positive(),
    {
        !self.is_nan() && self.bits & SIGN_MASK == 0 && self.bits & MAGNITUDE_MASK != 0
    }
}

/// Negation never changes whether a value is NaN, and it mirrors its order
/// key around zero.
pub proof fn lemma_neg_mirrors(x: FloatBits)
    ensures
        x.spec_neg().spec_is_nan() == x.spec_is_nan(),
        x.spec_neg().spec_is_finite() == x.spec_is_finite(),
        x.spec_neg().order_key() == -x.order_key(),
        x.spec_neg().spec_neg() == x,
{
    let b = x.bits;
    assert((b ^ SIGN_MASK) & EXPONENT_MASK == b & EXPONENT_MASK) by (bit_vector);
    assert((b ^ SIGN_MASK) & 0x000f_ffff_ffff_ffffu64 == b & 0x000f_ffff_ffff_ffffu64)
        by (bit_vector);
    assert((b ^ SIGN_MASK) & MAGNITUDE_MASK == b & MAGNITUDE_MASK) by (bit_vector);
    assert(((b ^ SIGN_MASK) & SIGN_MASK != 0) == (b & SIGN_MASK == 0)) by (bit_vector);
    assert((b ^ SIGN_MASK) ^ SIGN_MASK == b) by (bit_vector);
}

/// The magnitude of any value is never negative in the order: `|x| >= 0`.
pub proof fn lemma_abs_non_negative(x: FloatBits)
    ensures
        x.spec_abs().order_key() >= 0,
        x.spec_abs().spec_is_nan() == x.spec_is_nan(),
        x.spec_abs().spec_is_finite() == x.spec_is_finite(),
{
    let b = x.bits;
    assert((b & MAGNITUDE_MASK) & SIGN_MASK == 0) by (bit_vector);
    assert((b & MAGNITUDE_MASK) & EXPONENT_MASK == b & EXPONENT_MASK) by (bit_vector);
    assert((b & MAGNITUDE_MASK) & 0x000f_ffff_ffff_ffffu64 == b & 0x000f_ffff_ffff_ffffu64)
        by (bit_vector);
    assert((b & MAGNITUDE_MASK) & MAGNITUDE_MASK == b & MAGNITUDE_MASK) by (bit_vector);
}

} // verus!
