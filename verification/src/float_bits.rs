use vstd::prelude::*;

verus! {

/// A double-precision IEEE-754 value, carried as its 64 raw bits.
///
/// The configuration format stores lengths and variances as binary64
/// numbers.  This crate never computes with them; it only classifies them
/// (positive, non-negative) and orders them, and both are exact integer
/// questions about the bit pattern.  Holding the bits keeps every decoded
/// value round-trippable without loss.
#[derive(Clone, Copy, PartialEq, Eq, Structural, Debug)]
pub struct FloatBits {
    pub bits: u64,
}

/// The biased exponent field of a binary64 bit pattern.
pub open spec fn float_exponent(b: u64) -> u64 {
    (b >> 52) & 0x7ff
}

/// The fraction (mantissa) field of a binary64 bit pattern.
pub open spec fn float_fraction(b: u64) -> u64 {
    b & 0x000f_ffff_ffff_ffff
}

/// The pattern encodes a NaN: exponent all ones with a non-zero fraction.
pub open spec fn float_is_nan(f: FloatBits) -> bool {
    float_exponent(f.bits) == 0x7ff && float_fraction(f.bits) != 0
}

/// The encoded value is strictly greater than zero: the sign bit is clear,
/// the pattern is not `+0.0`, and it is not a NaN.  Subnormals and positive
/// infinity count as positive.
pub open spec fn float_is_positive(f: FloatBits) -> bool {
    f.bits >> 63 == 0 && f.bits != 0 && !float_is_nan(f)
}

/// The encoded value is greater than or equal to zero.  Besides the
/// positive patterns this admits `+0.0` and, because it equals zero
/// numerically, `-0.0` (sign bit set, everything else clear).
pub open spec fn float_is_non_negative(f: FloatBits) -> bool {
    !float_is_nan(f) && (f.bits >> 63 == 0 || f.bits == 0x8000_0000_0000_0000)
}

/// Strict order on two positive binary64 values.  For patterns with the
/// sign bit clear, IEEE-754 numeric order coincides with unsigned order of
/// the bit patterns, so the comparison is plain integer `<`.
pub open spec fn float_lt(a: FloatBits, b: FloatBits) -> bool {
    a.bits < b.bits
}

impl FloatBits {
    /// Classify the pattern as strictly positive.
    pub fn is_positive(&self) -> (r: bool)
        ensures
            r == float_is_positive(*self),
    {
        self.bits >> 63 == 0 && self.bits != 0
            && !((self.bits >> 52) & 0x7ff == 0x7ff && self.bits & 0x000f_ffff_ffff_ffff != 0)
    }

    /// Classify the pattern as non-negative.
    pub fn is_non_negative(&self) -> (r: bool)
        ensures
            r == float_is_non_negative(*self),
    {
        !((self.bits >> 52) & 0x7ff == 0x7ff && self.bits & 0x000f_ffff_ffff_ffff != 0)
            && (self.bits >> 63 == 0 || self.bits == 0x8000_0000_0000_0000)
    }

    /// Compare two positive patterns by value.
    pub fn lt(&self, other: &FloatBits) -> (r: bool)
        ensures
            r == float_lt(*self, *other),
    {
        self.bits < other.bits
    }
}

} // verus!
