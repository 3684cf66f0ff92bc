//! Double-precision values carried by their IEEE-754 bit patterns.
//!
//! The codec never computes with these values: it stores them, re-emits them,
//! and evaluates a few predicates (sign tests for the normalizer, truncation
//! for the drawing-time accessor), all of which are pure functions of the
//! 64-bit pattern.  Keeping the pattern instead of a native float makes every
//! one of those predicates a small integer function that can be verified.

use vstd::prelude::*;

verus! {

/// A double-precision value, held as its IEEE-754 bit pattern.
#[derive(Clone, Copy, PartialEq, Eq, Structural, Debug)]
pub struct Double {
    bits: u64,
}

/// Sign bit of a pattern (1 for negative values).
pub open spec fn dbl_sign(bits: u64) -> u64 {
    bits >> 63u64
}

/// Biased exponent field of a pattern.
pub open spec fn dbl_exponent(bits: u64) -> u64 {
    (bits >> 52u64) & 0x7ff
}

/// Fraction field of a pattern.
pub open spec fn dbl_fraction(bits: u64) -> u64 {
    bits & 0xf_ffff_ffff_ffff
}

/// Whether the pattern encodes a NaN.
pub open spec fn dbl_is_nan(bits: u64) -> bool {
    dbl_exponent(bits) == 0x7ff && dbl_fraction(bits) != 0
}

/// Whether the encoded value compares `<= 0.0`: positive zero, or a
/// negative non-NaN value (negative zero and negative infinity included).
pub open spec fn dbl_le_zero(bits: u64) -> bool {
    ||| bits == 0
    ||| (dbl_sign(bits) == 1 && !dbl_is_nan(bits))
}

/// The encoded value truncated toward zero and clamped to `u64`:
/// NaN and every value below zero give 0, values at or above `2^64`
/// give `u64::MAX`, and everything else drops its fractional part.
pub open spec fn dbl_trunc_u64(bits: u64) -> u64 {
    let exp = dbl_exponent(bits);
    let frac = dbl_fraction(bits);
    if exp == 0x7ff {
        // NaN or an infinity.
        if frac != 0 {
            0
        } else if dbl_sign(bits) == 1 {
            0
        } else {
            u64::MAX
        }
    } else if dbl_sign(bits) == 1 {
        0
    } else if exp < 1023 {
        // Magnitude below one, subnormals included.
        0
    } else {
        let e = (exp - 1023) as u64;
        let mant = frac | 0x10_0000_0000_0000;
        if e >= 64 {
            u64::MAX
        } else if e >= 52 {
            mant << (e - 52) as u64
        } else {
            mant >> (52 - e) as u64
        }
    }
}

impl Double {
    /// The bit pattern of the value.
    pub closed spec fn spec_bits(self) -> u64 {
        self.bits
    }

    /// Build a value from its IEEE-754 bit pattern.
    pub fn from_bits(bits: u64) -> (r: Double)
        ensures
            r.spec_bits() == bits,
    {
        Double { bits }
    }

    /// The value positive zero.
    pub fn zero() -> (r: Double)
        ensures
            r.spec_bits() == 0,
    {
        Double { bits: 0 }
    }

    /// The IEEE-754 bit pattern of the value.
    pub fn bits(self) -> (r: u64)
        ensures
            r == self.spec_bits(),
    {
        self.bits
    }

    /// Whether the value compares `<= 0.0`.
    pub fn is_le_zero(self) -> (r: bool)
        ensures
            r == dbl_le_zero(self.spec_bits()),
    {
        let b = self.bits;
        b == 0 || ((b >> 63u64) == 1 && !((b >> 52u64) & 0x7ff == 0x7ff && b & 0xf_ffff_ffff_ffff != 0))
    }

    /// The value truncated toward zero and clamped to `u64`.
    pub fn trunc_u64(self) -> (r: u64)
        ensures
            r == dbl_trunc_u64(self.spec_bits()),
    {
        let b = self.bits;
        let exp: u64 = (b >> 52u64) & 0x7ff;
        let frac: u64 = b & 0xf_ffff_ffff_ffff;
        if exp == 0x7ff {
            if frac != 0 {
                0
            } else if (b >> 63u64) == 1 {
                0
            } else {
                u64::MAX
            }
        } else if (b >> 63u64) == 1 {
            0
        } else if exp < 1023 {
            0
        } else {
            let e: u64 = exp - 1023;
            let mant: u64 = frac | 0x10_0000_0000_0000;
            if e >= 64 {
                u64::MAX
            } else if e >= 52 {
                mant << (e - 52) as u64
            } else {
                mant >> (52 - e) as u64
            }
        }
    }
}

} // verus!
