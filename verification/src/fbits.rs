//! Helpers for IEEE-754 single-precision values carried as raw `u32` bit
//! patterns.
//!
//! The only operations performed here are the ones whose behaviour is fixed
//! bit-for-bit by the IEEE-754 standard independently of any arithmetic:
//! negation (flipping the sign bit) and the ordering of non-negative values
//! (which coincides with the unsigned order of their bit patterns).

use vstd::prelude::*;

verus! {

/// Mask of the sign bit of an `f32` bit pattern.
pub const F32_SIGN_MASK: u32 = 0x8000_0000;

/// Mask of everything but the sign bit.
pub const F32_ABS_MASK: u32 = 0x7fff_ffff;

/// Bit pattern of positive infinity; any pattern whose magnitude bits exceed
/// this is a NaN.
pub const F32_INFINITY_BITS: u32 = 0x7f80_0000;

/// Bit pattern of `0.0f32`.
pub const F32_ZERO: u32 = 0x0000_0000;

/// Bit pattern of `1.0f32`.
pub const F32_ONE: u32 = 0x3f80_0000;

/// Bit pattern of `2.0f32`.
pub const F32_TWO: u32 = 0x4000_0000;

/// True iff the pattern denotes a NaN (exponent all ones, mantissa non-zero).
pub open spec fn spec_f32_is_nan(b: u32) -> bool {
    b & F32_ABS_MASK > F32_INFINITY_BITS
}

/// True iff the sign bit is set (negative values, including -0.0 and negative
/// NaNs).
pub open spec fn spec_f32_is_sign_negative(b: u32) -> bool {
    b & F32_SIGN_MASK == F32_SIGN_MASK
}

/// IEEE-754 negation: the sign bit is flipped and nothing else changes.
pub open spec fn spec_f32_neg(b: u32) -> u32 {
    b ^ F32_SIGN_MASK
}

/// The pattern `f32::max(b, m)` yields when `m` is a positive, finite,
/// non-zero pattern: `m` wins whenever `b` is NaN, has its sign bit set, or
/// denotes a smaller non-negative value; for non-negative non-NaN values the
/// numeric order of `f32` agrees with the unsigned order of the patterns.
pub open spec fn spec_f32_max_positive(b: u32, m: u32) -> u32 {
    if spec_f32_is_nan(b) || spec_f32_is_sign_negative(b) || b < m {
        m
    } else {
        b
    }
}

/// Executable negation of an `f32` bit pattern.
pub fn f32_bits_neg(b: u32) -> (r: u32)
    ensures
        r == spec_f32_neg(b),
{
    b ^ F32_SIGN_MASK
}

/// Executable `f32::max(b, m)` for a positive, finite, non-zero lower bound
/// `m`.
pub fn f32_bits_max_positive(b: u32, m: u32) -> (r: u32)
    requires
        0 < m < F32_INFINITY_BITS,
    ensures
        r == spec_f32_max_positive(b, m),
        !spec_f32_is_nan(r),
        !spec_f32_is_sign_negative(r),
        r >= m,
{
    if b & F32_ABS_MASK > F32_INFINITY_BITS || b & F32_SIGN_MASK == F32_SIGN_MASK || b < m {
        proof {
            assert(m & F32_SIGN_MASK != F32_SIGN_MASK && m & F32_ABS_MASK <= F32_INFINITY_BITS)
                by (bit_vector)
                requires
                    0 < m < F32_INFINITY_BITS,
            ;
        }
        m
    } else {
        b
    }
}

} // verus!
