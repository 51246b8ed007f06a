//! The render-scale override, carried as the IEEE-754 binary32 encoding of the
//! `f32` the user set (`f32::to_bits`), so that its validation and clamping are
//! integer logic. Over binary32 encodings, a non-NaN value's order follows the
//! magnitude bits for positive values and reverses it for negative ones.

use vstd::prelude::*;

verus! {

/// Encoding of `0.25`, the smallest render scale.
pub const SCALE_MIN_BITS: u32 = 0x3E80_0000;

/// Encoding of `1.0`, the largest render scale.
pub const SCALE_MAX_BITS: u32 = 0x3F80_0000;

/// Encoding of positive infinity; larger magnitudes are NaN.
pub const INFINITY_BITS: u32 = 0x7F80_0000;

/// The sign bit of a binary32 encoding.
pub const SIGN_BIT: u32 = 0x8000_0000;

/// The encoding without its sign bit.
pub open spec fn magnitude(b: u32) -> u32 {
    if b >= SIGN_BIT {
        (b - SIGN_BIT) as u32
    } else {
        b
    }
}

/// The encoded value is NaN.
pub open spec fn is_nan_bits(b: u32) -> bool {
    magnitude(b) > INFINITY_BITS
}

/// The encoded value is finite (`f32::is_finite`).
pub open spec fn is_finite_bits(b: u32) -> bool {
    magnitude(b) < INFINITY_BITS
}

/// The encoded value is `<= 0.0` (either zero, or negative and not NaN).
pub open spec fn le_zero_bits(b: u32) -> bool {
    !is_nan_bits(b) && (magnitude(b) == 0 || b >= SIGN_BIT)
}

/// The encoded value is finite and within `0.25..=1.0`.
pub open spec fn in_scale_range(b: u32) -> bool {
    SCALE_MIN_BITS <= b && b <= SCALE_MAX_BITS
}

/// `f32::clamp(0.25, 1.0)` of a finite encoded value.
pub open spec fn clamp_scale(b: u32) -> u32 {
    if b >= SIGN_BIT || b < SCALE_MIN_BITS {
        SCALE_MIN_BITS
    } else if b > SCALE_MAX_BITS {
        SCALE_MAX_BITS
    } else {
        b
    }
}

/// Whether the encoded value is finite.
pub fn is_finite_scale(b: u32) -> (r: bool)
    ensures
        r == is_finite_bits(b),
{
    let m = if b >= SIGN_BIT {
        b - SIGN_BIT
    } else {
        b
    };
    m < INFINITY_BITS
}

/// Whether the encoded value is `<= 0.0`.
pub fn is_le_zero(b: u32) -> (r: bool)
    ensures
        r == le_zero_bits(b),
{
    let m = if b >= SIGN_BIT {
        b - SIGN_BIT
    } else {
        b
    };
    m <= INFINITY_BITS && (m == 0 || b >= SIGN_BIT)
}

/// Whether the encoded value is finite and in `0.25..=1.0`.
pub fn scale_in_range(b: u32) -> (r: bool)
    ensures
        r == in_scale_range(b),
{
    SCALE_MIN_BITS <= b && b <= SCALE_MAX_BITS
}

/// `f32::clamp(0.25, 1.0)` of a finite encoded value.
pub fn clamp_scale_bits(b: u32) -> (r: u32)
    ensures
        r == clamp_scale(b),
        in_scale_range(r),
{
    if b >= SIGN_BIT || b < SCALE_MIN_BITS {
        SCALE_MIN_BITS
    } else if b > SCALE_MAX_BITS {
        SCALE_MAX_BITS
    } else {
        b
    }
}

/// Clamping leaves a value already in range unchanged.
pub proof fn lemma_clamp_in_range_identity(b: u32)
    requires
        in_scale_range(b),
    ensures
        clamp_scale(b) == b,
{
}

} // verus!
