//! Bit-level facts about IEEE binary32 values.
//!
//! Scalars are carried as raw bit patterns (`u32`). Classification (NaN,
//! finiteness, sign, zero) and the IEEE ordering are pure functions of the
//! bits: the magnitude field of a binary32 value orders exactly as an
//! unsigned integer, so comparisons need no floating-point hardware at all.
//! Everything in this module is verified; nothing is trusted.

use vstd::prelude::*;

verus! {

/// The bit pattern of positive zero.
pub const F32_ZERO: u32 = 0x0000_0000;

/// The bit pattern of one.
pub const F32_ONE: u32 = 0x3F80_0000;

/// The bit pattern of minus one.
pub const F32_NEG_ONE: u32 = 0xBF80_0000;

/// The magnitude (sign bit cleared) of a binary32 bit pattern.
pub open spec fn magnitude(b: u32) -> u32 {
    b & 0x7FFF_FFFF
}

/// Whether the sign bit is set.
pub open spec fn sign_bit(b: u32) -> bool {
    b & 0x8000_0000 != 0
}

/// A NaN has the maximum exponent and a non-zero mantissa, which makes its
/// magnitude larger than the magnitude of infinity.
pub open spec fn is_nan(b: u32) -> bool {
    magnitude(b) > 0x7F80_0000
}

/// Finite values have magnitudes strictly below the magnitude of infinity.
pub open spec fn is_finite(b: u32) -> bool {
    magnitude(b) < 0x7F80_0000
}

/// Both zeros (positive and negative) have magnitude zero.
pub open spec fn is_zero(b: u32) -> bool {
    magnitude(b) == 0
}

/// The IEEE "less than" relation on binary32 values: false whenever either
/// side is NaN; the two zeros are equal; otherwise sign first, then the
/// magnitude field compared as an unsigned integer (for values of equal sign
/// the binary32 encoding orders magnitudes exactly as their bit patterns).
pub open spec fn f32_lt(a: u32, b: u32) -> bool {
    if is_nan(a) || is_nan(b) {
        false
    } else if sign_bit(a) != sign_bit(b) {
        sign_bit(a) && !(is_zero(a) && is_zero(b))
    } else if !sign_bit(a) {
        magnitude(a) < magnitude(b)
    } else {
        magnitude(b) < magnitude(a)
    }
}

/// The smaller of two values under the IEEE order, a NaN operand giving way
/// to the other operand, as the standard minimum operation behaves.
pub open spec fn spec_min(a: u32, b: u32) -> u32 {
    if is_nan(a) {
        b
    } else if is_nan(b) {
        a
    } else if f32_lt(b, a) {
        b
    } else {
        a
    }
}

/// The larger of two values under the IEEE order, a NaN operand giving way
/// to the other operand.
pub open spec fn spec_max(a: u32, b: u32) -> u32 {
    if is_nan(a) {
        b
    } else if is_nan(b) {
        a
    } else if f32_lt(a, b) {
        b
    } else {
        a
    }
}

/// The rectifier: negative values clamp to zero, NaN clamps to zero as the
/// maximum against zero does, everything else passes through.
pub open spec fn spec_relu(x: u32) -> u32 {
    if is_nan(x) {
        F32_ZERO
    } else if f32_lt(x, F32_ZERO) {
        F32_ZERO
    } else {
        x
    }
}

/// Whether the bits encode a probability: a value between zero and one
/// inclusive (either sign of zero admitted).
pub open spec fn spec_is_prob(b: u32) -> bool {
    magnitude(b) <= F32_ONE && (!sign_bit(b) || is_zero(b))
}

/// Whether the bits are admissible as a selection weight: not NaN and not
/// negative (negative zero counts as zero and is admissible).
pub open spec fn weight_ok(w: u32) -> bool {
    !is_nan(w) && (!sign_bit(w) || is_zero(w))
}

/// Whether the bits encode a value inside the closed interval [-1, 1]:
/// not NaN, not IEEE-below minus one, not IEEE-above one.
pub open spec fn in_symmetric_unit(b: u32) -> bool {
    !is_nan(b) && !f32_lt(b, F32_NEG_ONE) && !f32_lt(F32_ONE, b)
}

pub fn magnitude_of(b: u32) -> (r: u32)
    ensures
        r == magnitude(b),
{
    b & 0x7FFF_FFFF
}

pub fn nan_bits(b: u32) -> (r: bool)
    ensures
        r == is_nan(b),
{
    (b & 0x7FFF_FFFF) > 0x7F80_0000
}

pub fn finite_bits(b: u32) -> (r: bool)
    ensures
        r == is_finite(b),
{
    (b & 0x7FFF_FFFF) < 0x7F80_0000
}

pub fn zero_bits(b: u32) -> (r: bool)
    ensures
        r == is_zero(b),
{
    (b & 0x7FFF_FFFF) == 0
}

pub fn negative_bits(b: u32) -> (r: bool)
    ensures
        r == sign_bit(b),
{
    (b & 0x8000_0000) != 0
}

/// The IEEE "less than" comparison, computed on the bit patterns.
pub fn lt(a: u32, b: u32) -> (r: bool)
    ensures
        r == f32_lt(a, b),
{
    if nan_bits(a) || nan_bits(b) {
        false
    } else if negative_bits(a) != negative_bits(b) {
        negative_bits(a) && !(zero_bits(a) && zero_bits(b))
    } else if !negative_bits(a) {
        magnitude_of(a) < magnitude_of(b)
    } else {
        magnitude_of(b) < magnitude_of(a)
    }
}

/// The smaller of two values, NaN giving way to the other operand.
pub fn min32(a: u32, b: u32) -> (r: u32)
    ensures
        r == spec_min(a, b),
{
    if nan_bits(a) {
        b
    } else if nan_bits(b) {
        a
    } else if lt(b, a) {
        b
    } else {
        a
    }
}

/// The larger of two values, NaN giving way to the other operand.
pub fn max32(a: u32, b: u32) -> (r: u32)
    ensures
        r == spec_max(a, b),
{
    if nan_bits(a) {
        b
    } else if nan_bits(b) {
        a
    } else if lt(a, b) {
        b
    } else {
        a
    }
}

/// The rectifier on bit patterns.
pub fn relu(x: u32) -> (r: u32)
    ensures
        r == spec_relu(x),
{
    if nan_bits(x) {
        F32_ZERO
    } else if lt(x, F32_ZERO) {
        F32_ZERO
    } else {
        x
    }
}

/// Whether the bits are admissible as a selection weight.
pub fn weight_bits_ok(w: u32) -> (r: bool)
    ensures
        r == weight_ok(w),
{
    !nan_bits(w) && (!negative_bits(w) || zero_bits(w))
}

} // verus!
