//! IEEE binary32 arithmetic on bit patterns.
//!
//! The four rounding operations (and the conversion from a count to a
//! binary32 value) cannot be stated in a few lines, so each result is given a
//! name: an uninterpreted function of the operand bits alone. The executable
//! wrappers compute those named results with rustc_apfloat's software
//! floating point, which implements IEEE-754 binary32 arithmetic with the
//! default round-to-nearest-ties-to-even — the same function the machine's
//! native single-precision arithmetic computes.

use vstd::prelude::*;
use rustc_apfloat::Float;
use rustc_apfloat::ieee::Single;

verus! {

/// The IEEE binary32 sum of the two operand bit patterns.
pub uninterp spec fn add_of(a: u32, b: u32) -> u32;

/// The IEEE binary32 product of the two operand bit patterns.
pub uninterp spec fn mul_of(a: u32, b: u32) -> u32;

/// The IEEE binary32 quotient of the two operand bit patterns.
pub uninterp spec fn div_of(a: u32, b: u32) -> u32;

/// The binary32 value nearest to the given count.
pub uninterp spec fn real_of_count(n: usize) -> u32;

/// Relies on rustc_apfloat's `Single::add_r`: IEEE binary32 addition.
#[verifier::external_body]
pub fn add32(a: u32, b: u32) -> (r: u32)
    ensures
        r == add_of(a, b),
{
    let x = Single::from_bits(a as u128);
    let y = Single::from_bits(b as u128);
    x.add_r(y, rustc_apfloat::Round::NearestTiesToEven).value.to_bits() as u32
}

/// Relies on rustc_apfloat's `Single::mul_r`: IEEE binary32 multiplication.
#[verifier::external_body]
pub fn mul32(a: u32, b: u32) -> (r: u32)
    ensures
        r == mul_of(a, b),
{
    let x = Single::from_bits(a as u128);
    let y = Single::from_bits(b as u128);
    x.mul_r(y, rustc_apfloat::Round::NearestTiesToEven).value.to_bits() as u32
}

/// Relies on rustc_apfloat's `Single::div_r`: IEEE binary32 division.
#[verifier::external_body]
pub fn div32(a: u32, b: u32) -> (r: u32)
    ensures
        r == div_of(a, b),
{
    let x = Single::from_bits(a as u128);
    let y = Single::from_bits(b as u128);
    x.div_r(y, rustc_apfloat::Round::NearestTiesToEven).value.to_bits() as u32
}

/// Relies on rustc_apfloat's `Single::from_u128`: the conversion of an
/// unsigned count to the nearest binary32 value (ties to even), as the
/// native integer-to-float conversion rounds.
#[verifier::external_body]
pub fn from_count(n: usize) -> (r: u32)
    ensures
        r == real_of_count(n),
{
    Single::from_u128(n as u128).value.to_bits() as u32
}

/// The running sum of a sequence of binary32 values, accumulated left to
/// right starting from positive zero.
pub open spec fn fold_sum(ws: Seq<u32>) -> u32
    decreases ws.len(),
{
    if ws.len() == 0 {
        crate::ieee::F32_ZERO
    } else {
        add_of(fold_sum(ws.drop_last()), ws.last())
    }
}

/// The running sum of a non-empty sequence of binary32 values, seeded with
/// its first element and then accumulated left to right.
pub open spec fn fold_total(ws: Seq<u32>) -> u32
    decreases ws.len(),
{
    if ws.len() <= 1 {
        ws[0]
    } else {
        add_of(fold_total(ws.drop_last()), ws.last())
    }
}

} // verus!
