//! The pseudo-random source and the draws the strategies make from it.
//!
//! All randomness is threaded through one caller-owned `ChaCha8Rng`. The
//! trusted surface is small: the two raw word draws, one Bernoulli trial and
//! one draw from the unit interval. The remaining draws (the fair coin and
//! the uniform weight in [-1, 1]) are derived from the raw words in verified
//! code, consuming the random stream exactly as rand's own samplers do.

use vstd::prelude::*;
use rand::Rng;
use rand::RngCore;
use rand_chacha::ChaCha8Rng;
use byteorder::ByteOrder;

verus! {

#[verifier::external_type_specification]
#[verifier::external_body]
pub struct ExChaCha8Rng(ChaCha8Rng);

/// Relies on rand_core's `RngCore::next_u32` for ChaCha8Rng: one 32-bit draw.
/// Nothing is promised of the value.
#[verifier::external_body]
pub fn next_word(rng: &mut ChaCha8Rng) -> (r: u32) {
    rng.next_u32()
}

/// Relies on rand's `Rng::gen_bool`, a Bernoulli trial: with probability zero
/// the draw is always false, with probability one always true. The chance
/// arrives as binary32 bits and must encode a probability, since `gen_bool`
/// rejects anything outside the unit interval.
#[verifier::external_body]
pub fn gen_chance(rng: &mut ChaCha8Rng, chance: u32) -> (r: bool)
    requires
        crate::ieee::spec_is_prob(chance),
    ensures
        crate::ieee::is_zero(chance) ==> !r,
        chance == crate::ieee::F32_ONE ==> r,
{
    rng.gen_bool(byteorder::LittleEndian::read_f32(&chance.to_le_bytes()).into())
}

/// Relies on rand's `Standard` distribution for single-precision values:
/// a draw uniform over [0, 1), so never negative and always below one.
#[verifier::external_body]
pub fn gen_unit(rng: &mut ChaCha8Rng) -> (r: u32)
    ensures
        !crate::ieee::sign_bit(r),
        r < crate::ieee::F32_ONE,
{
    let mut buf = [0u8; 4];
    byteorder::LittleEndian::write_f32(&mut buf, rng.gen());
    u32::from_le_bytes(buf)
}

/// A fair coin: one Bernoulli trial at an even chance (the bits of one
/// half).
pub fn coin(rng: &mut ChaCha8Rng) -> bool {
    proof {
        assert(crate::ieee::spec_is_prob(0x3F00_0000u32)) by (bit_vector);
    }
    gen_chance(rng, 0x3F00_0000)
}

/// Relies on rand's `Rng::gen_range` over the closed interval from minus one
/// to one (the two borders read back from their bit patterns): the inclusive
/// uniform sampler promises a result inside that range, so the draw is never
/// NaN and lies IEEE-between minus one and one.
#[verifier::external_body]
pub fn gen_symmetric_unit(rng: &mut ChaCha8Rng) -> (r: u32)
    ensures
        crate::ieee::in_symmetric_unit(r),
{
    let low = byteorder::LittleEndian::read_f32(&0xBF80_0000u32.to_le_bytes());
    let high = byteorder::LittleEndian::read_f32(&0x3F80_0000u32.to_le_bytes());
    let mut buf = [0u8; 4];
    byteorder::LittleEndian::write_f32(&mut buf, rng.gen_range(low..=high));
    u32::from_le_bytes(buf)
}

} // verus!
