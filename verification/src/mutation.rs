//! In-place perturbation of a freshly produced child chromosome.

use vstd::prelude::*;
use rand_chacha::ChaCha8Rng;
use crate::chromosome::Chromosome;

verus! {

pub trait MutationMethod: Sized {
    /// Whether this method's configuration is usable at all.
    spec fn valid(&self) -> bool;

    /// What this method guarantees about the chromosome after the call.
    spec fn mutate_ens(&self, before: Seq<u32>, after: Seq<u32>) -> bool;

    /// Perturb the chromosome in place. The chromosome is owned exclusively
    /// by the caller at this point; its length never changes.
    fn mutate(&self, rng: &mut ChaCha8Rng, child: &mut Chromosome)
        requires
            self.valid(),
        ensures
            final(child)@.len() == old(child)@.len(),
            self.mutate_ens(old(child)@, final(child)@),
    ;
}

/// Per-gene perturbation: each gene is independently touched with
/// probability `chance`, and a touched gene moves by a uniformly drawn
/// magnitude of at most `coeff`, with a fair-coin sign.
pub struct GaussianMutation {
    /// Probability of touching a gene, as binary32 bits in [0, 1].
    pub chance: u32,
    /// Largest magnitude of a perturbation, as binary32 bits.
    pub coeff: u32,
}

impl GaussianMutation {
    /// The chance must encode a probability; anything else is a programming
    /// error, ruled out by the precondition.
    pub fn new(chance: u32, coeff: u32) -> (r: Self)
        requires
            crate::ieee::spec_is_prob(chance),
        ensures
            r == (GaussianMutation { chance, coeff }),
    {
        GaussianMutation { chance, coeff }
    }
}

impl MutationMethod for GaussianMutation {
    open spec fn valid(&self) -> bool {
        crate::ieee::spec_is_prob(self.chance)
    }

    /// A zero chance touches no gene, and a zero coefficient moves no gene:
    /// either way the chromosome comes out exactly as it went in. Any gene
    /// that does change moves exactly by a signed multiple of the
    /// coefficient, the multiplier drawn from [0, 1).
    open spec fn mutate_ens(&self, before: Seq<u32>, after: Seq<u32>) -> bool {
        &&& (crate::ieee::is_zero(self.chance) ==> after == before)
        &&& (crate::ieee::is_zero(self.coeff) ==> after == before)
        &&& forall|i: int|
            0 <= i < after.len() ==> #[trigger] after[i] == before[i] || exists|sign: u32, mag: u32|
                (sign == crate::ieee::F32_ONE || sign == crate::ieee::F32_NEG_ONE)
                    && !crate::ieee::sign_bit(mag) && mag < crate::ieee::F32_ONE && after[i]
                    == crate::arith::add_of(
                    before[i],
                    crate::arith::mul_of(crate::arith::mul_of(sign, self.coeff), mag),
                )
    }

    fn mutate(&self, rng: &mut ChaCha8Rng, child: &mut Chromosome) {
        let n: usize = child.len();
        for i in 0..n
            invariant
                n == child@.len(),
                crate::ieee::spec_is_prob(self.chance),
                crate::ieee::is_zero(self.chance) ==> child@ == old(child)@,
                crate::ieee::is_zero(self.coeff) ==> child@ == old(child)@,
                child@.len() == old(child)@.len(),
                forall|k: int|
                    0 <= k < child@.len() ==> #[trigger] child@[k] == old(child)@[k] || exists|
                        sign: u32,
                        mag: u32,
                    |
                        (sign == crate::ieee::F32_ONE || sign == crate::ieee::F32_NEG_ONE)
                            && !crate::ieee::sign_bit(mag) && mag < crate::ieee::F32_ONE
                            && child@[k] == crate::arith::add_of(
                            old(child)@[k],
                            crate::arith::mul_of(
                                crate::arith::mul_of(sign, self.coeff),
                                mag,
                            ),
                        ),
                forall|k: int| i <= k < child@.len() ==> #[trigger] child@[k] == old(child)@[k],
        {
            // The sign is drawn before the trial, matching the order in
            // which the strategy consumes the random stream.
            let sign: u32 = if crate::rng::coin(rng) {
                crate::ieee::F32_NEG_ONE
            } else {
                crate::ieee::F32_ONE
            };
            let touched: bool = crate::rng::gen_chance(rng, self.chance);
            if touched {
                let magnitude: u32 = crate::rng::gen_unit(rng);
                // With a zero coefficient the perturbation is a zero and the
                // gene keeps its value, so the write is skipped; the random
                // stream has already advanced exactly as it otherwise would.
                if !crate::ieee::zero_bits(self.coeff) {
                    let delta: u32 = crate::arith::mul32(
                        crate::arith::mul32(sign, self.coeff),
                        magnitude,
                    );
                    let moved: u32 = crate::arith::add32(child.get(i), delta);
                    child.set(i, moved);
                    proof {
                        assert(child@.len() == old(child)@.len());
                        assert((sign == crate::ieee::F32_ONE || sign == crate::ieee::F32_NEG_ONE)
                            && !crate::ieee::sign_bit(magnitude) && magnitude
                            < crate::ieee::F32_ONE && child@[i as int] == crate::arith::add_of(
                            old(child)@[i as int],
                            crate::arith::mul_of(
                                crate::arith::mul_of(sign, self.coeff),
                                magnitude,
                            ),
                        ));
                    }
                }
            }
        }
    }
}

} // verus!
