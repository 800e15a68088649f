//! Recombination of two parent chromosomes into a child.

use vstd::prelude::*;
use rand_chacha::ChaCha8Rng;
use crate::chromosome::Chromosome;

verus! {

pub trait CrossoverMethod: Sized {
    /// What this method guarantees of a child beyond its length.
    spec fn crossover_ens(&self, a: Seq<u32>, b: Seq<u32>, r: Seq<u32>) -> bool;

    /// Recombine two parents of equal length into a child of that length.
    /// Unequal parent lengths indicate a topology mismatch upstream and are a
    /// programming error, ruled out by the precondition. The parents are
    /// never written to.
    fn crossover(&self, rng: &mut ChaCha8Rng, parent_a: &Chromosome, parent_b: &Chromosome) -> (r:
        Chromosome)
        requires
            parent_a@.len() == parent_b@.len(),
        ensures
            r@.len() == parent_a@.len(),
            self.crossover_ens(parent_a@, parent_b@, r@),
    ;
}

/// Uniform per-gene crossover: every position is taken from one parent or
/// the other, chosen independently by a fair coin.
#[derive(Clone, Copy)]
pub struct UniformCrossover;

impl UniformCrossover {
    pub fn new() -> (r: Self)
        ensures
            r == UniformCrossover,
    {
        UniformCrossover
    }
}

impl CrossoverMethod for UniformCrossover {
    /// Every gene of the child equals the gene of one of the parents at the
    /// same position: never a blend, never a value from elsewhere.
    open spec fn crossover_ens(&self, a: Seq<u32>, b: Seq<u32>, r: Seq<u32>) -> bool {
        forall|i: int| 0 <= i < r.len() ==> r[i] == a[i] || r[i] == b[i]
    }

    fn crossover(&self, rng: &mut ChaCha8Rng, parent_a: &Chromosome, parent_b: &Chromosome) -> (r:
        Chromosome) {
        let n: usize = parent_a.len();
        let mut genes: Vec<u32> = Vec::new();
        for i in 0..n
            invariant
                n == parent_a@.len(),
                n == parent_b@.len(),
                genes@.len() == i,
                forall|k: int|
                    0 <= k < i ==> genes@[k] == parent_a@[k] || genes@[k] == parent_b@[k],
        {
            let g: u32 = if crate::rng::coin(rng) {
                parent_a.get(i)
            } else {
                parent_b.get(i)
            };
            genes.push(g);
        }
        Chromosome::new(genes)
    }
}

} // verus!
