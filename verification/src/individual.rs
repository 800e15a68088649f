//! The capability contract a domain object must satisfy to take part in
//! evolution: expose a fitness, expose its chromosome, and be constructible
//! from a chromosome. The engine only ever borrows individuals; the concrete
//! type belongs to the caller's domain.

use vstd::prelude::*;
use crate::chromosome::Chromosome;

verus! {

pub trait Individual: Sized {
    /// The fitness bits this individual reports.
    spec fn fitness_spec(&self) -> u32;

    /// The gene sequence of this individual's chromosome.
    spec fn chromosome_spec(&self) -> Seq<u32>;

    /// Whether this individual can hand out a chromosome at all.
    spec fn has_chromosome(&self) -> bool;

    /// The current fitness scalar, as binary32 bits.
    fn fitness(&self) -> (r: u32)
        ensures
            r == self.fitness_spec(),
    ;

    /// The chromosome this individual carries.
    fn chromosome(&self) -> (r: &Chromosome)
        requires
            self.has_chromosome(),
        ensures
            r@ == self.chromosome_spec(),
    ;

    /// Construction from a chromosome.
    fn create(chromosome: Chromosome) -> (r: Self)
        ensures
            r.has_chromosome(),
            r.chromosome_spec() == chromosome@,
    ;
}

/// A minimal individual for exercising the engine: either a bare chromosome
/// (fitness is the running sum of its genes) or a bare fitness value (no
/// chromosome to hand out).
#[derive(Clone, Debug)]
pub enum TestIndividual {
    WithChromosome { chromosome: Chromosome },
    WithFitness { fitness: u32 },
}

impl TestIndividual {
    pub fn new(fitness: u32) -> (r: Self)
        ensures
            r == (TestIndividual::WithFitness { fitness }),
    {
        TestIndividual::WithFitness { fitness }
    }
}

impl Individual for TestIndividual {
    open spec fn fitness_spec(&self) -> u32 {
        match self {
            TestIndividual::WithChromosome { chromosome } => crate::arith::fold_sum(chromosome@),
            TestIndividual::WithFitness { fitness } => *fitness,
        }
    }

    open spec fn chromosome_spec(&self) -> Seq<u32> {
        match self {
            TestIndividual::WithChromosome { chromosome } => chromosome@,
            TestIndividual::WithFitness { .. } => Seq::empty(),
        }
    }

    open spec fn has_chromosome(&self) -> bool {
        self is WithChromosome
    }

    fn fitness(&self) -> (r: u32) {
        match self {
            TestIndividual::WithChromosome { chromosome } => {
                let mut sum: u32 = crate::ieee::F32_ZERO;
                let n: usize = chromosome.len();
                for i in 0..n
                    invariant
                        n == chromosome@.len(),
                        sum == crate::arith::fold_sum(chromosome@.take(i as int)),
                {
                    sum = crate::arith::add32(sum, chromosome.get(i));
                    proof {
                        assert(chromosome@.take(i + 1 as int).drop_last() =~= chromosome@.take(
                            i as int,
                        ));
                    }
                }
                proof {
                    assert(chromosome@.take(n as int) =~= chromosome@);
                }
                sum
            },
            TestIndividual::WithFitness { fitness } => *fitness,
        }
    }

    fn chromosome(&self) -> (r: &Chromosome) {
        match self {
            TestIndividual::WithChromosome { chromosome } => chromosome,
            TestIndividual::WithFitness { .. } => {
                proof {
                    assert(false);
                }
                unreached()
            },
        }
    }

    fn create(chromosome: Chromosome) -> (r: Self) {
        TestIndividual::WithChromosome { chromosome }
    }
}

} // verus!
