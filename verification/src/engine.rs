//! The generational engine: one call produces a full replacement population
//! of the same size, plus fitness statistics over the population it was
//! handed (not over the one it produced).

use vstd::prelude::*;
use rand_chacha::ChaCha8Rng;
use crate::chromosome::Chromosome;
use crate::crossover::CrossoverMethod;
use crate::individual::Individual;
use crate::mutation::MutationMethod;
use crate::selection::SelectionMethod;
use crate::statistics::Statistics;
use crate::statistics::spec_statistics;
use crate::statistics::weights_of;

verus! {

/// The one failure evolution can report: every fitness weight was unusable,
/// so no fitness-proportionate choice exists.
#[derive(Clone, Copy, Debug, PartialEq, Eq, Structural)]
pub enum EvolveError {
    NoViableSelectionWeight,
}

/// Whether a child could have been produced from the population by one
/// selection-crossover-mutation pipeline step: its chromosome is a mutation
/// of a recombination of two population members' chromosomes.
pub open spec fn offspring_of<I: Individual, C: CrossoverMethod, M: MutationMethod>(
    crossover_method: C,
    mutation_method: M,
    population: Seq<I>,
    child: I,
) -> bool {
    exists|a: int, b: int, mid: Seq<u32>|
        0 <= a < population.len() && 0 <= b < population.len() && (
        #[trigger] crossover_method.crossover_ens(
            population[a].chromosome_spec(),
            population[b].chromosome_spec(),
            mid,
        )) && mutation_method.mutate_ens(mid, child.chromosome_spec())
}

/// One selection strategy plus one crossover and one mutation strategy,
/// chosen at construction time and fixed for the engine's lifetime.
pub struct GeneticAlgorithm<S, C, M> {
    pub selection_method: S,
    pub crossover_method: C,
    pub mutation_method: M,
}

impl<S: SelectionMethod, C: CrossoverMethod, M: MutationMethod> GeneticAlgorithm<S, C, M> {
    pub fn new(selection_method: S, crossover_method: C, mutation_method: M) -> (r: Self)
        ensures
            r == (GeneticAlgorithm { selection_method, crossover_method, mutation_method }),
    {
        GeneticAlgorithm { selection_method, crossover_method, mutation_method }
    }

    /// One generational step. For each of `population.len()` offspring: two
    /// parents are drawn independently (possibly the same individual twice),
    /// their chromosomes recombined, the child perturbed in place, and a new
    /// individual built from it. There is no elitism and no deduplication.
    ///
    /// An empty population, an unusable mutation configuration, or mixed
    /// chromosome lengths are programming errors, ruled out by the
    /// preconditions. The call succeeds exactly where the selection strategy
    /// has a defined choice for the population's fitness values; the
    /// statistics returned describe the input population.
    pub fn evolve<I: Individual>(&self, rng: &mut ChaCha8Rng, population: &Vec<I>) -> (r: Result<
        (Vec<I>, Statistics),
        EvolveError,
    >)
        requires
            self.mutation_method.valid(),
            population@.len() > 0,
            forall|i: int|
                0 <= i < population@.len() ==> (#[trigger] population@[i]).has_chromosome(),
            forall|i: int|
                0 <= i < population@.len() ==> (#[trigger] population@[i]).chromosome_spec().len()
                    == population@[0].chromosome_spec().len(),
        ensures
            r is Ok <==> self.selection_method.selects(weights_of(population@)),
            r matches Ok(out) ==> {
                &&& out.0@.len() == population@.len()
                &&& forall|k: int|
                    0 <= k < out.0@.len() ==> (#[trigger] out.0@[k]).has_chromosome()
                        && out.0@[k].chromosome_spec().len()
                        == population@[0].chromosome_spec().len()
                &&& out.1 == spec_statistics(weights_of(population@))
                &&& forall|k: int|
                    0 <= k < out.0@.len() ==> #[trigger] offspring_of(
                        self.crossover_method,
                        self.mutation_method,
                        population@,
                        out.0@[k],
                    )
            },
            r matches Err(e) ==> e == EvolveError::NoViableSelectionWeight,
    {
        let ghost ws: Seq<u32> = weights_of(population@);
        let ghost gene_len: int = population@[0].chromosome_spec().len() as int;
        let n: usize = population.len();
        let mut new_population: Vec<I> = Vec::new();
        for k in 0..n
            invariant
                n == population@.len(),
                n > 0,
                ws == weights_of(population@),
                gene_len == population@[0].chromosome_spec().len(),
                self.mutation_method.valid(),
                forall|i: int|
                    0 <= i < population@.len() ==> (#[trigger] population@[i]).has_chromosome(),
                forall|i: int|
                    0 <= i < population@.len() ==> (
                    #[trigger] population@[i]).chromosome_spec().len() == gene_len,
                k > 0 ==> self.selection_method.selects(ws),
                new_population@.len() == k,
                forall|j: int|
                    0 <= j < k ==> (#[trigger] new_population@[j]).has_chromosome()
                        && new_population@[j].chromosome_spec().len() == gene_len,
                forall|j: int|
                    0 <= j < k ==> #[trigger] offspring_of(
                        self.crossover_method,
                        self.mutation_method,
                        population@,
                        new_population@[j],
                    ),
        {
            let picked_a: Option<&I> = self.selection_method.select(rng, population);
            let parent_a: &I = match picked_a {
                Some(p) => p,
                None => {
                    return Err(EvolveError::NoViableSelectionWeight);
                },
            };
            let picked_b: Option<&I> = self.selection_method.select(rng, population);
            let parent_b: &I = match picked_b {
                Some(p) => p,
                None => {
                    return Err(EvolveError::NoViableSelectionWeight);
                },
            };
            let ghost ia: int = choose|i: int|
                0 <= i < population@.len() && *parent_a == population@[i];
            let ghost ib: int = choose|i: int|
                0 <= i < population@.len() && *parent_b == population@[i];
            let mut child: Chromosome = self.crossover_method.crossover(
                rng,
                parent_a.chromosome(),
                parent_b.chromosome(),
            );
            let ghost mid: Seq<u32> = child@;
            self.mutation_method.mutate(rng, &mut child);
            let ghost grown: Seq<u32> = child@;
            new_population.push(I::create(child));
            proof {
                assert(0 <= ia < population@.len() && 0 <= ib < population@.len()
                    && self.crossover_method.crossover_ens(
                    population@[ia].chromosome_spec(),
                    population@[ib].chromosome_spec(),
                    mid,
                ) && self.mutation_method.mutate_ens(
                    mid,
                    new_population@[k as int].chromosome_spec(),
                ));
                assert(offspring_of(
                    self.crossover_method,
                    self.mutation_method,
                    population@,
                    new_population@[k as int],
                ));
            }
        }
        let stats: Statistics = Statistics::new(population);
        Ok((new_population, stats))
    }
}

} // verus!
