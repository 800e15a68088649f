//! Fitness statistics over one generation's population: minimum, maximum and
//! arithmetic mean, computed in a single pass and never mutated afterwards.

use vstd::prelude::*;
use crate::arith::add_of;
use crate::arith::div_of;
use crate::arith::fold_sum;
use crate::arith::real_of_count;
use crate::individual::Individual;

verus! {

/// The fitness bits of every member of a population, in order.
pub open spec fn weights_of<I: Individual>(s: Seq<I>) -> Seq<u32> {
    Seq::new(s.len(), |i: int| s[i].fitness_spec())
}

/// The running minimum of the first `n` values, seeded with the first
/// element (which the single pass then folds in once more, as the pass
/// starts from it).
pub open spec fn fold_min(ws: Seq<u32>, n: int) -> u32
    decreases n,
{
    if n <= 0 {
        ws[0]
    } else {
        crate::ieee::spec_min(fold_min(ws, n - 1), ws[n - 1])
    }
}

/// The running maximum of the first `n` values, seeded with the first
/// element.
pub open spec fn fold_max(ws: Seq<u32>, n: int) -> u32
    decreases n,
{
    if n <= 0 {
        ws[0]
    } else {
        crate::ieee::spec_max(fold_max(ws, n - 1), ws[n - 1])
    }
}

/// The statistics a non-empty weight sequence folds to: running minimum and
/// maximum seeded from the first value, and the zero-seeded running sum
/// divided by the count.
pub open spec fn spec_statistics(ws: Seq<u32>) -> Statistics {
    Statistics {
        min_fitness: fold_min(ws, ws.len() as int),
        max_fitness: fold_max(ws, ws.len() as int),
        avg_fitness: div_of(fold_sum(ws), real_of_count(ws.len() as usize)),
    }
}

/// A derived, immutable summary of one generation's fitness values, each as
/// binary32 bits.
#[derive(Clone, Copy, Debug)]
pub struct Statistics {
    pub min_fitness: u32,
    pub max_fitness: u32,
    pub avg_fitness: u32,
}

impl Statistics {
    /// One linear pass over the population. An empty population is a
    /// programming error, ruled out by the precondition.
    pub fn new<I: Individual>(population: &Vec<I>) -> (r: Self)
        requires
            population@.len() > 0,
        ensures
            r == spec_statistics(weights_of(population@)),
    {
        let ghost ws: Seq<u32> = weights_of(population@);
        let first: u32 = population[0].fitness();
        let mut min_fitness: u32 = first;
        let mut max_fitness: u32 = first;
        let mut sum_fitness: u32 = crate::ieee::F32_ZERO;
        let n: usize = population.len();
        for i in 0..n
            invariant
                n == population@.len(),
                n == ws.len(),
                n > 0,
                ws == weights_of(population@),
                min_fitness == fold_min(ws, i as int),
                max_fitness == fold_max(ws, i as int),
                sum_fitness == fold_sum(ws.take(i as int)),
        {
            let fitness: u32 = population[i].fitness();
            min_fitness = crate::ieee::min32(min_fitness, fitness);
            max_fitness = crate::ieee::max32(max_fitness, fitness);
            sum_fitness = crate::arith::add32(sum_fitness, fitness);
            proof {
                assert(ws.take(i + 1 as int).drop_last() =~= ws.take(i as int));
                assert(ws.take(i + 1 as int).last() == ws[i as int]);
            }
        }
        proof {
            assert(ws.take(n as int) =~= ws);
        }
        Statistics { min_fitness, max_fitness, avg_fitness: crate::arith::div32(sum_fitness, crate::arith::from_count(n)) }
    }

    /// The smallest fitness seen in the pass.
    pub fn min_fitness(&self) -> (r: u32)
        ensures
            r == self.min_fitness,
    {
        self.min_fitness
    }

    /// The largest fitness seen in the pass.
    pub fn max_fitness(&self) -> (r: u32)
        ensures
            r == self.max_fitness,
    {
        self.max_fitness
    }

    /// The arithmetic mean: the running sum divided by the population size.
    pub fn avg_fitness(&self) -> (r: u32)
        ensures
            r == self.avg_fitness,
    {
        self.avg_fitness
    }
}

/// The IEEE "less than" is transitive away from NaN.
proof fn lemma_lt_trans(a: u32, b: u32, c: u32)
    requires
        crate::ieee::f32_lt(a, b),
        crate::ieee::f32_lt(b, c),
    ensures
        crate::ieee::f32_lt(a, c),
{
}

/// The running minimum over a prefix is one of the prefix's values, and no
/// value of the prefix lies below it.
proof fn lemma_fold_min_extreme(ws: Seq<u32>, n: int)
    requires
        1 <= n <= ws.len(),
        forall|i: int| 0 <= i < ws.len() ==> !crate::ieee::is_nan(#[trigger] ws[i]),
    ensures
        exists|i: int| 0 <= i < n && fold_min(ws, n) == ws[i],
        forall|i: int| 0 <= i < n ==> !crate::ieee::f32_lt(#[trigger] ws[i], fold_min(ws, n)),
    decreases n,
{
    if n == 1 {
        assert(fold_min(ws, 0) == ws[0]);
        assert(fold_min(ws, 1) == ws[0]);
        assert(0 <= 0 < 1 && fold_min(ws, 1) == ws[0]);
    } else {
        lemma_fold_min_extreme(ws, n - 1);
        let m = fold_min(ws, n - 1);
        let w = ws[n - 1];
        assert(!crate::ieee::is_nan(m));
        if crate::ieee::f32_lt(w, m) {
            assert(fold_min(ws, n) == w);
            assert forall|i: int| 0 <= i < n implies !crate::ieee::f32_lt(
                #[trigger] ws[i],
                fold_min(ws, n),
            ) by {
                if i < n - 1 && crate::ieee::f32_lt(ws[i], w) {
                    lemma_lt_trans(ws[i], w, m);
                }
            }
        } else {
            assert(fold_min(ws, n) == m);
        }
    }
}

/// The running maximum over a prefix is one of the prefix's values, and no
/// value of the prefix lies above it.
proof fn lemma_fold_max_extreme(ws: Seq<u32>, n: int)
    requires
        1 <= n <= ws.len(),
        forall|i: int| 0 <= i < ws.len() ==> !crate::ieee::is_nan(#[trigger] ws[i]),
    ensures
        exists|i: int| 0 <= i < n && fold_max(ws, n) == ws[i],
        forall|i: int| 0 <= i < n ==> !crate::ieee::f32_lt(fold_max(ws, n), #[trigger] ws[i]),
    decreases n,
{
    if n == 1 {
        assert(fold_max(ws, 0) == ws[0]);
        assert(fold_max(ws, 1) == ws[0]);
        assert(0 <= 0 < 1 && fold_max(ws, 1) == ws[0]);
    } else {
        lemma_fold_max_extreme(ws, n - 1);
        let m = fold_max(ws, n - 1);
        let w = ws[n - 1];
        assert(!crate::ieee::is_nan(m));
        if crate::ieee::f32_lt(m, w) {
            assert(fold_max(ws, n) == w);
            assert forall|i: int| 0 <= i < n implies !crate::ieee::f32_lt(
                fold_max(ws, n),
                #[trigger] ws[i],
            ) by {
                if i < n - 1 && crate::ieee::f32_lt(w, ws[i]) {
                    lemma_lt_trans(m, w, ws[i]);
                }
            }
        } else {
            assert(fold_max(ws, n) == m);
        }
    }
}

/// The statistics are true extremes: for fitness values free of NaN, the
/// reported minimum and maximum are values of the population, no fitness
/// lies below the minimum, and none lies above the maximum. The mean is
/// exact by construction: the left-to-right running sum divided by the
/// population size.
pub proof fn lemma_statistics_extremes(ws: Seq<u32>)
    requires
        ws.len() > 0,
        forall|i: int| 0 <= i < ws.len() ==> !crate::ieee::is_nan(#[trigger] ws[i]),
    ensures
        exists|i: int| 0 <= i < ws.len() && spec_statistics(ws).min_fitness == ws[i],
        forall|i: int|
            0 <= i < ws.len() ==> !crate::ieee::f32_lt(
                #[trigger] ws[i],
                spec_statistics(ws).min_fitness,
            ),
        exists|i: int| 0 <= i < ws.len() && spec_statistics(ws).max_fitness == ws[i],
        forall|i: int|
            0 <= i < ws.len() ==> !crate::ieee::f32_lt(
                spec_statistics(ws).max_fitness,
                #[trigger] ws[i],
            ),
{
    lemma_fold_min_extreme(ws, ws.len() as int);
    lemma_fold_max_extreme(ws, ws.len() as int);
}

} // verus!
