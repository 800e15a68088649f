//! Fitness-proportionate parent selection ("roulette wheel").

use vstd::prelude::*;
use rand::distributions::Distribution;
use rand_chacha::ChaCha8Rng;
use byteorder::ByteOrder;
use crate::individual::Individual;
use crate::statistics::weights_of;

verus! {

/// Whether a weighted choice over these fitness bits is defined: the
/// sequence is non-empty, every weight is non-negative and not NaN, and the
/// running total (seeded with the first weight, accumulated left to right as
/// the weighted table builds it) is finite and non-zero.
pub open spec fn roulette_viable(ws: Seq<u32>) -> bool {
    &&& ws.len() > 0
    &&& forall|i: int| 0 <= i < ws.len() ==> crate::ieee::weight_ok(#[trigger] ws[i])
    &&& crate::ieee::is_finite(crate::arith::fold_total(ws))
    &&& !crate::ieee::is_zero(crate::arith::fold_total(ws))
}

/// Whether a weighted choice over these fitness bits is defined, computed on
/// the bits.
pub fn roulette_check(ws: &Vec<u32>) -> (r: bool)
    ensures
        r == roulette_viable(ws@),
{
    let n: usize = ws.len();
    if n == 0 {
        return false;
    }
    let mut total: u32 = ws[0];
    if !crate::ieee::weight_bits_ok(ws[0]) {
        return false;
    }
    let mut i: usize = 1;
    while i < n
        invariant
            1 <= i <= n,
            n == ws@.len(),
            total == crate::arith::fold_total(ws@.take(i as int)),
            forall|k: int| 0 <= k < i ==> crate::ieee::weight_ok(#[trigger] ws@[k]),
        decreases n - i,
    {
        if !crate::ieee::weight_bits_ok(ws[i]) {
            return false;
        }
        total = crate::arith::add32(total, ws[i]);
        proof {
            assert(ws@.take(i + 1 as int).drop_last() =~= ws@.take(i as int));
        }
        i = i + 1;
    }
    proof {
        assert(ws@.take(n as int) =~= ws@);
    }
    crate::ieee::finite_bits(total) && !crate::ieee::zero_bits(total)
}

/// Relies on rand's `WeightedIndex` over single-precision weights: the table
/// is built over the weights in order (cumulative sums, left to right), one
/// uniform draw picks a slot, and the returned index is always within
/// bounds. With every weight admissible and a finite, non-zero total —
/// exactly what the precondition states — the construction succeeds and the
/// draw cannot fail.
#[verifier::external_body]
fn pick_weighted(rng: &mut ChaCha8Rng, ws: &Vec<u32>) -> (r: usize)
    requires
        roulette_viable(ws@),
    ensures
        r < ws@.len(),
{
    let table = rand::distributions::WeightedIndex::new(
        ws.iter().map(|w| byteorder::LittleEndian::read_f32(&w.to_le_bytes())),
    ).unwrap();
    table.sample(rng)
}

pub trait SelectionMethod: Sized {
    /// On which fitness sequences this method returns an individual at all.
    spec fn selects(&self, weights: Seq<u32>) -> bool;

    /// Choose one individual of the population, or nothing where no choice
    /// is defined for these fitness values.
    fn select<'a, I: Individual>(
        &self,
        rng: &mut ChaCha8Rng,
        population: &'a Vec<I>,
    ) -> (r: Option<&'a I>)
        ensures
            r is Some <==> self.selects(weights_of(population@)),
            r matches Some(p) ==> exists|i: int|
                0 <= i < population@.len() && *p == population@[i],
    ;
}

/// Fitness-proportionate selection: an individual is chosen with probability
/// proportional to its fitness relative to the population's total fitness.
pub struct RouletteWheelSelection;

impl RouletteWheelSelection {
    pub fn new() -> (r: Self)
        ensures
            r == RouletteWheelSelection,
    {
        RouletteWheelSelection
    }
}

impl SelectionMethod for RouletteWheelSelection {
    /// A choice exists exactly where the weighted table is viable: some
    /// usable weight mass, nothing negative or NaN, a finite total.
    open spec fn selects(&self, weights: Seq<u32>) -> bool {
        roulette_viable(weights)
    }

    fn select<'a, I: Individual>(
        &self,
        rng: &mut ChaCha8Rng,
        population: &'a Vec<I>,
    ) -> (r: Option<&'a I>) {
        let ghost ws: Seq<u32> = weights_of(population@);
        let mut fitnesses: Vec<u32> = Vec::new();
        let n: usize = population.len();
        for k in 0..n
            invariant
                n == population@.len(),
                fitnesses@.len() == k,
                forall|j: int| 0 <= j < k ==> fitnesses@[j] == ws[j],
                ws == weights_of(population@),
        {
            fitnesses.push(population[k].fitness());
        }
        proof {
            assert(fitnesses@ =~= ws);
        }
        if !roulette_check(&fitnesses) {
            return None;
        }
        let chosen: usize = pick_weighted(rng, &fitnesses);
        Some(&population[chosen])
    }
}

} // verus!
