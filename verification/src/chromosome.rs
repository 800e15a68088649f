//! The genetic encoding: an ordered, fixed-length vector of genes.
//!
//! A gene is one binary32 value carried as its bit pattern. A chromosome is
//! viewed as the sequence of its gene bits; its length is fixed by the
//! network topology for the lifetime of an evolutionary run.

use vstd::prelude::*;

verus! {

#[derive(Clone, Debug)]
pub struct Chromosome {
    genes: Vec<u32>,
}

impl View for Chromosome {
    type V = Seq<u32>;

    closed spec fn view(&self) -> Seq<u32> {
        self.genes@
    }
}

impl Chromosome {
    /// Bulk construction from a gene vector; always succeeds and keeps the
    /// genes in order.
    pub fn new(genes: Vec<u32>) -> (r: Self)
        ensures
            r@ == genes@,
    {
        Chromosome { genes }
    }

    /// The number of genes.
    pub fn len(&self) -> (r: usize)
        ensures
            r == self@.len(),
    {
        self.genes.len()
    }

    /// Positional read. Reading past the end is a programming error and is
    /// ruled out by the precondition.
    pub fn get(&self, i: usize) -> (r: u32)
        requires
            i < self@.len(),
        ensures
            r == self@[i as int],
    {
        self.genes[i]
    }

    /// Positional write; only the addressed gene changes.
    pub fn set(&mut self, i: usize, g: u32)
        requires
            i < old(self)@.len(),
        ensures
            final(self)@ == old(self)@.update(i as int, g),
    {
        self.genes.set(i, g);
    }

    /// The genes in order, as an owned vector (a read-only walk).
    pub fn iter(&self) -> (r: Vec<u32>)
        ensures
            r@ == self@,
    {
        let mut out: Vec<u32> = Vec::new();
        let n: usize = self.genes.len();
        for i in 0..n
            invariant
                n == self@.len(),
                out@ == self@.take(i as int),
        {
            out.push(self.genes[i]);
            proof {
                assert(out@ =~= self@.take(i + 1 as int));
            }
        }
        proof {
            assert(out@ =~= self@);
        }
        out
    }

    /// Consumption into the owned gene vector, in original order.
    pub fn into_genes(self) -> (r: Vec<u32>)
        ensures
            r@ == self@,
    {
        self.genes
    }
}

} // verus!
