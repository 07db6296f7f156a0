//! The chromosome: an ordered, fixed-length sequence of fixed-point genes,
//! the interchange format between a network's parameters and the genetic
//! operators.

use vstd::prelude::*;

verus! {

/// A flat ordered sequence of genes encoding one network's full parameter
/// set. Its length is fixed per evolutionary run: the total weight and bias
/// count of the network topology.
pub struct Chromosome {
    genes: Vec<i64>,
}

impl View for Chromosome {
    type V = Seq<i64>;

    closed spec fn view(&self) -> Seq<i64> {
        self.genes@
    }
}

impl Chromosome {
    /// Builds a chromosome from a flat gene vector.
    pub fn new(genes: Vec<i64>) -> (c: Chromosome)
        ensures
            c@ == genes@,
    {
        Chromosome { genes }
    }

    /// The number of genes.
    pub fn len(&self) -> (n: usize)
        ensures
            n == self@.len(),
    {
        self.genes.len()
    }

    /// Indexed read of one gene.
    pub fn gene(&self, i: usize) -> (g: i64)
        requires
            i < self@.len(),
        ensures
            g == self@[i as int],
    {
        self.genes[i]
    }

    /// Indexed write of one gene.
    pub fn set_gene(&mut self, i: usize, g: i64)
        requires
            i < old(self)@.len(),
        ensures
            final(self)@ == old(self)@.update(i as int, g),
    {
        self.genes.set(i, g);
    }

    /// The genes as a flat vector.
    pub fn genes(&self) -> (v: &Vec<i64>)
        ensures
            v@ == self@,
    {
        &self.genes
    }
}

} // verus!
