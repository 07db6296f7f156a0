//! The genetic algorithm: fitness-proportionate selection, uniform
//! crossover, per-gene perturbation, and one-generation replacement, generic
//! over anything that exposes a fitness score and a chromosome.
//!
//! Fitness is a non-negative score in caller-chosen units; its semantics are
//! external. A perturbation chance is counted in parts per `CHANCE_SCALE`.

use vstd::prelude::*;
use vstd::pervasive::unreached;
use rand_chacha::ChaCha8Rng;
use crate::chromosome::Chromosome;
use crate::rng::{gen_below_u128, gen_range_i64};
use crate::scalar::{sat_add, sat_i64};

verus! {

/// Number of chance units that stand for probability 1.
pub const CHANCE_SCALE: u32 = 1_000_000;

/// A fitness-bearing, chromosome-bearing unit of selection. The genetic
/// algorithm is generic over this capability and never depends on the
/// network type.
pub trait Individual: Sized {
    /// The fitness score, mathematically.
    spec fn spec_fitness(&self) -> u64;

    /// The gene sequence, mathematically.
    spec fn spec_chromosome(&self) -> Seq<i64>;

    /// The fitness score assigned by the external caller.
    fn fitness(&self) -> (f: u64)
        ensures
            f == self.spec_fitness(),
    ;

    /// The individual's chromosome.
    fn chromosome(&self) -> (c: &Chromosome)
        ensures
            c@ == self.spec_chromosome(),
    ;

    /// Wraps a chromosome into a fresh individual; its fitness is not
    /// meaningful until externally re-evaluated.
    fn create(chromosome: Chromosome) -> (r: Self)
        ensures
            r.spec_chromosome() == chromosome@,
    ;
}

/// The sum of the fitness of the first `k` individuals.
pub open spec fn fitness_upto<I: Individual>(s: Seq<I>, k: int) -> int
    decreases k,
{
    if k <= 0 {
        0
    } else {
        fitness_upto(s, k - 1) + s[k - 1].spec_fitness()
    }
}

/// The total fitness of a population.
pub open spec fn total_fitness<I: Individual>(s: Seq<I>) -> int {
    fitness_upto(s, s.len() as int)
}

/// A plain individual: an externally assigned fitness score paired with a
/// chromosome.
pub struct ScoredIndividual {
    fitness: u64,
    chromosome: Chromosome,
}

impl ScoredIndividual {
    /// Pairs a fitness score with a chromosome.
    pub fn new(fitness: u64, chromosome: Chromosome) -> (r: ScoredIndividual)
        ensures
            r.spec_fitness() == fitness,
            r.spec_chromosome() == chromosome@,
    {
        ScoredIndividual { fitness, chromosome }
    }

    /// Updates the fitness score after external evaluation.
    pub fn set_fitness(&mut self, fitness: u64)
        ensures
            final(self).spec_fitness() == fitness,
            final(self).spec_chromosome() == old(self).spec_chromosome(),
    {
        self.fitness = fitness;
    }
}

impl Individual for ScoredIndividual {
    closed spec fn spec_fitness(&self) -> u64 {
        self.fitness
    }

    closed spec fn spec_chromosome(&self) -> Seq<i64> {
        self.chromosome@
    }

    fn fitness(&self) -> (f: u64) {
        self.fitness
    }

    fn chromosome(&self) -> (c: &Chromosome) {
        &self.chromosome
    }

    fn create(chromosome: Chromosome) -> (r: Self) {
        ScoredIndividual { fitness: 0, chromosome }
    }
}

/// A selection strategy: picks one individual from a non-empty population,
/// biased toward higher fitness.
pub trait SelectionMethod<I: Individual> {
    /// Picks one individual; the result is always a member of the
    /// population.
    fn select<'a>(&self, rng: &mut ChaCha8Rng, population: &'a Vec<I>) -> (out: &'a I)
        requires
            population@.len() > 0,
        ensures
            exists|i: int| 0 <= i < population@.len() && *out == population@[i],
    ;
}

/// A crossover strategy: combines two equal-length parent gene sequences
/// into one child of the same length whose genes all come from a parent at
/// the same position.
pub trait CrossoverMethod {
    /// Produces the child gene sequence.
    fn crossover(
        &self,
        rng: &mut ChaCha8Rng,
        parent_a: &Chromosome,
        parent_b: &Chromosome,
    ) -> (child: Chromosome)
        requires
            parent_a@.len() == parent_b@.len(),
        ensures
            child@.len() == parent_a@.len(),
            forall|i: int|
                0 <= i < child@.len() ==> #[trigger] child@[i] == parent_a@[i] || child@[i]
                    == parent_b@[i],
    ;
}

/// A mutation strategy: perturbs a chromosome's genes in place without
/// changing its length.
pub trait MutationMethod {
    /// Perturbs the chromosome in place.
    fn mutate(&self, rng: &mut ChaCha8Rng, genes: &mut Chromosome)
        ensures
            final(genes)@.len() == old(genes)@.len(),
    ;
}

/// Fitness-proportionate (roulette-wheel) selection: the probability of
/// picking an individual is proportional to its fitness. When the total
/// fitness is zero the draw falls back to a uniform pick.
pub struct RouletteWheelSelection;

impl RouletteWheelSelection {
    /// Builds the selection strategy.
    pub fn new() -> RouletteWheelSelection {
        RouletteWheelSelection
    }

    /// Picks one individual, biased toward higher fitness: a uniform draw in
    /// `[0, total_fitness)` is walked over the cumulative fitness, so an
    /// individual of zero fitness is never returned while the total is
    /// positive. On an all-zero population the pick is uniform.
    pub fn select<'a, I: Individual>(
        &self,
        rng: &mut ChaCha8Rng,
        population: &'a Vec<I>,
    ) -> (out: &'a I)
        requires
            population@.len() > 0,
        ensures
            exists|i: int| 0 <= i < population@.len() && *out == population@[i],
            total_fitness(population@) > 0 ==> out.spec_fitness() > 0,
    {
        let n = population.len();
        let mut total: u128 = 0;
        let mut i: usize = 0;
        while i < n
            invariant
                i <= n,
                n == population@.len(),
                total == fitness_upto(population@, i as int),
                total <= i * 0xffff_ffff_ffff_ffffu128,
            decreases n - i,
        {
            let f = population[i].fitness();
            total = total + f as u128;
            i += 1;
        }
        if total == 0 {
            let pick = gen_below_u128(rng, n as u128);
            let pick_idx = pick as usize;
            return &population[pick_idx];
        }
        let draw = gen_below_u128(rng, total);
        let mut cum: u128 = 0;
        let mut i: usize = 0;
        while i < n
            invariant
                i <= n,
                n == population@.len(),
                cum == fitness_upto(population@, i as int),
                cum <= i * 0xffff_ffff_ffff_ffffu128,
                cum <= draw,
                draw < total_fitness(population@),
            decreases n - i,
        {
            let f = population[i].fitness();
            cum = cum + f as u128;
            if cum > draw {
                proof {
                    assert(population@[i as int].spec_fitness() > 0);
                }
                return &population[i];
            }
            i += 1;
        }
        proof {
            assert(false);
        }
        unreached()
    }
}

impl<I: Individual> SelectionMethod<I> for RouletteWheelSelection {
    fn select<'a>(&self, rng: &mut ChaCha8Rng, population: &'a Vec<I>) -> (out: &'a I) {
        RouletteWheelSelection::select(self, rng, population)
    }
}

/// Uniform crossover: each gene of the child is taken, on an independent
/// fair coin flip, from one of the two parents.
pub struct UniformCrossover;

impl UniformCrossover {
    /// Builds the crossover strategy.
    pub fn new() -> UniformCrossover {
        UniformCrossover
    }

    /// Combines two equal-length parent gene sequences into one child of the
    /// same length; every child gene comes from one of its parents at the
    /// same position.
    pub fn crossover(
        &self,
        rng: &mut ChaCha8Rng,
        parent_a: &Chromosome,
        parent_b: &Chromosome,
    ) -> (child: Chromosome)
        requires
            parent_a@.len() == parent_b@.len(),
        ensures
            child@.len() == parent_a@.len(),
            forall|i: int|
                0 <= i < child@.len() ==> #[trigger] child@[i] == parent_a@[i]
                    || child@[i] == parent_b@[i],
    {
        let n = parent_a.len();
        let mut genes: Vec<i64> = Vec::new();
        let mut i: usize = 0;
        while i < n
            invariant
                i <= n,
                n == parent_a@.len(),
                parent_a@.len() == parent_b@.len(),
                genes@.len() == i,
                forall|t: int|
                    0 <= t < i ==> #[trigger] genes@[t] == parent_a@[t] || genes@[t]
                        == parent_b@[t],
            decreases n - i,
        {
            let coin = gen_below_u128(rng, 2);
            let g = if coin == 0 {
                parent_a.gene(i)
            } else {
                parent_b.gene(i)
            };
            genes.push(g);
            i += 1;
        }
        Chromosome::new(genes)
    }
}

impl CrossoverMethod for UniformCrossover {
    fn crossover(
        &self,
        rng: &mut ChaCha8Rng,
        parent_a: &Chromosome,
        parent_b: &Chromosome,
    ) -> (child: Chromosome) {
        UniformCrossover::crossover(self, rng, parent_a, parent_b)
    }
}

/// The new gene value is the old one shifted by some signed amount of at
/// most `mag`, saturating at the scalar range.
pub open spec fn shifted_by_at_most(new_g: i64, old_g: i64, mag: i64) -> bool {
    exists|d: int| -mag <= d <= mag && new_g as int == #[trigger] sat_i64(old_g as int + d)
}

/// Per-gene perturbation: each gene is, with the configured chance, shifted
/// by a signed amount of at most the configured magnitude; genes are never
/// clamped to any range short of the scalar type's own.
pub struct GaussianMutation {
    chance: u32,
    magnitude: i64,
}

impl GaussianMutation {
    #[verifier::type_invariant]
    spec fn type_inv(&self) -> bool {
        &&& self.chance <= CHANCE_SCALE
        &&& self.magnitude >= 0
    }

    /// The per-gene mutation chance, in parts per `CHANCE_SCALE`.
    pub closed spec fn spec_chance(&self) -> u32 {
        self.chance
    }

    /// The largest possible perturbation amplitude.
    pub closed spec fn spec_magnitude(&self) -> i64 {
        self.magnitude
    }

    /// Configures the mutation: `chance` in parts per `CHANCE_SCALE`, and a
    /// non-negative amplitude bound.
    pub fn new(chance: u32, magnitude: i64) -> (m: GaussianMutation)
        requires
            chance <= CHANCE_SCALE,
            magnitude >= 0,
        ensures
            m.spec_chance() == chance,
            m.spec_magnitude() == magnitude,
    {
        GaussianMutation { chance, magnitude }
    }

    /// Perturbs the chromosome in place: per gene, an independent draw
    /// decides whether to mutate; a mutated gene is shifted by a uniform
    /// signed amount of at most the magnitude (saturating at the scalar
    /// range). Chance zero, or magnitude zero, leaves every gene unchanged.
    pub fn mutate(&self, rng: &mut ChaCha8Rng, genes: &mut Chromosome)
        ensures
            final(genes)@.len() == old(genes)@.len(),
            forall|i: int|
                0 <= i < old(genes)@.len() ==> #[trigger] final(genes)@[i] == old(genes)@[i]
                    || shifted_by_at_most(final(genes)@[i], old(genes)@[i], self.spec_magnitude()),
            self.spec_chance() == 0 ==> final(genes)@ == old(genes)@,
            self.spec_magnitude() == 0 ==> final(genes)@ == old(genes)@,
    {
        proof {
            use_type_invariant(self);
        }
        let n = genes.len();
        let mut i: usize = 0;
        while i < n
            invariant
                i <= n,
                self.type_inv(),
                n == old(genes)@.len(),
                genes@.len() == old(genes)@.len(),
                forall|t: int| i <= t < n ==> #[trigger] genes@[t] == old(genes)@[t],
                forall|t: int|
                    0 <= t < i ==> #[trigger] genes@[t] == old(genes)@[t]
                        || shifted_by_at_most(genes@[t], old(genes)@[t], self.spec_magnitude()),
                self.spec_chance() == 0 ==> genes@ == old(genes)@,
                self.spec_magnitude() == 0 ==> genes@ == old(genes)@,
            decreases n - i,
        {
            let roll = gen_below_u128(rng, CHANCE_SCALE as u128);
            if roll < self.chance as u128 {
                let delta = gen_range_i64(rng, -self.magnitude, self.magnitude);
                let g = genes.gene(i);
                let shifted = sat_add(g, delta);
                genes.set_gene(i, shifted);
                proof {
                    assert(sat_i64(g as int + delta as int) == shifted as int);
                    assert(shifted_by_at_most(shifted, g, self.spec_magnitude()));
                    if self.magnitude == 0 {
                        assert(shifted == g);
                        assert(genes@ =~= old(genes)@);
                    }
                }
            }
            i += 1;
        }
    }
}

impl MutationMethod for GaussianMutation {
    fn mutate(&self, rng: &mut ChaCha8Rng, genes: &mut Chromosome) {
        GaussianMutation::mutate(self, rng, genes)
    }
}

/// The smallest fitness among the first `k` individuals.
pub open spec fn min_fitness_upto<I: Individual>(s: Seq<I>, k: int) -> int
    decreases k,
{
    if k <= 1 {
        s[0].spec_fitness() as int
    } else if s[k - 1].spec_fitness() < min_fitness_upto(s, k - 1) {
        s[k - 1].spec_fitness() as int
    } else {
        min_fitness_upto(s, k - 1)
    }
}

/// The largest fitness among the first `k` individuals.
pub open spec fn max_fitness_upto<I: Individual>(s: Seq<I>, k: int) -> int
    decreases k,
{
    if k <= 1 {
        s[0].spec_fitness() as int
    } else if s[k - 1].spec_fitness() > max_fitness_upto(s, k - 1) {
        s[k - 1].spec_fitness() as int
    } else {
        max_fitness_upto(s, k - 1)
    }
}

/// Summary statistics of one population's fitness scores, reported for
/// observability; they do not affect the evolved population.
pub struct Statistics {
    /// The smallest fitness in the population.
    pub min_fitness: u64,
    /// The largest fitness in the population.
    pub max_fitness: u64,
    /// The total fitness divided by the population size, rounded down.
    pub avg_fitness: u64,
}

impl Statistics {
    /// Computes the minimum, maximum and rounded-down average fitness of a
    /// non-empty population.
    pub fn new<I: Individual>(population: &Vec<I>) -> (s: Statistics)
        requires
            population@.len() > 0,
        ensures
            s.min_fitness as int == min_fitness_upto(population@, population@.len() as int),
            s.max_fitness as int == max_fitness_upto(population@, population@.len() as int),
            s.avg_fitness as int == total_fitness(population@) / (population@.len() as int),
    {
        let n = population.len();
        let first = population[0].fitness();
        let mut min_f: u64 = first;
        let mut max_f: u64 = first;
        let mut total: u128 = first as u128;
        proof {
            assert(fitness_upto(population@, 0) == 0);
            assert(fitness_upto(population@, 1) == population@[0].spec_fitness());
        }
        let mut i: usize = 1;
        while i < n
            invariant
                1 <= i <= n,
                n == population@.len(),
                min_f as int == min_fitness_upto(population@, i as int),
                max_f as int == max_fitness_upto(population@, i as int),
                total == fitness_upto(population@, i as int),
                total <= i * 0xffff_ffff_ffff_ffffu128,
            decreases n - i,
        {
            let f = population[i].fitness();
            if f < min_f {
                min_f = f;
            }
            if f > max_f {
                max_f = f;
            }
            total = total + f as u128;
            i += 1;
        }
        let avg_wide: u128 = total / (n as u128);
        proof {
            assert(total as int / (n as int) <= 0xffff_ffff_ffff_ffff) by (nonlinear_arith)
                requires
                    total as int <= (n as int) * 0xffff_ffff_ffff_ffff,
                    n as int >= 1,
                    total as int >= 0,
            ;
        }
        let avg: u64 = avg_wide as u64;
        Statistics { min_fitness: min_f, max_fitness: max_f, avg_fitness: avg }
    }
}

/// Orchestrates one generation step over any population of individuals.
pub struct GeneticAlgorithm;

impl GeneticAlgorithm {
    /// Builds the driver.
    pub fn new() -> GeneticAlgorithm {
        GeneticAlgorithm
    }

    /// Produces the next generation: for each output slot, two parents are
    /// selected with replacement and biased toward higher fitness, crossed
    /// over uniformly, and the child is perturbed in place. The output has
    /// the same size as the input, and every output chromosome keeps the
    /// run's gene length; output fitness is not meaningful until externally
    /// re-evaluated.
    pub fn evolve<I: Individual, S: SelectionMethod<I>, C: CrossoverMethod, M: MutationMethod>(
        &self,
        rng: &mut ChaCha8Rng,
        population: &Vec<I>,
        selection: &S,
        crossover: &C,
        mutation: &M,
    ) -> (out: Vec<I>)
        requires
            population@.len() > 0,
            forall|i: int|
                0 <= i < population@.len() ==> (#[trigger] population@[i]).spec_chromosome().len()
                    == population@[0].spec_chromosome().len(),
        ensures
            out@.len() == population@.len(),
            forall|i: int|
                0 <= i < out@.len() ==> (#[trigger] out@[i]).spec_chromosome().len()
                    == population@[0].spec_chromosome().len(),
    {
        let n = population.len();
        let mut out: Vec<I> = Vec::new();
        let mut slot: usize = 0;
        while slot < n
            invariant
                slot <= n,
                n == population@.len(),
                population@.len() > 0,
                forall|i: int|
                    0 <= i < population@.len() ==> (#[trigger] population@[i])
                        .spec_chromosome().len() == population@[0].spec_chromosome().len(),
                out@.len() == slot,
                forall|i: int|
                    0 <= i < slot ==> (#[trigger] out@[i]).spec_chromosome().len()
                        == population@[0].spec_chromosome().len(),
            decreases n - slot,
        {
            let parent_a = selection.select(rng, population);
            let chrom_a = parent_a.chromosome();
            let parent_b = selection.select(rng, population);
            let chrom_b = parent_b.chromosome();
            let mut child = crossover.crossover(rng, chrom_a, chrom_b);
            mutation.mutate(rng, &mut child);
            let offspring = I::create(child);
            out.push(offspring);
            slot += 1;
        }
        out
    }
}

} // verus!
