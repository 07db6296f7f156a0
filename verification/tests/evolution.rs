use evonet::chromosome::Chromosome;
use evonet::genetic::{
    GaussianMutation, GeneticAlgorithm, Individual, RouletteWheelSelection, ScoredIndividual,
    Statistics, UniformCrossover, CHANCE_SCALE,
};
use rand::SeedableRng;
use rand_chacha::ChaCha8Rng;

fn individual(fitness: u64, genes: Vec<i64>) -> ScoredIndividual {
    ScoredIndividual::new(fitness, Chromosome::new(genes))
}

#[test]
fn evolve_preserves_population_size() {
    let mut rng = ChaCha8Rng::seed_from_u64(1);
    let population = vec![
        individual(10, vec![1, 2, 3]),
        individual(20, vec![4, 5, 6]),
        individual(30, vec![7, 8, 9]),
        individual(40, vec![10, 11, 12]),
        individual(5, vec![13, 14, 15]),
    ];
    let ga = GeneticAlgorithm::new();
    let out = ga.evolve(
        &mut rng,
        &population,
        &RouletteWheelSelection::new(),
        &UniformCrossover::new(),
        &GaussianMutation::new(CHANCE_SCALE / 2, 500_000),
    );
    assert_eq!(out.len(), population.len());
    for child in &out {
        assert_eq!(child.chromosome().len(), 3);
    }
}

#[test]
fn evolve_is_deterministic_for_a_seed() {
    let population = vec![
        individual(3, vec![100, -200, 300, 400]),
        individual(9, vec![-100, 200, -300, -400]),
    ];
    let ga = GeneticAlgorithm::new();
    let mut rng_a = ChaCha8Rng::seed_from_u64(77);
    let mut rng_b = ChaCha8Rng::seed_from_u64(77);
    let out_a = ga.evolve(
        &mut rng_a,
        &population,
        &RouletteWheelSelection::new(),
        &UniformCrossover::new(),
        &GaussianMutation::new(CHANCE_SCALE / 4, 250_000),
    );
    let out_b = ga.evolve(
        &mut rng_b,
        &population,
        &RouletteWheelSelection::new(),
        &UniformCrossover::new(),
        &GaussianMutation::new(CHANCE_SCALE / 4, 250_000),
    );
    assert_eq!(out_a.len(), out_b.len());
    for (a, b) in out_a.iter().zip(out_b.iter()) {
        assert_eq!(a.chromosome().genes(), b.chromosome().genes());
    }
}

#[test]
fn crossover_preserves_length_and_provenance() {
    let a = Chromosome::new(vec![10, 20, 30, 40, 50]);
    let b = Chromosome::new(vec![-1, -2, -3, -4, -5]);
    let cross = UniformCrossover::new();
    let mut rng = ChaCha8Rng::seed_from_u64(3);
    let mut from_a: usize = 0;
    let mut from_b: usize = 0;
    for _ in 0..100 {
        let child = cross.crossover(&mut rng, &a, &b);
        assert_eq!(child.len(), 5);
        for i in 0..5 {
            let g = child.gene(i);
            assert!(g == a.gene(i) || g == b.gene(i));
            if g == a.gene(i) {
                from_a += 1;
            } else {
                from_b += 1;
            }
        }
    }
    // A fair per-gene coin must pick both parents a reasonable share of
    // 500 draws.
    assert!(from_a > 100 && from_b > 100);
}

#[test]
fn selection_prefers_high_fitness() {
    let population = vec![individual(0, vec![1]), individual(100, vec![2])];
    let selection = RouletteWheelSelection::new();
    let mut rng = ChaCha8Rng::seed_from_u64(5);
    for _ in 0..1000 {
        let picked = selection.select(&mut rng, &population);
        // With total fitness 100 the zero-fitness individual is never hit.
        assert_eq!(picked.fitness(), 100);
    }
}

#[test]
fn selection_on_zero_total_is_uniform_fallback() {
    let population = vec![individual(0, vec![1]), individual(0, vec![2])];
    let selection = RouletteWheelSelection::new();
    let mut rng = ChaCha8Rng::seed_from_u64(6);
    let mut first: usize = 0;
    let mut second: usize = 0;
    for _ in 0..200 {
        let picked = selection.select(&mut rng, &population);
        if picked.chromosome().gene(0) == 1 {
            first += 1;
        } else {
            second += 1;
        }
    }
    assert!(first > 0 && second > 0);
}

#[test]
fn mutation_chance_zero_is_noop() {
    let mut rng = ChaCha8Rng::seed_from_u64(9);
    let mut genes = Chromosome::new(vec![5, -7, 100, 0, i64::MAX, i64::MIN]);
    GaussianMutation::new(0, 300_000).mutate(&mut rng, &mut genes);
    assert_eq!(genes.genes(), &vec![5, -7, 100, 0, i64::MAX, i64::MIN]);
}

#[test]
fn mutation_full_chance_zero_magnitude_is_noop() {
    let mut rng = ChaCha8Rng::seed_from_u64(10);
    let mut genes = Chromosome::new(vec![5, -7, 100, 0, 42]);
    GaussianMutation::new(CHANCE_SCALE, 0).mutate(&mut rng, &mut genes);
    assert_eq!(genes.genes(), &vec![5, -7, 100, 0, 42]);
}

#[test]
fn mutation_shifts_stay_within_magnitude() {
    let before: Vec<i64> = vec![0, 1_000, -1_000, 123_456, -654_321];
    let mut rng = ChaCha8Rng::seed_from_u64(12);
    let mutation = GaussianMutation::new(CHANCE_SCALE, 10);
    let mut changed = false;
    for _ in 0..50 {
        let mut genes = Chromosome::new(before.clone());
        mutation.mutate(&mut rng, &mut genes);
        for i in 0..before.len() {
            let diff = genes.gene(i) - before[i];
            assert!(-10 <= diff && diff <= 10);
            if diff != 0 {
                changed = true;
            }
        }
    }
    assert!(changed);
}

#[test]
fn mutation_saturates_at_the_scalar_range() {
    let mut rng = ChaCha8Rng::seed_from_u64(21);
    let mutation = GaussianMutation::new(CHANCE_SCALE, 5);
    let mut genes = Chromosome::new(vec![i64::MAX, i64::MIN]);
    mutation.mutate(&mut rng, &mut genes);
    assert!(genes.gene(0) >= i64::MAX - 5);
    assert!(genes.gene(1) <= i64::MIN + 5);
}

#[test]
fn statistics_report_min_max_average() {
    let population = vec![
        individual(30, vec![1]),
        individual(10, vec![2]),
        individual(20, vec![3]),
    ];
    let stats = Statistics::new(&population);
    assert_eq!(stats.min_fitness, 10);
    assert_eq!(stats.max_fitness, 30);
    assert_eq!(stats.avg_fitness, 20);

    let uneven = vec![
        individual(10, vec![1]),
        individual(20, vec![2]),
        individual(40, vec![3]),
    ];
    let stats = Statistics::new(&uneven);
    assert_eq!(stats.min_fitness, 10);
    assert_eq!(stats.max_fitness, 40);
    // 70 / 3, rounded down
    assert_eq!(stats.avg_fitness, 23);
}

#[test]
fn scored_individual_keeps_its_parts() {
    let mut one = individual(17, vec![9, 8, 7]);
    assert_eq!(one.fitness(), 17);
    assert_eq!(one.chromosome().genes(), &vec![9, 8, 7]);
    one.set_fitness(99);
    assert_eq!(one.fitness(), 99);
    assert_eq!(one.chromosome().genes(), &vec![9, 8, 7]);
    let fresh = ScoredIndividual::create(Chromosome::new(vec![1, 2]));
    assert_eq!(fresh.chromosome().genes(), &vec![1, 2]);
}
