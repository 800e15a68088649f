use rand::SeedableRng;
use rand_chacha::ChaCha8Rng;

use neuroevo::chromosome::Chromosome;
use neuroevo::crossover::{CrossoverMethod, UniformCrossover};
use neuroevo::engine::{EvolveError, GeneticAlgorithm};
use neuroevo::individual::{Individual, TestIndividual};
use neuroevo::mutation::{GaussianMutation, MutationMethod};
use neuroevo::selection::RouletteWheelSelection;
use neuroevo::statistics::Statistics;

fn bits_of(genes: &[f32]) -> Vec<u32> {
    genes.iter().map(|g| g.to_bits()).collect()
}

fn floats_of(genes: &[u32]) -> Vec<f32> {
    genes.iter().map(|g| f32::from_bits(*g)).collect()
}

fn chromosome() -> Chromosome {
    Chromosome::new(bits_of(&[3.0, 1.0, 2.0]))
}

#[test]
fn gene_len_test() {
    assert_eq!(chromosome().len(), 3);
}

#[test]
fn gene_iter_test() {
    let chromosome = chromosome();
    let genes = chromosome.iter();

    assert_eq!(genes.len(), 3);
    assert_eq!(f32::from_bits(genes[0]), 3.0);
    assert_eq!(f32::from_bits(genes[1]), 1.0);
    assert_eq!(f32::from_bits(genes[2]), 2.0);
}

#[test]
fn gene_iter_mut_test() {
    let mut chromosome = chromosome();

    for i in 0..chromosome.len() {
        let gene = f32::from_bits(chromosome.get(i));
        chromosome.set(i, (gene * 10.0).to_bits());
    }

    let genes = chromosome.iter();
    assert_eq!(genes.len(), 3);
    assert_eq!(f32::from_bits(genes[0]), 30.0);
    assert_eq!(f32::from_bits(genes[1]), 10.0);
    assert_eq!(f32::from_bits(genes[2]), 20.0);
}

#[test]
fn gene_from_iter_test() {
    let chromosome = Chromosome::new(bits_of(&[3.0, 1.0, 2.0]));

    assert_eq!(f32::from_bits(chromosome.get(0)), 3.0);
    assert_eq!(f32::from_bits(chromosome.get(1)), 1.0);
    assert_eq!(f32::from_bits(chromosome.get(2)), 2.0);
}

#[test]
fn lib_test() {
    let mut rng = ChaCha8Rng::from_seed(Default::default());
    let parent_a = Chromosome::new((1..=100).map(|n| (n as f32).to_bits()).collect());
    let parent_b = Chromosome::new((1..=100).map(|n| (-n as f32).to_bits()).collect());

    let child = UniformCrossover::new().crossover(&mut rng, &parent_a, &parent_b);

    let diff_a = child
        .iter()
        .iter()
        .zip(parent_a.iter())
        .filter(|(c, p)| f32::from_bits(**c) != f32::from_bits(*p))
        .count();
    let diff_b = child
        .iter()
        .iter()
        .zip(parent_b.iter())
        .filter(|(c, p)| f32::from_bits(**c) != f32::from_bits(*p))
        .count();

    assert_eq!(diff_a, 49);
    assert_eq!(diff_b, 51);
}

#[test]
fn crossover_child_takes_each_gene_from_a_parent() {
    let mut rng = ChaCha8Rng::from_seed(Default::default());
    let parent_a = Chromosome::new(bits_of(&[1.5, -2.25, 3.75, 0.125]));
    let parent_b = Chromosome::new(bits_of(&[-9.0, 8.5, -7.25, 6.0]));

    let child = UniformCrossover::new().crossover(&mut rng, &parent_a, &parent_b);

    assert_eq!(child.len(), 4);
    for i in 0..child.len() {
        let c = child.get(i);
        assert!(c == parent_a.get(i) || c == parent_b.get(i));
    }
}

fn mutated(chance: f32, coeff: f32) -> Vec<f32> {
    let mut child = Chromosome::new(bits_of(&[1.0, 2.0, 3.0, 4.0, 5.0]));
    let mut rng = ChaCha8Rng::from_seed(Default::default());

    GaussianMutation::new(chance.to_bits(), coeff.to_bits()).mutate(&mut rng, &mut child);

    floats_of(&child.into_genes())
}

#[test]
fn does_not_change_the_original_chromosome() {
    assert_eq!(mutated(0.0, 0.0), vec![1.0, 2.0, 3.0, 4.0, 5.0]);
}

#[test]
fn lib_does_not_change_the_original_chromosome() {
    assert_eq!(mutated(0.0, 0.5), vec![1.0, 2.0, 3.0, 4.0, 5.0]);
}

#[test]
fn fifty_fifty_zero_coeff_does_not_change_chromosome() {
    assert_eq!(mutated(0.5, 0.0), vec![1.0, 2.0, 3.0, 4.0, 5.0]);
}

#[test]
fn max_chance_zero_coeff_does_not_change_chromosome() {
    assert_eq!(mutated(1.0, 0.0), vec![1.0, 2.0, 3.0, 4.0, 5.0]);
}

#[test]
fn slightly_changes_the_original_chromosome() {
    assert_eq!(mutated(0.5, 0.5), vec![1.0, 1.7756249, 3.0, 4.1596804, 5.0]);
}

#[test]
fn entirely_changes_the_original_chromosome() {
    assert_eq!(
        mutated(1.0, 0.5),
        vec![1.4545316, 2.1162078, 2.7756248, 3.9505124, 4.638691]
    );
}

#[test]
fn statistics_scenario() {
    let population = vec![
        TestIndividual::new(30.0f32.to_bits()),
        TestIndividual::new(10.0f32.to_bits()),
        TestIndividual::new(20.0f32.to_bits()),
    ];

    let stats = Statistics::new(&population);

    assert_eq!(f32::from_bits(stats.min_fitness()), 10.0);
    assert_eq!(f32::from_bits(stats.max_fitness()), 30.0);
    assert_eq!(f32::from_bits(stats.avg_fitness()), 20.0);
}

fn individual(genes: &[f32]) -> TestIndividual {
    TestIndividual::create(Chromosome::new(bits_of(genes)))
}

fn engine() -> GeneticAlgorithm<RouletteWheelSelection, UniformCrossover, GaussianMutation> {
    GeneticAlgorithm::new(
        RouletteWheelSelection::new(),
        UniformCrossover::new(),
        GaussianMutation::new(0.5f32.to_bits(), 0.5f32.to_bits()),
    )
}

#[test]
fn evolve_statistics_describe_the_input_population() {
    let mut rng = ChaCha8Rng::from_seed(Default::default());
    let population = vec![
        individual(&[1.0, 1.0, 1.0]),
        individual(&[1.0, 2.0, 1.0]),
        individual(&[1.0, 2.0, 4.0]),
    ];

    let (new_population, stats) = engine().evolve(&mut rng, &population).unwrap();

    assert_eq!(new_population.len(), 3);
    let expected = Statistics::new(&population);
    assert_eq!(stats.min_fitness(), expected.min_fitness());
    assert_eq!(stats.max_fitness(), expected.max_fitness());
    assert_eq!(stats.avg_fitness(), expected.avg_fitness());
    assert_eq!(f32::from_bits(stats.min_fitness()), 3.0);
    assert_eq!(f32::from_bits(stats.max_fitness()), 7.0);
    assert_eq!(f32::from_bits(stats.avg_fitness()), 14.0 / 3.0);
}

#[test]
fn evolve_is_deterministic_for_one_seed() {
    let population = vec![
        individual(&[1.0, 1.0, 1.0]),
        individual(&[1.0, 2.0, 1.0]),
        individual(&[1.0, 2.0, 4.0]),
        individual(&[3.0, 1.0, 2.0]),
    ];

    let mut rng_a = ChaCha8Rng::from_seed(Default::default());
    let mut rng_b = ChaCha8Rng::from_seed(Default::default());

    let (out_a, stats_a) = engine().evolve(&mut rng_a, &population).unwrap();
    let (out_b, stats_b) = engine().evolve(&mut rng_b, &population).unwrap();

    assert_eq!(out_a.len(), out_b.len());
    for (a, b) in out_a.iter().zip(out_b.iter()) {
        assert_eq!(a.chromosome().iter(), b.chromosome().iter());
    }
    assert_eq!(stats_a.min_fitness(), stats_b.min_fitness());
    assert_eq!(stats_a.max_fitness(), stats_b.max_fitness());
    assert_eq!(stats_a.avg_fitness(), stats_b.avg_fitness());
}

#[test]
fn evolve_reports_no_viable_selection_weight() {
    let mut rng = ChaCha8Rng::from_seed(Default::default());
    let population = vec![individual(&[0.0, 0.0, 0.0]), individual(&[0.0, 0.0, 0.0])];

    let result = engine().evolve(&mut rng, &population);

    assert_eq!(result.unwrap_err(), EvolveError::NoViableSelectionWeight);
}
