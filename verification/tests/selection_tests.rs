use std::collections::BTreeMap;

use rand::SeedableRng;
use rand_chacha::ChaCha8Rng;

use neuroevo::individual::{Individual, TestIndividual};
use neuroevo::selection::{RouletteWheelSelection, SelectionMethod};

fn population() -> Vec<TestIndividual> {
    vec![
        TestIndividual::new(2.0f32.to_bits()),
        TestIndividual::new(1.0f32.to_bits()),
        TestIndividual::new(4.0f32.to_bits()),
        TestIndividual::new(3.0f32.to_bits()),
    ]
}

fn histogram_of_thousand(
    method: &RouletteWheelSelection,
    rng: &mut ChaCha8Rng,
    population: &Vec<TestIndividual>,
) -> BTreeMap<i32, i32> {
    let mut histogram: BTreeMap<i32, i32> = BTreeMap::new();
    for _ in 0..1000 {
        let chosen = method.select(rng, population).unwrap();
        let fitness = f32::from_bits(chosen.fitness()) as i32;
        *histogram.entry(fitness).or_insert(0) += 1;
    }
    histogram
}

#[test]
fn test() {
    let method = RouletteWheelSelection::new();
    let mut rng = ChaCha8Rng::from_seed(Default::default());
    let population = population();

    let _first_round = histogram_of_thousand(&method, &mut rng, &population);
    let actual_histogram = histogram_of_thousand(&method, &mut rng, &population);

    let mut expected_histogram: BTreeMap<i32, i32> = BTreeMap::new();
    expected_histogram.insert(1, 101);
    expected_histogram.insert(2, 192);
    expected_histogram.insert(3, 293);
    expected_histogram.insert(4, 414);

    assert_eq!(actual_histogram, expected_histogram);
}

#[test]
fn selection_returns_none_without_viable_weights() {
    let method = RouletteWheelSelection::new();
    let mut rng = ChaCha8Rng::from_seed(Default::default());

    let empty: Vec<TestIndividual> = Vec::new();
    assert!(method.select(&mut rng, &empty).is_none());

    let all_zero = vec![
        TestIndividual::new(0.0f32.to_bits()),
        TestIndividual::new(0.0f32.to_bits()),
    ];
    assert!(method.select(&mut rng, &all_zero).is_none());

    let negative = vec![
        TestIndividual::new((-1.0f32).to_bits()),
        TestIndividual::new(2.0f32.to_bits()),
    ];
    assert!(method.select(&mut rng, &negative).is_none());
}

#[test]
fn selection_is_deterministic_for_one_seed() {
    let method = RouletteWheelSelection::new();
    let population = population();

    let mut rng_a = ChaCha8Rng::from_seed(Default::default());
    let mut rng_b = ChaCha8Rng::from_seed(Default::default());

    for _ in 0..100 {
        let a = method.select(&mut rng_a, &population).unwrap().fitness();
        let b = method.select(&mut rng_b, &population).unwrap().fitness();
        assert_eq!(a, b);
    }
}
