use rand::SeedableRng;
use rand_chacha::ChaCha8Rng;

use neuroevo::network::{Layer, LayerTopology, Network, Neuron};

fn bits_of(values: &[f32]) -> Vec<u32> {
    values.iter().map(|v| v.to_bits()).collect()
}

fn floats_of(values: &[u32]) -> Vec<f32> {
    values.iter().map(|v| f32::from_bits(*v)).collect()
}

#[test]
fn test_random() {
    // Because the seed is fixed, the random source always yields the same
    // values.
    let mut rng = ChaCha8Rng::from_seed(Default::default());
    let neuron = Neuron::random(&mut rng, 4);

    assert_eq!(f32::from_bits(neuron.bias), -0.6255188);
    assert_eq!(
        floats_of(&neuron.weights),
        vec![0.67383957, 0.8181262, 0.26284897, 0.5238807]
    );
}

#[test]
fn test_propagate_neuron() {
    let neuron = Neuron::new(0.5f32.to_bits(), bits_of(&[-0.3, 0.8]));

    // A strongly negative pre-activation clamps to exactly zero.
    let low = neuron.propagate(&bits_of(&[-10.0, -10.0]));
    assert_eq!(f32::from_bits(low), 0.0);

    let mid = neuron.propagate(&bits_of(&[0.5, 1.0]));
    assert_eq!(f32::from_bits(mid), (-0.3 * 0.5) + (0.8 * 1.0) + 0.5);
}

#[allow(non_snake_case)]
#[test]
fn test_propagate_Layer() {
    let layer = Layer::new(vec![
        Neuron::new(0.5f32.to_bits(), bits_of(&[-0.3, 1.0])),
        Neuron::new(0.2f32.to_bits(), bits_of(&[-0.3, 0.8])),
        Neuron::new(0.1f32.to_bits(), bits_of(&[0.3, 0.2])),
    ]);

    let inputs = bits_of(&[-0.3, 0.5]);

    assert_eq!(floats_of(&layer.propagate(&inputs)), vec![1.09, 0.69, 0.11]);
}

#[test]
fn test_propagate_layer() {
    let layer = Layer::new(vec![
        Neuron::new(0.5f32.to_bits(), bits_of(&[-0.3, 1.0])),
        Neuron::new(0.2f32.to_bits(), bits_of(&[-0.3, 0.8])),
        Neuron::new(0.1f32.to_bits(), bits_of(&[0.3, 0.2])),
    ]);

    let inputs = bits_of(&[-0.3, 0.5]);

    assert_eq!(floats_of(&layer.propagate(&inputs)), vec![1.09, 0.69, 0.11]);
}

#[test]
fn test_propagate_network() {}

#[test]
fn weights_flatten_test() {
    let network = Network::new(vec![
        Layer::new(vec![Neuron::new(0.1f32.to_bits(), bits_of(&[0.2, 0.3, 0.4]))]),
        Layer::new(vec![Neuron::new(0.5f32.to_bits(), bits_of(&[0.6, 0.7, 0.8]))]),
    ]);

    let actual = network.weights();
    assert_eq!(
        floats_of(&actual),
        vec![0.1, 0.2, 0.3, 0.4, 0.5, 0.6, 0.7, 0.8]
    );
}

#[test]
fn network_from_weights_test() {
    let topology = vec![LayerTopology { neurons: 3 }, LayerTopology { neurons: 2 }];
    let weights = bits_of(&[0.1, 0.2, 0.3, 0.4, 0.5, 0.6, 0.7, 0.8]);

    let network = Network::from_weights(&topology, &weights);
    let actual = network.weights();

    assert_eq!(actual, weights);
}

#[test]
fn weight_round_trip_preserves_propagation() {
    let mut rng = ChaCha8Rng::from_seed(Default::default());
    let topology = vec![
        LayerTopology { neurons: 3 },
        LayerTopology { neurons: 5 },
        LayerTopology { neurons: 2 },
    ];

    let network = Network::random(&mut rng, &topology);
    let flat = network.weights();
    let rebuilt = Network::from_weights(&topology, &flat);

    assert_eq!(rebuilt.weights(), flat);

    let inputs = bits_of(&[0.5, -0.25, 0.8]);
    assert_eq!(
        network.propagate(inputs.clone()),
        rebuilt.propagate(inputs)
    );
}

#[test]
fn network_random_matches_topology() {
    let mut rng = ChaCha8Rng::from_seed(Default::default());
    let topology = vec![
        LayerTopology { neurons: 4 },
        LayerTopology { neurons: 3 },
        LayerTopology { neurons: 2 },
    ];

    let network = Network::random(&mut rng, &topology);

    assert_eq!(network.layers.len(), 2);
    assert_eq!(network.layers[0].neurons.len(), 3);
    assert_eq!(network.layers[1].neurons.len(), 2);
    for neuron in &network.layers[0].neurons {
        assert_eq!(neuron.weights.len(), 4);
    }
    for neuron in &network.layers[1].neurons {
        assert_eq!(neuron.weights.len(), 3);
    }
    // Every drawn scalar, bias included, lies inside the closed interval.
    for layer in &network.layers {
        for neuron in &layer.neurons {
            let b = f32::from_bits(neuron.bias);
            assert!(-1.0 <= b && b <= 1.0);
            for w in &neuron.weights {
                let v = f32::from_bits(*w);
                assert!(-1.0 <= v && v <= 1.0);
            }
        }
    }

    // The flat vector has exactly one bias plus one weight per input for
    // each neuron.
    assert_eq!(network.weights().len(), 3 * 5 + 2 * 4);
}
