use evonet::chromosome::Chromosome;
use evonet::neural::{Layer, LayerTopology, Network, Neuron};
use rand::SeedableRng;
use rand_chacha::ChaCha8Rng;
use evonet::scalar::{mul_scaled, relu, sat_add, SCALE};

fn topology(counts: &[usize]) -> Vec<LayerTopology> {
    counts.iter().map(|&neurons| LayerTopology { neurons }).collect()
}

#[test]
fn neuron_propagate_matches_formula() {
    // bias 0.5, weights [-0.3, 0.8], in millionths
    let neuron = Neuron::new(500_000, vec![-300_000, 800_000]);

    // (-0.3 * -10.0) + (0.8 * -10.0) + 0.5 = -4.5, floored at 0 by ReLU
    assert_eq!(neuron.propagate(&vec![-10_000_000, -10_000_000]), 0);

    // (-0.3 * 0.5) + (0.8 * 1.0) + 0.5 = 1.15
    assert_eq!(neuron.propagate(&vec![500_000, 1_000_000]), 1_150_000);
}

#[test]
fn layer_propagate_matches_formula() {
    let layer = Layer::new(vec![
        Neuron::new(500_000, vec![-300_000, 800_000]),
        Neuron::new(400_000, vec![-100_000, 400_000]),
    ]);

    // Both pre-activations are negative, so ReLU floors both outputs
    assert_eq!(layer.propagate(&vec![-10_000_000, -10_000_000]), vec![0, 0]);

    let out = layer.propagate(&vec![500_000, 1_000_000]);
    // (-0.3 * 0.5) + (0.8 * 1.0) + 0.5 = 1.15
    assert_eq!(out[0], 1_150_000);
    // (-0.1 * 0.5) + (0.4 * 1.0) + 0.4 = 0.75
    assert_eq!(out[1], 750_000);
}

#[test]
fn network_propagate_matches_formula() {
    // Three layers: 2 inputs -> 3 neurons -> 2 neurons -> 1 neuron, encoded
    // in layer order, neuron order, bias before weights.
    let genes: Vec<i64> = vec![
        500_000, -300_000, 800_000, // bias 0.5, weights [-0.3, 0.8]
        400_000, -100_000, 400_000, // bias 0.4, weights [-0.1, 0.4]
        -300_000, 400_000, 900_000, // bias -0.3, weights [0.4, 0.9]
        -1_000_000, -200_000, 600_000, 100_000, // bias -1.0, weights [-0.2, 0.6, 0.1]
        -100_000, 700_000, -100_000, 400_000, // bias -0.1, weights [0.7, -0.1, 0.4]
        -900_000, 400_000, 200_000, // bias -0.9, weights [0.4, 0.2]
    ];
    let net = Network::from_chromosome(&Chromosome::new(genes), &topology(&[2, 3, 2, 1]));

    // Every pre-activation is negative, so the single output is floored at 0
    assert_eq!(net.propagate(vec![-10_000_000, -10_000_000]), vec![0]);

    // Inputs [70.0, 60.0]:
    //   r1 = relu(70*-0.3 + 60*0.8 + 0.5)  = 27.5
    //   r2 = relu(70*-0.1 + 60*0.4 + 0.4)  = 17.4
    //   r3 = relu(70*0.4  + 60*0.9 - 0.3)  = 81.7
    //   r4 = relu(r1*-0.2 + r2*0.6 + r3*0.1 - 1.0) = 12.11
    //   r5 = relu(r1*0.7  + r2*-0.1 + r3*0.4 - 0.1) = 50.09
    //   out = relu(r4*0.4 + r5*0.2 - 0.9) = 13.962
    assert_eq!(net.propagate(vec![70_000_000, 60_000_000]), vec![13_962_000]);
}

#[test]
fn scenario_3_2_1_hand_computed() {
    // Topology [3, 2, 1] needs 3*2+2 + 2*1+1 = 11 genes.
    let genes: Vec<i64> = vec![
        100_000, 200_000, -400_000, 500_000, // bias 0.1, weights [0.2, -0.4, 0.5]
        -200_000, 300_000, 300_000, -100_000, // bias -0.2, weights [0.3, 0.3, -0.1]
        250_000, 1_000_000, 500_000, // bias 0.25, weights [1.0, 0.5]
    ];
    assert_eq!(genes.len(), 11);
    let net = Network::from_chromosome(&Chromosome::new(genes), &topology(&[3, 2, 1]));

    // Inputs [1.0, 2.0, 3.0]:
    //   h1 = relu(0.1 + 0.2*1 - 0.4*2 + 0.5*3)  = 1.0
    //   h2 = relu(-0.2 + 0.3*1 + 0.3*2 - 0.1*3) = 0.4
    //   out = relu(0.25 + 1.0*1.0 + 0.5*0.4)    = 1.45
    let out = net.propagate(vec![1_000_000, 2_000_000, 3_000_000]);
    assert_eq!(out, vec![1_450_000]);
}

#[test]
fn chromosome_round_trip() {
    let genes: Vec<i64> = vec![7, -3, 12, 0, 99, -42, 5, 5, 1, 2, 3];
    let topo = topology(&[3, 2, 1]);
    let net = Network::from_chromosome(&Chromosome::new(genes.clone()), &topo);
    let back = net.to_chromosome();
    assert_eq!(back.genes(), &genes);
}

#[test]
fn random_round_trip_after_evolution_shape() {
    let mut rng = ChaCha8Rng::seed_from_u64(11);
    let topo = topology(&[4, 3, 2]);
    let net = Network::random(&mut rng, &topo);
    let flat = net.to_chromosome();
    // 3*(4+1) + 2*(3+1) genes
    assert_eq!(flat.len(), 23);
    let rebuilt = Network::from_chromosome(&flat, &topo);
    assert_eq!(rebuilt.to_chromosome().genes(), flat.genes());
}

#[test]
fn random_params_within_unit_interval() {
    let mut rng = ChaCha8Rng::seed_from_u64(42);
    let net = Network::random(&mut rng, &topology(&[3, 4, 2]));
    let flat = net.to_chromosome();
    assert_eq!(flat.len(), 4 * 4 + 2 * 5);
    for i in 0..flat.len() {
        let g = flat.gene(i);
        assert!(-SCALE <= g && g <= SCALE);
    }
}

#[test]
fn random_is_deterministic_for_a_seed() {
    let topo = topology(&[3, 2, 1]);
    let mut rng_a = ChaCha8Rng::seed_from_u64(7);
    let mut rng_b = ChaCha8Rng::seed_from_u64(7);
    let net_a = Network::random(&mut rng_a, &topo);
    let net_b = Network::random(&mut rng_b, &topo);
    assert_eq!(net_a.to_chromosome().genes(), net_b.to_chromosome().genes());
    let out_a = net_a.propagate(vec![1_000_000, -2_000_000, 3_000_000]);
    let out_b = net_b.propagate(vec![1_000_000, -2_000_000, 3_000_000]);
    assert_eq!(out_a, out_b);
}

#[test]
fn propagate_output_nonnegative_and_shaped() {
    let mut rng = ChaCha8Rng::seed_from_u64(123);
    let net = Network::random(&mut rng, &topology(&[3, 5, 4]));
    assert_eq!(net.n_inputs(), 3);
    let out = net.propagate(vec![-7_000_000, 250_000, 66_000_000]);
    assert_eq!(out.len(), 4);
    for &y in &out {
        assert!(y >= 0);
    }
}

#[test]
fn scalar_arithmetic_saturates_and_rescales() {
    // 2.0 * 3.5 = 7.0 in millionths
    assert_eq!(mul_scaled(2_000_000, 3_500_000), 7_000_000);
    // -0.5 * 0.5 = -0.25, truncated toward zero
    assert_eq!(mul_scaled(-500_000, 500_001), -250_000);
    // products far outside the scalar range saturate
    assert_eq!(mul_scaled(i64::MAX, i64::MAX), i64::MAX);
    assert_eq!(mul_scaled(i64::MAX, i64::MIN), i64::MIN);
    assert_eq!(sat_add(i64::MAX, 1), i64::MAX);
    assert_eq!(sat_add(i64::MIN, -1), i64::MIN);
    assert_eq!(sat_add(40, 2), 42);
    assert_eq!(relu(-1), 0);
    assert_eq!(relu(7), 7);
}

#[test]
fn neuron_random_draws_requested_weight_count() {
    let mut rng = ChaCha8Rng::seed_from_u64(0);
    let neuron = Neuron::random(&mut rng, 4);
    let layer = Layer::new(vec![neuron]);
    let out = layer.propagate(&vec![0, 0, 0, 0]);
    assert_eq!(out.len(), 1);
}
