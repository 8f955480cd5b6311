use feedforward::layer::Layer;
use feedforward::fixed::SCALE;

#[test]
fn empty_layer_has_default_parameters() {
    let l = Layer::empty(2, 3);
    assert_eq!(l.num_inputs, 2);
    assert_eq!(l.values, vec![0, 0, 0]);
    assert_eq!(l.biases, vec![0, 0, 0]);
    assert_eq!(l.weights, vec![vec![SCALE, SCALE], vec![SCALE, SCALE], vec![SCALE, SCALE]]);
}

#[test]
fn single_neuron_pass_is_bias_plus_weighted_input() {
    // weight 3.0, bias 0.5, input 2.0: pass alone yields 0.5 + 3.0 * 2.0.
    let mut l = Layer {
        num_inputs: 1,
        values: vec![0],
        weights: vec![vec![3 * SCALE]],
        biases: vec![SCALE / 2],
    };
    l.pass(&vec![2 * SCALE]);
    assert_eq!(l.values, vec![SCALE / 2 + 6 * SCALE]);
    // Weights and biases are untouched.
    assert_eq!(l.weights, vec![vec![3 * SCALE]]);
    assert_eq!(l.biases, vec![SCALE / 2]);
}

#[test]
fn pass_sums_in_index_order_and_overwrites() {
    let mut l = Layer {
        num_inputs: 3,
        values: vec![77, 88],
        weights: vec![vec![SCALE, 2 * SCALE, -SCALE], vec![0, 0, SCALE / 2]],
        biases: vec![10 * SCALE, -SCALE],
    };
    l.pass(&vec![SCALE, SCALE, 4 * SCALE]);
    // neuron 0: 10 + 1*1 + 2*1 + (-1)*4 = 9; neuron 1: -1 + 0.5*4 = 1.
    assert_eq!(l.values, vec![9 * SCALE, SCALE]);
}

#[test]
fn relu_activation_is_idempotent() {
    let mut l = Layer {
        num_inputs: 1,
        values: vec![-5 * SCALE, 7, 0, -1, SCALE],
        weights: vec![vec![SCALE]; 5],
        biases: vec![0; 5],
    };
    l.relu_activation();
    let once = l.values.clone();
    assert_eq!(once, vec![0, 7, 0, 0, SCALE]);
    l.relu_activation();
    assert_eq!(l.values, once);
}

#[test]
fn sigmoid_activation_maps_each_value() {
    let mut l = Layer {
        num_inputs: 1,
        values: vec![0, i64::MAX, i64::MIN],
        weights: vec![vec![SCALE]; 3],
        biases: vec![0; 3],
    };
    l.sigmoid_activation();
    assert_eq!(l.values[0], SCALE / 2);
    for &v in &l.values {
        assert!(0 < v && v < SCALE);
    }
}
