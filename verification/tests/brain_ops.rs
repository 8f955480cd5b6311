use feedforward::brain::Brain;
use feedforward::fixed::SCALE;

#[test]
fn new_brain_is_default_initialized() {
    let b = Brain::new(1, 1, 2, 4);
    assert_eq!(b.first_layer.values, vec![0, 0]);
    assert_eq!(b.bonus_layers.len(), 1);
    assert_eq!(b.bonus_layers[0].weights, vec![vec![SCALE, SCALE], vec![SCALE, SCALE]]);
    assert_eq!(b.output_layer.values, vec![0, 0, 0, 0]);
    assert_eq!(b.output_layer.biases, vec![0, 0, 0, 0]);
}

#[test]
fn think_demo_network_all_ones() {
    // 1 input, 1 bonus layer, width 2, 4 outputs, default weights (all
    // one) and biases (zero), input 1.0.
    let mut b = Brain::new(1, 1, 2, 4);
    b.think(&vec![SCALE]);
    // Input-facing layer: 0 + 1.0 * 1.0 per neuron, ReLU keeps it.
    assert_eq!(b.first_layer.values, vec![SCALE, SCALE]);
    // Bonus layer: each neuron sums two 1.0 inputs, ReLU keeps 2.0.
    assert_eq!(b.bonus_layers[0].values, vec![2 * SCALE, 2 * SCALE]);
    // Output layer: each neuron sums two 2.0 inputs, giving 4.0, then
    // the sigmoid maps 4.0 to about 0.9820.
    let out = b.output_values().clone();
    assert_eq!(out, vec![64357, 64357, 64357, 64357]);
    let approx = out[0] as f64 / SCALE as f64;
    let exact = 1.0 / (1.0 + (-4.0f64).exp());
    assert!((approx - exact).abs() < 1e-3);
}

#[test]
fn think_with_zero_bonus_layers_stops_at_first_layer() {
    let mut b = Brain::new(3, 0, 5, 2);
    b.think(&vec![SCALE, -SCALE, 2 * SCALE]);
    // The output layer is untouched: still its construction-time zeros.
    assert_eq!(b.output_layer.values, vec![0, 0]);
    // The reported result is the input-facing layer's post-ReLU
    // activations: 1.0 - 1.0 + 2.0 = 2.0 per neuron.
    assert_eq!(b.output_values(), &vec![2 * SCALE; 5]);
    assert_eq!(b.output_values(), &b.first_layer.values);
}

#[test]
fn think_chains_two_bonus_layers() {
    let mut b = Brain::new(1, 2, 2, 1);
    b.think(&vec![SCALE]);
    assert_eq!(b.first_layer.values, vec![SCALE, SCALE]);
    assert_eq!(b.bonus_layers[0].values, vec![2 * SCALE, 2 * SCALE]);
    assert_eq!(b.bonus_layers[1].values, vec![4 * SCALE, 4 * SCALE]);
    // Output neuron sums two 4.0 inputs: sigmoid of 8.0, the table cap.
    assert_eq!(b.output_values(), &vec![65514]);
}

#[test]
fn all_values_lists_layers_in_order() {
    let mut b = Brain::new(1, 1, 2, 4);
    b.think(&vec![SCALE]);
    let all = b.all_values();
    assert_eq!(all.len(), 3);
    assert_eq!(all[0], b.first_layer.values);
    assert_eq!(all[1], b.bonus_layers[0].values);
    assert_eq!(all[2], b.output_layer.values);
}

#[test]
fn negative_activations_are_cut_by_relu() {
    // A custom first layer with a negative weight: ReLU zeroes the
    // neuron before the next layer sees it.
    let mut b = Brain::new(1, 1, 1, 1);
    b.first_layer.weights[0][0] = -SCALE;
    b.think(&vec![SCALE]);
    assert_eq!(b.first_layer.values, vec![0]);
    assert_eq!(b.bonus_layers[0].values, vec![0]);
    // Output layer: sigmoid(0.0) is exactly one half.
    assert_eq!(b.output_values(), &vec![SCALE / 2]);
}
