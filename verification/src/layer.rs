//! A fully-connected layer: a fixed number of neurons, each fed by a
//! fixed number of preceding outputs through a weight row and a bias,
//! with the most recently computed activations stored in `values`.

use vstd::prelude::*;
use crate::fixed::{
    clamp64, fx_mul_spec, relu_spec, sigmoid_spec, fx_mul, sat_add, relu_fx, sigmoid_fx, SCALE,
};

verus! {

/// A fully-connected layer.  `num_inputs` is the number of preceding
/// outputs feeding each neuron; the three vectors are kept at the
/// shapes stated by [`Layer::wf`] for the layer's whole lifetime.
pub struct Layer {
    /// Number of preceding-layer outputs feeding each neuron.
    pub num_inputs: usize,
    /// This layer's activations after the most recent forward step.
    pub values: Vec<i64>,
    /// `weights[n][i]` is the coefficient applied to preceding output
    /// `i` when computing neuron `n`.
    pub weights: Vec<Vec<i64>>,
    /// Additive offset per neuron.
    pub biases: Vec<i64>,
}

/// The value of one neuron after its bias and the first `k` scaled
/// products have been accumulated, saturating at every step, in
/// index-ascending order.
pub open spec fn neuron_partial(bias: i64, xs: Seq<i64>, ws: Seq<i64>, k: int) -> int
    decreases k,
{
    if k <= 0 {
        bias as int
    } else {
        clamp64(
            neuron_partial(bias, xs, ws, k - 1) + fx_mul_spec(xs[k - 1] as int, ws[k - 1] as int),
        )
    }
}

/// The full linear-transform value of one neuron: its bias plus the
/// scaled product of every input with the matching weight.
pub open spec fn neuron_value(bias: i64, xs: Seq<i64>, ws: Seq<i64>) -> int {
    neuron_partial(bias, xs, ws, ws.len() as int)
}

/// A single-neuron, single-input layer with weight `w`, bias `b` and
/// input `x` computes exactly `b + w * x` (in fixed point: the scaled
/// product), whenever neither the product nor the sum saturates.
pub proof fn lemma_single_neuron_value(b: i64, w: i64, x: i64)
    requires
        i64::MIN <= crate::fixed::fx_mul_raw(x as int, w as int) <= i64::MAX,
        i64::MIN <= b + crate::fixed::fx_mul_raw(x as int, w as int) <= i64::MAX,
    ensures
        neuron_value(b, seq![x], seq![w]) == b + crate::fixed::fx_mul_raw(x as int, w as int),
{
    assert(neuron_partial(b, seq![x], seq![w], 0) == b as int);
}

/// Applying ReLU to a layer's values twice in a row yields the same
/// values as applying it once: `l1` is `l0` after one ReLU step and
/// `l2` is `l1` after another, so `l2` holds the same values as `l1`.
pub proof fn lemma_relu_activation_idempotent(l0: Layer, l1: Layer, l2: Layer)
    requires
        l1.size() == l0.size(),
        l2.size() == l1.size(),
        forall|n: int|
            0 <= n < l0.size() ==> #[trigger] l1.values@[n] as int == relu_spec(
                l0.values@[n] as int,
            ),
        forall|n: int|
            0 <= n < l1.size() ==> #[trigger] l2.values@[n] as int == relu_spec(
                l1.values@[n] as int,
            ),
    ensures
        l2.values@ == l1.values@,
{
    assert(l2.values@ =~= l1.values@);
}

impl Layer {
    /// The number of neurons in this layer.
    pub open spec fn size(&self) -> nat {
        self.values@.len()
    }

    /// Shape invariant: `values` and `biases` hold one entry per neuron
    /// and `weights` one row of exactly `num_inputs` coefficients per
    /// neuron.
    pub open spec fn wf(&self) -> bool {
        &&& self.biases@.len() == self.values@.len()
        &&& self.weights@.len() == self.values@.len()
        &&& forall|n: int|
            0 <= n < self.weights@.len() ==> (#[trigger] self.weights@[n])@.len()
                == self.num_inputs
    }

    /// The state produced by [`Layer::empty`]: the stated shape, all
    /// values and biases zero, all weights one (`SCALE` in fixed point).
    pub open spec fn is_default_init(&self, num_inputs: int, neurons: int) -> bool {
        &&& self.wf()
        &&& self.num_inputs == num_inputs
        &&& self.size() == neurons
        &&& forall|n: int| 0 <= n < neurons ==> self.values@[n] == 0
        &&& forall|n: int| 0 <= n < neurons ==> self.biases@[n] == 0
        &&& forall|n: int, i: int|
            0 <= n < neurons && 0 <= i < num_inputs ==> #[trigger] self.weights@[n]@[i] == SCALE
    }

    /// Build a layer of the given shape with values and biases all zero
    /// and weights all one.
    pub fn empty(num_inputs: usize, neurons: usize) -> (l: Layer)
        ensures
            l.is_default_init(num_inputs as int, neurons as int),
    {
        let mut values: Vec<i64> = Vec::new();
        let mut biases: Vec<i64> = Vec::new();
        let mut weights: Vec<Vec<i64>> = Vec::new();
        let mut n: usize = 0;
        while n < neurons
            invariant
                n <= neurons,
                values@.len() == n,
                biases@.len() == n,
                weights@.len() == n,
                forall|j: int| 0 <= j < n ==> values@[j] == 0,
                forall|j: int| 0 <= j < n ==> biases@[j] == 0,
                forall|j: int| 0 <= j < n ==> (#[trigger] weights@[j])@.len() == num_inputs,
                forall|j: int, i: int|
                    0 <= j < n && 0 <= i < num_inputs ==> #[trigger] weights@[j]@[i] == SCALE,
            decreases neurons - n,
        {
            values.push(0);
            biases.push(0);
            let mut row: Vec<i64> = Vec::new();
            let mut i: usize = 0;
            while i < num_inputs
                invariant
                    i <= num_inputs,
                    row@.len() == i,
                    forall|t: int| 0 <= t < i ==> row@[t] == SCALE,
                decreases num_inputs - i,
            {
                row.push(SCALE);
                i += 1;
            }
            weights.push(row);
            n += 1;
        }
        Layer { num_inputs, values, weights, biases }
    }

    /// The linear transform: overwrite each neuron's value with its
    /// bias plus the scaled products of the inputs with its weight row,
    /// accumulated in index-ascending order.  Weights and biases are
    /// left untouched.
    pub fn pass(&mut self, inputs: &Vec<i64>)
        requires
            old(self).wf(),
            inputs@.len() == old(self).num_inputs,
        ensures
            final(self).wf(),
            final(self).num_inputs == old(self).num_inputs,
            final(self).weights == old(self).weights,
            final(self).biases == old(self).biases,
            final(self).size() == old(self).size(),
            forall|n: int|
                0 <= n < old(self).size() ==> final(self).values@[n] as int == neuron_value(
                    old(self).biases@[n],
                    inputs@,
                    (#[trigger] old(self).weights@[n])@,
                ),
    {
        let ghost orig: Layer = *self;
        let neurons: usize = self.values.len();
        let mut n: usize = 0;
        while n < neurons
            invariant
                n <= neurons,
                self.wf(),
                self.num_inputs == orig.num_inputs,
                self.weights == orig.weights,
                self.biases == orig.biases,
                self.size() == orig.size(),
                neurons == orig.size(),
                inputs@.len() == orig.num_inputs,
                orig.wf(),
                forall|j: int|
                    0 <= j < n ==> self.values@[j] as int == neuron_value(
                        orig.biases@[j],
                        inputs@,
                        (#[trigger] orig.weights@[j])@,
                    ),
            decreases neurons - n,
        {
            let mut acc: i64 = self.biases[n];
            let num_inputs: usize = self.num_inputs;
            let mut i: usize = 0;
            while i < num_inputs
                invariant
                    i <= num_inputs,
                    0 <= n < orig.size(),
                    self.wf(),
                    self.num_inputs == orig.num_inputs,
                    self.weights == orig.weights,
                    self.biases == orig.biases,
                    self.size() == orig.size(),
                    num_inputs == orig.num_inputs,
                    inputs@.len() == orig.num_inputs,
                    acc as int == neuron_partial(
                        orig.biases@[n as int],
                        inputs@,
                        orig.weights@[n as int]@,
                        i as int,
                    ),
                decreases num_inputs - i,
            {
                let p: i64 = fx_mul(inputs[i], self.weights[n][i]);
                acc = sat_add(acc, p);
                i += 1;
            }
            self.values[n] = acc;
            n += 1;
        }
    }

    /// Apply ReLU in place: every negative value becomes zero, every
    /// other value is kept.  Weights and biases are left untouched.
    pub fn relu_activation(&mut self)
        requires
            old(self).wf(),
        ensures
            final(self).wf(),
            final(self).num_inputs == old(self).num_inputs,
            final(self).weights == old(self).weights,
            final(self).biases == old(self).biases,
            final(self).size() == old(self).size(),
            forall|n: int|
                0 <= n < old(self).size() ==> final(self).values@[n] as int == relu_spec(
                    old(self).values@[n] as int,
                ),
    {
        let ghost orig: Layer = *self;
        let neurons: usize = self.values.len();
        let mut n: usize = 0;
        while n < neurons
            invariant
                n <= neurons,
                self.wf(),
                self.num_inputs == orig.num_inputs,
                self.weights == orig.weights,
                self.biases == orig.biases,
                self.size() == orig.size(),
                neurons == orig.size(),
                forall|j: int|
                    0 <= j < n ==> self.values@[j] as int == relu_spec(orig.values@[j] as int),
                forall|j: int| n <= j < neurons ==> self.values@[j] == orig.values@[j],
            decreases neurons - n,
        {
            let v: i64 = self.values[n];
            self.values[n] = relu_fx(v);
            n += 1;
        }
    }

    /// Apply the sigmoid in place: every value is mapped through the
    /// piecewise linear sigmoid, so every result lies strictly between
    /// 0 and `SCALE`.  Weights and biases are left untouched.
    pub fn sigmoid_activation(&mut self)
        requires
            old(self).wf(),
        ensures
            final(self).wf(),
            final(self).num_inputs == old(self).num_inputs,
            final(self).weights == old(self).weights,
            final(self).biases == old(self).biases,
            final(self).size() == old(self).size(),
            forall|n: int|
                0 <= n < old(self).size() ==> final(self).values@[n] as int == sigmoid_spec(
                    old(self).values@[n] as int,
                ),
            forall|n: int| 0 <= n < old(self).size() ==> 0 < #[trigger] final(self).values@[n] < SCALE,
    {
        let ghost orig: Layer = *self;
        let neurons: usize = self.values.len();
        let mut n: usize = 0;
        while n < neurons
            invariant
                n <= neurons,
                self.wf(),
                self.num_inputs == orig.num_inputs,
                self.weights == orig.weights,
                self.biases == orig.biases,
                self.size() == orig.size(),
                neurons == orig.size(),
                forall|j: int|
                    0 <= j < n ==> self.values@[j] as int == sigmoid_spec(orig.values@[j] as int),
                forall|j: int| 0 <= j < n ==> 0 < #[trigger] self.values@[j] < SCALE,
                forall|j: int| n <= j < neurons ==> self.values@[j] == orig.values@[j],
            decreases neurons - n,
        {
            let v: i64 = self.values[n];
            self.values[n] = sigmoid_fx(v);
            n += 1;
        }
    }
}

} // verus!
