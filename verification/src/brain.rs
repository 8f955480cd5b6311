//! The network: one input-facing layer, zero or more identically shaped
//! bonus (hidden) layers, and one output layer, with forward
//! propagation driving values through the chain in order.

use vstd::prelude::*;
use crate::fixed::{relu_spec, sigmoid_spec};
use crate::layer::{Layer, neuron_value};

verus! {

/// Both layers have the same shape and the same fixed parameters
/// (weights and biases); only the stored activations may differ.
pub open spec fn keeps_params(pre: Layer, post: Layer) -> bool {
    &&& post.num_inputs == pre.num_inputs
    &&& post.weights == pre.weights
    &&& post.biases == pre.biases
    &&& post.size() == pre.size()
}

/// `post`'s activations are exactly `pre`'s linear transform of `xs`
/// followed by ReLU.
pub open spec fn relu_pass_of(pre: Layer, post: Layer, xs: Seq<i64>) -> bool {
    forall|n: int|
        0 <= n < pre.size() ==> post.values@[n] as int == relu_spec(
            neuron_value(pre.biases@[n], xs, (#[trigger] pre.weights@[n])@),
        )
}

/// `post`'s activations are exactly `pre`'s linear transform of `xs`
/// followed by the sigmoid.
pub open spec fn sigmoid_pass_of(pre: Layer, post: Layer, xs: Seq<i64>) -> bool {
    forall|n: int|
        0 <= n < pre.size() ==> post.values@[n] as int == sigmoid_spec(
            neuron_value(pre.biases@[n], xs, (#[trigger] pre.weights@[n])@),
        )
}

/// A feed-forward network: a chain of fully-connected layers.  The
/// bonus layers sit between the input-facing layer and the output
/// layer, each feeding the next.
pub struct Brain {
    /// The input-facing layer, fed directly by the caller's inputs.
    pub first_layer: Layer,
    /// Hidden layers beyond the first, in feeding order.
    pub bonus_layers: Vec<Layer>,
    /// The output layer.
    pub output_layer: Layer,
}

impl Brain {
    /// The hidden-layer width: the number of neurons in the
    /// input-facing layer and in every bonus layer.
    pub open spec fn width(&self) -> nat {
        self.first_layer.size()
    }

    /// Shape invariant: every layer is well formed, every bonus layer
    /// maps `width` values to `width` values, and the output layer is
    /// fed by `width` values.
    pub open spec fn wf(&self) -> bool {
        &&& self.first_layer.wf()
        &&& self.output_layer.wf()
        &&& self.output_layer.num_inputs == self.width()
        &&& forall|k: int|
            0 <= k < self.bonus_layers@.len() ==> (#[trigger] self.bonus_layers@[k]).wf()
        &&& forall|k: int|
            0 <= k < self.bonus_layers@.len() ==> (#[trigger] self.bonus_layers@[k]).num_inputs
                == self.width()
        &&& forall|k: int|
            0 <= k < self.bonus_layers@.len() ==> (#[trigger] self.bonus_layers@[k]).size()
                == self.width()
    }

    /// Build a network of the given shape, every layer default
    /// initialized: values and biases zero, weights one.
    pub fn new(num_inputs: usize, bonus_count: usize, width: usize, num_outputs: usize) -> (b:
        Brain)
        ensures
            b.wf(),
            b.first_layer.is_default_init(num_inputs as int, width as int),
            b.bonus_layers@.len() == bonus_count,
            forall|k: int|
                0 <= k < bonus_count ==> (#[trigger] b.bonus_layers@[k]).is_default_init(
                    width as int,
                    width as int,
                ),
            b.output_layer.is_default_init(width as int, num_outputs as int),
    {
        let first_layer = Layer::empty(num_inputs, width);
        let mut bonus_layers: Vec<Layer> = Vec::new();
        let mut k: usize = 0;
        while k < bonus_count
            invariant
                k <= bonus_count,
                bonus_layers@.len() == k,
                forall|j: int|
                    0 <= j < k ==> (#[trigger] bonus_layers@[j]).is_default_init(
                        width as int,
                        width as int,
                    ),
            decreases bonus_count - k,
        {
            bonus_layers.push(Layer::empty(width, width));
            k += 1;
        }
        let output_layer = Layer::empty(width, num_outputs);
        Brain { first_layer, bonus_layers, output_layer }
    }

    /// Forward propagation.  The inputs feed the input-facing layer
    /// (linear transform, then ReLU); each bonus layer is then fed the
    /// previous layer's activations the same way; finally the output
    /// layer is fed the last bonus layer's activations (linear
    /// transform, then sigmoid).  With no bonus layers, propagation
    /// stops after the input-facing layer: the output layer is left
    /// untouched.  No layer's weights or biases change.
    pub fn think(&mut self, inputs: &Vec<i64>)
        requires
            old(self).wf(),
            inputs@.len() == old(self).first_layer.num_inputs,
        ensures
            final(self).wf(),
            keeps_params(old(self).first_layer, final(self).first_layer),
            keeps_params(old(self).output_layer, final(self).output_layer),
            final(self).bonus_layers@.len() == old(self).bonus_layers@.len(),
            forall|k: int|
                0 <= k < old(self).bonus_layers@.len() ==> keeps_params(
                    #[trigger] old(self).bonus_layers@[k],
                    final(self).bonus_layers@[k],
                ),
            relu_pass_of(old(self).first_layer, final(self).first_layer, inputs@),
            old(self).bonus_layers@.len() == 0 ==> final(self).output_layer == old(
                self,
            ).output_layer && final(self).bonus_layers == old(self).bonus_layers,
            old(self).bonus_layers@.len() > 0 ==> relu_pass_of(
                old(self).bonus_layers@[0],
                final(self).bonus_layers@[0],
                final(self).first_layer.values@,
            ),
            forall|k: int|
                1 <= k < old(self).bonus_layers@.len() ==> relu_pass_of(
                    #[trigger] old(self).bonus_layers@[k],
                    final(self).bonus_layers@[k],
                    final(self).bonus_layers@[k - 1].values@,
                ),
            old(self).bonus_layers@.len() > 0 ==> sigmoid_pass_of(
                old(self).output_layer,
                final(self).output_layer,
                final(self).bonus_layers@[old(self).bonus_layers@.len() - 1].values@,
            ),
    {
        let ghost orig: Brain = *self;
        self.first_layer.pass(inputs);
        self.first_layer.relu_activation();
        proof {
            assert(relu_pass_of(orig.first_layer, self.first_layer, inputs@));
        }
        let count: usize = self.bonus_layers.len();
        if count == 0 {
            return ;
        }
        let ghost fl: Layer = self.first_layer;
        let mut prev: Vec<i64> = copy_values(&self.first_layer.values);
        let mut k: usize = 0;
        while k < count
            invariant
                k <= count,
                count == orig.bonus_layers@.len(),
                orig.wf(),
                self.wf(),
                self.first_layer == fl,
                fl.size() == orig.width(),
                self.width() == orig.width(),
                self.output_layer == orig.output_layer,
                self.bonus_layers@.len() == count,
                forall|j: int| k <= j < count ==> self.bonus_layers@[j] == orig.bonus_layers@[j],
                forall|j: int|
                    0 <= j < k ==> keeps_params(
                        #[trigger] orig.bonus_layers@[j],
                        self.bonus_layers@[j],
                    ),
                k > 0 ==> relu_pass_of(
                    orig.bonus_layers@[0],
                    self.bonus_layers@[0],
                    fl.values@,
                ),
                forall|j: int|
                    1 <= j < k ==> relu_pass_of(
                        #[trigger] orig.bonus_layers@[j],
                        self.bonus_layers@[j],
                        self.bonus_layers@[j - 1].values@,
                    ),
                prev@ == if k == 0 {
                    fl.values@
                } else {
                    self.bonus_layers@[k - 1].values@
                },
                prev@.len() == orig.width(),
            decreases count - k,
        {
            let ghost pre: Layer = self.bonus_layers@[k as int];
            self.bonus_layers[k].pass(&prev);
            self.bonus_layers[k].relu_activation();
            proof {
                assert(relu_pass_of(pre, self.bonus_layers@[k as int], prev@));
            }
            prev = copy_values(&self.bonus_layers[k].values);
            k += 1;
        }
        self.output_layer.pass(&prev);
        self.output_layer.sigmoid_activation();
        proof {
            assert(sigmoid_pass_of(
                orig.output_layer,
                self.output_layer,
                self.bonus_layers@[count - 1].values@,
            ));
        }
    }

    /// The network's output vector: the output layer's activations, or,
    /// with no bonus layers, the input-facing layer's activations.
    pub fn output_values(&self) -> (r: &Vec<i64>)
        ensures
            r@ == if self.bonus_layers@.len() == 0 {
                self.first_layer.values@
            } else {
                self.output_layer.values@
            },
    {
        if self.bonus_layers.len() == 0 {
            &self.first_layer.values
        } else {
            &self.output_layer.values
        }
    }

    /// Every layer's activations, in layer order: the input-facing
    /// layer, each bonus layer, then the output layer.
    pub fn all_values(&self) -> (r: Vec<Vec<i64>>)
        ensures
            r@.len() == self.bonus_layers@.len() + 2,
            r@[0]@ == self.first_layer.values@,
            forall|k: int|
                0 <= k < self.bonus_layers@.len() ==> (#[trigger] r@[k + 1])@
                    == self.bonus_layers@[k].values@,
            r@[self.bonus_layers@.len() as int + 1]@ == self.output_layer.values@,
    {
        let mut r: Vec<Vec<i64>> = Vec::new();
        r.push(copy_values(&self.first_layer.values));
        let count: usize = self.bonus_layers.len();
        let mut k: usize = 0;
        while k < count
            invariant
                k <= count,
                count == self.bonus_layers@.len(),
                r@.len() == k + 1,
                r@[0]@ == self.first_layer.values@,
                forall|j: int|
                    0 <= j < k ==> (#[trigger] r@[j + 1])@ == self.bonus_layers@[j].values@,
            decreases count - k,
        {
            r.push(copy_values(&self.bonus_layers[k].values));
            k += 1;
        }
        r.push(copy_values(&self.output_layer.values));
        r
    }
}

/// An element-for-element copy of a value vector.
fn copy_values(v: &Vec<i64>) -> (r: Vec<i64>)
    ensures
        r@ == v@,
{
    let mut r: Vec<i64> = Vec::new();
    let mut i: usize = 0;
    while i < v.len()
        invariant
            i <= v@.len(),
            r@ == v@.subrange(0, i as int),
        decreases v@.len() - i,
    {
        r.push(v[i]);
        proof {
            assert(r@ =~= v@.subrange(0, i + 1));
        }
        i += 1;
    }
    proof {
        assert(r@ =~= v@);
    }
    r
}

} // verus!
