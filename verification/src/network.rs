//! The feedforward neural network: layers of neurons, forward propagation,
//! and the lossless flatten/restore protocol between a network and a flat
//! weight vector.
//!
//! The flat order is load-bearing: for each layer, for each neuron, the bias
//! first and then one weight per input. Restoring consumes a single shared
//! cursor across all layers and neurons in exactly that order, and the
//! round-trip law at the bottom of this module shows the order is lossless.

use vstd::prelude::*;
use rand_chacha::ChaCha8Rng;
use crate::arith::add_of;
use crate::arith::mul_of;
use crate::ieee::spec_relu;

verus! {

/// One entry of a topology: the number of neurons of one layer boundary.
#[derive(Clone, Copy, Debug, PartialEq, Eq, Structural)]
pub struct LayerTopology {
    pub neurons: usize,
}

/// One neuron: a bias and one weight per input, all binary32 bit patterns.
#[derive(Debug)]
pub struct Neuron {
    pub bias: u32,
    pub weights: Vec<u32>,
}

/// One layer: an ordered sequence of neurons, each producing one output.
#[derive(Debug)]
pub struct Layer {
    pub neurons: Vec<Neuron>,
}

/// An ordered sequence of layers.
#[derive(Debug)]
pub struct Network {
    pub layers: Vec<Layer>,
}

/// The mathematical content of a neuron: its bias and its weight sequence.
pub open spec fn neuron_model(n: Neuron) -> (u32, Seq<u32>) {
    (n.bias, n.weights@)
}

/// The mathematical content of a layer.
pub open spec fn layer_model(l: Layer) -> Seq<(u32, Seq<u32>)> {
    Seq::new(l.neurons@.len(), |i: int| neuron_model(l.neurons@[i]))
}

/// The mathematical content of a sequence of layers.
pub open spec fn layers_model(ls: Seq<Layer>) -> Seq<Seq<(u32, Seq<u32>)>> {
    Seq::new(ls.len(), |i: int| layer_model(ls[i]))
}

/// The mathematical content of a network.
pub open spec fn net_model(n: Network) -> Seq<Seq<(u32, Seq<u32>)>> {
    layers_model(n.layers@)
}

/// Internal consistency of a network model: at least one layer, and every
/// layer past the first takes exactly one input per neuron of the layer
/// before it.
pub open spec fn model_wf(nm: Seq<Seq<(u32, Seq<u32>)>>) -> bool {
    &&& nm.len() >= 1
    &&& forall|l: int|
        1 <= l < nm.len() ==> layer_shaped(#[trigger] nm[l], nm[l - 1].len(), nm[l].len())
}

/// Whether every scalar of a neuron — the bias and each weight — lies
/// inside the closed interval [-1, 1].
pub open spec fn neuron_in_unit(m: (u32, Seq<u32>)) -> bool {
    &&& crate::ieee::in_symmetric_unit(m.0)
    &&& forall|t: int| 0 <= t < m.1.len() ==> crate::ieee::in_symmetric_unit(#[trigger] m.1[t])
}

/// Whether every scalar of a layer lies inside the closed interval [-1, 1].
pub open spec fn layer_in_unit(lm: Seq<(u32, Seq<u32>)>) -> bool {
    forall|i: int| 0 <= i < lm.len() ==> neuron_in_unit(#[trigger] lm[i])
}

/// Whether every scalar of a network lies inside the closed interval
/// [-1, 1].
pub open spec fn model_in_unit(nm: Seq<Seq<(u32, Seq<u32>)>>) -> bool {
    forall|l: int| 0 <= l < nm.len() ==> layer_in_unit(#[trigger] nm[l])
}

/// A neuron's slice of the flat weight vector: bias first, then the weights.
pub open spec fn neuron_flat(m: (u32, Seq<u32>)) -> Seq<u32> {
    seq![m.0] + m.1
}

/// A layer's slice of the flat weight vector: its neurons' slices in order.
pub open spec fn layer_flat(lm: Seq<(u32, Seq<u32>)>) -> Seq<u32>
    decreases lm.len(),
{
    if lm.len() == 0 {
        Seq::empty()
    } else {
        layer_flat(lm.drop_last()) + neuron_flat(lm.last())
    }
}

/// The whole flat weight vector: the layers' slices in order.
pub open spec fn net_flat(nm: Seq<Seq<(u32, Seq<u32>)>>) -> Seq<u32>
    decreases nm.len(),
{
    if nm.len() == 0 {
        Seq::empty()
    } else {
        net_flat(nm.drop_last()) + layer_flat(nm.last())
    }
}

/// Whether a layer has the given shape: one neuron per output, one weight
/// per input on every neuron.
pub open spec fn layer_shaped(lm: Seq<(u32, Seq<u32>)>, input_size: nat, output_size: nat) -> bool {
    &&& lm.len() == output_size
    &&& forall|i: int| 0 <= i < lm.len() ==> (#[trigger] lm[i]).1.len() == input_size
}

/// The layer sizes a topology sequence lists.
pub open spec fn sizes_of(ts: Seq<LayerTopology>) -> Seq<nat> {
    Seq::new(ts.len(), |i: int| ts[i].neurons as nat)
}

/// Whether a network model matches a size list: one layer per consecutive
/// pair of sizes, each shaped by that pair.
pub open spec fn model_shaped(nm: Seq<Seq<(u32, Seq<u32>)>>, sizes: Seq<nat>) -> bool {
    &&& nm.len() + 1 == sizes.len()
    &&& forall|l: int| 0 <= l < nm.len() ==> layer_shaped(#[trigger] nm[l], sizes[l], sizes[l + 1])
}

/// How many flat values a topology requires: for every layer, one bias plus
/// one weight per input for each of its neurons.
pub open spec fn required_len(sizes: Seq<nat>) -> nat
    decreases sizes.len(),
{
    if sizes.len() <= 1 {
        0
    } else {
        required_len(sizes.drop_last()) + sizes.last() * (sizes[sizes.len() - 2] + 1)
    }
}

/// One neuron's output: the inputs folded against the weights left to right
/// from zero, the bias added, and the rectifier applied.
pub open spec fn spec_dot(ws: Seq<u32>, xs: Seq<u32>, n: int) -> u32
    decreases n,
{
    if n <= 0 {
        crate::ieee::F32_ZERO
    } else {
        add_of(spec_dot(ws, xs, n - 1), mul_of(xs[n - 1], ws[n - 1]))
    }
}

/// One neuron's output on the given inputs.
pub open spec fn spec_neuron_out(m: (u32, Seq<u32>), xs: Seq<u32>) -> u32 {
    spec_relu(add_of(spec_dot(m.1, xs, m.1.len() as int), m.0))
}

/// One layer's outputs: one value per neuron, in neuron order.
pub open spec fn spec_layer_out(lm: Seq<(u32, Seq<u32>)>, xs: Seq<u32>) -> Seq<u32> {
    Seq::new(lm.len(), |i: int| spec_neuron_out(lm[i], xs))
}

/// The network's outputs: the input vector pushed through the layers in
/// order.
pub open spec fn spec_net_out(nm: Seq<Seq<(u32, Seq<u32>)>>, xs: Seq<u32>) -> Seq<u32>
    decreases nm.len(),
{
    if nm.len() == 0 {
        xs
    } else {
        spec_layer_out(nm.last(), spec_net_out(nm.drop_last(), xs))
    }
}

impl Neuron {
    pub fn new(bias: u32, weights: Vec<u32>) -> (r: Self)
        ensures
            neuron_model(r) == (bias, weights@),
    {
        Neuron { bias, weights }
    }

    /// Random initialization: the bias and every weight drawn independently,
    /// uniform over the closed interval [-1, 1].
    pub fn random(rng: &mut ChaCha8Rng, input_size: usize) -> (r: Self)
        ensures
            r.weights@.len() == input_size,
            neuron_in_unit(neuron_model(r)),
    {
        let bias: u32 = crate::rng::gen_symmetric_unit(rng);
        let mut weights: Vec<u32> = Vec::new();
        for i in 0..input_size
            invariant
                weights@.len() == i,
                forall|k: int|
                    0 <= k < i ==> crate::ieee::in_symmetric_unit(#[trigger] weights@[k]),
        {
            weights.push(crate::rng::gen_symmetric_unit(rng));
        }
        Neuron { bias, weights }
    }

    /// Restore one neuron from the shared cursor: the bias first, then one
    /// weight per input. Exhausting the vector early is a programming error,
    /// ruled out by the precondition.
    pub fn from_weights(input_size: usize, weights: &Vec<u32>, at: &mut usize) -> (r: Self)
        requires
            *old(at) + 1 + input_size <= weights@.len(),
        ensures
            *final(at) == *old(at) + 1 + input_size,
            r.weights@.len() == input_size,
            neuron_flat(neuron_model(r)) == weights@.subrange(
                *old(at) as int,
                *final(at) as int,
            ),
    {
        let start: usize = *at;
        let ghost at0: int = start as int;
        let wlen: usize = weights.len();
        let bias: u32 = weights[start];
        let mut pos: usize = start + 1;
        let mut ws: Vec<u32> = Vec::new();
        proof {
            assert(ws@ =~= weights@.subrange(at0 + 1, pos as int));
        }
        for i in 0..input_size
            invariant
                0 <= at0,
                pos == at0 + 1 + i,
                at0 + 1 + input_size <= wlen,
                wlen == weights@.len(),
                ws@.len() == i,
                ws@ == weights@.subrange(at0 + 1, pos as int),
        {
            ws.push(weights[pos]);
            pos = pos + 1;
            proof {
                assert(weights@.subrange(at0 + 1, pos as int).drop_last() =~= weights@.subrange(
                    at0 + 1,
                    pos - 1,
                ));
                assert(ws@ =~= weights@.subrange(at0 + 1, pos as int));
            }
        }
        *at = pos;
        let r = Neuron { bias, weights: ws };
        proof {
            assert(neuron_flat(neuron_model(r)) =~= weights@.subrange(at0, pos as int));
        }
        r
    }

    /// The dot product of inputs and weights, plus the bias, rectified. An
    /// input vector of the wrong length is a programming error, ruled out by
    /// the precondition.
    pub fn propagate(&self, inputs: &Vec<u32>) -> (r: u32)
        requires
            inputs@.len() == self.weights@.len(),
        ensures
            r == spec_neuron_out(neuron_model(*self), inputs@),
    {
        let mut acc: u32 = crate::ieee::F32_ZERO;
        let n: usize = self.weights.len();
        for i in 0..n
            invariant
                n == self.weights@.len(),
                n == inputs@.len(),
                acc == spec_dot(self.weights@, inputs@, i as int),
        {
            acc = crate::arith::add32(acc, crate::arith::mul32(inputs[i], self.weights[i]));
        }
        crate::ieee::relu(crate::arith::add32(acc, self.bias))
    }
}

impl Layer {
    pub fn new(neurons: Vec<Neuron>) -> (r: Self)
        ensures
            r == (Layer { neurons }),
    {
        Layer { neurons }
    }

    /// Random initialization: one independently random neuron per output,
    /// every scalar uniform over the closed interval [-1, 1].
    pub fn random(rng: &mut ChaCha8Rng, input_size: usize, output_size: usize) -> (r: Self)
        ensures
            layer_shaped(layer_model(r), input_size as nat, output_size as nat),
            layer_in_unit(layer_model(r)),
    {
        let mut neurons: Vec<Neuron> = Vec::new();
        for j in 0..output_size
            invariant
                neurons@.len() == j,
                forall|k: int| 0 <= k < j ==> (#[trigger] neurons@[k]).weights@.len() == input_size,
                forall|k: int| 0 <= k < j ==> neuron_in_unit(neuron_model(#[trigger] neurons@[k])),
        {
            neurons.push(Neuron::random(rng, input_size));
        }
        let r = Layer { neurons };
        proof {
            assert forall|i: int| 0 <= i < layer_model(r).len() implies neuron_in_unit(
                #[trigger] layer_model(r)[i],
            ) by {
                assert(layer_model(r)[i] == neuron_model(r.neurons@[i]));
            }
        }
        r
    }

    /// Restore one layer from the shared cursor, neuron by neuron.
    pub fn from_weights(
        input_size: usize,
        output_size: usize,
        weights: &Vec<u32>,
        at: &mut usize,
    ) -> (r: Self)
        requires
            *old(at) + output_size * (input_size + 1) <= weights@.len(),
        ensures
            *final(at) == *old(at) + output_size * (input_size + 1),
            layer_shaped(layer_model(r), input_size as nat, output_size as nat),
            layer_flat(layer_model(r)) == weights@.subrange(*old(at) as int, *final(at) as int),
    {
        let start: usize = *at;
        let ghost at0: int = start as int;
        let wlen: usize = weights.len();
        let mut pos: usize = start;
        let mut neurons: Vec<Neuron> = Vec::new();
        proof {
            assert(0 * (input_size + 1) == 0) by (nonlinear_arith);
        }
        for j in 0..output_size
            invariant
                0 <= at0,
                at0 + output_size * (input_size + 1) <= wlen,
                wlen == weights@.len(),
                pos == at0 + j * (input_size + 1),
                neurons@.len() == j,
                forall|k: int| 0 <= k < j ==> (#[trigger] neurons@[k]).weights@.len() == input_size,
                layer_flat(Seq::new(j as nat, |i: int| neuron_model(neurons@[i])))
                    == weights@.subrange(at0, pos as int),
        {
            proof {
                assert((j + 1) * (input_size + 1) <= output_size * (input_size + 1)) by (
                nonlinear_arith)
                    requires
                        j < output_size,
                ;
                assert(j * (input_size + 1) + (input_size + 1) == (j + 1) * (input_size + 1)) by (
                nonlinear_arith);
            }
            let ghost at_before: int = pos as int;
            let ghost prev: Seq<Neuron> = neurons@;
            let neuron = Neuron::from_weights(input_size, weights, &mut pos);
            neurons.push(neuron);
            proof {
                let lm = Seq::new((j + 1) as nat, |i: int| neuron_model(neurons@[i]));
                let lmp = Seq::new(j as nat, |i: int| neuron_model(prev[i]));
                assert(lm.drop_last() =~= lmp);
                assert(lm.last() == neuron_model(neuron));
                assert(0 <= at0 <= at_before <= pos as int <= weights@.len());
                assert(weights@.subrange(at0, pos as int) =~= weights@.subrange(at0, at_before)
                    + weights@.subrange(at_before, pos as int));
                assert(layer_flat(lm) =~= weights@.subrange(at0, pos as int));
            }
        }
        *at = pos;
        let r = Layer { neurons };
        proof {
            assert(layer_model(r) =~= Seq::new(
                output_size as nat,
                |i: int| neuron_model(neurons@[i]),
            ));
        }
        r
    }

    /// One output per neuron, in neuron order.
    pub fn propagate(&self, inputs: &Vec<u32>) -> (r: Vec<u32>)
        requires
            forall|j: int|
                0 <= j < self.neurons@.len() ==> (#[trigger] self.neurons@[j]).weights@.len()
                    == inputs@.len(),
        ensures
            r@ == spec_layer_out(layer_model(*self), inputs@),
    {
        let mut out: Vec<u32> = Vec::new();
        let n: usize = self.neurons.len();
        for j in 0..n
            invariant
                n == self.neurons@.len(),
                forall|k: int|
                    0 <= k < n ==> (#[trigger] self.neurons@[k]).weights@.len() == inputs@.len(),
                out@.len() == j,
                forall|k: int|
                    0 <= k < j ==> out@[k] == spec_neuron_out(
                        layer_model(*self)[k],
                        inputs@,
                    ),
        {
            out.push(self.neurons[j].propagate(inputs));
        }
        proof {
            assert(out@ =~= spec_layer_out(layer_model(*self), inputs@));
        }
        out
    }
}

impl Network {
    pub fn new(layers: Vec<Layer>) -> (r: Self)
        ensures
            r == (Network { layers }),
    {
        Network { layers }
    }

    /// Random initialization: one layer per consecutive pair of topology
    /// entries, every neuron independently random with every scalar uniform
    /// over the closed interval [-1, 1]. A topology of fewer than two
    /// entries is a programming error, ruled out by the precondition.
    pub fn random(rng: &mut ChaCha8Rng, topology: &Vec<LayerTopology>) -> (r: Self)
        requires
            topology@.len() > 1,
        ensures
            model_shaped(net_model(r), sizes_of(topology@)),
            model_in_unit(net_model(r)),
    {
        let ghost sizes: Seq<nat> = sizes_of(topology@);
        let tlen: usize = topology.len();
        let mut layers: Vec<Layer> = Vec::new();
        for l in 1..tlen
            invariant
                tlen == topology@.len(),
                tlen > 1,
                sizes == sizes_of(topology@),
                layers@.len() == l - 1,
                forall|i: int|
                    0 <= i < layers@.len() ==> layer_shaped(
                        layer_model(#[trigger] layers@[i]),
                        sizes[i],
                        sizes[i + 1],
                    ),
                forall|i: int|
                    0 <= i < layers@.len() ==> layer_in_unit(layer_model(#[trigger] layers@[i])),
        {
            layers.push(Layer::random(rng, topology[l - 1].neurons, topology[l].neurons));
        }
        let r = Network { layers };
        proof {
            assert forall|l: int| 0 <= l < net_model(r).len() implies layer_shaped(
                #[trigger] net_model(r)[l],
                sizes[l],
                sizes[l + 1],
            ) && layer_in_unit(net_model(r)[l]) by {
                assert(net_model(r)[l] == layer_model(r.layers@[l]));
            }
        }
        r
    }

    /// The flat weight vector: for each layer, for each neuron, the bias and
    /// then the weights, in that exact order.
    pub fn weights(&self) -> (r: Vec<u32>)
        ensures
            r@ == net_flat(net_model(*self)),
    {
        let ghost nm: Seq<Seq<(u32, Seq<u32>)>> = net_model(*self);
        let mut out: Vec<u32> = Vec::new();
        let nl: usize = self.layers.len();
        proof {
            assert(out@ =~= net_flat(nm.take(0)));
        }
        for l in 0..nl
            invariant
                nl == self.layers@.len(),
                nm == net_model(*self),
                out@ == net_flat(nm.take(l as int)),
        {
            let layer: &Layer = &self.layers[l];
            let ghost lm: Seq<(u32, Seq<u32>)> = layer_model(*layer);
            let ghost base: Seq<u32> = out@;
            let nn: usize = layer.neurons.len();
            proof {
                assert(out@ =~= base + layer_flat(lm.take(0)));
            }
            for j in 0..nn
                invariant
                    nn == layer.neurons@.len(),
                    lm == layer_model(*layer),
                    out@ == base + layer_flat(lm.take(j as int)),
            {
                let neuron: &Neuron = &layer.neurons[j];
                let ghost inner: Seq<u32> = out@;
                out.push(neuron.bias);
                let nw: usize = neuron.weights.len();
                for t in 0..nw
                    invariant
                        nw == neuron.weights@.len(),
                        out@ == inner + seq![neuron.bias] + neuron.weights@.take(t as int),
                {
                    out.push(neuron.weights[t]);
                    proof {
                        assert(out@ =~= inner + seq![neuron.bias] + neuron.weights@.take(
                            t + 1 as int,
                        ));
                    }
                }
                proof {
                    assert(neuron.weights@.take(nw as int) =~= neuron.weights@);
                    assert(lm.take(j + 1 as int).drop_last() =~= lm.take(j as int));
                    assert(lm.take(j + 1 as int).last() == neuron_model(*neuron));
                    assert(out@ =~= base + layer_flat(lm.take(j + 1 as int)));
                }
            }
            proof {
                assert(lm.take(nn as int) =~= lm);
                assert(nm.take(l + 1 as int).drop_last() =~= nm.take(l as int));
                assert(nm.take(l + 1 as int).last() == lm);
                assert(out@ =~= net_flat(nm.take(l + 1 as int)));
            }
        }
        proof {
            assert(nm.take(nl as int) =~= nm);
        }
        out
    }

    /// Restore a network from a flat weight vector, consuming it through one
    /// shared cursor in the flatten order. A topology of fewer than two
    /// entries, a short vector ("insufficient weights") or a long one
    /// ("excess weights") are programming errors, ruled out by the strict
    /// arity precondition.
    pub fn from_weights(topology: &Vec<LayerTopology>, weights: &Vec<u32>) -> (r: Self)
        requires
            topology@.len() > 1,
            weights@.len() == required_len(sizes_of(topology@)),
        ensures
            model_shaped(net_model(r), sizes_of(topology@)),
            net_flat(net_model(r)) == weights@,
    {
        let ghost sizes: Seq<nat> = sizes_of(topology@);
        let tlen: usize = topology.len();
        let wlen: usize = weights.len();
        let mut pos: usize = 0;
        let mut layers: Vec<Layer> = Vec::new();
        proof {
            assert(net_flat(layers_model(layers@)) =~= weights@.subrange(0, 0));
            assert(required_len(sizes.take(1)) == 0);
        }
        for l in 1..tlen
            invariant
                tlen == topology@.len(),
                tlen > 1,
                sizes == sizes_of(topology@),
                wlen == weights@.len(),
                wlen == required_len(sizes),
                layers@.len() == l - 1,
                pos == required_len(sizes.take(l as int)),
                pos <= wlen,
                forall|i: int|
                    0 <= i < layers@.len() ==> layer_shaped(
                        layer_model(#[trigger] layers@[i]),
                        sizes[i],
                        sizes[i + 1],
                    ),
                net_flat(layers_model(layers@)) == weights@.subrange(0, pos as int),
        {
            let inp: usize = topology[l - 1].neurons;
            let outp: usize = topology[l].neurons;
            proof {
                lemma_required_take_succ(sizes, l + 1 as int);
                lemma_required_take_mono(sizes, l + 1 as int);
                assert(sizes[l as int] == outp as nat);
                assert(sizes[l - 1 as int] == inp as nat);
            }
            let ghost pos_before: int = pos as int;
            let ghost prev: Seq<Layer> = layers@;
            let layer = Layer::from_weights(inp, outp, weights, &mut pos);
            layers.push(layer);
            proof {
                let cur = layers_model(layers@);
                assert(cur.drop_last() =~= layers_model(prev));
                assert(cur.last() == layer_model(layer));
                assert(weights@.subrange(0, pos as int) =~= weights@.subrange(0, pos_before)
                    + weights@.subrange(pos_before, pos as int));
                assert(net_flat(cur) =~= weights@.subrange(0, pos as int));
            }
        }
        let r = Network { layers };
        proof {
            assert(sizes.take(tlen as int) =~= sizes);
            assert(weights@.subrange(0, wlen as int) =~= weights@);
            assert forall|l: int| 0 <= l < net_model(r).len() implies layer_shaped(
                #[trigger] net_model(r)[l],
                sizes[l],
                sizes[l + 1],
            ) by {
                assert(net_model(r)[l] == layer_model(r.layers@[l]));
            }
        }
        r
    }

    /// Feed the input vector through the layers in order. The input length
    /// must agree with every first-layer neuron's weight count; a mismatch
    /// anywhere further in is ruled out by the network's own consistency.
    pub fn propagate(&self, inputs: Vec<u32>) -> (r: Vec<u32>)
        requires
            model_wf(net_model(*self)),
            forall|j: int|
                0 <= j < net_model(*self)[0].len() ==> (#[trigger] net_model(
                    *self,
                )[0][j]).1.len() == inputs@.len(),
        ensures
            r@ == spec_net_out(net_model(*self), inputs@),
    {
        let ghost nm: Seq<Seq<(u32, Seq<u32>)>> = net_model(*self);
        let ghost xs0: Seq<u32> = inputs@;
        let mut current: Vec<u32> = inputs;
        let nl: usize = self.layers.len();
        for l in 0..nl
            invariant
                nl == self.layers@.len(),
                nm == net_model(*self),
                model_wf(nm),
                forall|j: int|
                    0 <= j < nm[0].len() ==> (#[trigger] nm[0][j]).1.len() == xs0.len(),
                current@ == spec_net_out(nm.take(l as int), xs0),
                l == 0 ==> current@ == xs0,
                l > 0 ==> current@.len() == nm[l - 1].len(),
        {
            let layer: &Layer = &self.layers[l];
            proof {
                assert(layer_model(*layer) == nm[l as int]);
                assert forall|j: int|
                    0 <= j < layer.neurons@.len() implies (
                #[trigger] layer.neurons@[j]).weights@.len() == current@.len() by {
                    assert(layer_model(*layer)[j] == neuron_model(layer.neurons@[j]));
                    if l == 0 {
                        assert(nm[0][j].1.len() == xs0.len());
                    } else {
                        assert(layer_shaped(nm[l as int], nm[l - 1].len(), nm[l as int].len()));
                    }
                }
            }
            let next: Vec<u32> = layer.propagate(&current);
            current = next;
            proof {
                assert(nm.take(l + 1 as int).drop_last() =~= nm.take(l as int));
                assert(nm.take(l + 1 as int).last() == nm[l as int]);
            }
        }
        proof {
            assert(nm.take(nl as int) =~= nm);
        }
        current
    }
}

/// One step of the arity count: cutting the size list one entry later adds
/// exactly the later layer's share of the flat vector.
proof fn lemma_required_take_succ(sizes: Seq<nat>, k: int)
    requires
        2 <= k <= sizes.len(),
    ensures
        required_len(sizes.take(k)) == required_len(sizes.take(k - 1)) + sizes[k - 1] * (sizes[k
            - 2] + 1),
{
    assert(sizes.take(k).drop_last() =~= sizes.take(k - 1));
    assert(sizes.take(k).last() == sizes[k - 1]);
}

/// The arity a prefix of the size list requires never exceeds the arity the
/// whole list requires.
proof fn lemma_required_take_mono(sizes: Seq<nat>, k: int)
    requires
        0 <= k <= sizes.len(),
    ensures
        required_len(sizes.take(k)) <= required_len(sizes),
    decreases sizes.len() - k,
{
    if k == sizes.len() {
        assert(sizes.take(k) =~= sizes);
    } else {
        if k + 1 >= 2 {
            lemma_required_take_succ(sizes, k + 1);
        } else {
            assert(required_len(sizes.take(k)) == 0);
            assert(required_len(sizes.take(k + 1)) == 0);
        }
        lemma_required_take_mono(sizes, k + 1);
    }
}

/// Splitting equal concatenations at equal lengths splits them into equal
/// parts.
proof fn lemma_concat_split<T>(a: Seq<T>, b: Seq<T>, c: Seq<T>, d: Seq<T>)
    requires
        a + b == c + d,
        a.len() == c.len(),
    ensures
        a == c,
        b == d,
{
    assert forall|i: int| 0 <= i < a.len() implies a[i] == c[i] by {
        assert((a + b)[i] == a[i]);
        assert((c + d)[i] == c[i]);
    }
    assert(a =~= c);
    assert((a + b).len() == a.len() + b.len());
    assert((c + d).len() == c.len() + d.len());
    assert(b.len() == d.len());
    assert forall|i: int| 0 <= i < b.len() implies b[i] == d[i] by {
        assert((a + b)[a.len() + i] == b[i]);
        assert((c + d)[c.len() + i] == d[i]);
    }
    assert(b =~= d);
}

/// A layer of the given shape occupies exactly one bias plus one weight per
/// input for each neuron of the flat vector.
proof fn lemma_layer_flat_len(lm: Seq<(u32, Seq<u32>)>, input_size: nat)
    requires
        forall|i: int| 0 <= i < lm.len() ==> (#[trigger] lm[i]).1.len() == input_size,
    ensures
        layer_flat(lm).len() == lm.len() * (input_size + 1),
    decreases lm.len(),
{
    if lm.len() == 0 {
        assert(0 * (input_size + 1) == 0) by (nonlinear_arith);
    } else {
        lemma_layer_flat_len(lm.drop_last(), input_size);
        assert(neuron_flat(lm.last()).len() == input_size + 1);
        assert((lm.len() - 1) * (input_size + 1) + (input_size + 1) == lm.len() * (input_size
            + 1)) by (nonlinear_arith);
    }
}

/// Two layers of one shape with one flat image are the same layer.
proof fn lemma_layer_flat_injective(la: Seq<(u32, Seq<u32>)>, lb: Seq<(u32, Seq<u32>)>, input_size: nat)
    requires
        la.len() == lb.len(),
        forall|i: int| 0 <= i < la.len() ==> (#[trigger] la[i]).1.len() == input_size,
        forall|i: int| 0 <= i < lb.len() ==> (#[trigger] lb[i]).1.len() == input_size,
        layer_flat(la) == layer_flat(lb),
    ensures
        la == lb,
    decreases la.len(),
{
    if la.len() == 0 {
        assert(la =~= lb);
    } else {
        lemma_layer_flat_len(la.drop_last(), input_size);
        lemma_layer_flat_len(lb.drop_last(), input_size);
        lemma_concat_split(
            layer_flat(la.drop_last()),
            neuron_flat(la.last()),
            layer_flat(lb.drop_last()),
            neuron_flat(lb.last()),
        );
        lemma_layer_flat_injective(la.drop_last(), lb.drop_last(), input_size);
        let na = la.last();
        let nb = lb.last();
        assert(neuron_flat(na)[0] == na.0);
        assert(neuron_flat(nb)[0] == nb.0);
        assert forall|t: int| 0 <= t < na.1.len() implies na.1[t] == nb.1[t] by {
            assert(neuron_flat(na)[1 + t] == na.1[t]);
            assert(neuron_flat(nb)[1 + t] == nb.1[t]);
        }
        assert(na.1 =~= nb.1);
        assert(na == nb);
        assert forall|i: int| 0 <= i < la.len() implies la[i] == lb[i] by {
            if i < la.len() - 1 {
                assert(la.drop_last()[i] == la[i]);
                assert(lb.drop_last()[i] == lb[i]);
            }
        }
        assert(la =~= lb);
    }
}

/// Two networks of one topology with one flat image are the same network.
proof fn lemma_net_flat_injective(na: Seq<Seq<(u32, Seq<u32>)>>, nb: Seq<Seq<(u32, Seq<u32>)>>, sizes: Seq<nat>)
    requires
        model_shaped(na, sizes),
        model_shaped(nb, sizes),
        net_flat(na) == net_flat(nb),
    ensures
        na == nb,
    decreases na.len(),
{
    if na.len() == 0 {
        assert(na =~= nb);
    } else {
        assert(model_shaped(na.drop_last(), sizes.drop_last()));
        assert(model_shaped(nb.drop_last(), sizes.drop_last()));
        lemma_net_flat_len(na.drop_last(), sizes.drop_last());
        lemma_net_flat_len(nb.drop_last(), sizes.drop_last());
        lemma_concat_split(
            net_flat(na.drop_last()),
            layer_flat(na.last()),
            net_flat(nb.drop_last()),
            layer_flat(nb.last()),
        );
        lemma_net_flat_injective(na.drop_last(), nb.drop_last(), sizes.drop_last());
        lemma_layer_flat_injective(na.last(), nb.last(), sizes[sizes.len() - 2]);
        assert forall|l: int| 0 <= l < na.len() implies na[l] == nb[l] by {
            if l < na.len() - 1 {
                assert(na.drop_last()[l] == na[l]);
                assert(nb.drop_last()[l] == nb[l]);
            }
        }
        assert(na =~= nb);
    }
}

/// A shaped network model occupies exactly the arity its size list requires.
proof fn lemma_net_flat_len(nm: Seq<Seq<(u32, Seq<u32>)>>, sizes: Seq<nat>)
    requires
        model_shaped(nm, sizes),
    ensures
        net_flat(nm).len() == required_len(sizes),
    decreases nm.len(),
{
    if nm.len() == 0 {
    } else {
        assert(model_shaped(nm.drop_last(), sizes.drop_last()));
        lemma_net_flat_len(nm.drop_last(), sizes.drop_last());
        lemma_layer_flat_len(nm.last(), sizes[sizes.len() - 2]);
    }
}

/// A model that matches a topology is internally consistent, and its first
/// layer accepts exactly the topology's first size as input width — the
/// bridge from `Network::from_weights` or `Network::random` to the
/// preconditions of `Network::propagate`.
pub proof fn lemma_shaped_implies_wf(nm: Seq<Seq<(u32, Seq<u32>)>>, sizes: Seq<nat>)
    requires
        model_shaped(nm, sizes),
        sizes.len() >= 2,
    ensures
        model_wf(nm),
        forall|j: int| 0 <= j < nm[0].len() ==> (#[trigger] nm[0][j]).1.len() == sizes[0],
{
    assert forall|l: int| 1 <= l < nm.len() implies layer_shaped(
        #[trigger] nm[l],
        nm[l - 1].len(),
        nm[l].len(),
    ) by {
        assert(layer_shaped(nm[l - 1], sizes[l - 1], sizes[l]));
        assert(layer_shaped(nm[l], sizes[l], sizes[l + 1]));
    }
}

/// The weight round-trip law: flattening is lossless. Any two networks that
/// match one topology and flatten to the same weight vector have the same
/// mathematical content, and therefore propagate identically on every input
/// — in particular, a network restored by `Network::from_weights` from
/// another network's `Network::weights` output behaves as that network.
pub proof fn lemma_weights_round_trip(original: Network, rebuilt: Network, sizes: Seq<nat>)
    requires
        model_shaped(net_model(original), sizes),
        model_shaped(net_model(rebuilt), sizes),
        net_flat(net_model(rebuilt)) == net_flat(net_model(original)),
    ensures
        net_model(rebuilt) == net_model(original),
        forall|xs: Seq<u32>|
            spec_net_out(net_model(rebuilt), xs) == spec_net_out(net_model(original), xs),
{
    lemma_net_flat_injective(net_model(rebuilt), net_model(original), sizes);
}

} // verus!
