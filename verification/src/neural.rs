//! The feedforward neural network: layers of neurons over fixed-point
//! scalars, with seeded random initialization, forward propagation, and
//! conversion to and from a flat chromosome of genes.

use vstd::prelude::*;
use rand_chacha::ChaCha8Rng;
use crate::chromosome::Chromosome;
use crate::rng::gen_range_i64;
use crate::scalar::{mul_fixed, mul_scaled, relu, sat_add, sat_i64, SCALE};

verus! {

/// One entry of a topology specification: the neuron count of one layer.
pub struct LayerTopology {
    pub neurons: usize,
}

/// A bias together with one weight per input from the previous layer.
pub struct Neuron {
    bias: i64,
    weights: Vec<i64>,
}

/// An ordered sequence of neurons, all reading the same input vector.
pub struct Layer {
    neurons: Vec<Neuron>,
}

/// An ordered sequence of layers; the output of each is the input of the
/// next.
pub struct Network {
    n_inputs: usize,
    layers: Vec<Layer>,
}

impl Neuron {
    /// The bias scalar.
    pub closed spec fn spec_bias(&self) -> i64 {
        self.bias
    }

    /// The weight scalars, one per input.
    pub closed spec fn spec_weights(&self) -> Seq<i64> {
        self.weights@
    }
}

impl Layer {
    /// The neurons of the layer, in order.
    pub closed spec fn spec_neurons(&self) -> Seq<Neuron> {
        self.neurons@
    }
}

impl Network {
    /// The layers of the network, in order.
    pub closed spec fn spec_layers(&self) -> Seq<Layer> {
        self.layers@
    }

    /// The length of the input vector the network expects.
    pub closed spec fn spec_n_inputs(&self) -> nat {
        self.n_inputs as nat
    }

    /// The input width of layer `k`: the network input for the first layer,
    /// and the previous layer's neuron count after that.
    pub open spec fn spec_layer_input(&self, k: int) -> nat {
        if k == 0 {
            self.spec_n_inputs()
        } else {
            self.spec_layers()[k - 1].spec_neurons().len()
        }
    }

    /// The neuron count of the last layer: the length of every propagation
    /// result.
    pub open spec fn spec_n_outputs(&self) -> nat {
        self.spec_layers().last().spec_neurons().len()
    }

    /// Internal invariant: at least one layer, and every neuron of every
    /// layer holds exactly one weight per incoming value.
    pub open spec fn wf(&self) -> bool {
        &&& self.spec_layers().len() >= 1
        &&& forall|k: int|
            0 <= k < self.spec_layers().len() ==> layer_wf(
                #[trigger] self.spec_layers()[k],
                self.spec_layer_input(k),
            )
    }

    /// The network has the shape the topology asks for: one layer per
    /// adjacent pair of entries, each with the output entry's neuron count.
    pub open spec fn has_topology(&self, ts: Seq<LayerTopology>) -> bool {
        &&& ts.len() >= 2
        &&& self.spec_n_inputs() == ts[0].neurons
        &&& self.spec_layers().len() == ts.len() - 1
        &&& forall|k: int|
            0 <= k < self.spec_layers().len()
                ==> (#[trigger] self.spec_layers()[k]).spec_neurons().len() == ts[k + 1].neurons
    }

    /// Every bias and weight lies within the closed fixed-point interval
    /// standing for [-1.0, 1.0].
    pub open spec fn params_bounded(&self) -> bool {
        forall|k: int|
            0 <= k < self.spec_layers().len() ==> layer_params_bounded(
                #[trigger] self.spec_layers()[k],
            )
    }
}

/// Every neuron of the layer has exactly `n_in` weights.
pub open spec fn layer_wf(l: Layer, n_in: nat) -> bool {
    forall|j: int|
        0 <= j < l.spec_neurons().len()
            ==> (#[trigger] l.spec_neurons()[j]).spec_weights().len() == n_in
}

/// Every parameter of the neuron lies within [-SCALE, SCALE].
pub open spec fn neuron_params_bounded(n: Neuron) -> bool {
    &&& -SCALE <= n.spec_bias() <= SCALE
    &&& forall|w: int|
        0 <= w < n.spec_weights().len() ==> -SCALE <= #[trigger] n.spec_weights()[w] <= SCALE
}

/// Every parameter of every neuron of the layer lies within [-SCALE, SCALE].
pub open spec fn layer_params_bounded(l: Layer) -> bool {
    forall|j: int|
        0 <= j < l.spec_neurons().len() ==> neuron_params_bounded(#[trigger] l.spec_neurons()[j])
}

/// The neuron's accumulator after its first `k` weighted inputs: the bias,
/// then one saturating addition of each fixed-point product in order.
pub open spec fn acc_upto(bias: i64, ws: Seq<i64>, xs: Seq<i64>, k: int) -> int
    decreases k,
{
    if k <= 0 {
        bias as int
    } else {
        sat_i64(acc_upto(bias, ws, xs, k - 1) + mul_fixed(ws[k - 1], xs[k - 1]))
    }
}

/// The neuron's output: `relu(bias + sum of input * weight)`, computed over
/// saturating fixed-point arithmetic.
pub open spec fn neuron_out(n: Neuron, xs: Seq<i64>) -> i64 {
    let a = acc_upto(n.spec_bias(), n.spec_weights(), xs, n.spec_weights().len() as int);
    if a < 0 {
        0i64
    } else {
        a as i64
    }
}

/// The layer's output: the ordered vector of its neurons' outputs.
pub open spec fn layer_out(l: Layer, xs: Seq<i64>) -> Seq<i64> {
    Seq::new(l.spec_neurons().len(), |j: int| neuron_out(l.spec_neurons()[j], xs))
}

/// The input vector transformed by the first `k` layers of the network.
pub open spec fn out_after(net: Network, xs: Seq<i64>, k: int) -> Seq<i64>
    decreases k,
{
    if k <= 0 {
        xs
    } else {
        layer_out(net.spec_layers()[k - 1], out_after(net, xs, k - 1))
    }
}

/// The network's output: the input transformed by every layer in order.
pub open spec fn spec_propagate(net: Network, xs: Seq<i64>) -> Seq<i64> {
    out_after(net, xs, net.spec_layers().len() as int)
}

/// The flat encoding of one neuron: its bias followed by its weights.
pub open spec fn encode_neuron(n: Neuron) -> Seq<i64> {
    seq![n.spec_bias()] + n.spec_weights()
}

/// The flat encoding of the first `j` neurons of a layer, in order.
pub open spec fn encode_neurons_upto(ns: Seq<Neuron>, j: int) -> Seq<i64>
    decreases j,
{
    if j <= 0 {
        Seq::empty()
    } else {
        encode_neurons_upto(ns, j - 1) + encode_neuron(ns[j - 1])
    }
}

/// The flat encoding of one layer: its neurons' encodings, in order.
pub open spec fn encode_layer(l: Layer) -> Seq<i64> {
    encode_neurons_upto(l.spec_neurons(), l.spec_neurons().len() as int)
}

/// The flat encoding of the first `k` layers of a network, in order.
pub open spec fn encode_upto(ls: Seq<Layer>, k: int) -> Seq<i64>
    decreases k,
{
    if k <= 0 {
        Seq::empty()
    } else {
        encode_upto(ls, k - 1) + encode_layer(ls[k - 1])
    }
}

/// The flat encoding of a whole network: in layer order then neuron order,
/// each neuron's bias followed by its weights.
pub open spec fn encode_network(net: Network) -> Seq<i64> {
    encode_upto(net.spec_layers(), net.spec_layers().len() as int)
}

/// The gene count the topology requires, counted from its `k`-th entry on:
/// for each adjacent pair, one bias and one weight per input for each output
/// neuron.
pub open spec fn genes_needed_from(ts: Seq<LayerTopology>, k: int) -> int
    decreases ts.len() - k,
{
    if k < 1 || k >= ts.len() {
        0
    } else {
        (ts[k].neurons as int) * (ts[k - 1].neurons as int + 1) + genes_needed_from(ts, k + 1)
    }
}

/// The gene count the whole topology requires.
pub open spec fn genes_needed(ts: Seq<LayerTopology>) -> int {
    genes_needed_from(ts, 1)
}

proof fn lemma_genes_needed_nonneg(ts: Seq<LayerTopology>, k: int)
    ensures
        genes_needed_from(ts, k) >= 0,
    decreases ts.len() - k,
{
    if 1 <= k < ts.len() {
        lemma_genes_needed_nonneg(ts, k + 1);
        assert((ts[k].neurons as int) * (ts[k - 1].neurons as int + 1) >= 0) by (nonlinear_arith)
            requires
                ts[k].neurons as int >= 0,
                ts[k - 1].neurons as int >= 0,
        ;
    }
}

proof fn lemma_encode_neurons_upto_push(ns: Seq<Neuron>, n: Neuron, j: int)
    requires
        0 <= j <= ns.len(),
    ensures
        encode_neurons_upto(ns.push(n), j) == encode_neurons_upto(ns, j),
    decreases j,
{
    if j > 0 {
        lemma_encode_neurons_upto_push(ns, n, j - 1);
        assert(ns.push(n)[j - 1] == ns[j - 1]);
    }
}

proof fn lemma_encode_upto_push(ls: Seq<Layer>, l: Layer, k: int)
    requires
        0 <= k <= ls.len(),
    ensures
        encode_upto(ls.push(l), k) == encode_upto(ls, k),
    decreases k,
{
    if k > 0 {
        lemma_encode_upto_push(ls, l, k - 1);
        assert(ls.push(l)[k - 1] == ls[k - 1]);
    }
}

impl Neuron {
    /// Builds a neuron from its bias and weights.
    pub fn new(bias: i64, weights: Vec<i64>) -> (n: Neuron)
        ensures
            n.spec_bias() == bias,
            n.spec_weights() == weights@,
    {
        Neuron { bias, weights }
    }

    /// Computes `relu(bias + sum of input * weight)` over saturating
    /// fixed-point arithmetic. The result is never negative.
    pub fn propagate(&self, inputs: &Vec<i64>) -> (out: i64)
        requires
            inputs@.len() == self.spec_weights().len(),
        ensures
            out == neuron_out(*self, inputs@),
            out >= 0,
    {
        let mut acc: i64 = self.bias;
        let mut i: usize = 0;
        while i < self.weights.len()
            invariant
                i <= self.weights.len(),
                inputs@.len() == self.weights@.len(),
                acc as int == acc_upto(self.bias, self.weights@, inputs@, i as int),
            decreases self.weights@.len() - i,
        {
            let term = mul_scaled(self.weights[i], inputs[i]);
            acc = sat_add(acc, term);
            i += 1;
        }
        relu(acc)
    }

    /// Draws a fresh neuron for `n_in` inputs: the bias and each weight drawn
    /// independently and uniformly from the closed fixed-point interval
    /// standing for [-1.0, 1.0].
    pub fn random(rng: &mut ChaCha8Rng, n_in: usize) -> (n: Neuron)
        ensures
            n.spec_weights().len() == n_in,
            neuron_params_bounded(n),
    {
        let bias = gen_range_i64(rng, -SCALE, SCALE);
        let mut weights: Vec<i64> = Vec::new();
        let mut w: usize = 0;
        while w < n_in
            invariant
                w <= n_in,
                weights@.len() == w,
                forall|j: int| 0 <= j < w ==> -SCALE <= #[trigger] weights@[j] <= SCALE,
            decreases n_in - w,
        {
            let g = gen_range_i64(rng, -SCALE, SCALE);
            weights.push(g);
            w += 1;
        }
        Neuron { bias, weights }
    }
}

impl Layer {
    /// Builds a layer from its neurons.
    pub fn new(neurons: Vec<Neuron>) -> (l: Layer)
        ensures
            l.spec_neurons() == neurons@,
    {
        Layer { neurons }
    }

    /// Feeds the input vector to every neuron; the output is the ordered
    /// vector of their outputs.
    pub fn propagate(&self, inputs: &Vec<i64>) -> (out: Vec<i64>)
        requires
            layer_wf(*self, inputs@.len()),
        ensures
            out@ == layer_out(*self, inputs@),
            forall|j: int| 0 <= j < out@.len() ==> #[trigger] out@[j] >= 0,
    {
        let mut out: Vec<i64> = Vec::new();
        let mut j: usize = 0;
        while j < self.neurons.len()
            invariant
                j <= self.neurons.len(),
                layer_wf(*self, inputs@.len()),
                out@.len() == j,
                forall|k: int| 0 <= k < j ==> out@[k] == neuron_out(self.spec_neurons()[k], inputs@),
                forall|k: int| 0 <= k < j ==> #[trigger] out@[k] >= 0,
            decreases self.neurons@.len() - j,
        {
            proof {
                assert(self.spec_neurons()[j as int].spec_weights().len() == inputs@.len());
            }
            let y = self.neurons[j].propagate(inputs);
            out.push(y);
            j += 1;
        }
        proof {
            assert(out@ =~= layer_out(*self, inputs@));
        }
        out
    }

    /// Draws a fresh layer of `n_out` neurons, each with `n_in` weights, all
    /// parameters uniform over the fixed-point interval for [-1.0, 1.0].
    pub fn random(rng: &mut ChaCha8Rng, n_in: usize, n_out: usize) -> (l: Layer)
        ensures
            l.spec_neurons().len() == n_out,
            layer_wf(l, n_in as nat),
            layer_params_bounded(l),
    {
        let mut neurons: Vec<Neuron> = Vec::new();
        let mut j: usize = 0;
        while j < n_out
            invariant
                j <= n_out,
                neurons@.len() == j,
                forall|k: int|
                    0 <= k < j ==> (#[trigger] neurons@[k]).spec_weights().len() == n_in,
                forall|k: int| 0 <= k < j ==> neuron_params_bounded(#[trigger] neurons@[k]),
            decreases n_out - j,
        {
            let n = Neuron::random(rng, n_in);
            neurons.push(n);
            j += 1;
        }
        Layer { neurons }
    }
}

impl Network {
    /// The length of the input vector the network expects.
    pub fn n_inputs(&self) -> (n: usize)
        ensures
            n == self.spec_n_inputs(),
    {
        self.n_inputs
    }

    /// Sequentially transforms the input vector through each layer. The
    /// output has one entry per neuron of the last layer, and every entry is
    /// non-negative.
    pub fn propagate(&self, inputs: Vec<i64>) -> (out: Vec<i64>)
        requires
            self.wf(),
            inputs@.len() == self.spec_n_inputs(),
        ensures
            out@ == spec_propagate(*self, inputs@),
            out@.len() == self.spec_n_outputs(),
            forall|j: int| 0 <= j < out@.len() ==> #[trigger] out@[j] >= 0,
    {
        let ghost xs0 = inputs@;
        let mut cur = inputs;
        let mut k: usize = 0;
        while k < self.layers.len()
            invariant
                self.wf(),
                k <= self.layers@.len(),
                cur@ == out_after(*self, xs0, k as int),
                cur@.len() == self.spec_layer_input(k as int) || k == self.layers@.len(),
                k == self.layers@.len() ==> cur@.len() == self.spec_n_outputs(),
                k > 0 ==> forall|j: int| 0 <= j < cur@.len() ==> #[trigger] cur@[j] >= 0,
            decreases self.layers@.len() - k,
        {
            let next = self.layers[k].propagate(&cur);
            cur = next;
            k += 1;
        }
        cur
    }

    /// Draws a fresh network for the given topology: one layer per adjacent
    /// pair of entries, every bias and weight drawn independently and
    /// uniformly from the closed fixed-point interval standing for
    /// [-1.0, 1.0].
    pub fn random(rng: &mut ChaCha8Rng, topology: &Vec<LayerTopology>) -> (net: Network)
        requires
            topology@.len() >= 2,
        ensures
            net.wf(),
            net.has_topology(topology@),
            net.params_bounded(),
    {
        let mut layers: Vec<Layer> = Vec::new();
        let mut k: usize = 1;
        while k < topology.len()
            invariant
                1 <= k <= topology@.len(),
                topology@.len() >= 2,
                layers@.len() == k - 1,
                forall|i: int|
                    0 <= i < k - 1 ==> (#[trigger] layers@[i]).spec_neurons().len()
                        == topology@[i + 1].neurons,
                forall|i: int|
                    0 <= i < k - 1 ==> layer_wf(
                        #[trigger] layers@[i],
                        topology@[i].neurons as nat,
                    ),
                forall|i: int| 0 <= i < k - 1 ==> layer_params_bounded(#[trigger] layers@[i]),
            decreases topology@.len() - k,
        {
            let l = Layer::random(rng, topology[k - 1].neurons, topology[k].neurons);
            layers.push(l);
            k += 1;
        }
        let net = Network { n_inputs: topology[0].neurons, layers };
        net
    }

    /// Flattens the network into one gene sequence: in layer order then
    /// neuron order, each neuron's bias followed by its weights. Inverse of
    /// `from_chromosome`.
    pub fn to_chromosome(&self) -> (c: Chromosome)
        ensures
            c@ == encode_network(*self),
    {
        let mut genes: Vec<i64> = Vec::new();
        let mut k: usize = 0;
        while k < self.layers.len()
            invariant
                k <= self.layers@.len(),
                genes@ == encode_upto(self.spec_layers(), k as int),
            decreases self.layers@.len() - k,
        {
            let layer = &self.layers[k];
            let mut j: usize = 0;
            while j < layer.neurons.len()
                invariant
                    k < self.layers@.len(),
                    *layer == self.spec_layers()[k as int],
                    j <= layer.spec_neurons().len(),
                    genes@ == encode_upto(self.spec_layers(), k as int)
                        + encode_neurons_upto(layer.spec_neurons(), j as int),
                decreases layer.neurons@.len() - j,
            {
                let neuron = &layer.neurons[j];
                let ghost before = genes@;
                genes.push(neuron.bias);
                let mut w: usize = 0;
                while w < neuron.weights.len()
                    invariant
                        j < layer.spec_neurons().len(),
                        *neuron == layer.spec_neurons()[j as int],
                        w <= neuron.weights@.len(),
                        genes@ == before + seq![neuron.spec_bias()]
                            + neuron.spec_weights().take(w as int),
                    decreases neuron.weights@.len() - w,
                {
                    genes.push(neuron.weights[w]);
                    proof {
                        assert(neuron.spec_weights().take(w as int).push(
                            neuron.spec_weights()[w as int],
                        ) =~= neuron.spec_weights().take(w as int + 1));
                        assert(genes@ =~= before + seq![neuron.spec_bias()]
                            + neuron.spec_weights().take(w as int + 1));
                    }
                    w += 1;
                }
                proof {
                    assert(neuron.spec_weights().take(neuron.spec_weights().len() as int)
                        =~= neuron.spec_weights());
                    assert(genes@ =~= encode_upto(self.spec_layers(), k as int)
                        + encode_neurons_upto(layer.spec_neurons(), j as int + 1));
                }
                j += 1;
            }
            proof {
                assert(genes@ =~= encode_upto(self.spec_layers(), k as int + 1));
            }
            k += 1;
        }
        Chromosome::new(genes)
    }

    /// Rebuilds a network from a chromosome, consuming genes in the order
    /// `to_chromosome` wrote them, so that flattening the result yields the
    /// given chromosome again.
    pub fn from_chromosome(c: &Chromosome, topology: &Vec<LayerTopology>) -> (net: Network)
        requires
            topology@.len() >= 2,
            c@.len() == genes_needed(topology@),
        ensures
            net.wf(),
            net.has_topology(topology@),
            encode_network(net) == c@,
    {
        let ghost ts = topology@;
        let n_genes = c.len();
        let mut layers: Vec<Layer> = Vec::new();
        let mut idx: usize = 0;
        let mut k: usize = 1;
        while k < topology.len()
            invariant
                1 <= k <= ts.len(),
                ts.len() >= 2,
                ts == topology@,
                c@.len() == n_genes,
                layers@.len() == k - 1,
                forall|i: int|
                    0 <= i < k - 1 ==> (#[trigger] layers@[i]).spec_neurons().len()
                        == ts[i + 1].neurons,
                forall|i: int|
                    0 <= i < k - 1 ==> layer_wf(#[trigger] layers@[i], ts[i].neurons as nat),
                idx as int + genes_needed_from(ts, k as int) == c@.len(),
                encode_upto(layers@, k as int - 1) == c@.subrange(0, idx as int),
            decreases ts.len() - k,
        {
            let n_in = topology[k - 1].neurons;
            let n_out = topology[k].neurons;
            proof {
                lemma_genes_needed_nonneg(ts, k as int + 1);
                assert(genes_needed_from(ts, k as int) == (n_out as int) * (n_in as int + 1)
                    + genes_needed_from(ts, k as int + 1));
            }
            let mut neurons: Vec<Neuron> = Vec::new();
            let mut j: usize = 0;
            proof {
                assert(encode_upto(layers@, k as int - 1) + encode_neurons_upto(neurons@, 0)
                    =~= c@.subrange(0, idx as int));
            }
            while j < n_out
                invariant
                    1 <= k < ts.len(),
                    n_in == ts[k as int - 1].neurons,
                    n_out == ts[k as int].neurons,
                    j <= n_out,
                    c@.len() == n_genes,
                    neurons@.len() == j,
                    forall|i: int|
                        0 <= i < j ==> (#[trigger] neurons@[i]).spec_weights().len()
                            == n_in as nat,
                    idx as int + (n_out - j) * (n_in as int + 1)
                        + genes_needed_from(ts, k as int + 1) == c@.len(),
                    genes_needed_from(ts, k as int + 1) >= 0,
                    encode_upto(layers@, k as int - 1) + encode_neurons_upto(neurons@, j as int)
                        == c@.subrange(0, idx as int),
                decreases n_out - j,
        {
                proof {
                    assert((n_out - j) * (n_in as int + 1) == (n_in as int + 1)
                        + (n_out - j - 1) * (n_in as int + 1)) by (nonlinear_arith)
                        requires
                            j < n_out,
                    ;
                    assert((n_out - j - 1) * (n_in as int + 1) >= 0) by (nonlinear_arith)
                        requires
                            n_out - j - 1 >= 0,
                            n_in as int + 1 >= 1,
                    ;
                }
                let ghost nstart = idx as int;
                let bias = c.gene(idx);
                idx += 1;
                let mut weights: Vec<i64> = Vec::new();
                let mut w: usize = 0;
                proof {
                    assert(weights@ =~= c@.subrange(nstart + 1, idx as int));
                }
                while w < n_in
                    invariant
                        w <= n_in,
                        idx as int == nstart + 1 + w,
                        0 <= nstart,
                        c@.len() == n_genes,
                        idx as int + (n_in - w) + (n_out - j - 1) * (n_in as int + 1)
                            + genes_needed_from(ts, k as int + 1) == c@.len(),
                        (n_out - j - 1) * (n_in as int + 1) >= 0,
                        genes_needed_from(ts, k as int + 1) >= 0,
                        weights@.len() == w,
                        weights@ == c@.subrange(nstart + 1, idx as int),
                        bias == c@[nstart],
                    decreases n_in - w,
                {
                    let g = c.gene(idx);
                    weights.push(g);
                    idx += 1;
                    proof {
                        assert(weights@ =~= c@.subrange(nstart + 1, idx as int));
                    }
                    w += 1;
                }
                let neuron = Neuron { bias, weights };
                proof {
                    assert(encode_neuron(neuron) =~= c@.subrange(nstart, idx as int));
                    lemma_encode_neurons_upto_push(neurons@, neuron, j as int);
                    assert(neurons@.push(neuron)[j as int] == neuron);
                    assert(encode_neurons_upto(neurons@.push(neuron), j as int + 1)
                        == encode_neurons_upto(neurons@, j as int) + encode_neuron(neuron));
                    assert(encode_upto(layers@, k as int - 1)
                        + encode_neurons_upto(neurons@, j as int) == c@.subrange(0, nstart));
                    assert(c@.subrange(0, nstart) + c@.subrange(nstart, idx as int)
                        =~= c@.subrange(0, idx as int));
                    assert(encode_upto(layers@, k as int - 1)
                        + (encode_neurons_upto(neurons@, j as int) + encode_neuron(neuron))
                        =~= (encode_upto(layers@, k as int - 1)
                            + encode_neurons_upto(neurons@, j as int)) + encode_neuron(neuron));
                    assert(encode_upto(layers@, k as int - 1)
                        + encode_neurons_upto(neurons@.push(neuron), j as int + 1)
                        =~= c@.subrange(0, idx as int));
                }
                neurons.push(neuron);
                j += 1;
            }
            let layer = Layer { neurons };
            proof {
                assert((n_out - n_out) * (n_in as int + 1) == 0) by (nonlinear_arith);
                lemma_encode_upto_push(layers@, layer, k as int - 1);
                assert(layers@.push(layer)[k as int - 1] == layer);
                assert(encode_upto(layers@.push(layer), k as int)
                    =~= c@.subrange(0, idx as int));
            }
            layers.push(layer);
            k += 1;
        }
        let net = Network { n_inputs: topology[0].neurons, layers };
        proof {
            assert(c@.subrange(0, idx as int) =~= c@);
        }
        net
    }
}

} // verus!
