//! The network: a chain of layers, its forward pass and its training step.
use crate::activation::relu::{rectified, slope, Relu};
use crate::grid::Grid;
use crate::layer::{forward, forward_defined, with_bias};
use crate::matrix::{duplicate, Matrix};
use crate::scalar::{drawn, exact, exact_ring, make_constant, one, spreadable, Scalar};
use vstd::prelude::*;
use vstd::std_specs::ops::{DivSpec, MulSpec, NegSpec};

pub use crate::layer::Layer;
pub use crate::training_batch::TrainingBatch;

verus! {

/// A feed-forward network: the outputs of each layer are the inputs of the
/// next.
pub struct Network<T> {
    layers: Vec<Layer<T>>,
}

impl<T> View for Network<T> {
    type V = Seq<Grid<T>>;

    /// The weights of the layers, first layer first.
    closed spec fn view(&self) -> Seq<Grid<T>> {
        Seq::new(self.layers.len() as nat, |i: int| self.layers[i]@)
    }
}

/// The number of inputs of layer `i` in a network of the given shape: the
/// network's own input width for the first layer, the width of the layer
/// before for every other.
pub open spec fn fan_in(shape: Seq<usize>, input_nodes: usize, i: int) -> usize {
    if i == 0 {
        input_nodes
    } else {
        shape[i - 1]
    }
}

/// The weights of layer `i` of a network of the given shape can be counted
/// in a `usize`.
pub open spec fn layer_fits(shape: Seq<usize>, input_nodes: usize, i: int) -> bool {
    &&& fan_in(shape, input_nodes, i) < usize::MAX
    &&& (fan_in(shape, input_nodes, i) + 1) * shape[i] <= usize::MAX
}

/// What the first `layers` layers make of the row `inputs`: each layer is
/// fed the outputs of the layer before, as they are.
pub open spec fn propagated<T: Scalar>(weights: Seq<Grid<T>>, inputs: Grid<T>, layers: nat) -> Grid<
    T,
>
    decreases layers,
{
    if layers == 0 {
        inputs
    } else {
        forward(propagated(weights, inputs, (layers - 1) as nat), weights[layers - 1])
    }
}

/// The first `layers` layers can be passed: each can compute its outputs
/// for what the layers before it make of `inputs`.
pub open spec fn propagation_defined<T: Scalar>(
    weights: Seq<Grid<T>>,
    inputs: Grid<T>,
    layers: nat,
) -> bool
    decreases layers,
{
    layers > 0 ==> {
        &&& propagation_defined(weights, inputs, (layers - 1) as nat)
        &&& forward_defined(
            propagated(weights, inputs, (layers - 1) as nat),
            weights[layers - 1],
        )
    }
}

/// The direction in which the weights `w` of a layer raise the squared
/// error on one sample. With `x` the biased input row and `y = x * w` the
/// raw output, it is `transpose(x) * (slope(y) o (rectified(y) - expected))`,
/// where `o` is the element-wise product.
pub open spec fn sample_gradient<T: Scalar>(w: Grid<T>, sample: TrainingBatch<T>) -> Grid<T> {
    let x = with_bias(Grid::row_vector(sample.input@));
    let y = x.product(w);
    let error = y.mapped(|v: T| rectified(v)).difference(Grid::row_vector(sample.expected@));
    let weighted = y.mapped(|v: T| slope(v)).hadamard(error);
    x.transpose().product(weighted)
}

/// Every sum and product on the way to `sample_gradient` can be formed.
pub open spec fn sample_gradient_defined<T: Scalar>(w: Grid<T>, sample: TrainingBatch<T>) -> bool {
    let x = with_bias(Grid::row_vector(sample.input@));
    let y = x.product(w);
    let expected = Grid::row_vector(sample.expected@);
    let error = y.mapped(|v: T| rectified(v)).difference(expected);
    let weighted = y.mapped(|v: T| slope(v)).hadamard(error);
    &&& x.product_defined(w)
    &&& y.mapped(|v: T| rectified(v)).difference_defined(expected)
    &&& y.mapped(|v: T| slope(v)).hadamard_defined(error)
    &&& x.transpose().product_defined(weighted)
}

/// The gradients of the first `samples` samples of `batch`, added up from
/// the first on.
pub open spec fn gradient_sum<T: Scalar>(
    w: Grid<T>,
    batch: Seq<TrainingBatch<T>>,
    samples: nat,
) -> Grid<T>
    decreases samples,
{
    if samples <= 1 {
        sample_gradient(w, batch[0])
    } else {
        gradient_sum(w, batch, (samples - 1) as nat).sum(sample_gradient(w, batch[samples - 1]))
    }
}

/// The gradient of each of the first `samples` samples can be computed and
/// added to the sum of those before it.
pub open spec fn gradient_sum_defined<T: Scalar>(
    w: Grid<T>,
    batch: Seq<TrainingBatch<T>>,
    samples: nat,
) -> bool
    decreases samples,
{
    if samples <= 1 {
        sample_gradient_defined(w, batch[0])
    } else {
        &&& gradient_sum_defined(w, batch, (samples - 1) as nat)
        &&& sample_gradient_defined(w, batch[samples - 1])
        &&& gradient_sum(w, batch, (samples - 1) as nat).sum_defined(
            sample_gradient(w, batch[samples - 1]),
        )
    }
}

/// The step that the weights take for a summed gradient: the sum divided by
/// the batch size, times the negated learning rate.
pub open spec fn nudge<T: Scalar>(gradient: Grid<T>, size: T, learning_rate: T) -> Grid<T> {
    gradient.mapped(|v: T| v.div_spec(size)).scaled(learning_rate.neg_spec())
}

/// What `propagation_defined` promises for layer `k`: the layers before it
/// can be passed, and it can compute its outputs for what they make.
pub proof fn lemma_propagation_step<T: Scalar>(
    weights: Seq<Grid<T>>,
    inputs: Grid<T>,
    layers: nat,
    k: nat,
)
    requires
        propagation_defined(weights, inputs, layers),
        k < layers,
    ensures
        propagation_defined(weights, inputs, k),
        forward_defined(propagated(weights, inputs, k), weights[k as int]),
    decreases layers,
{
    if k + 1 < layers {
        lemma_propagation_step(weights, inputs, (layers - 1) as nat, k);
    }
}

/// What `gradient_sum_defined` promises for sample `k`: its gradient can be
/// computed and, where it is not the first, added to the sum of those
/// before it.
pub proof fn lemma_gradient_sum_step<T: Scalar>(
    w: Grid<T>,
    batch: Seq<TrainingBatch<T>>,
    samples: nat,
    k: nat,
)
    requires
        gradient_sum_defined(w, batch, samples),
        k < samples,
    ensures
        sample_gradient_defined(w, batch[k as int]),
        k > 0 ==> gradient_sum(w, batch, k).sum_defined(sample_gradient(w, batch[k as int])),
    decreases samples,
{
    if k + 1 < samples {
        lemma_gradient_sum_step(w, batch, (samples - 1) as nat, k);
    }
}

/// The step for a summed gradient can be computed and taken by `weights`:
/// every cell of the gradient can be divided by `size`, the learning rate
/// can be negated, every quotient can be multiplied by the negated rate, and
/// every product can be added to the weight at its place.
pub open spec fn nudge_defined<T: Scalar>(
    gradient: Grid<T>,
    size: T,
    learning_rate: T,
    weights: Grid<T>,
) -> bool {
    &&& forall|i: int| 0 <= i < gradient.cells.len() ==> #[trigger] gradient.cells[i].div_req(size)
    &&& learning_rate.neg_req()
    &&& gradient.mapped(|v: T| v.div_spec(size)).scaled_defined(learning_rate.neg_spec())
    &&& weights.sum_defined(nudge(gradient, size, learning_rate))
}

impl<T: Scalar> Network<T> {
    /// Every layer holds as many weights as its shape says, and has one
    /// input for each node of the layer before, plus the bias.
    pub open spec fn wf(&self) -> bool {
        &&& forall|i: int| 0 <= i < self@.len() ==> (#[trigger] self@[i]).wf()
        &&& forall|i: int| 0 < i < self@.len() ==> (#[trigger] self@[i]).rows == self@[i - 1].cols + 1
    }

    /// A network with one layer of `network_shape[i]` nodes for each `i`,
    /// over `input_nodes` inputs. Every weight is a fresh sample of `unit`,
    /// spread over the interval from minus one to one.
    pub fn create<F>(network_shape: Vec<usize>, input_nodes: usize, unit: F) -> (network: Network<
        T,
    >) where F: Fn() -> T
        requires
            exact::<T>(),
            spreadable(unit),
            forall|i: int|
                0 <= i < network_shape.len() ==> layer_fits(network_shape@, input_nodes, i),
        ensures
            network.wf(),
            network@.len() == network_shape.len(),
            forall|i: int|
                0 <= i < network@.len() ==> {
                    &&& (#[trigger] network@[i]).rows == fan_in(network_shape@, input_nodes, i) + 1
                    &&& network@[i].cols == network_shape[i]
                    &&& forall|k: int|
                        0 <= k < network@[i].cells.len() ==> drawn(
                            unit,
                            #[trigger] network@[i].cells[k],
                        )
                },
    {
        let mut layers: Vec<Layer<T>> = Vec::new();
        let mut inputs = input_nodes;
        let mut i: usize = 0;
        while i < network_shape.len()
            invariant
                exact::<T>(),
                spreadable(unit),
                forall|k: int|
                    0 <= k < network_shape.len() ==> layer_fits(network_shape@, input_nodes, k),
                0 <= i <= network_shape.len(),
                layers.len() == i,
                inputs == fan_in(network_shape@, input_nodes, i as int),
                forall|k: int|
                    0 <= k < i ==> {
                        &&& (#[trigger] layers[k]).weights@.wf()
                        &&& layers[k].weights.rows == fan_in(network_shape@, input_nodes, k) + 1
                        &&& layers[k].weights.cols == network_shape[k]
                        &&& forall|c: int|
                            0 <= c < layers[k].weights.elements.len() ==> drawn(
                                unit,
                                #[trigger] layers[k].weights.elements[c],
                            )
                    },
            decreases network_shape.len() - i,
        {
            assert(layer_fits(network_shape@, input_nodes, i as int));
            let num_of_nodes = network_shape[i];
            let layer = Layer::create(num_of_nodes, inputs, &unit);
            inputs = num_of_nodes;
            layers.push(layer);
            i += 1;
        }
        Network { layers }
    }

    /// What the network makes of `inputs`: the inputs pass through every
    /// layer in order, and no activation function is applied on the way.
    pub fn feed_forward(&self, inputs: Vec<T>) -> (outputs: Vec<T>)
        requires
            exact_ring::<T>(),
            self.wf(),
            self@.len() > 0 ==> inputs.len() + 1 == self@[0].rows,
            propagation_defined(self@, Grid::row_vector(inputs@), self@.len()),
        ensures
            outputs@ == propagated(self@, Grid::row_vector(inputs@), self@.len()).cells,
    {
        let ghost start = Grid::row_vector(inputs@);
        let mut food = Matrix::from_vec(inputs);
        let mut i: usize = 0;
        while i < self.layers.len()
            invariant
                exact_ring::<T>(),
                self.wf(),
                propagation_defined(self@, start, self@.len()),
                0 <= i <= self.layers.len(),
                food@ == propagated(self@, start, i as nat),
                food@.wf(),
                food.rows == 1,
                i < self.layers.len() ==> food.cols + 1 == self@[i as int].rows,
            decreases self.layers.len() - i,
        {
            proof {
                assert(self@[i as int].wf());
                assert(i + 1 < self.layers.len() ==> self@[i + 1].rows == self@[i as int].cols
                    + 1);
                lemma_propagation_step(self@, start, self@.len(), i as nat);
            }
            food = self.layers[i].feed_forward(food);
            i += 1;
        }
        food.elements
    }

    /// `batch` can train this network: there is a sample, every sample has
    /// one input for each input of the last layer and one expected value for
    /// each of its nodes, and the first layer has the shape of the last.
    pub open spec fn trainable(&self, batch: Seq<TrainingBatch<T>>) -> bool {
        &&& self@.len() > 0
        &&& batch.len() > 0
        &&& self@[0].same_shape(self@.last())
        &&& forall|i: int|
            0 <= i < batch.len() ==> {
                &&& (#[trigger] batch[i]).input.len() + 1 == self@.last().rows
                &&& batch[i].expected.len() == self@.last().cols
            }
    }

    /// A training step on `batch` can be carried out: the gradients can be
    /// computed and added up, the batch size can be had as a scalar, and
    /// whatever scalar that is, the step for it can be computed and taken by
    /// the first layer.
    pub open spec fn training_defined<C: Fn(usize) -> T>(
        &self,
        batch: Seq<TrainingBatch<T>>,
        learning_rate: T,
        as_scalar: C,
    ) -> bool {
        &&& gradient_sum_defined(self@.last(), batch, batch.len())
        &&& call_requires(as_scalar, (batch.len() as usize,))
        &&& forall|size: T| #[trigger]
            call_ensures(as_scalar, (batch.len() as usize,), size) ==> nudge_defined(
                gradient_sum(self@.last(), batch, batch.len()),
                size,
                learning_rate,
                self@[0],
            )
    }

    /// One step of gradient descent on `batch`.
    ///
    /// The gradient of each sample is taken at the weights of the last
    /// layer, with the rectifier as activation function. The gradients are
    /// added up, divided by `as_scalar(batch.len())` and multiplied by the
    /// negated learning rate, and the result is added to the weights of the
    /// first layer. All other layers stay as they are. In a network of one
    /// layer the first layer is the last, and the step is plain gradient
    /// descent.
    pub fn train<C>(&mut self, batch: Vec<TrainingBatch<T>>, learning_rate: T, as_scalar: C) where
        C: Fn(usize) -> T,

        requires
            exact::<T>(),
            old(self).wf(),
            old(self).trainable(batch@),
            old(self).training_defined(batch@, learning_rate, as_scalar),
        ensures
            final(self).wf(),
            final(self)@.len() == old(self)@.len(),
            forall|i: int| 0 < i < old(self)@.len() ==> final(self)@[i] == old(self)@[i],
            exists|size: T|
                {
                    &&& #[trigger] call_ensures(as_scalar, (batch.len(),), size)
                    &&& final(self)@[0] == old(self)@[0].sum(
                        nudge(
                            gradient_sum(old(self)@.last(), batch@, batch.len() as nat),
                            size,
                            learning_rate,
                        ),
                    )
                },
    {
        let ghost before = self@;
        let ghost w = self@.last();
        let layer = self.get_output_layer();
        let mut nudge_sum: Option<Matrix<T>> = None;
        let len = as_scalar(batch.len());
        let mut i: usize = 0;
        while i < batch.len()
            invariant
                exact::<T>(),
                self.wf(),
                self.trainable(batch@),
                gradient_sum_defined(w, batch@, batch.len() as nat),
                w == self@.last(),
                layer@ == w,
                0 <= i <= batch.len(),
                i == 0 <==> nudge_sum.is_none(),
                i > 0 ==> {
                    &&& nudge_sum.unwrap()@ == gradient_sum(w, batch@, i as nat)
                    &&& nudge_sum.unwrap()@.wf()
                    &&& nudge_sum.unwrap()@.same_shape(w)
                },
            decreases batch.len() - i,
        {
            let b = &batch[i];
            proof {
                assert(w.wf());
                lemma_gradient_sum_step(w, batch@, batch.len() as nat, i as nat);
            }
            let bias = vec![make_constant::<T>(1i8)];
            assert(bias@ =~= seq![one::<T>()]);
            let x = Matrix::extend_rows(&Matrix::from_vec(duplicate(&b.input)), bias).unwrap();
            let t = Matrix::from_vec(duplicate(&b.expected));
            let y = Matrix::matrix_multiplication(&x, &layer.weights).unwrap();
            let fy = Relu::activate(&y);
            let e = Matrix::subtraction(&fy, &t).unwrap();
            let df = Relu::derivative(&y);
            let r = Matrix::hadamard(&df, &e).unwrap();
            let xt = Matrix::transposition(&x);
            assert(r@.full()) by {
                assert(1 * w.cols == w.cols);
            }
            let g = Matrix::matrix_multiplication(&xt, &r).unwrap();
            nudge_sum = match nudge_sum {
                None => Some(g),
                Some(p) => Some(Matrix::addition(&p, &g).unwrap()),
            };
            i += 1;
        }
        let divide = |v: &T| -> (q: T)
            requires
                v.div_req(len),
            ensures
                q == v.div_spec(len),
            { *v / len };
        let summed = nudge_sum.unwrap();
        assert forall|k: int| 0 <= k < summed.elements.len() implies call_requires(
            divide,
            (&summed.elements[k],),
        ) by {
            assert(summed@.cells[k].div_req(len));
        }
        let average_nudge = Matrix::map(&summed, divide);
        assert(average_nudge@.cells =~= summed@.mapped(|v: T| v.div_spec(len)).cells);
        let step = Matrix::scalar_multiplication(&average_nudge, learning_rate.neg());
        self.layers[0].adjust_weights(&step);
        proof {
            assert(forall|k: int| 0 < k < before.len() ==> self@[k] == before[k]);
            assert(self@[0] == before[0].sum(step@));
            assert(before[0].wf());
            assert forall|k: int| 0 <= k < self@.len() implies (#[trigger] self@[k]).wf() by {
                if k > 0 {
                    assert(self@[k] == before[k]);
                }
            }
            assert forall|k: int| 0 < k < self@.len() implies (#[trigger] self@[k]).rows
                == self@[k - 1].cols + 1 by {
                assert(self@[k] == before[k]);
                assert(before[k].rows == before[k - 1].cols + 1);
                if k > 1 {
                    assert(self@[k - 1] == before[k - 1]);
                }
            }
        }
    }

    /// The last layer.
    pub fn get_output_layer(&self) -> (layer: &Layer<T>)
        requires
            self@.len() > 0,
        ensures
            layer@ == self@.last(),
    {
        &self.layers[self.layers.len() - 1]
    }
}

} // verus!
