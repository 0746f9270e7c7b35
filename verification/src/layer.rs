//! One layer of the network: a weight matrix whose last row is the bias.
use crate::grid::Grid;
use crate::matrix::Matrix;
use crate::scalar::{
    constant, drawn, exact, exact_ring, is_sum, make_constant, one, spread, spread_defined, spreadable, Scalar,
};
use vstd::prelude::*;
use vstd::std_specs::ops::AddSpec;

verus! {

/// A layer of `weights.cols` nodes over `weights.rows - 1` inputs. Row `i`
/// of the weights holds what input `i` contributes to each node; the last
/// row holds the bias of each node.
pub struct Layer<T> {
    pub weights: Matrix<T>,
}

impl<T> View for Layer<T> {
    type V = Grid<T>;

    /// A layer is its weights.
    open spec fn view(&self) -> Grid<T> {
        self.weights@
    }
}

/// The row `inputs` with the constant one appended: the bias input.
pub open spec fn with_bias<T: Scalar>(inputs: Grid<T>) -> Grid<T> {
    inputs.with_column(seq![one::<T>()])
}

/// The outputs of a layer of the given weights for the row `inputs` can be
/// computed.
pub open spec fn forward_defined<T: Scalar>(inputs: Grid<T>, weights: Grid<T>) -> bool {
    with_bias(inputs).product_defined(weights)
}

/// What a layer of the given weights makes of the row `inputs`.
pub open spec fn forward<T: Scalar>(inputs: Grid<T>, weights: Grid<T>) -> Grid<T> {
    with_bias(inputs).product(weights)
}

impl<T: Scalar> Layer<T> {
    /// A layer of `num_of_nodes` nodes over `num_of_inputs` inputs. Each
    /// weight is a fresh sample of `unit`, spread from the unit interval
    /// over the interval from minus one to one.
    pub fn create<F>(num_of_nodes: usize, num_of_inputs: usize, unit: F) -> (layer: Layer<T>) where
        F: Fn() -> T,

        requires
            exact::<T>(),
            spreadable(unit),
            num_of_inputs < usize::MAX,
            (num_of_inputs + 1) * num_of_nodes <= usize::MAX,
        ensures
            layer@.rows == num_of_inputs + 1,
            layer@.cols == num_of_nodes,
            layer@.wf(),
            forall|i: int| 0 <= i < layer@.cells.len() ==> drawn(unit, #[trigger] layer@.cells[i]),
    {
        let two = make_constant::<T>(2i8);
        let unity = make_constant::<T>(1i8);
        assert(0 <= (num_of_inputs + 1) * num_of_nodes) by (nonlinear_arith);
        let count = (num_of_inputs + 1) * num_of_nodes;
        let mut weights: Vec<T> = Vec::new();
        let mut i: usize = 0;
        while i < count
            invariant
                exact::<T>(),
                spreadable(unit),
                two == constant::<T>(2i8),
                unity == one::<T>(),
                0 <= i <= count,
                weights.len() == i,
                forall|k: int| 0 <= k < i ==> drawn(unit, #[trigger] weights[k]),
            decreases count - i,
        {
            let sample = unit();
            let weight = (sample * two) - unity;
            assert(drawn(unit, weight)) by {
                assert(call_ensures(unit, (), sample) && weight == spread(sample));
            }
            weights.push(weight);
            i += 1;
        }
        Layer { weights: Matrix::create(num_of_nodes, num_of_inputs + 1, weights) }
    }

    /// The outputs of the nodes for the row `inputs`: the inputs and the
    /// bias input one, multiplied by the weights.
    pub fn feed_forward(&self, inputs: Matrix<T>) -> (outputs: Matrix<T>)
        requires
            exact_ring::<T>(),
            inputs@.wf(),
            inputs.rows == 1,
            inputs.cols + 1 == self@.rows,
            self@.full(),
            forward_defined(inputs@, self@),
        ensures
            outputs@ == forward(inputs@, self@),
            outputs.rows == 1,
            outputs.cols == self@.cols,
            outputs@.wf(),
    {
        let bias = vec![make_constant::<T>(1i8)];
        assert(bias@ =~= seq![one::<T>()]);
        let inputs_with_bias = Matrix::extend_rows(&inputs, bias).unwrap();
        Matrix::matrix_multiplication(&inputs_with_bias, &self.weights).unwrap()
    }

    /// Adds `adjustment` to the weights, element by element.
    pub fn adjust_weights(&mut self, adjustment: &Matrix<T>)
        requires
            old(self)@.same_shape(adjustment@),
            old(self)@.cells.len() == adjustment@.cells.len(),
            old(self)@.sum_defined(adjustment@),
        ensures
            final(self)@.rows == old(self)@.rows,
            final(self)@.cols == old(self)@.cols,
            final(self)@.cells.len() == old(self)@.cells.len(),
            forall|i: int|
                0 <= i < adjustment@.cells.len() ==> is_sum(
                    old(self)@.cells[i],
                    adjustment@.cells[i],
                    #[trigger] final(self)@.cells[i],
                ),
            T::obeys_add_spec() ==> final(self)@ == old(self)@.sum(adjustment@),
    {
        self.weights = Matrix::addition(&self.weights, adjustment).unwrap();
    }
}

} // verus!
