//! Activation functions: what a layer's raw output is passed through, and
//! the slope of that passage.
use crate::activation::relu::{rectified, slope, Relu};
use crate::grid::Grid;
use crate::matrix::Matrix;
use crate::scalar::{exact_order, Scalar};
use vstd::prelude::*;

pub mod relu;
pub mod softmax;

verus! {

/// An activation function and its slope, both on whole matrices.
pub trait ActivationFn<T: Scalar> {
    /// What the function makes of a matrix.
    spec fn activation(m: Grid<T>) -> Grid<T>;

    /// The slope of the function at a matrix.
    spec fn slope(m: Grid<T>) -> Grid<T>;

    /// Applies the function to `val`.
    fn activate(val: Matrix<T>) -> (r: Matrix<T>)
        ensures
            exact_order::<T>() ==> r@ == Self::activation(val@),
    ;

    /// The slope of the function at `val`.
    fn derivative(val: Matrix<T>) -> (r: Matrix<T>)
        ensures
            exact_order::<T>() ==> r@ == Self::slope(val@),
    ;
}

impl<T: Scalar> ActivationFn<T> for Relu {
    open spec fn activation(m: Grid<T>) -> Grid<T> {
        m.mapped(|v: T| rectified(v))
    }

    open spec fn slope(m: Grid<T>) -> Grid<T> {
        m.mapped(|v: T| slope(v))
    }

    fn activate(val: Matrix<T>) -> (r: Matrix<T>) {
        Relu::activate(&val)
    }

    fn derivative(val: Matrix<T>) -> (r: Matrix<T>) {
        Relu::derivative(&val)
    }
}

} // verus!
