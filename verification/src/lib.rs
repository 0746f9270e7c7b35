//! A small feed-forward neural network on a dense matrix algebra of its own,
//! verified with Verus.
//!
//! # Layout
//!
//! * [`matrix`] holds the matrix type and its shape-checked operations;
//!   [`grid`] is the mathematical model that their contracts speak of,
//!   [`algebra`] the laws that the operations obey, [`render`] the matrix
//!   as text.
//! * [`activation`] holds the rectifier and the normalised exponential.
//! * [`layer`] and [`network`] hold the forward pass and the training step.
//! * [`node`] and [`weight`] hold a single threshold unit.
//! * [`perceptron`] holds the rules of a two-class demonstration on points
//!   of the plane.
//!
//! # Elements
//!
//! Nothing here is tied to one number type. A matrix holds elements of any
//! type `T` that is a [`scalar::Scalar`], and every function is proved for
//! all such types at once. How much a contract says of the values that come
//! out depends on what is known of the operators of `T`:
//!
//! * Shapes, positions and errors are stated without any condition.
//! * A function that applies an operator asks that the operator accepts the
//!   operands (`add_req`, `mul_req`, ...): for the machine integers, that
//!   nothing overflows. Where the operands are results on the way, the
//!   condition is a predicate of its own (`product_defined`,
//!   `training_defined`, ...).
//! * A function that applies one operator to its inputs says that each
//!   result is one that the operator gives ([`scalar::is_sum`],
//!   [`scalar::is_product`]), and names the result where the operator obeys
//!   its specification function.
//! * A function that feeds results into further operators asks for a type
//!   whose operators are functions ([`scalar::exact_ring`],
//!   [`scalar::exact`]), and then names the result outright.
//!
//! The machine integers are exact. Floating-point numbers are scalars too,
//! and the library is meant to run on them: their arithmetic never refuses
//! an operand, but `vstd` gives their operators no specification functions,
//! so of their sums and products Verus knows only that the operator
//! returned them.
//!
//! # What the caller brings
//!
//! Three things cannot be had from the operators alone and are handed in as
//! functions: a source of samples of the unit interval, wherever weights or
//! points are drawn at random; the exponential function, for the normalised
//! exponential; and the passage from a count or a number of pixels to a
//! scalar, where a sum is averaged or a point is laid on a canvas.
pub mod activation;
pub mod algebra;
pub mod grid;
pub mod index;
pub mod layer;
pub mod matrix;
pub mod network;
pub mod node;
pub mod perceptron;
pub mod render;
pub mod scalar;
pub mod semiring;
pub mod training_batch;
pub mod weight;
