//! The line that separates the two classes.
use crate::perceptron::label::Label;
use crate::perceptron::position::Position;
use crate::scalar::{exact, exact_ring, Scalar};
use vstd::prelude::*;
use vstd::std_specs::cmp::PartialOrdIs;
use vstd::std_specs::ops::{AddSpec, MulSpec};

verus! {

/// The line `y = m * x + c`.
pub struct Function<T> {
    pub m: T,
    pub c: T,
}

impl<T: Scalar> Function<T> {
    /// The height of the line at `x` can be computed.
    pub open spec fn defined_at(&self, x: T) -> bool {
        &&& self.m.mul_req(x)
        &&& self.m.mul_spec(x).add_req(self.c)
    }

    /// The height of the line at `x`.
    pub open spec fn height_at(&self, x: T) -> T {
        self.m.mul_spec(x).add_spec(self.c)
    }

    /// The class of `position`: `A` strictly above the line, `B` on it or
    /// below.
    pub open spec fn label_of(&self, position: Position<T>) -> Label {
        if position.1.is_gt(&self.height_at(position.0)) {
            Label::A
        } else {
            Label::B
        }
    }

    /// The line of slope `m` that meets the vertical axis at `c`.
    pub fn create(m: T, c: T) -> (f: Function<T>)
        ensures
            f.m == m,
            f.c == c,
    {
        Function { m, c }
    }

    /// The height of the line at `x`.
    pub fn get_y(&self, x: T) -> (y: T)
        requires
            exact_ring::<T>(),
            self.defined_at(x),
        ensures
            y == self.height_at(x),
    {
        self.m * x + self.c
    }

    /// The class of `position`.
    pub fn classify(&self, position: Position<T>) -> (label: Label)
        requires
            exact::<T>(),
            self.defined_at(position.0),
        ensures
            label == self.label_of(position),
    {
        if position.1 > self.get_y(position.0) {
            return Label::A;
        }
        Label::B
    }
}

} // verus!
