//! The two classes, and how they read as network outputs.
use crate::scalar::{exact_constants, exact_order, make_constant, one, zero, Scalar};
use vstd::prelude::*;
use vstd::std_specs::cmp::PartialOrdIs;

verus! {

/// The class of a point: `A` above the line, `B` on it or below.
#[derive(Debug, Clone, Copy, PartialEq, Eq, Structural)]
pub enum Label {
    A,
    B,
}

/// The outputs that stand for `label`: one at the place of the class, zero
/// at the other.
pub open spec fn target_of<T: Scalar>(label: Label) -> Seq<T> {
    match label {
        Label::A => seq![one::<T>(), zero::<T>()],
        Label::B => seq![zero::<T>(), one::<T>()],
    }
}

/// The class that `outputs` speak for: `B` where the second output is the
/// greater, `A` elsewhere.
pub open spec fn guess_of<T: Scalar>(outputs: Seq<T>) -> Label {
    if outputs[0].is_lt(&outputs[1]) {
        Label::B
    } else {
        Label::A
    }
}

impl Label {
    /// The outputs that a network is trained towards for a point of this
    /// class.
    pub fn target<T: Scalar>(self) -> (outputs: Vec<T>)
        ensures
            outputs.len() == 2,
            exact_constants::<T>() ==> outputs@ == target_of::<T>(self),
    {
        let outputs = match self {
            Label::A => vec![make_constant::<T>(1i8), make_constant::<T>(0i8)],
            Label::B => vec![make_constant::<T>(0i8), make_constant::<T>(1i8)],
        };
        outputs
    }

    /// The class that the outputs of a network speak for.
    pub fn guess<T: Scalar>(outputs: &Vec<T>) -> (label: Label)
        requires
            outputs.len() >= 2,
        ensures
            exact_order::<T>() ==> label == guess_of(outputs@),
    {
        if outputs[0] < outputs[1] {
            Label::B
        } else {
            Label::A
        }
    }
}

} // verus!
