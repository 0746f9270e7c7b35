//! A single adjustable weight.
use crate::scalar::{is_sum, Scalar};
use vstd::prelude::*;
use vstd::std_specs::ops::{AddSpec, MulSpec, MulSpecImpl};

verus! {

/// The weight that a node gives to one of its inputs.
pub struct Weight<T> {
    pub value: T,
}

impl<T: Scalar> Weight<T> {
    /// The weight of the given value.
    pub fn create(value: T) -> (weight: Weight<T>)
        ensures
            weight.value == value,
    {
        Weight { value }
    }

    /// Adds `adjustment` to the weight.
    pub fn adjust(&mut self, adjustment: T)
        requires
            old(self).value.add_req(adjustment),
        ensures
            is_sum(old(self).value, adjustment, final(self).value),
            T::obeys_add_spec() ==> final(self).value == old(self).value.add_spec(adjustment),
    {
        self.value = self.value + adjustment;
    }
}

/// A weight times an input is the input weighted: the product of the
/// weight's value and the input.
impl<T: Scalar> core::ops::Mul<T> for Weight<T> {
    type Output = T;

    fn mul(self, rhs: T) -> (product: T) {
        self.value * rhs
    }
}

impl<T: Scalar> MulSpecImpl<T> for Weight<T> {
    open spec fn obeys_mul_spec() -> bool {
        T::obeys_mul_spec()
    }

    open spec fn mul_req(self, rhs: T) -> bool {
        self.value.mul_req(rhs)
    }

    open spec fn mul_spec(self, rhs: T) -> T {
        self.value.mul_spec(rhs)
    }
}

/// The same product, for a borrowed weight and a borrowed input.
impl<'a, 'b, T: Scalar> core::ops::Mul<&'b T> for &'a Weight<T> {
    type Output = T;

    fn mul(self, rhs: &'b T) -> (product: T) {
        self.value * *rhs
    }
}

impl<'a, 'b, T: Scalar> MulSpecImpl<&'b T> for &'a Weight<T> {
    open spec fn obeys_mul_spec() -> bool {
        T::obeys_mul_spec()
    }

    open spec fn mul_req(self, rhs: &'b T) -> bool {
        self.value.mul_req(*rhs)
    }

    open spec fn mul_spec(self, rhs: &'b T) -> T {
        self.value.mul_spec(*rhs)
    }
}

} // verus!
