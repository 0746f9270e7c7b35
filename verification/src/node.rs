//! A single threshold node.
use crate::scalar::{
    drawn, exact, make_constant, minus_one, negative, one, spread_defined, spreadable, zero,
    Scalar,
};
use crate::weight::Weight;
use vstd::prelude::*;
use vstd::std_specs::ops::{AddSpec, MulSpec};

verus! {

/// A node with one weight for each input and one for the bias.
pub struct Node<T> {
    pub weights: Vec<Weight<T>>,
}

/// The input that weight `k` of a node meets: `inputs[k]` where there is
/// one, the bias input one elsewhere.
pub open spec fn input_at<T: Scalar>(inputs: Seq<T>, k: int) -> T {
    if 0 <= k < inputs.len() {
        inputs[k]
    } else {
        one::<T>()
    }
}

/// The running sum, started at zero, of the first `count` weights, each
/// times the input that it meets.
pub open spec fn weighted_sum<T: Scalar>(weights: Seq<Weight<T>>, inputs: Seq<T>, count: nat) -> T
    decreases count,
{
    if count == 0 {
        zero::<T>()
    } else {
        weighted_sum(weights, inputs, (count - 1) as nat).add_spec(
            weights[count - 1].value.mul_spec(input_at(inputs, count - 1)),
        )
    }
}

/// Each of the first `count` weights can be multiplied by the input that it
/// meets, and the product added to the running sum.
pub open spec fn weighted_sum_defined<T: Scalar>(
    weights: Seq<Weight<T>>,
    inputs: Seq<T>,
    count: nat,
) -> bool
    decreases count,
{
    count > 0 ==> {
        &&& weighted_sum_defined(weights, inputs, (count - 1) as nat)
        &&& weights[count - 1].value.mul_req(input_at(inputs, count - 1))
        &&& weighted_sum(weights, inputs, (count - 1) as nat).add_req(
            weights[count - 1].value.mul_spec(input_at(inputs, count - 1)),
        )
    }
}

/// What `weighted_sum_defined` promises for the weight at place `k`.
pub proof fn lemma_weighted_sum_term<T: Scalar>(
    weights: Seq<Weight<T>>,
    inputs: Seq<T>,
    count: nat,
    k: nat,
)
    requires
        weighted_sum_defined(weights, inputs, count),
        k < count,
    ensures
        weights[k as int].value.mul_req(input_at(inputs, k as int)),
        weighted_sum(weights, inputs, k).add_req(
            weights[k as int].value.mul_spec(input_at(inputs, k as int)),
        ),
    decreases count,
{
    if k + 1 < count {
        lemma_weighted_sum_term(weights, inputs, (count - 1) as nat, k);
    }
}

/// The side of the threshold on which `sum` lies: minus one where it is
/// negative, one elsewhere.
pub open spec fn sign<T: Scalar>(sum: T) -> T {
    if negative(sum) {
        minus_one::<T>()
    } else {
        one::<T>()
    }
}

impl<T: Scalar> Node<T> {
    /// A node over `num_of_inputs` inputs. Each weight, the bias weight
    /// among them, is a fresh sample of `unit`, spread from the unit
    /// interval over the interval from minus one to one.
    pub fn create<F: Fn() -> T>(num_of_inputs: usize, unit: F) -> (node: Node<T>)
        requires
            exact::<T>(),
            spreadable(unit),
            num_of_inputs < usize::MAX,
        ensures
            node.weights.len() == num_of_inputs + 1,
            forall|i: int|
                0 <= i < node.weights.len() ==> drawn(unit, (#[trigger] node.weights[i]).value),
    {
        let count = num_of_inputs + 1;
        let mut weights: Vec<Weight<T>> = Vec::new();
        let mut i: usize = 0;
        while i < count
            invariant
                exact::<T>(),
                spreadable(unit),
                0 <= i <= count,
                weights.len() == i,
                forall|k: int| 0 <= k < i ==> drawn(unit, (#[trigger] weights[k]).value),
            decreases count - i,
        {
            let sample = unit();
            let weight = Weight::create(
                (sample * make_constant::<T>(2i8)) - make_constant::<T>(1i8),
            );
            weights.push(weight);
            i += 1;
        }
        Node { weights }
    }

    /// The side of the threshold on which the weighted sum of `inputs`
    /// lies. A weight without an input of its own is given the bias input
    /// one.
    pub fn feed_forward(&self, inputs: &Vec<T>) -> (side: T)
        requires
            exact::<T>(),
            weighted_sum_defined(self.weights@, inputs@, self.weights.len() as nat),
        ensures
            side == sign(weighted_sum(self.weights@, inputs@, self.weights.len() as nat)),
    {
        let mut sum: T = make_constant::<T>(0i8);
        let bias: T = make_constant::<T>(1i8);
        let mut index: usize = 0;
        while index < self.weights.len()
            invariant
                exact::<T>(),
                weighted_sum_defined(self.weights@, inputs@, self.weights.len() as nat),
                bias == one::<T>(),
                0 <= index <= self.weights.len(),
                sum == weighted_sum(self.weights@, inputs@, index as nat),
            decreases self.weights.len() - index,
        {
            proof {
                lemma_weighted_sum_term(
                    self.weights@,
                    inputs@,
                    self.weights.len() as nat,
                    index as nat,
                );
            }
            let weight = &self.weights[index];
            let input = if index < inputs.len() {
                &inputs[index]
            } else {
                &bias
            };
            sum = sum + weight * input;
            index += 1;
        }
        if sum < make_constant::<T>(0i8) {
            make_constant::<T>(-1i8)
        } else {
            make_constant::<T>(1i8)
        }
    }
}

} // verus!
