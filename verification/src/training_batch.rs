//! One training sample.
use vstd::prelude::*;

verus! {

/// An input row together with the output row that the network should give
/// for it.
pub struct TrainingBatch<T> {
    pub input: Vec<T>,
    pub expected: Vec<T>,
}

} // verus!
