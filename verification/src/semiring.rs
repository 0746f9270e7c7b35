//! Sums of many terms over scalars whose sum and product obey the laws of a
//! semiring, as the integers do while nothing overflows.
use crate::scalar::{zero, Scalar};
use vstd::prelude::*;
use vstd::std_specs::ops::{AddSpec, MulSpec};

verus! {

/// The sum and the product of `T` form a semiring: the sum is associative
/// and commutative with zero as its neutral element, the product is
/// associative and distributes over the sum from both sides, and zero times
/// anything is zero.
#[verifier::opaque]
pub open spec fn semiring<T: Scalar>() -> bool {
    &&& forall|a: T, b: T, c: T| #[trigger]
        a.add_spec(b).add_spec(c) == a.add_spec(b.add_spec(c))
    &&& forall|a: T, b: T| #[trigger] a.add_spec(b) == b.add_spec(a)
    &&& forall|a: T| #[trigger] zero::<T>().add_spec(a) == a
    &&& forall|a: T, b: T, c: T| #[trigger]
        a.mul_spec(b).mul_spec(c) == a.mul_spec(b.mul_spec(c))
    &&& forall|a: T, b: T, c: T| #[trigger]
        a.mul_spec(b.add_spec(c)) == a.mul_spec(b).add_spec(a.mul_spec(c))
    &&& forall|a: T, b: T, c: T| #[trigger]
        a.add_spec(b).mul_spec(c) == a.mul_spec(c).add_spec(b.mul_spec(c))
    &&& forall|a: T| #[trigger] zero::<T>().mul_spec(a) == zero::<T>()
    &&& forall|a: T| #[trigger] a.mul_spec(zero::<T>()) == zero::<T>()
}

/// The running sum, started at zero, of `term(0)`, ..., `term(count - 1)`.
pub open spec fn series<T: Scalar>(term: spec_fn(int) -> T, count: nat) -> T
    decreases count,
{
    if count == 0 {
        zero::<T>()
    } else {
        series(term, (count - 1) as nat).add_spec(term(count - 1))
    }
}

proof fn lemma_regroup<T: Scalar>(a: T, b: T, c: T, d: T)
    requires
        semiring::<T>(),
    ensures
        a.add_spec(b).add_spec(c.add_spec(d)) == a.add_spec(c).add_spec(b.add_spec(d)),
{
    reveal(semiring);
    let bc = b.add_spec(c);
    let cb = c.add_spec(b);
    assert(a.add_spec(b).add_spec(c.add_spec(d)) == a.add_spec(b).add_spec(c).add_spec(d));
    assert(a.add_spec(b).add_spec(c) == a.add_spec(bc));
    assert(bc == cb);
    assert(a.add_spec(cb) == a.add_spec(c).add_spec(b));
    assert(a.add_spec(c).add_spec(b).add_spec(d) == a.add_spec(c).add_spec(b.add_spec(d)));
}

/// Series of equal terms are equal.
pub proof fn lemma_series_of_equal_terms<T: Scalar>(
    f: spec_fn(int) -> T,
    g: spec_fn(int) -> T,
    count: nat,
)
    requires
        forall|t: int| 0 <= t < count ==> #[trigger] f(t) == g(t),
    ensures
        series(f, count) == series(g, count),
    decreases count,
{
    if count > 0 {
        lemma_series_of_equal_terms(f, g, (count - 1) as nat);
    }
}

/// A series of zeros is zero.
pub proof fn lemma_series_of_zeros<T: Scalar>(f: spec_fn(int) -> T, count: nat)
    requires
        semiring::<T>(),
        forall|t: int| 0 <= t < count ==> #[trigger] f(t) == zero::<T>(),
    ensures
        series(f, count) == zero::<T>(),
    decreases count,
{
    if count > 0 {
        lemma_series_of_zeros(f, (count - 1) as nat);
        reveal(semiring);
    }
}

/// A series times a factor is the series of the terms times the factor.
pub proof fn lemma_series_times<T: Scalar>(f: spec_fn(int) -> T, count: nat, factor: T)
    requires
        semiring::<T>(),
    ensures
        series(f, count).mul_spec(factor) == series(|t: int| f(t).mul_spec(factor), count),
    decreases count,
{
    reveal(semiring);
    if count > 0 {
        lemma_series_times(f, (count - 1) as nat, factor);
    }
}

/// A factor times a series is the series of the factor times the terms.
pub proof fn lemma_times_series<T: Scalar>(factor: T, f: spec_fn(int) -> T, count: nat)
    requires
        semiring::<T>(),
    ensures
        factor.mul_spec(series(f, count)) == series(|t: int| factor.mul_spec(f(t)), count),
    decreases count,
{
    reveal(semiring);
    if count > 0 {
        lemma_times_series(factor, f, (count - 1) as nat);
    }
}

/// The sum of two series is the series of the sums of their terms.
pub proof fn lemma_series_plus_series<T: Scalar>(
    f: spec_fn(int) -> T,
    g: spec_fn(int) -> T,
    count: nat,
)
    requires
        semiring::<T>(),
    ensures
        series(f, count).add_spec(series(g, count)) == series(
            |t: int| f(t).add_spec(g(t)),
            count,
        ),
    decreases count,
{
    if count == 0 {
        reveal(semiring);
    } else {
        let shorter = (count - 1) as nat;
        lemma_series_plus_series(f, g, shorter);
        lemma_regroup(series(f, shorter), f(count - 1), series(g, shorter), g(count - 1));
    }
}

/// A series of series can be summed in either order: `outer` rows of
/// `inner` terms each add up to what `inner` columns of `outer` terms each
/// add up to.
pub proof fn lemma_series_exchange<T: Scalar>(h: spec_fn(int, int) -> T, inner: nat, outer: nat)
    requires
        semiring::<T>(),
    ensures
        series(|j: int| series(|t: int| h(t, j), inner), outer) == series(
            |t: int| series(|j: int| h(t, j), outer),
            inner,
        ),
    decreases outer,
{
    let by_rows = |j: int| series(|t: int| h(t, j), inner);
    let by_columns = |t: int| series(|j: int| h(t, j), outer);
    if outer == 0 {
        lemma_series_of_zeros(by_columns, inner);
    } else {
        let fewer = (outer - 1) as nat;
        let shorter_columns = |t: int| series(|j: int| h(t, j), fewer);
        let last_row = |t: int| h(t, outer - 1);
        lemma_series_exchange(h, inner, fewer);
        lemma_series_plus_series(shorter_columns, last_row, inner);
        lemma_series_of_equal_terms(
            |t: int| shorter_columns(t).add_spec(last_row(t)),
            by_columns,
            inner,
        );
        lemma_series_of_equal_terms(by_rows, |j: int| series(|t: int| h(t, j), inner), fewer);
    }
}

} // verus!
