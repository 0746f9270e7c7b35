//! The rectifier: negative values become zero, all others pass.
use crate::matrix::Matrix;
use crate::scalar::{
    exact_order, is_below, is_constant, make_constant, negative, one, zero, Scalar,
};
use vstd::prelude::*;

verus! {

/// The rectified linear unit.
pub struct Relu {}

/// Zero where `v` is negative, `v` itself elsewhere.
pub open spec fn rectified<T: Scalar>(v: T) -> T {
    if negative(v) {
        zero::<T>()
    } else {
        v
    }
}

/// The slope of the rectifier at `v`: zero where `v` is negative, one
/// elsewhere, so one at zero itself.
pub open spec fn slope<T: Scalar>(v: T) -> T {
    if negative(v) {
        zero::<T>()
    } else {
        one::<T>()
    }
}

/// `r` is what the rectifier gives for `v`, whatever is known of `T`: the
/// constant zero where `<` answers that `v` is below it, `v` itself
/// elsewhere.
pub open spec fn is_rectified<T: Scalar>(v: T, r: T) -> bool {
    exists|nothing: T, below: bool|
        {
            &&& is_constant(0i8, nothing)
            &&& #[trigger] is_below(v, nothing, below)
            &&& r == if below {
                nothing
            } else {
                v
            }
        }
}

/// `r` is what the slope of the rectifier gives for `v`, whatever is known
/// of `T`: the constant zero where `<` answers that `v` is below it, the
/// constant one elsewhere.
pub open spec fn is_slope<T: Scalar>(v: T, r: T) -> bool {
    exists|nothing: T, unit: T, below: bool|
        #![trigger is_below(v, nothing, below), is_constant(1i8, unit)]
        {
            &&& is_constant(0i8, nothing)
            &&& is_constant(1i8, unit)
            &&& is_below(v, nothing, below)
            &&& r == if below {
                nothing
            } else {
                unit
            }
        }
}

impl Relu {
    /// Every element rectified.
    pub fn activate<T: Scalar>(m: &Matrix<T>) -> (r: Matrix<T>)
        ensures
            r.rows == m.rows,
            r.cols == m.cols,
            r.elements.len() == m.elements.len(),
            forall|i: int|
                0 <= i < r.elements.len() ==> is_rectified(m.elements[i], #[trigger] r.elements[i]),
            exact_order::<T>() ==> r@ == m@.mapped(|v: T| rectified(v)),
    {
        let nothing = make_constant::<T>(0i8);
        let rectify = |v: &T| -> (o: T)
            ensures
                is_rectified(*v, o),
                exact_order::<T>() ==> o == rectified(*v),
            {
                let below = *v < nothing;
                assert(is_below(*v, nothing, below));
                if below {
                    nothing
                } else {
                    *v
                }
            };
        let r = Matrix::map(m, rectify);
        assert(exact_order::<T>() ==> r@.cells =~= m@.mapped(|v: T| rectified(v)).cells);
        r
    }

    /// The slope of the rectifier at every element.
    pub fn derivative<T: Scalar>(m: &Matrix<T>) -> (r: Matrix<T>)
        ensures
            r.rows == m.rows,
            r.cols == m.cols,
            r.elements.len() == m.elements.len(),
            forall|i: int|
                0 <= i < r.elements.len() ==> is_slope(m.elements[i], #[trigger] r.elements[i]),
            exact_order::<T>() ==> r@ == m@.mapped(|v: T| slope(v)),
    {
        let nothing = make_constant::<T>(0i8);
        let unit = make_constant::<T>(1i8);
        let incline = |v: &T| -> (o: T)
            ensures
                is_slope(*v, o),
                exact_order::<T>() ==> o == slope(*v),
            {
                let below = *v < nothing;
                assert(is_below(*v, nothing, below) && is_constant(1i8, unit));
                if below {
                    nothing
                } else {
                    unit
                }
            };
        let r = Matrix::map(m, incline);
        assert(exact_order::<T>() ==> r@.cells =~= m@.mapped(|v: T| slope(v)).cells);
        r
    }
}

} // verus!
