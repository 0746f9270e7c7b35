//! The numbers a matrix holds.
//!
//! Every algorithm of this crate is written once, for any element type that
//! offers the arithmetic operators, an order and the small integer constants.
//! The contracts speak of the operators through the specification functions
//! that `vstd` attaches to them (`add_spec`, `mul_spec`, ...). For a type
//! whose operators are declared to obey those functions the contracts give
//! the exact result; for any other type they still give every shape, every
//! position and every error, and leave the values of sums and products to
//! the type.
use vstd::prelude::*;
use vstd::std_specs::cmp::{PartialOrdIs, PartialOrdSpec};
use vstd::std_specs::convert::FromSpec;
use vstd::std_specs::ops::{AddSpec, DivSpec, MulSpec, NegSpec, SubSpec};

verus! {

/// What an element type has to offer: copies, an order, the constants
/// `-128 ..= 127`, and the five arithmetic operators closed over the type.
///
/// The trait adds nothing of its own: every type with these capabilities is
/// a `Scalar`.
pub trait Scalar: Copy + PartialOrd + From<i8> + core::ops::Add<Output = Self> + core::ops::Sub<
    Output = Self,
> + core::ops::Mul<Output = Self> + core::ops::Div<Output = Self> + core::ops::Neg<Output = Self> {

}

impl<T> Scalar for T where
    T: Copy + PartialOrd + From<i8> + core::ops::Add<Output = T> + core::ops::Sub<
        Output = T,
    > + core::ops::Mul<Output = T> + core::ops::Div<Output = T> + core::ops::Neg<Output = T>,
 {
}

/// The constant that `T` makes of the small integer `n`.
pub open spec fn constant<T: Scalar>(n: i8) -> T {
    T::from_spec(n)
}

/// The additive constant: what an empty sum starts from.
pub open spec fn zero<T: Scalar>() -> T {
    constant::<T>(0i8)
}

/// The multiplicative constant: the bias input of a layer.
pub open spec fn one<T: Scalar>() -> T {
    constant::<T>(1i8)
}

/// The factor that turns a sum into a difference.
pub open spec fn minus_one<T: Scalar>() -> T {
    constant::<T>(-1i8)
}

/// The constants of `T` are a function of the small integers: each is the
/// value that its specification function names.
pub open spec fn exact_constants<T: Scalar>() -> bool {
    T::obeys_from_spec()
}

/// The constants, sums and products of `T` are functions: each is the value
/// that its specification function names. This is as much as the algebra of
/// matrices asks of a type.
pub open spec fn exact_ring<T: Scalar>() -> bool {
    &&& T::obeys_from_spec()
    &&& T::obeys_add_spec()
    &&& T::obeys_mul_spec()
}

/// `r` is a value that `T` makes of the small integer `n`.
pub open spec fn is_constant<T: Scalar>(n: i8, r: T) -> bool {
    call_ensures(T::from, (n,), r)
}

/// `below` is an answer that `<` of `T` gives for `a` and `b`.
pub open spec fn is_below<T: Scalar>(a: T, b: T, below: bool) -> bool {
    call_ensures(T::lt, (&a, &b), below)
}

/// `r` is a value that `+` of `T` returns for `a` and `b`.
pub open spec fn is_sum<T: Scalar>(a: T, b: T, r: T) -> bool {
    call_ensures(T::add, (a, b), r)
}

/// `r` is a value that `*` of `T` returns for `a` and `b`.
pub open spec fn is_product<T: Scalar>(a: T, b: T, r: T) -> bool {
    call_ensures(T::mul, (a, b), r)
}

/// The constants and the order of `T` are functions: each is the value that
/// its specification function names.
pub open spec fn exact_order<T: Scalar>() -> bool {
    &&& T::obeys_from_spec()
    &&& T::obeys_partial_cmp_spec()
}

/// `v` is below zero in the order of `T`.
pub open spec fn negative<T: Scalar>(v: T) -> bool {
    v.is_lt(&zero::<T>())
}

/// All operators of `T` are functions: each returns the value that its
/// specification function names.
pub open spec fn exact<T: Scalar>() -> bool {
    &&& T::obeys_from_spec()
    &&& T::obeys_add_spec()
    &&& T::obeys_sub_spec()
    &&& T::obeys_mul_spec()
    &&& T::obeys_div_spec()
    &&& T::obeys_neg_spec()
    &&& T::obeys_partial_cmp_spec()
}

/// A sample `u` of the unit interval stretched over the interval from minus
/// one to one: twice `u`, less one.
pub open spec fn spread<T: Scalar>(u: T) -> T {
    u.mul_spec(constant::<T>(2i8)).sub_spec(one::<T>())
}

/// Sample `u` can be spread: it can be doubled, and one can be taken from
/// its double.
pub open spec fn spread_defined<T: Scalar>(u: T) -> bool {
    &&& u.mul_req(constant::<T>(2i8))
    &&& u.mul_spec(constant::<T>(2i8)).sub_req(one::<T>())
}

/// `unit` can be asked for a sample, and every sample that it gives can be
/// spread.
pub open spec fn spreadable<T: Scalar, F: Fn() -> T>(unit: F) -> bool {
    &&& call_requires(unit, ())
    &&& forall|u: T| #[trigger] call_ensures(unit, (), u) ==> spread_defined(u)
}

/// `weight` is some sample of `unit`, spread.
pub open spec fn drawn<T: Scalar, F: Fn() -> T>(unit: F, weight: T) -> bool {
    exists|u: T| #[trigger] call_ensures(unit, (), u) && weight == spread(u)
}

/// Makes the constant `n` of `T`.
pub fn make_constant<T: Scalar>(n: i8) -> (r: T)
    ensures
        is_constant(n, r),
        exact_constants::<T>() ==> r == constant::<T>(n),
{
    T::from(n)
}

} // verus!
