//! Points of the plane, and where they fall on a canvas.
use crate::scalar::{exact, make_constant, one, Scalar};
use vstd::prelude::*;
use vstd::std_specs::ops::{AddSpec, MulSpec, SubSpec};

verus! {

/// A point: its horizontal and its vertical coordinate.
pub type Position<T> = (T, T);

/// Half of `n`, rounded towards zero.
pub open spec fn half(n: i32) -> int {
    if n >= 0 {
        n / 2
    } else {
        -((-n) / 2)
    }
}

/// `position` on a canvas whose half width is `half_width`, whose height is
/// `height` and whose half height is `half_height`: the square from minus
/// one to one is laid over the canvas, upside down, since canvas rows count
/// from the top.
pub open spec fn on_canvas<T: Scalar>(
    position: Position<T>,
    half_width: T,
    height: T,
    half_height: T,
) -> Position<T> {
    (
        position.0.add_spec(one::<T>()).mul_spec(half_width),
        height.sub_spec(position.1.add_spec(one::<T>()).mul_spec(half_height)),
    )
}

/// `on_canvas` can be computed: one can be added to each coordinate, the
/// sums can be multiplied by the half sizes, and the second product can be
/// taken from the height.
pub open spec fn on_canvas_defined<T: Scalar>(
    position: Position<T>,
    half_width: T,
    height: T,
    half_height: T,
) -> bool {
    &&& position.0.add_req(one::<T>())
    &&& position.0.add_spec(one::<T>()).mul_req(half_width)
    &&& position.1.add_req(one::<T>())
    &&& position.1.add_spec(one::<T>()).mul_req(half_height)
    &&& height.sub_req(position.1.add_spec(one::<T>()).mul_spec(half_height))
}

/// Where `position` falls on a canvas `width` wide and `height` high.
/// `as_scalar` turns a number of pixels into a coordinate.
pub fn normalise_position<T: Scalar, C: Fn(i32) -> T>(
    position: Position<T>,
    width: i32,
    height: i32,
    as_scalar: C,
) -> (r: Position<T>)
    requires
        exact::<T>(),
        call_requires(as_scalar, (half(width) as i32,)),
        call_requires(as_scalar, (height,)),
        call_requires(as_scalar, (half(height) as i32,)),
        forall|half_width: T, full_height: T, half_height: T|
            {
                &&& #[trigger] call_ensures(as_scalar, (half(width) as i32,), half_width)
                &&& #[trigger] call_ensures(as_scalar, (height,), full_height)
                &&& #[trigger] call_ensures(as_scalar, (half(height) as i32,), half_height)
            } ==> on_canvas_defined(position, half_width, full_height, half_height),
    ensures
        exists|half_width: T, full_height: T, half_height: T|
            {
                &&& #[trigger] call_ensures(as_scalar, (half(width) as i32,), half_width)
                &&& #[trigger] call_ensures(as_scalar, (height,), full_height)
                &&& #[trigger] call_ensures(as_scalar, (half(height) as i32,), half_height)
                &&& r == on_canvas(position, half_width, full_height, half_height)
            },
{
    let unit = make_constant::<T>(1i8);
    let half_width_px = width / 2;
    let half_height_px = height / 2;
    let half_width = as_scalar(half_width_px);
    let full_height = as_scalar(height);
    let half_height = as_scalar(half_height_px);
    let r = ((position.0 + unit) * half_width, full_height - ((position.1 + unit) * half_height));
    assert(call_ensures(as_scalar, (half(width) as i32,), half_width) && call_ensures(
        as_scalar,
        (height,),
        full_height,
    ) && call_ensures(as_scalar, (half(height) as i32,), half_height) && r == on_canvas(
        position,
        half_width,
        full_height,
        half_height,
    ));
    r
}

} // verus!
