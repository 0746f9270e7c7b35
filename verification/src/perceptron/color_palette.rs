//! The colours of the demonstration.
use vstd::prelude::*;

verus! {

/// A colour by its four channels: opacity, red, green, blue.
#[derive(Debug, Clone, Copy, PartialEq, Eq, Structural)]
pub struct Argb {
    pub a: u8,
    pub r: u8,
    pub g: u8,
    pub b: u8,
}

/// The fixed colours of the drawing.
pub struct ColorPalette {}

impl ColorPalette {
    /// The fill of a point of class `B`.
    pub fn label_b() -> (colour: Argb)
        ensures
            colour == (Argb { a: 0xff, r: 0, g: 0, b: 0xff }),
    {
        Argb { a: 0xff, r: 0, g: 0, b: 0xff }
    }

    /// The fill of a point of class `A`.
    pub fn label_a() -> (colour: Argb)
        ensures
            colour == (Argb { a: 0xff, r: 0xff, g: 0x66, b: 0xff }),
    {
        Argb { a: 0xff, r: 0xff, g: 0x66, b: 0xff }
    }

    /// The outline of a point that the network classed rightly.
    pub fn correct() -> (colour: Argb)
        ensures
            colour == (Argb { a: 0, r: 0, g: 0, b: 0 }),
    {
        Argb { a: 0, r: 0, g: 0, b: 0 }
    }

    /// The outline of a point that the network classed wrongly.
    pub fn incorrect() -> (colour: Argb)
        ensures
            colour == (Argb { a: 0xff, r: 0xff, g: 0, b: 0 }),
    {
        Argb { a: 0xff, r: 0xff, g: 0, b: 0 }
    }

    /// The line that the network has learnt.
    pub fn line_guess() -> (colour: Argb)
        ensures
            colour == (Argb { a: 0xff, r: 0, g: 0xff, b: 0 }),
    {
        Argb { a: 0xff, r: 0, g: 0xff, b: 0 }
    }

    /// The canvas.
    pub fn background() -> (colour: Argb)
        ensures
            colour == (Argb { a: 0xff, r: 0xff, g: 0xff, b: 0xff }),
    {
        Argb { a: 0xff, r: 0xff, g: 0xff, b: 0xff }
    }

    /// The line that separates the classes.
    pub fn line() -> (colour: Argb)
        ensures
            colour == (Argb { a: 0xff, r: 0, g: 0, b: 0 }),
    {
        Argb { a: 0xff, r: 0, g: 0, b: 0 }
    }
}

} // verus!
