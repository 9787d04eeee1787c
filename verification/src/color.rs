//! Colours, as four bytes.

use vstd::prelude::*;

verus! {

/// A colour: red, green, blue and opacity, each from 0 to 255.
#[derive(Clone, Copy, Debug, PartialEq, Eq, Structural)]
pub struct Rgba {
    pub r: u8,
    pub g: u8,
    pub b: u8,
    pub a: u8,
}

impl Rgba {
    /// Whether nothing of what lies beneath shines through.
    pub open spec fn is_opaque(self) -> bool {
        self.a == 255
    }

    /// Whether the colour leaves no trace on what lies beneath.
    pub open spec fn is_invisible(self) -> bool {
        self.r == 0 && self.g == 0 && self.b == 0 && self.a == 0
    }

    /// Pure green, fully opaque.
    pub fn green() -> (color: Self)
        ensures
            color == (Rgba { r: 0, g: 255, b: 0, a: 255 }),
            color.is_opaque(),
    {
        Rgba { r: 0, g: 255, b: 0, a: 255 }
    }

    /// No colour at all.
    pub fn transparent() -> (color: Self)
        ensures
            color == (Rgba { r: 0, g: 0, b: 0, a: 0 }),
            color.is_invisible(),
    {
        Rgba { r: 0, g: 0, b: 0, a: 0 }
    }
}

} // verus!
