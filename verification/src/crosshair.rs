//! The shape of the crosshair: two bars that cross at the centre of the
//! window. Places are whole pixels, counted from that centre; `dx` grows to
//! the right and `dy` grows downwards.

use vstd::prelude::*;
use crate::color::Rgba;

verus! {

/// How far each bar reaches from the centre, in pixels.
pub const ARM_LENGTH: i32 = 5;

/// How wide the bars are drawn, in pixels.
pub const STROKE_WIDTH: u32 = 2;

/// A place, by its distance from the centre of the window.
#[derive(Clone, Copy, Debug, PartialEq, Eq, Structural)]
pub struct Offset {
    pub dx: i32,
    pub dy: i32,
}

/// A straight line between two places.
#[derive(Clone, Copy, Debug, PartialEq, Eq, Structural)]
pub struct Segment {
    pub from: Offset,
    pub to: Offset,
}

/// How a line is drawn.
#[derive(Clone, Copy, Debug, PartialEq, Eq, Structural)]
pub struct LineStyle {
    pub width: u32,
    pub color: Rgba,
}

impl Segment {
    /// How far the line goes to the right.
    pub open spec fn run(self) -> int {
        self.to.dx - self.from.dx
    }

    /// How far the line goes down.
    pub open spec fn fall(self) -> int {
        self.to.dy - self.from.dy
    }

    /// Whether the middle of the line is the centre of the window.
    pub open spec fn is_centred(self) -> bool {
        self.from.dx + self.to.dx == 0 && self.from.dy + self.to.dy == 0
    }

    /// Whether the two lines stand at a right angle.
    pub open spec fn is_perpendicular_to(self, other: Segment) -> bool {
        self.run() * other.run() + self.fall() * other.fall() == 0
    }

    /// The square of the line's length.
    pub open spec fn length_squared(self) -> int {
        self.run() * self.run() + self.fall() * self.fall()
    }
}

/// The bar that runs from above the centre to below it.
pub open spec fn vertical_bar() -> Segment {
    Segment {
        from: Offset { dx: 0, dy: (-ARM_LENGTH) as i32 },
        to: Offset { dx: 0, dy: ARM_LENGTH },
    }
}

/// The bar that runs from the left of the centre to the right of it.
pub open spec fn horizontal_bar() -> Segment {
    Segment {
        from: Offset { dx: (-ARM_LENGTH) as i32, dy: 0 },
        to: Offset { dx: ARM_LENGTH, dy: 0 },
    }
}

/// The two bars in the order in which they are drawn: the vertical one, then
/// the horizontal one.
pub fn segments() -> (bars: [Segment; 2])
    ensures
        bars@ == seq![vertical_bar(), horizontal_bar()],
{
    [
        Segment { from: Offset { dx: 0, dy: -ARM_LENGTH }, to: Offset { dx: 0, dy: ARM_LENGTH } },
        Segment { from: Offset { dx: -ARM_LENGTH, dy: 0 }, to: Offset { dx: ARM_LENGTH, dy: 0 } },
    ]
}

/// How both bars are drawn: two pixels wide, in opaque green.
pub fn line_style() -> (style: LineStyle)
    ensures
        style == (LineStyle { width: STROKE_WIDTH, color: Rgba { r: 0, g: 255, b: 0, a: 255 } }),
        style.color.is_opaque(),
{
    LineStyle { width: STROKE_WIDTH, color: Rgba::green() }
}

/// The bars make a cross: each has its middle at the centre of the window,
/// one is upright and the other level, they stand at a right angle, and they
/// are equally long, twice the arm's length.
pub proof fn lemma_bars_cross()
    ensures
        vertical_bar().is_centred(),
        horizontal_bar().is_centred(),
        vertical_bar().run() == 0,
        horizontal_bar().fall() == 0,
        vertical_bar().is_perpendicular_to(horizontal_bar()),
        vertical_bar().length_squared() == (2 * ARM_LENGTH) * (2 * ARM_LENGTH),
        horizontal_bar().length_squared() == vertical_bar().length_squared(),
{
}

} // verus!
