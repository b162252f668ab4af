//! Screen and window rectangles, as the display server reports them:
//! a signed 16-bit origin and an unsigned 16-bit extent.

use vstd::prelude::*;

verus! {

/// An axis-aligned rectangle in screen coordinates.
#[derive(Clone, Copy, PartialEq, Eq, Structural, Debug)]
pub struct Rect {
    pub x: i16,
    pub y: i16,
    pub width: u16,
    pub height: u16,
}

impl Rect {
    /// Builds a rectangle from its origin and extent.
    pub fn new(x: i16, y: i16, width: u16, height: u16) -> (r: Rect)
        ensures
            r == (Rect { x, y, width, height }),
    {
        Rect { x, y, width, height }
    }

    /// The exclusive right edge, as a mathematical integer.
    pub open spec fn right(self) -> int {
        self.x + self.width
    }

    /// The exclusive bottom edge, as a mathematical integer.
    pub open spec fn bottom(self) -> int {
        self.y + self.height
    }

    /// Two rectangles overlap when their interiors share a point.
    pub open spec fn overlaps(self, other: Rect) -> bool {
        &&& self.x < other.right()
        &&& other.x < self.right()
        &&& self.y < other.bottom()
        &&& other.y < self.bottom()
    }
}

} // verus!
