//! Axis-aligned rectangles in pixels.

use vstd::prelude::*;

verus! {

/// A rectangle: the pixel of its top-left corner, and its size.
#[derive(Clone, Copy, Debug, PartialEq, Eq, Structural)]
pub struct Rect {
    pub x: i32,
    pub y: i32,
    pub width: u32,
    pub height: u32,
}

impl Rect {
    /// The rectangle of the given size whose top-left corner is at `(x, y)`.
    pub fn new(x: i32, y: i32, width: u32, height: u32) -> (rect: Rect)
        ensures
            rect == (Rect { x, y, width, height }),
    {
        Rect { x, y, width, height }
    }

    /// The column just past the right side.
    pub open spec fn right(self) -> int {
        self.x + self.width
    }

    /// The row just past the bottom side.
    pub open spec fn bottom(self) -> int {
        self.y + self.height
    }
}

} // verus!
