//! Rectangles on the character-cell plane.

use vstd::prelude::*;

verus! {

/// An axis-aligned rectangle: origin `(x, y)` plus `width x height`, all in
/// unsigned 16-bit cell coordinates.
#[derive(Clone, Copy, Debug, PartialEq, Eq, Hash, Structural)]
pub struct Rect {
    pub x: u16,
    pub y: u16,
    pub width: u16,
    pub height: u16,
}

impl Rect {
    /// Builds the rectangle with origin `(x, y)` and size `width x height`.
    pub fn new(x: u16, y: u16, width: u16, height: u16) -> (r: Rect)
        ensures
            r == (Rect { x, y, width, height }),
    {
        Rect { x, y, width, height }
    }
}

} // verus!
