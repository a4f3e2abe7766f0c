//! Integer geometry and colour values shared by textures, viewports and
//! render targets.

use vstd::prelude::*;

verus! {

/// An axis-aligned rectangle in whole pixels.
#[derive(Debug, Clone, Copy, PartialEq, Eq, Structural)]
pub struct Rect {
    pub x: i32,
    pub y: i32,
    pub w: i32,
    pub h: i32,
}

impl Rect {
    /// Builds the rectangle with origin `(x, y)` and extent `w` by `h`.
    pub fn new(x: i32, y: i32, w: i32, h: i32) -> (r: Self)
        ensures
            r == (Rect { x, y, w, h }),
    {
        Rect { x, y, w, h }
    }
}

/// A colour of four channels, each the bit pattern of a single-precision
/// number. The library carries colours through without computing on them.
#[derive(Debug, Clone, Copy, PartialEq, Eq, Structural)]
pub struct ColorBits {
    pub r: u32,
    pub g: u32,
    pub b: u32,
    pub a: u32,
}

} // verus!
