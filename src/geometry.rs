//! Fixed-point coordinates. One pixel is `SUBPIXELS` units, so halves of a
//! resolution (and finer fractions down to 1/256 pixel) are exact.
use vstd::prelude::*;

verus! {

/// Number of fixed-point units in one pixel.
pub const SUBPIXELS: i64 = 256;

/// A vector in UI-local space (X right, Y down), in 1/`SUBPIXELS` pixel units.
#[derive(Debug, Clone, Copy, PartialEq, Eq, Structural)]
pub struct Vec2 {
    pub x: i32,
    pub y: i32,
}

/// A position in the engine's render-target space (X right, Y up), in
/// 1/`SUBPIXELS` pixel units.
#[derive(Debug, Clone, Copy, PartialEq, Eq, Structural)]
pub struct EnginePos {
    pub x: i64,
    pub y: i64,
}

impl Vec2 {
    pub fn new(x: i32, y: i32) -> (r: Vec2)
        ensures
            r.x == x,
            r.y == y,
    {
        Vec2 { x, y }
    }

    /// The vector of whole pixels `(px, py)`.
    pub fn from_pixels(px: i32, py: i32) -> (r: Vec2)
        requires
            i32::MIN <= px * SUBPIXELS <= i32::MAX,
            i32::MIN <= py * SUBPIXELS <= i32::MAX,
        ensures
            r.x == px * SUBPIXELS,
            r.y == py * SUBPIXELS,
    {
        Vec2 { x: px * (SUBPIXELS as i32), y: py * (SUBPIXELS as i32) }
    }
}

impl EnginePos {
    pub fn new(x: i64, y: i64) -> (r: EnginePos)
        ensures
            r.x == x,
            r.y == y,
    {
        EnginePos { x, y }
    }

    /// The position of whole pixels `(px, py)`.
    pub fn from_pixels(px: i32, py: i32) -> (r: EnginePos)
        ensures
            r.x == px * SUBPIXELS,
            r.y == py * SUBPIXELS,
    {
        EnginePos { x: px as i64 * SUBPIXELS, y: py as i64 * SUBPIXELS }
    }
}

} // verus!
