//! Anchors on the UI canvas and the baking of UI-local positions into engine
//! pixel space.
use vstd::prelude::*;
use crate::geometry::{EnginePos, Vec2, SUBPIXELS};

verus! {

/// A named anchor point on the UI canvas.
#[derive(Debug, Clone, Copy, PartialEq, Eq, Structural)]
pub enum Origin {
    TopLeft,
    Top,
    TopRight,
    Left,
    Center,
    Right,
    BottomLeft,
    Bottom,
    BottomRight,
}

/// The anchor's offset for a canvas of `res` pixels, in fixed-point units:
/// a point on the canvas rectangle, with downward offsets negative.
pub open spec fn pivot_of(o: Origin, res: (u32, u32)) -> (int, int) {
    let w = res.0 as int * SUBPIXELS;
    let h = res.1 as int * SUBPIXELS;
    match o {
        Origin::TopLeft => (0, 0),
        Origin::Top => (w / 2, 0),
        Origin::TopRight => (w, 0),
        Origin::Left => (0, -(h / 2)),
        Origin::Center => (w / 2, -(h / 2)),
        Origin::Right => (w, -(h / 2)),
        Origin::BottomLeft => (0, -h),
        Origin::Bottom => (w / 2, -h),
        Origin::BottomRight => (w, -h),
    }
}

/// The engine-space position of an element at `pos` with extent `size`:
/// the anchor's offset plus the local X and the local Y flipped to point up,
/// measured to the element's lower edge.
pub open spec fn baked_of(o: Origin, pos: Vec2, size: Vec2, res: (u32, u32)) -> (int, int) {
    let p = pivot_of(o, res);
    (p.0 + pos.x, p.1 + (res.1 as int * SUBPIXELS - pos.y - size.y))
}

impl Origin {
    /// The anchor's offset for a canvas of `res` pixels.
    pub fn pivot(&self, res: (u32, u32)) -> (r: EnginePos)
        ensures
            (r.x as int, r.y as int) == pivot_of(*self, res),
    {
        let w: i64 = res.0 as i64 * SUBPIXELS;
        let h: i64 = res.1 as i64 * SUBPIXELS;
        match self {
            Origin::TopLeft => EnginePos { x: 0, y: 0 },
            Origin::Top => EnginePos { x: w / 2, y: 0 },
            Origin::TopRight => EnginePos { x: w, y: 0 },
            Origin::Left => EnginePos { x: 0, y: -(h / 2) },
            Origin::Center => EnginePos { x: w / 2, y: -(h / 2) },
            Origin::Right => EnginePos { x: w, y: -(h / 2) },
            Origin::BottomLeft => EnginePos { x: 0, y: -h },
            Origin::Bottom => EnginePos { x: w / 2, y: -h },
            Origin::BottomRight => EnginePos { x: w, y: -h },
        }
    }

    /// Bakes the UI-local position `pos` of an element of extent `size` into
    /// engine space for a canvas of `res` pixels.
    pub fn bake_pos(&self, pos: Vec2, size: Vec2, res: (u32, u32)) -> (r: EnginePos)
        ensures
            (r.x as int, r.y as int) == baked_of(*self, pos, size, res),
    {
        let origin = self.pivot(res);
        let flipped_y: i64 = res.1 as i64 * SUBPIXELS - pos.y as i64 - size.y as i64;
        EnginePos { x: origin.x + pos.x as i64, y: origin.y + flipped_y }
    }
}

/// An element at the local origin with no extent bakes to exactly its
/// anchor's offset, on a canvas of zero height (the Y flip adds the canvas
/// height to every baked position).
pub proof fn lemma_bake_of_zero_is_pivot(o: Origin, res: (u32, u32), zero: Vec2)
    requires
        zero.x == 0,
        zero.y == 0,
        res.1 == 0,
    ensures
        baked_of(o, zero, zero, res) == pivot_of(o, res),
{
}

/// Moving an element down by `d` in UI-local space moves its baked position
/// down by exactly `d` in engine space, for any anchor, and leaves X as it was.
pub proof fn lemma_bake_y_slope(o: Origin, pos: Vec2, moved: Vec2, size: Vec2, res: (u32, u32), d: int)
    requires
        moved.x == pos.x,
        moved.y == pos.y + d,
    ensures
        baked_of(o, moved, size, res).0 == baked_of(o, pos, size, res).0,
        baked_of(o, moved, size, res).1 == baked_of(o, pos, size, res).1 - d,
{
}

} // verus!
