//! The shared render configuration that UI drawing borrows, and the guard
//! that saves it before a UI draw and puts it back afterwards.
use vstd::prelude::*;
use crate::geometry::{EnginePos, Vec2};

verus! {

/// How drawn pixels combine with what is already in the target.
#[derive(Debug, Clone, Copy, PartialEq, Eq, Structural)]
pub enum BlendMode {
    AlphaMix,
    Additive,
    Multiplicative,
}

/// A camera: the point it is centred on and the half-extent it frames.
#[derive(Debug, Clone, Copy, PartialEq, Eq, Structural)]
pub struct Camera {
    pub center: EnginePos,
    pub half_extent: EnginePos,
}

/// The five ambient fields of the shared graphics context that a UI draw
/// overrides. `pixels_per_unit` is in 1/`SUBPIXELS` units.
#[derive(Debug, Clone, Copy, PartialEq, Eq, Structural)]
pub struct RenderState {
    pub render_target: u8,
    pub pivot: Vec2,
    pub camera: Camera,
    pub pixels_per_unit: i64,
    pub blending: BlendMode,
}

/// What a guard holds: the render state as it was when the guard was taken.
/// A guard is moved into `restore_state`, so it is released at most once.
pub struct RenderGuard {
    saved: RenderState,
}

impl View for RenderGuard {
    type V = RenderState;

    closed spec fn view(&self) -> RenderState {
        self.saved
    }
}

impl RenderGuard {
    pub(crate) fn new(saved: RenderState) -> (r: RenderGuard)
        ensures
            r@ == saved,
    {
        RenderGuard { saved }
    }

    pub(crate) fn into_saved(self) -> (r: RenderState)
        ensures
            r == self@,
    {
        self.saved
    }
}

/// The live state after a release of a guard that saved `saved`: the saved
/// state, whatever `live` was.
pub open spec fn released(live: RenderState, saved: RenderState) -> RenderState {
    saved
}

} // verus!
