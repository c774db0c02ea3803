//! The compositor that draws the world, then the UI on top of it.
use vstd::prelude::*;

verus! {

/// Handle of the two-pass compositor returned by `init_ui`: the world scene
/// and the UI are rendered into separate textures and alpha-blended onto the
/// screen, the UI last.
#[derive(Debug, Clone, Copy, PartialEq, Eq, Structural)]
pub struct UIDefaultPipeline;

} // verus!
