//! Immediate-mode UI overlay: anchored rectangles baked into engine pixel space,
//! and a scoped override of the shared render state around each UI draw.
use vstd::prelude::*;

pub mod geometry;
pub mod origin;
pub mod render_state;
pub mod ui;
pub mod default_pipeline;

verus! {

} // verus!
