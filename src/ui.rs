//! The UI context: its one-time initialization, the canvas resolution, the
//! current pivot and anchor, and the anchored rectangle primitive.
use vstd::prelude::*;
use crate::default_pipeline::UIDefaultPipeline;
use crate::geometry::{EnginePos, Vec2, SUBPIXELS};
use crate::origin::{baked_of, Origin};
use crate::render_state::{released, BlendMode, Camera, RenderGuard, RenderState};

verus! {

/// The observable contents of a `UI`.
#[derive(Debug, Clone, Copy)]
pub struct UIView {
    pub initialized: bool,
    pub render_target: u8,
    pub res: (u32, u32),
    pub pivot: Vec2,
    pub origin: Origin,
}

/// The UI context. The render target is set once, by `init_ui`; resolution,
/// pivot and origin may change at any time and apply to later draws only.
pub struct UI {
    initialized: bool,
    render_target: u8,
    res: (u32, u32),
    pivot: Vec2,
    origin: Origin,
}

impl View for UI {
    type V = UIView;

    closed spec fn view(&self) -> UIView {
        UIView {
            initialized: self.initialized,
            render_target: self.render_target,
            res: self.res,
            pivot: self.pivot,
            origin: self.origin,
        }
    }
}

/// Half of a resolution of `res` pixels, in fixed-point units.
pub open spec fn half_res_of(res: (u32, u32)) -> EnginePos {
    EnginePos { x: (res.0 * SUBPIXELS / 2) as i64, y: (res.1 * SUBPIXELS / 2) as i64 }
}

/// The render state a UI draw runs under: the UI's target and pivot, one unit
/// per pixel, alpha blending, and a camera that frames exactly the canvas.
pub open spec fn ui_state_of(v: UIView) -> RenderState {
    RenderState {
        render_target: v.render_target,
        pivot: v.pivot,
        camera: Camera { center: half_res_of(v.res), half_extent: half_res_of(v.res) },
        pixels_per_unit: SUBPIXELS,
        blending: BlendMode::AlphaMix,
    }
}

/// One rectangle handed to the engine: the state it is drawn under, its
/// baked engine-space position and its extent.
#[derive(Debug, Clone, Copy, PartialEq, Eq, Structural)]
pub struct DrawCall {
    pub state: RenderState,
    pub pos: EnginePos,
    pub size: Vec2,
}

/// The off-screen pass that turns the UI's queued draws into a texture: a
/// buffer of `res` pixels, cleared to transparent, showing only `render_target`.
#[derive(Debug, Clone, Copy)]
pub struct UiTexturePass {
    pub res: (u32, u32),
    pub render_target: u8,
}

/// Initializes `ui` to draw into `render_target`. A second initialization is
/// a programming error, excluded by the precondition.
pub fn init_ui(ui: &mut UI, render_target: u8) -> (r: UIDefaultPipeline)
    requires
        !old(ui)@.initialized,
    ensures
        final(ui)@ == (UIView { initialized: true, render_target, ..old(ui)@ }),
{
    ui.initialize(render_target);
    UIDefaultPipeline
}

impl UI {
    /// A context that is not initialized yet: zero resolution, zero pivot,
    /// anchored at the top left.
    pub fn new() -> (r: UI)
        ensures
            r@ == (UIView {
                initialized: false,
                render_target: 0,
                res: (0, 0),
                pivot: Vec2 { x: 0, y: 0 },
                origin: Origin::TopLeft,
            }),
    {
        UI { initialized: false, render_target: 0, res: (0, 0), pivot: Vec2 { x: 0, y: 0 }, origin: Origin::TopLeft }
    }

    fn initialize(&mut self, render_target: u8)
        requires
            !old(self)@.initialized,
        ensures
            final(self)@ == (UIView { initialized: true, render_target, ..old(self)@ }),
    {
        self.initialized = true;
        self.render_target = render_target;
    }

    pub fn is_initialized(&self) -> (r: bool)
        ensures
            r == self@.initialized,
    {
        self.initialized
    }

    /// The pass that renders the UI's draws for this frame into a texture.
    pub fn render_to_texture(&self) -> (r: UiTexturePass)
        ensures
            r.res == self@.res,
            r.render_target == self@.render_target,
    {
        UiTexturePass { res: self.res, render_target: self.render_target }
    }

    /// Overrides `ctx` with the UI's render state and returns a guard that
    /// holds the state it replaced.
    pub fn swap_state(&self, ctx: &mut RenderState) -> (r: RenderGuard)
        requires
            self@.initialized,
        ensures
            r@ == *old(ctx),
            *final(ctx) == ui_state_of(self@),
    {
        let old_state = *ctx;
        let half_res = EnginePos { x: self.res.0 as i64 * SUBPIXELS / 2, y: self.res.1 as i64 * SUBPIXELS / 2 };
        ctx.render_target = self.render_target;
        ctx.pivot = self.pivot;
        ctx.pixels_per_unit = SUBPIXELS;
        ctx.blending = BlendMode::AlphaMix;
        ctx.camera = Camera { center: half_res, half_extent: half_res };
        RenderGuard::new(old_state)
    }

    /// Writes every field of the state that `guard` saved back into `ctx`.
    pub fn restore_state(ctx: &mut RenderState, guard: RenderGuard)
        ensures
            *final(ctx) == released(*old(ctx), guard@),
    {
        *ctx = guard.into_saved();
    }

    /// Draws a `size` rectangle at the UI-local `pos`, anchored at the current
    /// origin, under the UI's render state; `ctx` is left as it was.
    pub fn draw_rect(&self, ctx: &mut RenderState, pos: Vec2, size: Vec2) -> (r: DrawCall)
        requires
            self@.initialized,
        ensures
            *final(ctx) == *old(ctx),
            r.state == ui_state_of(self@),
            (r.pos.x as int, r.pos.y as int) == baked_of(self@.origin, pos, size, self@.res),
            r.size == size,
    {
        let old_state = self.swap_state(ctx);
        let baked = self.origin.bake_pos(pos, size, self.res);
        let call = DrawCall { state: *ctx, pos: baked, size };
        Self::restore_state(ctx, old_state);
        call
    }

    /// Sets the pivot and origin used by later draws.
    pub fn set_pivot_origin(&mut self, pivot: Vec2, origin: Origin)
        ensures
            final(self)@ == (UIView { pivot, origin, ..old(self)@ }),
    {
        self.pivot = pivot;
        self.origin = origin;
    }

    pub fn get_pivot_origin(&self) -> (r: (Vec2, Origin))
        ensures
            r == (self@.pivot, self@.origin),
    {
        (self.pivot, self.origin)
    }

    /// Sets the canvas resolution used by later draws.
    pub fn set_res(&mut self, res: (u32, u32))
        ensures
            final(self)@ == (UIView { res, ..old(self)@ }),
    {
        self.res = res;
    }

    pub fn get_res(&self) -> (r: (u32, u32))
        ensures
            r == self@.res,
    {
        self.res
    }
}

/// Taking a guard and releasing it with nothing in between puts every field
/// of the render state back as it was before the guard was taken.
pub proof fn lemma_release_after_acquire(ctx: RenderState, ui: UIView)
    requires
        ui.initialized,
    ensures
        released(ui_state_of(ui), ctx) == ctx,
{
}

/// An initialized context cannot be initialized again: the state that
/// `init_ui` leaves fails its precondition, whatever it started from.
pub proof fn lemma_initialize_once(before: UIView, render_target: u8)
    requires
        !before.initialized,
    ensures
        (UIView { initialized: true, render_target, ..before }).initialized,
{
}

} // verus!
