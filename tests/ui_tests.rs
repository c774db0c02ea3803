use nogine_ui::default_pipeline::UIDefaultPipeline;
use nogine_ui::geometry::{EnginePos, Vec2, SUBPIXELS};
use nogine_ui::origin::Origin;
use nogine_ui::render_state::{BlendMode, Camera, RenderState};
use nogine_ui::ui::{init_ui, UI};

const ALL: [Origin; 9] = [
    Origin::TopLeft,
    Origin::Top,
    Origin::TopRight,
    Origin::Left,
    Origin::Center,
    Origin::Right,
    Origin::BottomLeft,
    Origin::Bottom,
    Origin::BottomRight,
];

fn world_state() -> RenderState {
    RenderState {
        render_target: 0,
        pivot: Vec2::new(128, 64),
        camera: Camera { center: EnginePos::new(-5, 17), half_extent: EnginePos::new(1365, 768) },
        pixels_per_unit: 32,
        blending: BlendMode::Multiplicative,
    }
}

fn ready_ui(res: (u32, u32), origin: Origin) -> UI {
    let mut ui = UI::new();
    let _pipeline: UIDefaultPipeline = init_ui(&mut ui, 0xFF);
    ui.set_res(res);
    ui.set_pivot_origin(Vec2::new(0, 128), origin);
    ui
}

#[test]
fn center_rect_scenario() {
    let ui = ready_ui((800, 600), Origin::Center);
    let mut ctx = world_state();
    let call = ui.draw_rect(&mut ctx, Vec2::new(0, 0), Vec2::from_pixels(100, 20));
    assert_eq!(call.pos, EnginePos::from_pixels(400, 280));
    assert_eq!(call.size, Vec2::from_pixels(100, 20));
}

#[test]
fn top_left_rect_scenario() {
    let ui = ready_ui((800, 600), Origin::TopLeft);
    let mut ctx = world_state();
    let call = ui.draw_rect(&mut ctx, Vec2::from_pixels(10, 10), Vec2::from_pixels(50, 50));
    assert_eq!(call.pos, EnginePos::from_pixels(10, 540));
}

#[test]
fn pivot_table_values() {
    let res = (800, 600);
    let expected = [(0, 0), (400, 0), (800, 0), (0, -300), (400, -300), (800, -300), (0, -600), (400, -600), (800, -600)];
    for (o, (x, y)) in ALL.iter().zip(expected.iter()) {
        assert_eq!(o.pivot(res), EnginePos::from_pixels(*x, *y));
    }
}

#[test]
fn pivot_of_odd_resolution_is_exact() {
    assert_eq!(Origin::Center.pivot((801, 601)), EnginePos::new(801 * 128, -(601 * 128)));
    assert_eq!(Origin::BottomRight.pivot((u32::MAX, u32::MAX)).x, u32::MAX as i64 * SUBPIXELS);
}

#[test]
fn zero_element_bakes_to_pivot_on_flat_canvas() {
    let zero = Vec2::new(0, 0);
    for o in ALL.iter() {
        for res in [(0, 0), (800, 0), (1, 0)] {
            assert_eq!(o.bake_pos(zero, zero, res), o.pivot(res));
        }
        let tall = o.bake_pos(zero, zero, (800, 600));
        let p = o.pivot((800, 600));
        assert_eq!(tall, EnginePos::new(p.x, p.y + 600 * SUBPIXELS));
    }
}

#[test]
fn baked_y_moves_down_by_local_offset() {
    let size = Vec2::from_pixels(30, 40);
    for o in ALL.iter() {
        let a = o.bake_pos(Vec2::from_pixels(5, 10), size, (1280, 720));
        let b = o.bake_pos(Vec2::from_pixels(5, 17), size, (1280, 720));
        assert_eq!(b.x, a.x);
        assert_eq!(b.y, a.y - 7 * SUBPIXELS);
    }
}

#[test]
fn size_shifts_only_y() {
    let a = Origin::Right.bake_pos(Vec2::new(3, 3), Vec2::new(0, 0), (100, 100));
    let b = Origin::Right.bake_pos(Vec2::new(3, 3), Vec2::new(999, 50), (100, 100));
    assert_eq!(b, EnginePos::new(a.x, a.y - 50));
}

#[test]
fn out_of_canvas_positions_are_kept() {
    let p = Origin::TopLeft.bake_pos(Vec2::from_pixels(-50, 900), Vec2::from_pixels(10, 10), (800, 600));
    assert_eq!(p, EnginePos::from_pixels(-50, -310));
}

#[test]
fn swap_then_restore_gives_back_state() {
    let ui = ready_ui((640, 480), Origin::Bottom);
    let before = world_state();
    let mut ctx = before;
    let guard = ui.swap_state(&mut ctx);
    assert_eq!(ctx.render_target, 0xFF);
    assert_eq!(ctx.pivot, Vec2::new(0, 128));
    assert_eq!(ctx.pixels_per_unit, SUBPIXELS);
    assert_eq!(ctx.blending, BlendMode::AlphaMix);
    assert_eq!(ctx.camera, Camera { center: EnginePos::from_pixels(320, 240), half_extent: EnginePos::from_pixels(320, 240) });
    UI::restore_state(&mut ctx, guard);
    assert_eq!(ctx, before);
}

#[test]
fn draw_leaves_render_state_unchanged() {
    let ui = ready_ui((1920, 1080), Origin::TopRight);
    let before = world_state();
    let mut ctx = before;
    let call = ui.draw_rect(&mut ctx, Vec2::from_pixels(-20, 5), Vec2::from_pixels(20, 20));
    assert_eq!(ctx, before);
    assert_eq!(call.state.render_target, 0xFF);
    assert_eq!(call.state.blending, BlendMode::AlphaMix);
    assert_eq!(call.pos, EnginePos::from_pixels(1900, 1055));
}

#[test]
fn zero_resolution_and_zero_size_are_accepted() {
    let ui = ready_ui((0, 0), Origin::Center);
    let mut ctx = world_state();
    let call = ui.draw_rect(&mut ctx, Vec2::new(0, 0), Vec2::new(0, 0));
    assert_eq!(call.pos, EnginePos::new(0, 0));
    assert_eq!(call.state.camera.half_extent, EnginePos::new(0, 0));
}

#[test]
fn new_context_defaults() {
    let ui = UI::new();
    assert!(!ui.is_initialized());
    assert_eq!(ui.get_res(), (0, 0));
    let (pivot, origin) = ui.get_pivot_origin();
    assert_eq!(pivot, Vec2::new(0, 0));
    assert_eq!(origin, Origin::TopLeft);
}

#[test]
fn init_marks_initialized_and_keeps_settings() {
    let mut ui = UI::new();
    ui.set_res((320, 200));
    init_ui(&mut ui, 3);
    assert!(ui.is_initialized());
    assert_eq!(ui.get_res(), (320, 200));
    assert_eq!(ui.render_to_texture().render_target, 3);
}

#[test]
fn setters_round_trip() {
    let mut ui = ready_ui((1, 2), Origin::Left);
    ui.set_res((1024, 768));
    ui.set_pivot_origin(Vec2::new(-7, 9), Origin::BottomLeft);
    assert_eq!(ui.get_res(), (1024, 768));
    assert_eq!(ui.get_pivot_origin(), (Vec2::new(-7, 9), Origin::BottomLeft));
    let pass = ui.render_to_texture();
    assert_eq!(pass.res, (1024, 768));
    assert_eq!(pass.render_target, 0xFF);
}

#[test]
fn later_settings_apply_to_later_draws_only() {
    let mut ui = ready_ui((800, 600), Origin::TopLeft);
    let mut ctx = world_state();
    let first = ui.draw_rect(&mut ctx, Vec2::new(0, 0), Vec2::new(0, 0));
    ui.set_res((400, 300));
    ui.set_pivot_origin(Vec2::new(0, 0), Origin::BottomRight);
    let second = ui.draw_rect(&mut ctx, Vec2::new(0, 0), Vec2::new(0, 0));
    assert_eq!(first.pos, EnginePos::from_pixels(0, 600));
    assert_eq!(second.pos, EnginePos::from_pixels(400, 0));
}
