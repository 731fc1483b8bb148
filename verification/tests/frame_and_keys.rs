use pong3d::frame::{
    frame_plan, hud_vertex_count, pick_surface_format, resize_extent, surface_extent, FramePlan,
    SurfaceStatus,
};
use pong3d::game::Game;
use pong3d::input::{quits, Key};

#[test]
fn frame_plans() {
    let plan = |r, d, e, n| FramePlan { reconfigure: r, draw: d, report_error: e, redraw: n };
    assert_eq!(frame_plan(SurfaceStatus::Success), plan(false, true, false, true));
    assert_eq!(frame_plan(SurfaceStatus::Suboptimal), plan(true, true, false, true));
    assert_eq!(frame_plan(SurfaceStatus::Timeout), plan(false, false, false, true));
    assert_eq!(frame_plan(SurfaceStatus::Occluded), plan(false, false, false, false));
    assert_eq!(frame_plan(SurfaceStatus::Outdated), plan(true, false, false, true));
    assert_eq!(frame_plan(SurfaceStatus::Lost), plan(true, false, false, true));
    assert_eq!(frame_plan(SurfaceStatus::Validation), plan(false, false, true, true));
}

#[test]
fn occluded_window_skips_the_next_redraw() {
    let plan = frame_plan(SurfaceStatus::Occluded);
    assert!(!plan.redraw);
    assert!(!plan.draw);
}

#[test]
fn surface_format_prefers_first_srgb() {
    assert_eq!(pick_surface_format(&vec![false, true, true]), Some(1));
    assert_eq!(pick_surface_format(&vec![true, false]), Some(0));
    assert_eq!(pick_surface_format(&vec![false, false, false]), Some(0));
    assert_eq!(pick_surface_format(&vec![]), None);
}

#[test]
fn resize_ignores_zero_sides() {
    assert_eq!(resize_extent(0, 600), None);
    assert_eq!(resize_extent(800, 0), None);
    assert_eq!(resize_extent(0, 0), None);
    assert_eq!(resize_extent(1024, 720), Some((1024, 720)));
}

#[test]
fn surface_extent_is_at_least_one() {
    assert_eq!(surface_extent(0, 0), (1, 1));
    assert_eq!(surface_extent(1024, 0), (1024, 1));
    assert_eq!(surface_extent(1, 720), (1, 720));
}

#[test]
fn hud_vertices_are_capped() {
    assert_eq!(hud_vertex_count(10, 4096), 10);
    assert_eq!(hud_vertex_count(4096, 4096), 4096);
    assert_eq!(hud_vertex_count(5000, 4096), 4096);
    assert_eq!(hud_vertex_count(0, 0), 0);
}

#[test]
fn movement_keys_hold_and_release() {
    let mut g = Game::new();
    g.set_key(Key::KeyA, true);
    assert!(g.move_left);
    g.set_key(Key::ArrowLeft, false);
    assert!(!g.move_left);
    g.set_key(Key::ArrowRight, true);
    assert!(g.move_right);
    g.set_key(Key::KeyW, true);
    assert!(g.move_up);
    g.set_key(Key::ArrowDown, true);
    assert!(g.move_down);
    g.set_key(Key::KeyS, false);
    assert!(!g.move_down);
    g.set_key(Key::KeyD, false);
    assert!(!g.move_right);
    g.set_key(Key::ArrowUp, false);
    assert!(!g.move_up);
}

#[test]
fn restart_key_acts_on_press_only() {
    let mut g = Game { player_score: 5, ai_score: 2, ..Game::new() };
    assert!(!g.set_key(Key::KeyR, false));
    assert_eq!((g.player_score, g.ai_score), (5, 2));
    assert!(g.set_key(Key::KeyR, true));
    assert_eq!((g.player_score, g.ai_score), (0, 0));
}

#[test]
fn other_keys_change_nothing() {
    let mut g = Game::new();
    assert!(!g.set_key(Key::Other, true));
    assert!(!g.set_key(Key::Escape, true));
    assert!(!g.set_key(Key::KeyA, true));
    assert_eq!(g.move_direction(), (-1, 0));
    assert_eq!(g.serve, Game::new().serve);
}

#[test]
fn escape_quits_on_press() {
    assert!(quits(Key::Escape, true));
    assert!(!quits(Key::Escape, false));
    assert!(!quits(Key::KeyR, true));
    assert!(!quits(Key::Other, true));
}
