use forgetile::camera::{
    clamp_component, CameraController, InputSnapshot, DEFAULT_ZOOM, MAX_ZOOM, MIN_ZOOM,
};
use forgetile::geometry::{AxisPosition, ScreenPoint, Size, Viewport};

fn idle_input() -> InputSnapshot {
    InputSnapshot {
        zoom_in: false,
        zoom_out: false,
        zoom_reset: false,
        pan_up: false,
        pan_down: false,
        pan_left: false,
        pan_right: false,
        pointer: ScreenPoint { x: 0, y: 0 },
        drag_held: false,
        frame_micros: 0,
    }
}

fn origin_camera() -> CameraController {
    CameraController::new(AxisPosition { x: 0, y: 0 })
}

#[test]
fn new_camera_uses_default_zoom() {
    let cam = CameraController::new(AxisPosition { x: 5, y: -7 });
    assert_eq!(cam.get_current_zoom(), DEFAULT_ZOOM);
    assert_eq!(cam.screen_center, AxisPosition { x: 5, y: -7 });
}

#[test]
fn zoom_steps_multiply_by_six_fifths() {
    let mut cam = origin_camera();
    cam.increase_zoom_level();
    assert_eq!(cam.get_current_zoom(), 1200);
    cam.increase_zoom_level();
    assert_eq!(cam.get_current_zoom(), 1440);
    let mut cam = origin_camera();
    cam.decrease_zoom_level();
    assert_eq!(cam.get_current_zoom(), 833);
}

#[test]
fn zoom_stays_within_bounds_for_any_sequence() {
    let mut cam = origin_camera();
    for step in 0..200u32 {
        if (step / 7) % 3 == 0 {
            cam.decrease_zoom_level();
        } else {
            cam.increase_zoom_level();
        }
        let z = cam.get_current_zoom();
        assert!(MIN_ZOOM <= z && z <= MAX_ZOOM);
    }
    for _ in 0..60 {
        cam.increase_zoom_level();
    }
    assert_eq!(cam.get_current_zoom(), MAX_ZOOM);
    for _ in 0..60 {
        cam.decrease_zoom_level();
    }
    assert_eq!(cam.get_current_zoom(), MIN_ZOOM);
}

#[test]
fn reset_zoom_gives_default_from_any_state() {
    let mut cam = origin_camera();
    for _ in 0..5 {
        cam.increase_zoom_level();
    }
    cam.reset_zoom_level();
    assert_eq!(cam.get_current_zoom(), DEFAULT_ZOOM);
    for _ in 0..30 {
        cam.decrease_zoom_level();
    }
    cam.reset_zoom_level();
    assert_eq!(cam.get_current_zoom(), DEFAULT_ZOOM);
}

#[test]
fn zoom_keys_apply_in_then_out_then_reset() {
    let mut cam = origin_camera();
    let mut input = idle_input();
    input.zoom_in = true;
    cam.update_zoom_from_input(&input);
    assert_eq!(cam.get_current_zoom(), 1200);
    input.zoom_out = true;
    cam.update_zoom_from_input(&input);
    assert_eq!(cam.get_current_zoom(), 1200);
    input.zoom_reset = true;
    cam.update_zoom_from_input(&input);
    assert_eq!(cam.get_current_zoom(), DEFAULT_ZOOM);
}

#[test]
fn clamp_centers_when_view_covers_grid() {
    assert_eq!(clamp_component(12345, 1000, 1000), 500);
    assert_eq!(clamp_component(-9, 1000, 4000), 500);
    assert_eq!(clamp_component(0, 1001, 2000), 500);
    assert_eq!(clamp_component(7, 0, 2000), 0);
    assert_eq!(clamp_component(7, -3, 2000), -2);
}

#[test]
fn clamp_keeps_view_inside_grid() {
    assert_eq!(clamp_component(0, 10000, 2000), 1000);
    assert_eq!(clamp_component(99999, 10000, 2000), 9000);
    assert_eq!(clamp_component(4321, 10000, 2000), 4321);
    assert_eq!(clamp_component(1000, 10000, 2000), 1000);
    assert_eq!(clamp_component(9000, 10000, 2000), 9000);
}

#[test]
fn clamp_to_bounds_works_per_axis() {
    let mut cam = origin_camera();
    // 100 x 50 pixels at zoom 1 see 100_000 x 50_000 world units.
    let viewport = Viewport { width: 100, height: 50 };
    cam.clamp_to_bounds(Size { width: 80_000, height: 400_000 }, viewport);
    assert_eq!(cam.screen_center, AxisPosition { x: 40_000, y: 25_000 });
}

#[test]
fn view_size_and_rect_follow_zoom() {
    let mut cam = CameraController::new(AxisPosition { x: 1_000_000, y: 2_000_000 });
    let viewport = Viewport { width: 800, height: 600 };
    assert_eq!(cam.get_view_size(viewport), Size { width: 800_000, height: 600_000 });
    cam.increase_zoom_level();
    assert_eq!(cam.get_view_size(viewport), Size { width: 666_666, height: 500_000 });
    let rect = cam.view_rect(viewport);
    assert_eq!(rect.x, 1_000_000 - 333_333);
    assert_eq!(rect.y, 2_000_000 - 250_000);
    assert_eq!(rect.w, 666_666);
    assert_eq!(rect.h, 500_000);
}

#[test]
fn screen_to_world_maps_viewport_corners() {
    let cam = origin_camera();
    let viewport = Viewport { width: 800, height: 600 };
    let top_left = cam.screen_to_world(ScreenPoint { x: 0, y: 0 }, viewport);
    assert_eq!(top_left, AxisPosition { x: -400_000, y: -300_000 });
    let middle = cam.screen_to_world(ScreenPoint { x: 400, y: 300 }, viewport);
    assert_eq!(middle, AxisPosition { x: 0, y: 0 });
    let left_of_window = cam.screen_to_world(ScreenPoint { x: -1, y: 0 }, viewport);
    assert_eq!(left_of_window.x, -401_000);
}

#[test]
fn screen_world_round_trip_inside_viewport() {
    let viewport = Viewport { width: 1280, height: 720 };
    let mut cam = CameraController::new(AxisPosition { x: 123_457, y: -98_765 });
    for zoom_steps in 0..25 {
        for &(x, y) in &[(0, 0), (1, 1), (639, 359), (1279, 719), (17, 503)] {
            let p = ScreenPoint { x, y };
            let w = cam.screen_to_world(p, viewport);
            assert_eq!(cam.world_to_screen(w, viewport), (x as i64, y as i64), "zoom steps {zoom_steps}");
        }
        cam.increase_zoom_level();
    }
    for _ in 0..40 {
        cam.decrease_zoom_level();
        let p = ScreenPoint { x: 1000, y: 3 };
        let w = cam.screen_to_world(p, viewport);
        assert_eq!(cam.world_to_screen(w, viewport), (1000, 3));
    }
}

#[test]
fn keyboard_pan_moves_by_speed_times_frame() {
    let mut cam = origin_camera();
    let mut input = idle_input();
    input.pan_right = true;
    input.frame_micros = 1_000_000;
    cam.update_keyboard_pan(&input);
    assert_eq!(cam.screen_center, AxisPosition { x: 1_000, y: 0 });
    let mut input = idle_input();
    input.pan_down = true;
    input.frame_micros = 500_000;
    cam.update_keyboard_pan(&input);
    assert_eq!(cam.screen_center, AxisPosition { x: 1_000, y: -500 });
    cam.pan_with_keys(&input, 600);
    assert_eq!(cam.screen_center, AxisPosition { x: 1_000, y: -300_500 });
}

#[test]
fn diagonal_pan_is_normalised() {
    let mut cam = origin_camera();
    let mut input = idle_input();
    input.pan_right = true;
    input.pan_up = true;
    input.frame_micros = 1_000_000;
    cam.update_keyboard_pan(&input);
    assert_eq!(cam.screen_center, AxisPosition { x: 707, y: 707 });
    cam.pan_with_keys(&input, 600);
    assert_eq!(cam.screen_center, AxisPosition { x: 707 + 424_264, y: 707 + 424_264 });
}

#[test]
fn opposite_keys_cancel() {
    let mut cam = origin_camera();
    let mut input = idle_input();
    input.pan_right = true;
    input.pan_left = true;
    input.pan_up = true;
    input.frame_micros = 1_000_000;
    cam.update_keyboard_pan(&input);
    assert_eq!(cam.screen_center, AxisPosition { x: 0, y: 1_000 });
}

#[test]
fn update_zooms_then_pans_then_clamps() {
    let mut cam = CameraController::new(AxisPosition { x: 50_000, y: 50_000 });
    let mut input = idle_input();
    input.zoom_in = true;
    input.pan_left = true;
    input.frame_micros = 100_000_000;
    let viewport = Viewport { width: 60, height: 60 };
    cam.update(&input, Size { width: 100_000, height: 100_000 }, viewport);
    assert_eq!(cam.get_current_zoom(), 1200);
    // At zoom 1.2 the view is 50_000 wide, so the center stops at 25_000.
    assert_eq!(cam.screen_center, AxisPosition { x: 25_000, y: 50_000 });
}
