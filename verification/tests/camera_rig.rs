use engine_core::camera::{
    Camera, CameraController, CameraMovement, CameraUniform, Projection, ScrollDelta,
    SAFE_PITCH_FX,
};
use engine_core::fixed::{Vec3Fx, FX_HALF, FX_ONE};
use engine_core::trig::{HALF_PI_FX, PI_FX, TWO_PI_FX};

fn camera_at_origin() -> Camera {
    Camera::new(Vec3Fx { x: 0, y: 0, z: 0 }, 0, 0)
}

#[test]
fn new_controller_is_at_rest() {
    let c = CameraController::new(5 * FX_ONE, FX_ONE);
    assert_eq!(c.amount_forward, 0);
    assert_eq!(c.amount_backward, 0);
    assert_eq!(c.amount_left, 0);
    assert_eq!(c.amount_right, 0);
    assert_eq!(c.amount_up, 0);
    assert_eq!(c.amount_down, 0);
    assert_eq!(c.rotate_horizontal, 0);
    assert_eq!(c.rotate_vertical, 0);
    assert_eq!(c.scroll, 0);
    assert_eq!(c.speed, 5 * FX_ONE);
    assert_eq!(c.sensitivity, FX_ONE);
}

#[test]
fn keyboard_sets_each_intent_to_full_strength() {
    let mut c = CameraController::new(FX_ONE, FX_ONE);
    assert!(c.process_keyboard(CameraMovement::Forward));
    assert_eq!(c.amount_forward, FX_ONE);
    assert!(c.process_keyboard(CameraMovement::Backward));
    assert_eq!(c.amount_backward, FX_ONE);
    assert!(c.process_keyboard(CameraMovement::Left));
    assert_eq!(c.amount_left, FX_ONE);
    assert!(c.process_keyboard(CameraMovement::Right));
    assert_eq!(c.amount_right, FX_ONE);
    assert!(c.process_keyboard(CameraMovement::Jump));
    assert_eq!(c.amount_up, FX_ONE);
    assert!(c.process_keyboard(CameraMovement::Crouch));
    assert_eq!(c.amount_down, FX_ONE);
    // holding a key re-delivers the event; the intent is idempotent
    assert!(c.process_keyboard(CameraMovement::Forward));
    assert_eq!(c.amount_forward, FX_ONE);
}

#[test]
fn mouse_deltas_overwrite_not_accumulate() {
    let mut c = CameraController::new(FX_ONE, FX_ONE);
    c.process_mouse(100, -200);
    assert_eq!(c.rotate_horizontal, 100);
    assert_eq!(c.rotate_vertical, -200);
    c.process_mouse(7, 9);
    assert_eq!(c.rotate_horizontal, 7);
    assert_eq!(c.rotate_vertical, 9);
}

#[test]
fn scroll_normalizes_lines_and_pixels() {
    let mut c = CameraController::new(FX_ONE, FX_ONE);
    // one line scrolled up contributes half a unit, sign preserved
    c.process_scroll(&ScrollDelta::Lines(0, 2 * FX_ONE));
    assert_eq!(c.scroll, FX_ONE);
    c.process_scroll(&ScrollDelta::Lines(0, -FX_ONE));
    assert_eq!(c.scroll, -FX_HALF);
    // pixel deltas pass through unscaled
    c.process_scroll(&ScrollDelta::Pixels(0, 300));
    assert_eq!(c.scroll, 300);
    c.process_scroll(&ScrollDelta::Pixels(0, -44));
    assert_eq!(c.scroll, -44);
}

// With no elapsed time the integrator moves nothing, whatever intents have
// accumulated.
#[test]
fn update_with_zero_dt_changes_nothing() {
    let mut c = CameraController::new(5 * FX_ONE, 2 * FX_ONE);
    let mut cam = Camera::new(Vec3Fx { x: 42, y: -7, z: 99 }, 12345, 2345);
    let before = cam;
    c.process_keyboard(CameraMovement::Forward);
    c.process_keyboard(CameraMovement::Jump);
    c.process_mouse(5000, -8000);
    c.process_scroll(&ScrollDelta::Pixels(0, 600));
    c.update_camera(&mut cam, 0);
    assert_eq!(cam, before);
    // and again, from rest
    c.update_camera(&mut cam, 0);
    assert_eq!(cam, before);
}

// Pitch stays inside the clamped safe range whatever vertical rotation
// arrives, however large and however often.
#[test]
fn pitch_is_always_clamped() {
    let mut c = CameraController::new(5 * FX_ONE, 0x100_0000);
    let mut cam = camera_at_origin();
    for _ in 0..8 {
        c.process_mouse(0, -0x400_0000);
        c.update_camera(&mut cam, 0x10_0000);
        assert!(-SAFE_PITCH_FX <= cam.pitch && cam.pitch <= SAFE_PITCH_FX);
    }
    assert_eq!(cam.pitch, SAFE_PITCH_FX);
    for _ in 0..8 {
        c.process_mouse(0, 0x400_0000);
        c.update_camera(&mut cam, 0x10_0000);
        assert!(-SAFE_PITCH_FX <= cam.pitch && cam.pitch <= SAFE_PITCH_FX);
    }
    assert_eq!(cam.pitch, -SAFE_PITCH_FX);
}

// After one integration step every accumulated intent and delta reads zero.
#[test]
fn update_consumes_every_intent() {
    let mut c = CameraController::new(5 * FX_ONE, 2 * FX_ONE);
    let mut cam = camera_at_origin();
    c.process_keyboard(CameraMovement::Forward);
    c.process_keyboard(CameraMovement::Backward);
    c.process_keyboard(CameraMovement::Left);
    c.process_keyboard(CameraMovement::Right);
    c.process_keyboard(CameraMovement::Jump);
    c.process_keyboard(CameraMovement::Crouch);
    c.process_mouse(1000, 2000);
    c.process_scroll(&ScrollDelta::Lines(0, FX_ONE));
    c.update_camera(&mut cam, FX_HALF);
    assert_eq!(c.amount_forward, 0);
    assert_eq!(c.amount_backward, 0);
    assert_eq!(c.amount_left, 0);
    assert_eq!(c.amount_right, 0);
    assert_eq!(c.amount_up, 0);
    assert_eq!(c.amount_down, 0);
    assert_eq!(c.rotate_horizontal, 0);
    assert_eq!(c.rotate_vertical, 0);
    assert_eq!(c.scroll, 0);
    // speed and sensitivity survive the reset
    assert_eq!(c.speed, 5 * FX_ONE);
    assert_eq!(c.sensitivity, 2 * FX_ONE);
}

// One Forward press integrated over one second at speed 5 moves the camera
// exactly 5 units along the horizontal forward direction; a second step
// with no new intents moves nothing.
#[test]
fn forward_press_moves_speed_times_dt_once() {
    let mut c = CameraController::new(5 * FX_ONE, FX_ONE);
    let mut cam = camera_at_origin();
    c.process_keyboard(CameraMovement::Forward);
    c.update_camera(&mut cam, FX_ONE);
    // at yaw 0 the horizontal forward direction is exactly +x
    assert_eq!(cam.position, Vec3Fx { x: 5 * FX_ONE, y: 0, z: 0 });
    let after_first = cam;
    c.update_camera(&mut cam, FX_ONE);
    assert_eq!(cam, after_first);
}

#[test]
fn vertical_intents_move_straight_up_and_down() {
    let mut c = CameraController::new(2 * FX_ONE, FX_ONE);
    let mut cam = camera_at_origin();
    c.process_keyboard(CameraMovement::Jump);
    c.update_camera(&mut cam, FX_ONE);
    assert_eq!(cam.position, Vec3Fx { x: 0, y: 2 * FX_ONE, z: 0 });
    c.process_keyboard(CameraMovement::Crouch);
    c.update_camera(&mut cam, FX_HALF);
    assert_eq!(cam.position, Vec3Fx { x: 0, y: FX_ONE, z: 0 });
}

#[test]
fn scroll_dollies_along_the_view_direction() {
    let mut c = CameraController::new(FX_ONE, FX_ONE);
    let mut cam = camera_at_origin();
    // scroll of +2 units at speed 1, sensitivity 1, dt 1: dolly 2 units
    // along the view direction, which at yaw 0 / pitch 0 is +x
    c.process_scroll(&ScrollDelta::Pixels(0, 2 * FX_ONE));
    c.update_camera(&mut cam, FX_ONE);
    assert_eq!(cam.position, Vec3Fx { x: 2 * FX_ONE, y: 0, z: 0 });
}

#[test]
fn yaw_is_stored_exactly_and_wrapped_by_integration() {
    // construction stores the pose exactly as given, with no normalization
    let cam = Camera::new(Vec3Fx { x: 5, y: 6, z: 7 }, TWO_PI_FX + 77, -1234);
    assert_eq!(cam.position, Vec3Fx { x: 5, y: 6, z: 7 });
    assert_eq!(cam.yaw, TWO_PI_FX + 77);
    assert_eq!(cam.pitch, -1234);
    // integration is what wraps: one full turn of horizontal rotation
    // lands back where it started
    let mut c = CameraController::new(FX_ONE, FX_ONE);
    let mut cam = camera_at_origin();
    c.process_mouse(TWO_PI_FX, 0);
    c.update_camera(&mut cam, FX_ONE);
    assert_eq!(cam.yaw, 0);
}

#[test]
fn uniform_starts_as_identity_and_tracks_the_camera() {
    let u = CameraUniform::new();
    let vals = u.to_values();
    assert_eq!(vals.len(), 68);
    assert_eq!(vals[0], 0);
    // the identity view matrix: ones down the diagonal, column-major
    assert_eq!(vals[4], FX_ONE);
    assert_eq!(vals[5], 0);
    assert_eq!(vals[4 + 5], FX_ONE);
    assert_eq!(vals[4 + 10], FX_ONE);
    assert_eq!(vals[4 + 15], FX_ONE);

    let mut u = CameraUniform::new();
    let cam = Camera::new(Vec3Fx { x: 3 * FX_ONE, y: FX_ONE, z: -2 * FX_ONE }, 0, 0);
    let proj = Projection::new(800, 600, HALF_PI_FX, FX_ONE, 100 * FX_ONE);
    u.update_view_proj(&cam, &proj);
    let vals = u.to_values();
    // the view-space position is the homogeneous camera position
    assert_eq!(vals[0], 3 * FX_ONE);
    assert_eq!(vals[1], FX_ONE);
    assert_eq!(vals[2], -2 * FX_ONE);
    assert_eq!(vals[3], FX_ONE);
    // the inverse view: its rotation block is the transpose of the view's
    // rotation block, and its translation column recovers the camera
    // position exactly
    for col in 0..3 {
        for row in 0..3 {
            assert_eq!(vals[4 + 16 * 3 + 4 * col + row], vals[4 + 4 * row + col]);
        }
    }
    assert_eq!(vals[4 + 16 * 3 + 12], 3 * FX_ONE);
    assert_eq!(vals[4 + 16 * 3 + 13], FX_ONE);
    assert_eq!(vals[4 + 16 * 3 + 14], -2 * FX_ONE);
    assert_eq!(vals[4 + 16 * 3 + 15], FX_ONE);
}

/// A column-major fixed-point matrix as a real row-indexed 4x4.
fn m4_to_f64(m: &engine_core::mat::Mat4Fx) -> [[f64; 4]; 4] {
    let s = FX_ONE as f64;
    [
        [m.c0.x as f64 / s, m.c1.x as f64 / s, m.c2.x as f64 / s, m.c3.x as f64 / s],
        [m.c0.y as f64 / s, m.c1.y as f64 / s, m.c2.y as f64 / s, m.c3.y as f64 / s],
        [m.c0.z as f64 / s, m.c1.z as f64 / s, m.c2.z as f64 / s, m.c3.z as f64 / s],
        [m.c0.w as f64 / s, m.c1.w as f64 / s, m.c2.w as f64 / s, m.c3.w as f64 / s],
    ]
}

fn assert_product_is_identity(a: &[[f64; 4]; 4], b: &[[f64; 4]; 4], tol: f64) {
    for r in 0..4 {
        for c in 0..4 {
            let got: f64 = (0..4).map(|k| a[r][k] * b[k][c]).sum();
            let expected = if r == c { 1.0 } else { 0.0 };
            assert!((got - expected).abs() < tol, "entry {r},{c}: {got}");
        }
    }
}

#[test]
fn transpose_swaps_rows_and_columns() {
    let cam = Camera::new(Vec3Fx { x: FX_ONE, y: 0, z: 0 }, 30000, -20000);
    let m = cam.calc_matrix();
    let t = m.transpose();
    assert_eq!(t.c1.x, m.c0.y);
    assert_eq!(t.c0.w, m.c3.x);
    assert_eq!(t.transpose(), m);
}

// The stored inverses really invert: view times inverse view, and
// projection times inverse projection, land on the identity within the
// fixed-point rounding.
#[test]
fn uniform_inverses_invert_numerically() {
    let mut u = CameraUniform::new();
    let cam = Camera::new(Vec3Fx { x: 3 * FX_ONE, y: FX_ONE, z: -2 * FX_ONE }, 40000, -30000);
    let proj = Projection::new(800, 600, HALF_PI_FX, FX_ONE / 2, 100 * FX_ONE);
    u.update_view_proj(&cam, &proj);
    assert_product_is_identity(&m4_to_f64(&u.view), &m4_to_f64(&u.inv_view), 0.02);
    let p = proj.calc_matrix();
    let p_inv =
        engine_core::mat::perspective_inverse(proj.fovy, proj.aspect, proj.znear, proj.zfar);
    assert_product_is_identity(&m4_to_f64(&p), &m4_to_f64(&p_inv), 0.02);
}

#[test]
fn projection_resize_recomputes_aspect_only() {
    let mut p = Projection::new(800, 600, HALF_PI_FX, FX_ONE, 100 * FX_ONE);
    let aspect_before = p.aspect;
    assert_eq!(aspect_before, 800 * FX_ONE / 600);
    p.resize(400, 400);
    assert_eq!(p.aspect, FX_ONE);
    assert_eq!(p.fovy, HALF_PI_FX);
    assert_eq!(p.znear, FX_ONE);
    assert_eq!(p.zfar, 100 * FX_ONE);
}

#[test]
fn camera_view_matrix_at_rest_looks_along_x() {
    // at yaw 0 / pitch 0 the camera looks along +x; the right direction is
    // then -z... the side axis s = normalize(f cross up) with up = +y
    let cam = camera_at_origin();
    let m = cam.calc_matrix();
    // forward row (third row of the rotation block) is -f = (-1, 0, 0)
    assert_eq!(m.c0.z, -FX_ONE);
    assert_eq!(m.c1.z, 0);
    assert_eq!(m.c2.z, 0);
    // the homogeneous corner
    assert_eq!(m.c3.w, FX_ONE);
    // zero translation for a camera at the origin
    assert_eq!(m.c3.x, 0);
    assert_eq!(m.c3.y, 0);
    assert_eq!(m.c3.z, 0);
}
