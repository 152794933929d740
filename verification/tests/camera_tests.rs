use fly_camera::camera::{create_camera, Camera, DEFAULT_FOV, DT_LIMIT};
use fly_camera::fx::{fx_div, fx_mul, isqrt, SCALE};
use fly_camera::input::Intents;
use fly_camera::matrix::Matrix4;
use fly_camera::quaternion::Quaternion;
use fly_camera::trig::{cos_fx, sin_fx};
use fly_camera::vector::{Vector3, Vector4};

/// One fixed-point unit per `SCALE` integer steps.
fn fx_of(v: f64) -> i64 {
    (v * (SCALE as f64)).round() as i64
}

fn assert_close(actual: i64, expected: i64, tol: i64, what: &str) {
    let diff = (actual - expected).abs();
    assert!(
        diff <= tol,
        "{}: actual {} expected {} differ by {} > {}",
        what,
        actual,
        expected,
        diff,
        tol
    );
}

/// A camera at (0, 0, 5) looking down negative z with identity orientation.
fn test_rig() -> Camera {
    Camera::new(
        fx_of(0.1),
        100 * SCALE,
        DEFAULT_FOV,
        fx_of(4.0 / 3.0),
        3 * SCALE,
        50 * SCALE,
        Vector3 { x: 0, y: 0, z: 5 * SCALE },
        Vector4 { x: 0, y: 0, z: -SCALE, w: 0 },
        Vector4 { x: SCALE, y: 0, z: 0, w: 0 },
        Vector4 { x: 0, y: SCALE, z: 0, w: 0 },
        Quaternion { s: SCALE, x: 0, y: 0, z: 0 },
    )
}

fn forward_only() -> Intents {
    let mut it = Intents::none();
    it.move_forward = true;
    it
}

fn yaw_left_only() -> Intents {
    let mut it = Intents::none();
    it.yaw_left = true;
    it
}

#[test]
fn fx_multiplication_is_exact_on_whole_units() {
    assert_eq!(fx_mul(3 * SCALE, 2 * SCALE), 6 * SCALE);
    assert_eq!(fx_mul(-3 * SCALE, 2 * SCALE), -6 * SCALE);
    assert_eq!(fx_mul(7, 0), 0);
}

#[test]
fn fx_division_rounds_toward_zero() {
    assert_eq!(fx_div(SCALE, 2 * SCALE), SCALE / 2);
    // -SCALE / 3 is not exact: toward zero, not toward minus infinity.
    assert_eq!(fx_div(-1, 3), -(SCALE / 3));
    assert_eq!(fx_div(1, 3), SCALE / 3);
}

#[test]
fn isqrt_matches_perfect_and_imperfect_squares() {
    assert_eq!(isqrt(0), 0);
    assert_eq!(isqrt(1), 1);
    assert_eq!(isqrt(2), 1);
    assert_eq!(isqrt(144), 12);
    assert_eq!(isqrt(u64::MAX), 4294967295);
}

#[test]
fn sine_and_cosine_match_reference_values() {
    let tol = 64;
    assert_eq!(sin_fx(0), 0);
    assert_close(sin_fx(30 * SCALE), fx_of(0.5), tol, "sin 30");
    assert_close(sin_fx(90 * SCALE), SCALE, tol, "sin 90");
    assert_close(sin_fx(-30 * SCALE), fx_of(-0.5), tol, "sin -30");
    assert_close(sin_fx(150 * SCALE), fx_of(0.5), tol, "sin 150");
    assert_close(sin_fx(210 * SCALE), fx_of(-0.5), tol, "sin 210");
    assert_close(sin_fx(330 * SCALE), fx_of(-0.5), tol, "sin 330");
    assert_close(sin_fx(390 * SCALE), fx_of(0.5), tol, "sin 390");
    assert_close(cos_fx(0), SCALE, tol, "cos 0");
    assert_close(cos_fx(60 * SCALE), fx_of(0.5), tol, "cos 60");
    assert_close(cos_fx(180 * SCALE), -SCALE, tol, "cos 180");
    assert_close(
        sin_fx(25 * SCALE),
        fx_of((25.0f64).to_radians().sin()),
        tol,
        "sin 25",
    );
}

#[test]
fn quaternion_normalize_scales_to_unit_length() {
    let q = Quaternion { s: 2 * SCALE, x: 0, y: 0, z: 0 };
    let n = q.normalize();
    assert_eq!(n, Quaternion { s: SCALE, x: 0, y: 0, z: 0 });
    let zero = Quaternion { s: 0, x: 0, y: 0, z: 0 };
    assert_eq!(zero.normalize(), zero);
}

#[test]
fn quaternion_identity_is_neutral_for_the_product() {
    let identity = Quaternion { s: SCALE, x: 0, y: 0, z: 0 };
    let q = Quaternion { s: 807403, x: 671088, y: 0, z: 0 };
    assert_eq!(identity.mul(&q), q);
    assert_eq!(q.mul(&identity), q);
}

#[test]
fn update_with_no_intents_changes_nothing() {
    let mut cam = create_camera(640, 480);
    let before = cam;
    cam.update(&Intents::none(), fx_of(0.016));
    assert_eq!(cam, before);
    cam.update(&Intents::none(), 0);
    assert_eq!(cam, before);
    cam.update(&Intents::none(), DT_LIMIT);
    assert_eq!(cam, before);
}

#[test]
fn pure_forward_translation_moves_along_the_view_direction() {
    let mut cam = test_rig();
    cam.update(&forward_only(), SCALE);
    // 3 units per second for one second along +fwd == (0, 0, -1).
    assert_eq!(cam.cam_pos, Vector3 { x: 0, y: 0, z: 2 * SCALE });
    assert_eq!(cam.axis, Quaternion { s: SCALE, x: 0, y: 0, z: 0 });
    // With identity rotation the view matrix is exactly the translation by
    // the opposite position.
    let expected_view = Matrix4::from_translation(&cam.cam_pos.neg());
    assert_eq!(cam.view_mat, expected_view);
}

#[test]
fn pure_yaw_turns_about_the_up_axis() {
    let mut cam = test_rig();
    cam.update(&yaw_left_only(), SCALE);
    // 50 degrees per second for one second about +y: the orientation is the
    // half-angle quaternion and the camera has not moved.
    let half = (25.0f64).to_radians();
    assert_close(cam.axis.s, fx_of(half.cos()), 300, "axis.s");
    assert_close(cam.axis.x, 0, 300, "axis.x");
    assert_close(cam.axis.y, fx_of(half.sin()), 300, "axis.y");
    assert_close(cam.axis.z, 0, 300, "axis.z");
    assert_eq!(cam.cam_pos, Vector3 { x: 0, y: 0, z: 5 * SCALE });
    // The recomputed forward direction points 50 degrees left of -z.
    let full = (50.0f64).to_radians();
    assert_close(cam.fwd.x, fx_of(-full.sin()), 1000, "fwd.x");
    assert_close(cam.fwd.y, 0, 1000, "fwd.y");
    assert_close(cam.fwd.z, fx_of(-full.cos()), 1000, "fwd.z");
    assert_close(cam.rgt.x, fx_of(full.cos()), 1000, "rgt.x");
    assert_close(cam.rgt.z, fx_of(-full.sin()), 1000, "rgt.z");
}

#[test]
fn combined_yaw_and_forward_moves_along_the_new_heading() {
    let mut cam = test_rig();
    let mut it = Intents::none();
    it.yaw_left = true;
    it.move_forward = true;
    cam.update(&it, SCALE);
    // The translation uses the basis recomputed after the in-frame yaw, so
    // the camera moves along the turned heading, not along the old -z.
    let full = (50.0f64).to_radians();
    assert_close(cam.cam_pos.x, fx_of(-3.0 * full.sin()), 4000, "pos.x");
    assert_close(cam.cam_pos.y, 0, 4000, "pos.y");
    assert_close(cam.cam_pos.z, fx_of(5.0 - 3.0 * full.cos()), 4000, "pos.z");
}

#[test]
fn opposite_yaw_keys_keep_the_first_turn() {
    // The per-frame accumulator is shared: the left key turns by the step,
    // the right key then brings the accumulator back to zero and applies an
    // empty turn, so the first rotation stands.
    let mut turned = test_rig();
    turned.update(&yaw_left_only(), SCALE);
    let mut both = test_rig();
    let mut it = Intents::none();
    it.yaw_left = true;
    it.yaw_right = true;
    both.update(&it, SCALE);
    assert_close(both.axis.s, turned.axis.s, 16, "axis.s");
    assert_close(both.axis.y, turned.axis.y, 16, "axis.y");
}

#[test]
fn stored_matrices_stay_consistent_with_axis_and_position() {
    let mut cam = test_rig();
    let mut it = Intents::none();
    it.yaw_left = true;
    it.pitch_up = true;
    it.move_forward = true;
    it.move_right = true;
    cam.update(&it, fx_of(0.25));
    assert_eq!(cam.rot_mat_inv, Matrix4::from_quat(&cam.axis));
    assert_eq!(cam.trans_mat_inv, Matrix4::from_translation(&cam.cam_pos));
    let expected_view = cam
        .rot_mat_inv
        .transpose()
        .mul(&Matrix4::from_translation(&cam.cam_pos.neg()));
    assert_eq!(cam.view_mat, expected_view);
}

#[test]
fn orientation_stays_unit_and_basis_stays_orthonormal() {
    let mut cam = test_rig();
    let mut frame = 0;
    while frame < 120 {
        let mut it = Intents::none();
        it.yaw_left = frame % 3 != 0;
        it.pitch_up = frame % 2 == 0;
        it.roll_right = frame % 5 == 0;
        it.move_forward = true;
        cam.update(&it, fx_of(0.016));
        frame += 1;
    }
    let s2 = (SCALE as i128) * (SCALE as i128);
    let norm2 = (cam.axis.s as i128) * (cam.axis.s as i128)
        + (cam.axis.x as i128) * (cam.axis.x as i128)
        + (cam.axis.y as i128) * (cam.axis.y as i128)
        + (cam.axis.z as i128) * (cam.axis.z as i128);
    // The squared norm of the orientation stays within a whisker of one.
    assert!((norm2 - s2).abs() <= 16 * (SCALE as i128), "norm2 {}", norm2);
    let dot = |a: &Vector4, b: &Vector4| -> i128 {
        (a.x as i128) * (b.x as i128) + (a.y as i128) * (b.y as i128)
            + (a.z as i128) * (b.z as i128)
    };
    let tol = 4096 * (SCALE as i128);
    assert!((dot(&cam.fwd, &cam.fwd) - s2).abs() <= tol, "fwd length");
    assert!((dot(&cam.rgt, &cam.rgt) - s2).abs() <= tol, "rgt length");
    assert!((dot(&cam.up, &cam.up) - s2).abs() <= tol, "up length");
    assert!(dot(&cam.fwd, &cam.rgt).abs() <= tol, "fwd.rgt");
    assert!(dot(&cam.fwd, &cam.up).abs() <= tol, "fwd.up");
    assert!(dot(&cam.rgt, &cam.up).abs() <= tol, "rgt.up");
}

#[test]
fn resize_changes_aspect_and_projection_alone() {
    let mut cam = create_camera(640, 480);
    let before = cam;
    cam.on_resize(800, 600);
    assert_eq!(cam.aspect, 800 * SCALE / 600);
    assert_eq!(cam.cam_pos, before.cam_pos);
    assert_eq!(cam.axis, before.axis);
    assert_eq!(cam.fwd, before.fwd);
    assert_eq!(cam.rgt, before.rgt);
    assert_eq!(cam.up, before.up);
    assert_eq!(cam.view_mat, before.view_mat);
    assert_eq!(cam.rot_mat_inv, before.rot_mat_inv);
    assert_eq!(cam.trans_mat_inv, before.trans_mat_inv);
    assert_eq!(cam.near, before.near);
    assert_eq!(cam.far, before.far);
    assert_eq!(cam.fov, before.fov);
    assert_eq!(cam.cam_speed, before.cam_speed);
    assert_eq!(cam.cam_yaw_speed, before.cam_yaw_speed);
    // The same size gives back the same aspect and projection.
    cam.on_resize(640, 480);
    assert_eq!(cam, before);
}

#[test]
fn reset_restores_the_freshly_constructed_default() {
    let mut cam = create_camera(640, 480);
    let mut it = Intents::none();
    it.yaw_left = true;
    it.move_forward = true;
    it.roll_right = true;
    cam.update(&it, SCALE);
    cam.update(&it, SCALE / 2);
    assert_ne!(cam, create_camera(640, 480));
    cam.reset(640, 480);
    assert_eq!(cam, create_camera(640, 480));
}

#[test]
fn default_camera_matches_its_construction_parameters() {
    let cam = create_camera(640, 480);
    assert_eq!(cam.aspect, 640 * SCALE / 480);
    assert_eq!(cam.far, 100 * SCALE);
    assert_eq!(cam.fov, 67 * SCALE);
    assert_eq!(cam.cam_speed, 3 * SCALE);
    assert_eq!(cam.cam_yaw_speed, 50 * SCALE);
    assert_close(cam.near, fx_of(0.1), 2, "near");
    assert_close(cam.cam_pos.y, fx_of(-6.81), 2, "pos.y");
    assert_close(cam.cam_pos.z, fx_of(3.96), 2, "pos.z");
    assert_close(cam.axis.s, fx_of(0.77), 2, "axis.s");
    assert_close(cam.axis.x, fx_of(0.64), 2, "axis.x");
}

#[test]
fn projection_matrix_matches_the_reference_formula() {
    let cam = create_camera(640, 480);
    let aspect = (cam.aspect as f64) / (SCALE as f64);
    let near = (cam.near as f64) / (SCALE as f64);
    let far = 100.0;
    let f = 1.0 / (33.5f64).to_radians().tan();
    let tol = 2000;
    assert_close(cam.proj_mat.c0.x, fx_of(f / aspect), tol, "e00");
    assert_close(cam.proj_mat.c1.y, fx_of(f), tol, "e11");
    assert_close(
        cam.proj_mat.c2.z,
        fx_of((far + near) / (near - far)),
        tol,
        "e22",
    );
    assert_eq!(cam.proj_mat.c2.w, -SCALE);
    assert_close(
        cam.proj_mat.c3.z,
        fx_of(2.0 * far * near / (near - far)),
        tol,
        "e32",
    );
    assert_eq!(cam.proj_mat.c3.w, 0);
    assert_eq!(cam.proj_mat.c0.y, 0);
    assert_eq!(cam.proj_mat.c1.x, 0);
}
