//! The camera controller: key handling and the per-tick update,
//! checked exactly and against a floating-point reference of the
//! same algorithm.

use orbitcam::camera::Camera;
use orbitcam::controller::{CameraController, Key};
use orbitcam::fixed::SCALE;
use orbitcam::vec3::Vec3;

fn dist(c: &Camera) -> f64 {
    let dx = (c.target.x - c.eye.x) as f64;
    let dy = (c.target.y - c.eye.y) as f64;
    let dz = (c.target.z - c.eye.z) as f64;
    (dx * dx + dy * dy + dz * dz).sqrt() / SCALE as f64
}

fn to_glam(v: &Vec3) -> glam::Vec3 {
    glam::Vec3::new(
        v.x as f32 / SCALE as f32,
        v.y as f32 / SCALE as f32,
        v.z as f32 / SCALE as f32,
    )
}

/// The same tick, run in floating point, following the documented
/// step order: the reference the fixed-point implementation
/// approximates.
fn float_update(ctrl: &CameraController, eye: &mut glam::Vec3, target: &mut glam::Vec3) {
    let speed = ctrl.speed as f32 / SCALE as f32;
    let up = glam::Vec3::Y;
    if ctrl.reset_pressed {
        *eye = glam::Vec3::new(0.0, 0.0, 2.0);
        *target = glam::Vec3::ZERO;
    }
    let forward = *target - *eye;
    let forward_norm = forward.normalize();
    let forward_mag = forward.length();
    if ctrl.up_pressed && forward_mag > speed {
        *eye += forward_norm * speed;
    }
    if ctrl.down_pressed {
        *eye -= forward_norm * speed;
    }
    let right = forward_norm.cross(up).normalize();
    let up_local = forward_norm.cross(right).normalize();
    if ctrl.right_pressed {
        eye.x += speed;
        target.x += speed;
    }
    if ctrl.left_pressed {
        eye.x -= speed;
        target.x -= speed;
    }
    let forward = *target - *eye;
    let forward_mag = forward.length();
    let forward_norm = forward.normalize();
    if ctrl.j_pressed {
        *eye = *target - (forward_norm + right * speed).normalize() * forward_mag;
    }
    if ctrl.l_pressed {
        *eye = *target - (forward_norm - right * speed).normalize() * forward_mag;
    }
    if ctrl.i_pressed {
        *eye = *target - (forward_norm + up_local * speed).normalize() * forward_mag;
    }
    if ctrl.k_pressed {
        *eye = *target - (forward_norm - up_local * speed).normalize() * forward_mag;
    }
}

fn posed_camera() -> Camera {
    let mut c = Camera::new(800, 600);
    c.eye = Vec3::new(500_000, 300_000, 1_200_000);
    c.target = Vec3::new(-100_000, 50_000, -200_000);
    c
}

fn assert_matches_float(ctrl: &CameraController, cam: &Camera) {
    let mut eye = to_glam(&cam.eye);
    let mut target = to_glam(&cam.target);
    let mut cam2 = *cam;
    ctrl.update_camera(&mut cam2);
    float_update(ctrl, &mut eye, &mut target);
    let got_eye = to_glam(&cam2.eye);
    let got_target = to_glam(&cam2.target);
    assert!(
        (got_eye - eye).length() < 1e-4,
        "eye drifted: got {:?} want {:?}",
        got_eye,
        eye
    );
    assert!(
        (got_target - target).length() < 1e-4,
        "target drifted: got {:?} want {:?}",
        got_target,
        target
    );
}

#[test]
fn recognized_keys_set_and_clear_flags() {
    let mut c = CameraController::new(20_000);
    let cases: [(Key, fn(&CameraController) -> bool); 13] = [
        (Key::KeyW, |c| c.up_pressed),
        (Key::ArrowUp, |c| c.up_pressed),
        (Key::KeyA, |c| c.left_pressed),
        (Key::ArrowLeft, |c| c.left_pressed),
        (Key::KeyS, |c| c.down_pressed),
        (Key::ArrowDown, |c| c.down_pressed),
        (Key::KeyD, |c| c.right_pressed),
        (Key::ArrowRight, |c| c.right_pressed),
        (Key::KeyI, |c| c.i_pressed),
        (Key::KeyJ, |c| c.j_pressed),
        (Key::KeyK, |c| c.k_pressed),
        (Key::KeyL, |c| c.l_pressed),
        (Key::KeyR, |c| c.reset_pressed),
    ];
    for (key, flag) in cases {
        assert!(c.process_events(true, key));
        assert!(flag(&c));
        assert!(c.process_events(false, key));
        assert!(!flag(&c));
    }
}

#[test]
fn unrecognized_key_changes_nothing() {
    let mut c = CameraController::new(20_000);
    c.process_events(true, Key::KeyJ);
    let before = c;
    assert!(!c.process_events(true, Key::Other));
    assert_eq!(c, before);
    assert!(!c.process_events(false, Key::Other));
    assert_eq!(c, before);
}

#[test]
fn new_controller_has_all_flags_clear() {
    let c = CameraController::new(20_000);
    assert_eq!(c.speed, 20_000);
    assert!(
        !c.up_pressed
            && !c.down_pressed
            && !c.left_pressed
            && !c.right_pressed
            && !c.i_pressed
            && !c.j_pressed
            && !c.k_pressed
            && !c.l_pressed
            && !c.reset_pressed
    );
}

#[test]
fn forward_tick_shortens_distance_by_speed() {
    // Starting two units out with speed 0.02, one forward tick
    // leaves distance 1.98.
    let mut cam = Camera::new(1, 1);
    let mut ctrl = CameraController::new(20_000);
    ctrl.process_events(true, Key::KeyW);
    let before = dist(&cam);
    ctrl.update_camera(&mut cam);
    let after = dist(&cam);
    assert!((before - 2.0).abs() < 1e-9);
    assert!(((before - after) - 0.02).abs() < 1e-4);
}

#[test]
fn forward_guard_freezes_eye_at_close_range() {
    let mut cam = Camera::new(1, 1);
    // 0.01 units from the target: within one speed.
    cam.eye = Vec3::new(0, 0, 10_000);
    let mut ctrl = CameraController::new(20_000);
    ctrl.process_events(true, Key::KeyW);
    let before = cam;
    ctrl.update_camera(&mut cam);
    assert_eq!(cam, before);
}

#[test]
fn backward_tick_grows_distance_by_speed() {
    let mut cam = Camera::new(1, 1);
    let mut ctrl = CameraController::new(20_000);
    ctrl.process_events(true, Key::KeyS);
    let before = dist(&cam);
    ctrl.update_camera(&mut cam);
    let after = dist(&cam);
    assert!(((after - before) - 0.02).abs() < 1e-4);
}

#[test]
fn pan_slides_rig_exactly() {
    let mut cam = posed_camera();
    let eye_before = cam.eye;
    let target_before = cam.target;
    let mut ctrl = CameraController::new(20_000);
    ctrl.process_events(true, Key::KeyD);
    ctrl.update_camera(&mut cam);
    assert_eq!(cam.eye.x, eye_before.x + 20_000);
    assert_eq!(cam.target.x, target_before.x + 20_000);
    assert_eq!(cam.eye.y, eye_before.y);
    assert_eq!(cam.eye.z, eye_before.z);
    assert_eq!(cam.target.y, target_before.y);
    assert_eq!(cam.target.z, target_before.z);
}

#[test]
fn orbit_preserves_radius() {
    for key in [Key::KeyI, Key::KeyJ, Key::KeyK, Key::KeyL] {
        let mut cam = posed_camera();
        let mut ctrl = CameraController::new(20_000);
        ctrl.process_events(true, key);
        let before = dist(&cam);
        ctrl.update_camera(&mut cam);
        let after = dist(&cam);
        assert!(
            ((after - before) / before).abs() < 1e-4,
            "{:?}: radius drifted from {} to {}",
            key,
            before,
            after
        );
    }
}

#[test]
fn orbit_steers_by_normalized_forward() {
    // Orbit-left from the canonical pose at speed one: the steered
    // direction is the normalized forward plus the right axis, so
    // the eye lands at (-sqrt 2, 0, sqrt 2) on the radius-two
    // circle.
    let mut cam = Camera::new(1, 1);
    let mut ctrl = CameraController::new(SCALE);
    ctrl.process_events(true, Key::KeyJ);
    ctrl.update_camera(&mut cam);
    let x = cam.eye.x as f64 / SCALE as f64;
    let z = cam.eye.z as f64 / SCALE as f64;
    assert!((x - (-1.414214)).abs() < 1e-4, "eye.x = {}", x);
    assert!((z - 1.414214).abs() < 1e-4, "eye.z = {}", z);
    assert_eq!(cam.eye.y, 0);
}

#[test]
fn orbit_leaves_target_unmoved() {
    let mut cam = posed_camera();
    let target_before = cam.target;
    let mut ctrl = CameraController::new(20_000);
    ctrl.process_events(true, Key::KeyJ);
    ctrl.process_events(true, Key::KeyI);
    ctrl.update_camera(&mut cam);
    assert_eq!(cam.target, target_before);
}

#[test]
fn reset_flag_restores_canonical_pose() {
    let mut cam = posed_camera();
    let mut ctrl = CameraController::new(20_000);
    ctrl.process_events(true, Key::KeyR);
    ctrl.update_camera(&mut cam);
    assert_eq!((cam.eye.x, cam.eye.y, cam.eye.z), (0, 0, 2 * SCALE));
    assert_eq!((cam.target.x, cam.target.y, cam.target.z), (0, 0, 0));
}

#[test]
fn reset_composes_with_later_steps() {
    // The reset applies first; a pan in the same tick still slides
    // the rig afterwards.
    let mut cam = posed_camera();
    let mut ctrl = CameraController::new(20_000);
    ctrl.process_events(true, Key::KeyR);
    ctrl.process_events(true, Key::KeyD);
    ctrl.update_camera(&mut cam);
    assert_eq!((cam.eye.x, cam.eye.y, cam.eye.z), (20_000, 0, 2 * SCALE));
    assert_eq!((cam.target.x, cam.target.y, cam.target.z), (20_000, 0, 0));
}

#[test]
fn update_matches_floating_point_reference() {
    let flag_sets: [&[Key]; 7] = [
        &[Key::KeyW],
        &[Key::KeyS],
        &[Key::KeyJ],
        &[Key::KeyK, Key::KeyA],
        &[Key::KeyI, Key::KeyL],
        &[Key::KeyW, Key::KeyD, Key::KeyJ],
        &[Key::KeyR, Key::KeyI],
    ];
    for keys in flag_sets {
        let cam = posed_camera();
        let mut ctrl = CameraController::new(20_000);
        for k in keys {
            ctrl.process_events(true, *k);
        }
        assert_matches_float(&ctrl, &cam);
    }
}
