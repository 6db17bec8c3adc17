//! The session state: resize policy, format negotiation and the
//! frame-failure policy.

use orbitcam::frame::{classify, AcquireError, ErrorKind, FrameAction};
use orbitcam::state::State;
use orbitcam::surface::choose_format;

fn fresh_state() -> State {
    State::new(800, 600, &vec![false, true, false])
}

#[test]
fn new_state_negotiates_and_zeroes() {
    let s = fresh_state();
    assert_eq!(s.config.width, 800);
    assert_eq!(s.config.height, 600);
    assert_eq!(s.config.format_index, 1);
    assert_eq!(s.camera_controller.speed, 20_000);
    assert!(!s.camera_controller.up_pressed && !s.camera_controller.reset_pressed);
    assert_eq!(s.model.verts.len(), 24);
    assert_eq!(s.model.indicies.len(), 36);
    assert!(!s.halted);
}

#[test]
fn choose_format_prefers_first_srgb() {
    assert_eq!(choose_format(&vec![false, true, true]), Some(1));
    assert_eq!(choose_format(&vec![true, false]), Some(0));
}

#[test]
fn choose_format_falls_back_to_first() {
    assert_eq!(choose_format(&vec![false, false, false]), Some(0));
}

#[test]
fn choose_format_empty_list_is_none() {
    assert_eq!(choose_format(&vec![]), None);
}

#[test]
fn resize_with_zero_width_is_ignored() {
    let mut s = fresh_state();
    let before = s.clone();
    s.resize(0, 1024);
    assert_eq!(s, before);
}

#[test]
fn resize_with_zero_height_is_ignored() {
    let mut s = fresh_state();
    let before = s.clone();
    s.resize(1024, 0);
    assert_eq!(s, before);
}

#[test]
fn resize_updates_config_and_exact_aspect() {
    let mut s = State::new(512, 512, &vec![true]);
    s.resize(800, 600);
    assert_eq!(s.config.width, 800);
    assert_eq!(s.config.height, 600);
    assert_eq!(s.config.format_index, 0);
    // The camera aspect is exactly the new pixel pair.
    assert_eq!(s.camera.aspect.num, 800);
    assert_eq!(s.camera.aspect.den, 600);
    // The pose is untouched.
    assert_eq!((s.camera.eye.x, s.camera.eye.y, s.camera.eye.z), (0, 0, 2_000_000));
}

#[test]
fn update_ticks_camera_and_uniform() {
    let mut s = fresh_state();
    s.camera_controller.process_events(true, orbitcam::controller::Key::KeyW);
    let eye_before = s.camera.eye.z;
    let uniform_before = s.camera_uniform;
    s.update();
    assert!(s.camera.eye.z < eye_before);
    assert_ne!(s.camera_uniform, uniform_before);
}

#[test]
fn resize_is_idempotent_for_the_same_size() {
    let mut s = fresh_state();
    s.resize(1024, 768);
    let once = s.clone();
    s.resize(1024, 768);
    assert_eq!(s, once);
}

#[test]
fn update_leaves_out_of_range_camera_alone() {
    let mut s = fresh_state();
    // A pose outside what the fixed-point routines accept is left
    // untouched rather than fed into the arithmetic.
    s.camera.eye = orbitcam::vec3::Vec3::new(i64::MAX, 0, 0);
    assert!(!s.camera.well_formed());
    let before_eye = s.camera.eye;
    let uniform_before = s.camera_uniform;
    s.camera_controller.process_events(true, orbitcam::controller::Key::KeyW);
    s.update();
    assert_eq!(s.camera.eye, before_eye);
    assert_eq!(s.camera_uniform, uniform_before);
}

#[test]
fn reset_key_recovers_out_of_range_camera() {
    let mut s = fresh_state();
    s.camera.eye = orbitcam::vec3::Vec3::new(i64::MAX, 0, 0);
    assert!(!s.camera.well_formed());
    // The reset key still works whatever the prior pose: the tick
    // restores the canonical camera and proceeds as usual.
    s.camera_controller.process_events(true, orbitcam::controller::Key::KeyR);
    s.update();
    assert!(s.camera.well_formed());
    assert_eq!((s.camera.eye.x, s.camera.eye.y, s.camera.eye.z), (0, 0, 2_000_000));
    assert_eq!((s.camera.target.x, s.camera.target.y, s.camera.target.z), (0, 0, 0));
}

#[test]
fn well_formed_accepts_fresh_camera() {
    let s = fresh_state();
    assert!(s.camera.well_formed());
}

#[test]
fn classification_of_every_error() {
    assert_eq!(classify(&AcquireError::Lost), ErrorKind::SurfaceStale);
    assert_eq!(classify(&AcquireError::Outdated), ErrorKind::SurfaceStale);
    assert_eq!(classify(&AcquireError::Timeout), ErrorKind::SurfaceTimeout);
    assert_eq!(classify(&AcquireError::OutOfMemory), ErrorKind::DeviceExhausted);
    assert_eq!(classify(&AcquireError::Other), ErrorKind::DeviceExhausted);
}

#[test]
fn successful_frame_presents() {
    let mut s = fresh_state();
    assert_eq!(s.handle_frame(&Ok(())), FrameAction::Presented);
    assert!(!s.halted);
}

#[test]
fn stale_surface_reconfigures_once_and_skips_draw() {
    for e in [AcquireError::Lost, AcquireError::Outdated] {
        let mut s = fresh_state();
        let config_before = s.config;
        let a = s.handle_frame(&Err(e));
        // Exactly one reconfiguration is requested and no draw
        // happens this tick.
        assert_eq!(a, FrameAction::Reconfigure);
        assert_ne!(a, FrameAction::Presented);
        assert!(!s.halted);
        // The last known size is what the caller reconfigures with.
        assert_eq!(s.config, config_before);
    }
}

#[test]
fn timeout_skips_frame_without_reconfigure() {
    let mut s = fresh_state();
    let a = s.handle_frame(&Err(AcquireError::Timeout));
    assert_eq!(a, FrameAction::SkipFrame);
    assert!(!s.halted);
}

#[test]
fn exhausted_device_halts_for_good() {
    let mut s = fresh_state();
    assert_eq!(s.handle_frame(&Err(AcquireError::OutOfMemory)), FrameAction::Halt);
    assert!(s.halted);
    // No further frame is attempted: even a successful acquire now
    // answers Halt and changes nothing.
    assert_eq!(s.handle_frame(&Ok(())), FrameAction::Halt);
    assert!(s.halted);
    assert_eq!(s.handle_frame(&Err(AcquireError::Lost)), FrameAction::Halt);
}

#[test]
fn other_device_error_is_fatal_too() {
    let mut s = fresh_state();
    assert_eq!(s.handle_frame(&Err(AcquireError::Other)), FrameAction::Halt);
    assert!(s.halted);
}
