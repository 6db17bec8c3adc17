//! The camera controller: held-key flags and the per-tick update.
//!
//! The update is one explicitly ordered function, because later steps
//! read vectors recomputed from earlier mutations: reset, then
//! forward/backward along the view direction, then a lateral pan,
//! then the four orbit rotations around the target.  Its contract
//! equates the new camera with [`spec_update`], the mathematical
//! model of that exact order.

use vstd::prelude::*;
use crate::camera::{cam_reset, cam_wf, CamV, Camera};
use crate::fixed::{lemma_divt_quotient_bound, SCALE};
use crate::vec3::{
    lemma_len_bounded, lemma_mul_range, radius_drift, v3, v3_add, v3_add_x, v3_bounded, v3_cross,
    v3_cross_x, v3_len, v3_length, v3_normalize, v3_normalize_x, v3_scale_div, v3_scale_div_x,
    v3_sub, v3_sub_x, Vec3, V3,
};

verus! {

/// Largest per-tick speed the controller accepts, in millionths
/// (one thousand units per tick).
pub const SPEED_LIMIT: i64 = 1_000_000_000;

/// A logical key, as the controller distinguishes keys: the nine
/// recognized actions on thirteen key codes, and everything else.
#[derive(Clone, Copy, Debug, PartialEq, Eq, Structural)]
pub enum Key {
    KeyW,
    KeyA,
    KeyS,
    KeyD,
    KeyI,
    KeyJ,
    KeyK,
    KeyL,
    KeyR,
    ArrowUp,
    ArrowDown,
    ArrowLeft,
    ArrowRight,
    Other,
}

/// The camera controller: one flag per held action and the speed.
#[derive(Clone, Copy, Debug, PartialEq, Eq, Structural)]
pub struct CameraController {
    pub speed: i64,
    pub up_pressed: bool,
    pub down_pressed: bool,
    pub left_pressed: bool,
    pub right_pressed: bool,
    pub i_pressed: bool,
    pub k_pressed: bool,
    pub j_pressed: bool,
    pub l_pressed: bool,
    pub reset_pressed: bool,
}

/// Mathematical model of the controller.
pub struct CtrlV {
    pub speed: int,
    pub up_pressed: bool,
    pub down_pressed: bool,
    pub left_pressed: bool,
    pub right_pressed: bool,
    pub i_pressed: bool,
    pub k_pressed: bool,
    pub j_pressed: bool,
    pub l_pressed: bool,
    pub reset_pressed: bool,
}

impl View for CameraController {
    type V = CtrlV;

    open spec fn view(&self) -> CtrlV {
        CtrlV {
            speed: self.speed as int,
            up_pressed: self.up_pressed,
            down_pressed: self.down_pressed,
            left_pressed: self.left_pressed,
            right_pressed: self.right_pressed,
            i_pressed: self.i_pressed,
            k_pressed: self.k_pressed,
            j_pressed: self.j_pressed,
            l_pressed: self.l_pressed,
            reset_pressed: self.reset_pressed,
        }
    }
}

/// The controller invariant: a nonnegative bounded speed.
pub open spec fn ctrl_wf(c: CtrlV) -> bool {
    0 <= c.speed <= SPEED_LIMIT
}

/// Whether a key maps to one of the nine recognized actions.
pub open spec fn key_recognized(k: Key) -> bool {
    k != Key::Other
}

/// What a key event does to the flags: the matching flag takes the
/// pressed state, everything else is untouched.
pub open spec fn spec_process(c: CtrlV, pressed: bool, k: Key) -> CtrlV {
    match k {
        Key::KeyW | Key::ArrowUp => CtrlV { up_pressed: pressed, ..c },
        Key::KeyA | Key::ArrowLeft => CtrlV { left_pressed: pressed, ..c },
        Key::KeyS | Key::ArrowDown => CtrlV { down_pressed: pressed, ..c },
        Key::KeyD | Key::ArrowRight => CtrlV { right_pressed: pressed, ..c },
        Key::KeyI => CtrlV { i_pressed: pressed, ..c },
        Key::KeyJ => CtrlV { j_pressed: pressed, ..c },
        Key::KeyK => CtrlV { k_pressed: pressed, ..c },
        Key::KeyL => CtrlV { l_pressed: pressed, ..c },
        Key::KeyR => CtrlV { reset_pressed: pressed, ..c },
        Key::Other => c,
    }
}

/// The eye position an orbit step rebuilds: the target, minus the
/// normalized steered direction scaled back to the captured radius.
pub open spec fn orbit_eye(target: V3, dir: V3, mag: int) -> V3 {
    v3_sub(target, v3_scale_div(v3_normalize(dir), mag, SCALE as int))
}

/// First step of a tick: an optional restore of the canonical pose.
pub open spec fn step_reset(c: CtrlV, cam: CamV) -> CamV {
    if c.reset_pressed {
        cam_reset(cam)
    } else {
        cam
    }
}

/// Second step: movement along the view direction.  Forward motion
/// is guarded so the eye never reaches or passes the target in one
/// tick; backward motion is unconditional.
pub open spec fn step_move(c: CtrlV, cam: CamV) -> CamV {
    let forward = v3_sub(cam.target, cam.eye);
    let forward_norm = v3_normalize(forward);
    let forward_mag = v3_len(forward);
    let moved = if c.up_pressed && forward_mag > c.speed {
        CamV { eye: v3_add(cam.eye, v3_scale_div(forward_norm, c.speed, SCALE as int)), ..cam }
    } else {
        cam
    };
    if c.down_pressed {
        CamV {
            eye: v3_sub(moved.eye, v3_scale_div(forward_norm, c.speed, SCALE as int)),
            ..moved
        }
    } else {
        moved
    }
}

/// Third step: the lateral pan, a slide of the whole rig along `x`.
pub open spec fn step_pan(c: CtrlV, cam: CamV) -> CamV {
    let panned = if c.right_pressed {
        CamV {
            eye: v3(cam.eye.x + c.speed, cam.eye.y, cam.eye.z),
            target: v3(cam.target.x + c.speed, cam.target.y, cam.target.z),
            ..cam
        }
    } else {
        cam
    };
    if c.left_pressed {
        CamV {
            eye: v3(panned.eye.x - c.speed, panned.eye.y, panned.eye.z),
            target: v3(panned.target.x - c.speed, panned.target.y, panned.target.z),
            ..panned
        }
    } else {
        panned
    }
}

/// Fourth step: the four orbit rotations.  All four steer the same
/// normalized forward direction and radius, captured once after the
/// pan; a later flag overwrites the eye set by an earlier one.
pub open spec fn step_orbit(c: CtrlV, cam: CamV, right: V3, up_local: V3) -> CamV {
    let forward2 = v3_sub(cam.target, cam.eye);
    let fwd_norm2 = v3_normalize(forward2);
    let mag2 = v3_len(forward2);
    let o1 = if c.j_pressed {
        CamV {
            eye: orbit_eye(
                cam.target,
                v3_add(fwd_norm2, v3_scale_div(right, c.speed, SCALE as int)),
                mag2,
            ),
            ..cam
        }
    } else {
        cam
    };
    let o2 = if c.l_pressed {
        CamV {
            eye: orbit_eye(
                o1.target,
                v3_sub(fwd_norm2, v3_scale_div(right, c.speed, SCALE as int)),
                mag2,
            ),
            ..o1
        }
    } else {
        o1
    };
    let o3 = if c.i_pressed {
        CamV {
            eye: orbit_eye(
                o2.target,
                v3_add(fwd_norm2, v3_scale_div(up_local, c.speed, SCALE as int)),
                mag2,
            ),
            ..o2
        }
    } else {
        o2
    };
    if c.k_pressed {
        CamV {
            eye: orbit_eye(
                o3.target,
                v3_sub(fwd_norm2, v3_scale_div(up_local, c.speed, SCALE as int)),
                mag2,
            ),
            ..o3
        }
    } else {
        o3
    }
}

/// The sideways and local-up axes of the orbit, derived from the
/// pose after the reset step and before any movement.
pub open spec fn orbit_right_axis(cam1: CamV) -> V3 {
    v3_normalize(v3_cross(v3_normalize(v3_sub(cam1.target, cam1.eye)), cam1.up))
}

pub open spec fn orbit_up_axis(cam1: CamV) -> V3 {
    v3_normalize(
        v3_cross(v3_normalize(v3_sub(cam1.target, cam1.eye)), orbit_right_axis(cam1)),
    )
}

/// The per-tick camera update, in the model: the exact ordered
/// composition of reset, forward/backward, pan and the four orbits.
pub open spec fn spec_update(c: CtrlV, cam0: CamV) -> CamV {
    let cam1 = step_reset(c, cam0);
    step_orbit(
        c,
        step_pan(c, step_move(c, cam1)),
        orbit_right_axis(cam1),
        orbit_up_axis(cam1),
    )
}

impl CameraController {
    /// A fresh controller with the given speed and every flag clear.
    pub fn new(speed: i64) -> (r: CameraController)
        requires
            0 <= speed <= SPEED_LIMIT,
        ensures
            r@ == (CtrlV {
                speed: speed as int,
                up_pressed: false,
                down_pressed: false,
                left_pressed: false,
                right_pressed: false,
                i_pressed: false,
                k_pressed: false,
                j_pressed: false,
                l_pressed: false,
                reset_pressed: false,
            }),
            ctrl_wf(r@),
    {
        CameraController {
            speed,
            up_pressed: false,
            down_pressed: false,
            left_pressed: false,
            right_pressed: false,
            i_pressed: false,
            k_pressed: false,
            j_pressed: false,
            l_pressed: false,
            reset_pressed: false,
        }
    }

    /// Applies one key event.  The matching flag takes the pressed
    /// state and the call reports whether the key was recognized; an
    /// unrecognized key changes nothing and is not an error.
    pub fn process_events(&mut self, pressed: bool, keycode: Key) -> (handled: bool)
        ensures
            handled == key_recognized(keycode),
            final(self)@ == spec_process(old(self)@, pressed, keycode),
            !key_recognized(keycode) ==> *final(self) == *old(self),
            final(self).speed == old(self).speed,
    {
        match keycode {
            Key::KeyW | Key::ArrowUp => {
                self.up_pressed = pressed;
                true
            },
            Key::KeyA | Key::ArrowLeft => {
                self.left_pressed = pressed;
                true
            },
            Key::KeyS | Key::ArrowDown => {
                self.down_pressed = pressed;
                true
            },
            Key::KeyD | Key::ArrowRight => {
                self.right_pressed = pressed;
                true
            },
            Key::KeyI => {
                self.i_pressed = pressed;
                true
            },
            Key::KeyJ => {
                self.j_pressed = pressed;
                true
            },
            Key::KeyK => {
                self.k_pressed = pressed;
                true
            },
            Key::KeyL => {
                self.l_pressed = pressed;
                true
            },
            Key::KeyR => {
                self.reset_pressed = pressed;
                true
            },
            Key::Other => false,
        }
    }

    /// One tick of camera motion, in the fixed order of the model:
    /// reset, forward/backward, pan, then the four orbits, with the
    /// orbit axes derived from the pose before any movement.
    pub fn update_camera(&self, camera: &mut Camera)
        requires
            ctrl_wf(self@),
            cam_wf(old(camera)@),
        ensures
            final(camera)@ == spec_update(self@, old(camera)@),
    {
        let ghost m0 = old(camera)@;
        if self.reset_pressed {
            camera.reset_view();
        }
        let ghost m1 = step_reset(self@, m0);
        proof {
            assert(camera@ == m1);
            assert(cam_wf(m1));
        }
        let (right, up_local): (Vec3, Vec3) = orbit_axes(camera);
        move_step(self, camera);
        pan_step(self, camera);
        orbit_step(self, camera, &right, &up_local);
    }
}

/// Bound on eye coordinates after the movement step.
pub const MOVED_LIMIT: i64 = 502_000_000_000;

/// Bound on eye coordinates after the pan step.
pub const PANNED_LIMIT: i64 = 503_000_000_000;

/// The orbit axes of a camera pose: the normalized cross of the view
/// direction with `up`, and of the view direction with that.
fn orbit_axes(camera: &Camera) -> (r: (Vec3, Vec3))
    requires
        cam_wf(camera@),
    ensures
        r.0@ == orbit_right_axis(camera@),
        r.1@ == orbit_up_axis(camera@),
        v3_bounded(r.0@, SCALE as int),
        v3_bounded(r.1@, SCALE as int),
{
    let forward: Vec3 = v3_sub_x(&camera.target, &camera.eye);
    let forward_norm: Vec3 = v3_normalize_x(&forward);
    proof {
        lemma_cross_of_units(forward_norm@, camera.up@);
    }
    let right_raw: Vec3 = v3_cross_x(&forward_norm, &camera.up);
    let right: Vec3 = v3_normalize_x(&right_raw);
    proof {
        lemma_cross_of_units(forward_norm@, right@);
    }
    let upl_raw: Vec3 = v3_cross_x(&forward_norm, &right);
    let up_local: Vec3 = v3_normalize_x(&upl_raw);
    (right, up_local)
}

/// Movement along the view direction, exactly [`step_move`].
fn move_step(c: &CameraController, camera: &mut Camera)
    requires
        ctrl_wf(c@),
        cam_wf(old(camera)@),
    ensures
        final(camera)@ == step_move(c@, old(camera)@),
        v3_bounded(final(camera).eye@, MOVED_LIMIT as int),
        final(camera).target == old(camera).target,
        final(camera).up == old(camera).up,
        final(camera).aspect == old(camera).aspect,
{
    let speed: i64 = c.speed;
    let forward: Vec3 = v3_sub_x(&camera.target, &camera.eye);
    let forward_norm: Vec3 = v3_normalize_x(&forward);
    let forward_mag: i64 = v3_length(&forward);
    if c.up_pressed && forward_mag > speed {
        proof {
            lemma_scale_by_speed(forward_norm@, speed as int);
        }
        let delta: Vec3 = v3_scale_div_x(&forward_norm, speed, SCALE);
        camera.eye = v3_add_x(&camera.eye, &delta);
    }
    if c.down_pressed {
        proof {
            lemma_scale_by_speed(forward_norm@, speed as int);
        }
        let delta: Vec3 = v3_scale_div_x(&forward_norm, speed, SCALE);
        camera.eye = v3_sub_x(&camera.eye, &delta);
    }
}

/// The lateral pan, exactly [`step_pan`].
fn pan_step(c: &CameraController, camera: &mut Camera)
    requires
        ctrl_wf(c@),
        v3_bounded(old(camera).eye@, MOVED_LIMIT as int),
        v3_bounded(old(camera).target@, crate::camera::CAM_LIMIT as int),
    ensures
        final(camera)@ == step_pan(c@, old(camera)@),
        v3_bounded(final(camera).eye@, PANNED_LIMIT as int),
        v3_bounded(final(camera).target@, MOVED_LIMIT as int),
        final(camera).up == old(camera).up,
        final(camera).aspect == old(camera).aspect,
{
    let speed: i64 = c.speed;
    if c.right_pressed {
        camera.eye = Vec3 { x: camera.eye.x + speed, ..camera.eye };
        camera.target = Vec3 { x: camera.target.x + speed, ..camera.target };
    }
    if c.left_pressed {
        camera.eye = Vec3 { x: camera.eye.x - speed, ..camera.eye };
        camera.target = Vec3 { x: camera.target.x - speed, ..camera.target };
    }
}

/// The four orbit rotations, exactly [`step_orbit`].
fn orbit_step(c: &CameraController, camera: &mut Camera, right: &Vec3, up_local: &Vec3)
    requires
        ctrl_wf(c@),
        v3_bounded(old(camera).eye@, PANNED_LIMIT as int),
        v3_bounded(old(camera).target@, MOVED_LIMIT as int),
        v3_bounded(right@, SCALE as int),
        v3_bounded(up_local@, SCALE as int),
    ensures
        final(camera)@ == step_orbit(c@, old(camera)@, right@, up_local@),
{
    let speed: i64 = c.speed;
    let forward2: Vec3 = v3_sub_x(&camera.target, &camera.eye);
    let fwd_norm2: Vec3 = v3_normalize_x(&forward2);
    let mag2: i64 = v3_length(&forward2);
    proof {
        lemma_len_bounded(forward2@, 3_000_000_000_000int);
    }
    if c.j_pressed {
        proof {
            lemma_scale_by_speed(right@, speed as int);
        }
        let offs: Vec3 = v3_scale_div_x(right, speed, SCALE);
        let dir: Vec3 = v3_add_x(&fwd_norm2, &offs);
        let n: Vec3 = v3_normalize_x(&dir);
        proof {
            lemma_scale_by_mag(n@, mag2 as int);
        }
        let step: Vec3 = v3_scale_div_x(&n, mag2, SCALE);
        camera.eye = v3_sub_x(&camera.target, &step);
    }
    if c.l_pressed {
        proof {
            lemma_scale_by_speed(right@, speed as int);
        }
        let offs: Vec3 = v3_scale_div_x(right, speed, SCALE);
        let dir: Vec3 = v3_sub_x(&fwd_norm2, &offs);
        let n: Vec3 = v3_normalize_x(&dir);
        proof {
            lemma_scale_by_mag(n@, mag2 as int);
        }
        let step: Vec3 = v3_scale_div_x(&n, mag2, SCALE);
        camera.eye = v3_sub_x(&camera.target, &step);
    }
    if c.i_pressed {
        proof {
            lemma_scale_by_speed(up_local@, speed as int);
        }
        let offs: Vec3 = v3_scale_div_x(up_local, speed, SCALE);
        let dir: Vec3 = v3_add_x(&fwd_norm2, &offs);
        let n: Vec3 = v3_normalize_x(&dir);
        proof {
            lemma_scale_by_mag(n@, mag2 as int);
        }
        let step: Vec3 = v3_scale_div_x(&n, mag2, SCALE);
        camera.eye = v3_sub_x(&camera.target, &step);
    }
    if c.k_pressed {
        proof {
            lemma_scale_by_speed(up_local@, speed as int);
        }
        let offs: Vec3 = v3_scale_div_x(up_local, speed, SCALE);
        let dir: Vec3 = v3_sub_x(&fwd_norm2, &offs);
        let n: Vec3 = v3_normalize_x(&dir);
        proof {
            lemma_scale_by_mag(n@, mag2 as int);
        }
        let step: Vec3 = v3_scale_div_x(&n, mag2, SCALE);
        camera.eye = v3_sub_x(&camera.target, &step);
    }
}

/// Scaling a unit-bounded vector by the speed and dividing by
/// `SCALE` stays within the speed.
proof fn lemma_scale_by_speed(n: V3, speed: int)
    requires
        v3_bounded(n, SCALE as int),
        0 <= speed <= SPEED_LIMIT,
    ensures
        v3_bounded(v3_scale_div(n, speed, SCALE as int), speed),
{
    lemma_mul_range(n.x, speed, SCALE as int, speed);
    lemma_mul_range(n.y, speed, SCALE as int, speed);
    lemma_mul_range(n.z, speed, SCALE as int, speed);
    lemma_divt_quotient_bound(n.x * speed, SCALE as int, speed);
    lemma_divt_quotient_bound(n.y * speed, SCALE as int, speed);
    lemma_divt_quotient_bound(n.z * speed, SCALE as int, speed);
}

/// Scaling a unit-bounded vector by a nonnegative magnitude and
/// dividing by `SCALE` stays within the magnitude.
proof fn lemma_scale_by_mag(n: V3, mag: int)
    requires
        v3_bounded(n, SCALE as int),
        0 <= mag,
    ensures
        v3_bounded(v3_scale_div(n, mag, SCALE as int), mag),
{
    lemma_mul_range(n.x, mag, SCALE as int, mag);
    lemma_mul_range(n.y, mag, SCALE as int, mag);
    lemma_mul_range(n.z, mag, SCALE as int, mag);
    lemma_divt_quotient_bound(n.x * mag, SCALE as int, mag);
    lemma_divt_quotient_bound(n.y * mag, SCALE as int, mag);
    lemma_divt_quotient_bound(n.z * mag, SCALE as int, mag);
}

/// The cross product of two unit-bounded vectors stays within two
/// units.
pub proof fn lemma_cross_of_units(a: V3, b: V3)
    requires
        v3_bounded(a, SCALE as int),
        v3_bounded(b, SCALE as int),
    ensures
        v3_bounded(v3_cross(a, b), 2 * SCALE as int),
{
    let s = SCALE as int;
    lemma_mul_range(a.y, b.z, s, s);
    lemma_mul_range(a.z, b.y, s, s);
    lemma_mul_range(a.z, b.x, s, s);
    lemma_mul_range(a.x, b.z, s, s);
    lemma_mul_range(a.x, b.y, s, s);
    lemma_mul_range(a.y, b.x, s, s);
    lemma_divt_quotient_bound(a.y * b.z - a.z * b.y, s, 2 * s);
    lemma_divt_quotient_bound(a.z * b.x - a.x * b.z, s, 2 * s);
    lemma_divt_quotient_bound(a.x * b.y - a.y * b.x, s, 2 * s);
}

/// An update without the reset, pan-left and pan-right flags never
/// moves the look target; in particular an orbit-only update rotates
/// the eye around an unmoved target.
pub proof fn lemma_orbit_keeps_target(c: CtrlV, cam: CamV)
    requires
        !c.reset_pressed,
        !c.left_pressed,
        !c.right_pressed,
    ensures
        spec_update(c, cam).target == cam.target,
{
}

/// With only the forward flag held and the eye already within one
/// speed of the target, a tick changes nothing: the guard stops the
/// camera from passing through its target.
pub proof fn lemma_forward_guard_blocks(c: CtrlV, cam: CamV)
    requires
        c.up_pressed,
        !c.down_pressed,
        !c.left_pressed,
        !c.right_pressed,
        !c.i_pressed,
        !c.j_pressed,
        !c.k_pressed,
        !c.l_pressed,
        !c.reset_pressed,
        v3_len(v3_sub(cam.target, cam.eye)) <= c.speed,
    ensures
        spec_update(c, cam) == cam,
{
}

/// With only the forward flag held and the target further away than
/// one speed, a tick advances the eye by exactly the normalized
/// forward direction scaled to the speed, and moves nothing else.
pub proof fn lemma_forward_step(c: CtrlV, cam: CamV)
    requires
        c.up_pressed,
        !c.down_pressed,
        !c.left_pressed,
        !c.right_pressed,
        !c.i_pressed,
        !c.j_pressed,
        !c.k_pressed,
        !c.l_pressed,
        !c.reset_pressed,
        v3_len(v3_sub(cam.target, cam.eye)) > c.speed,
    ensures
        spec_update(c, cam).eye == v3_add(
            cam.eye,
            v3_scale_div(v3_normalize(v3_sub(cam.target, cam.eye)), c.speed, SCALE as int),
        ),
        spec_update(c, cam).target == cam.target,
{
}

/// The forward guard's other face: with only the forward flag held,
/// a speed of at most one unit, and the target clear of the guard by
/// a margin, one tick brings the distance to the target down by
/// exactly the speed, within seven millionths of a unit.
pub proof fn lemma_forward_shortens_distance(c: CtrlV, cam: CamV)
    requires
        c.up_pressed,
        !c.down_pressed,
        !c.left_pressed,
        !c.right_pressed,
        !c.i_pressed,
        !c.j_pressed,
        !c.k_pressed,
        !c.l_pressed,
        !c.reset_pressed,
        1 <= c.speed <= SCALE as int,
        v3_len(v3_sub(cam.target, cam.eye)) >= c.speed + 25,
    ensures
        v3_len(v3_sub(cam.target, spec_update(c, cam).eye)) >= v3_len(
            v3_sub(cam.target, cam.eye),
        ) - c.speed - 7,
        v3_len(v3_sub(cam.target, spec_update(c, cam).eye)) <= v3_len(
            v3_sub(cam.target, cam.eye),
        ) - c.speed + 7,
        spec_update(c, cam).target == cam.target,
{
    let s = SCALE as int;
    let f = v3_sub(cam.target, cam.eye);
    let w = v3_scale_div(v3_normalize(f), c.speed, s);
    assert(spec_update(c, cam).eye == v3_add(cam.eye, w));
    assert(v3_sub(cam.target, v3_add(cam.eye, w)) == v3_sub(f, w));
    crate::vec3::lemma_advance_shortens_length(f, c.speed);
}

/// The orbit invariant: an orbit step leaves the eye at the captured
/// radius from the target, within [`radius_drift`] — fewer than
/// twenty-eight parts per million of the radius — for any steered
/// direction and radius of at least one unit.  Forward, backward and
/// pan motion are exempt: they change the distance by design.
pub proof fn lemma_orbit_preserves_radius(target: V3, dir: V3, mag: int)
    requires
        v3_len(dir) >= SCALE as int,
        mag >= SCALE as int,
    ensures
        mag - radius_drift(mag) <= v3_len(v3_sub(target, orbit_eye(target, dir, mag))),
        v3_len(v3_sub(target, orbit_eye(target, dir, mag))) <= mag + radius_drift(mag),
        radius_drift(mag) * 35_000 <= mag,
{
    let s = SCALE as int;
    assert(v3_sub(target, orbit_eye(target, dir, mag)) == v3_scale_div(
        v3_normalize(dir),
        mag,
        s,
    ));
    crate::vec3::lemma_rescale_length(dir, mag);
    let k = mag / s;
    vstd::arithmetic::div_mod::lemma_fundamental_div_mod(mag, s);
    vstd::arithmetic::div_mod::lemma_mod_division_less_than_divisor(mag, s);
    assert((20 + 8 * k) * 35_000 <= mag) by (nonlinear_arith)
        requires
            mag == s * k + (mag % s),
            0 <= mag % s < s,
            mag >= s,
            s == 1_000_000,
            k == mag / s,
    ;
}

/// Whether exactly the orbit flag belonging to `key` is held, and
/// nothing else.
pub open spec fn orbit_only(c: CtrlV) -> bool {
    &&& !c.up_pressed
    &&& !c.down_pressed
    &&& !c.left_pressed
    &&& !c.right_pressed
    &&& !c.reset_pressed
    &&& (c.j_pressed || c.l_pressed || c.i_pressed || c.k_pressed)
}

/// The orbit key whose branch runs last among the held flags; a
/// later branch overwrites the eye an earlier one set, so this key
/// decides the tick's outcome.
pub open spec fn last_orbit_key(c: CtrlV) -> Key {
    if c.k_pressed {
        Key::KeyK
    } else if c.i_pressed {
        Key::KeyI
    } else if c.l_pressed {
        Key::KeyL
    } else {
        Key::KeyJ
    }
}

/// The direction an orbit key steers toward: the normalized forward
/// nudged by one speed along or against the right or local-up axis.
pub open spec fn orbit_dir(c: CtrlV, cam: CamV, key: Key) -> V3 {
    let fwd_n = v3_normalize(v3_sub(cam.target, cam.eye));
    let offs_r = v3_scale_div(orbit_right_axis(cam), c.speed, SCALE as int);
    let offs_u = v3_scale_div(orbit_up_axis(cam), c.speed, SCALE as int);
    match key {
        Key::KeyJ => v3_add(fwd_n, offs_r),
        Key::KeyL => v3_sub(fwd_n, offs_r),
        Key::KeyI => v3_add(fwd_n, offs_u),
        Key::KeyK => v3_sub(fwd_n, offs_u),
        _ => fwd_n,
    }
}

/// With any nonempty set of orbit flags held and nothing else, the
/// eye is rebuilt from the captured radius: the target minus the
/// steered unit direction of the last-running held flag, scaled back
/// to the pre-orbit distance.
pub proof fn lemma_orbit_form(c: CtrlV, cam: CamV)
    requires
        orbit_only(c),
    ensures
        spec_update(c, cam).eye == orbit_eye(
            cam.target,
            orbit_dir(c, cam, last_orbit_key(c)),
            v3_len(v3_sub(cam.target, cam.eye)),
        ),
        spec_update(c, cam).target == cam.target,
{
}

/// The orbit invariant, end to end: with any nonempty set of orbit
/// flags held and nothing else, the updated eye sits at the pre-tick
/// distance from the target, within the drift allowance, whenever
/// the radius and the steered direction are at least one unit.
pub proof fn lemma_orbit_update_keeps_radius(c: CtrlV, cam: CamV)
    requires
        orbit_only(c),
        v3_len(v3_sub(cam.target, cam.eye)) >= SCALE as int,
        v3_len(orbit_dir(c, cam, last_orbit_key(c))) >= SCALE as int,
    ensures
        spec_update(c, cam).target == cam.target,
        v3_len(v3_sub(cam.target, spec_update(c, cam).eye)) >= v3_len(
            v3_sub(cam.target, cam.eye),
        ) - radius_drift(v3_len(v3_sub(cam.target, cam.eye))),
        v3_len(v3_sub(cam.target, spec_update(c, cam).eye)) <= v3_len(
            v3_sub(cam.target, cam.eye),
        ) + radius_drift(v3_len(v3_sub(cam.target, cam.eye))),
{
    lemma_orbit_form(c, cam);
    lemma_orbit_preserves_radius(
        cam.target,
        orbit_dir(c, cam, last_orbit_key(c)),
        v3_len(v3_sub(cam.target, cam.eye)),
    );
}

} // verus!
