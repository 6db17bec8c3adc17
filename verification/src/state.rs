//! The session state: everything the render loop decides with.
//!
//! `State` owns the logical side of the program — surface
//! configuration, camera, controller, uniform, mesh and the halt
//! latch — and exposes the four operations the event loop drives:
//! construction, resize, the per-tick update, and the reaction to a
//! frame's outcome.  The device objects themselves live with the
//! caller, which mirrors every decision recorded here.

use vstd::prelude::*;
use crate::camera::{
    cam_reset, cam_wf, canonical_cam, spec_view_proj, Aspect, AspectV, CamV, Camera,
    CameraUniform, DIM_LIMIT,
};
use crate::controller::{ctrl_wf, spec_update, CameraController, CtrlV};
use crate::frame::{classify, spec_frame_action, AcquireError, ErrorKind, FrameAction};
use crate::model::{cube_indices, cube_verts, Model};
use crate::surface::{chosen_index, choose_format, config_wf, SurfaceConfig};

verus! {

/// The controller speed a fresh session starts with: a fiftieth of a
/// unit per tick.
pub const DEFAULT_SPEED: i64 = 20_000;

/// Half-side of the session's cube model: half a unit.
pub const CUBE_HALF: i64 = 500_000;

/// The logical program state.
#[derive(Clone, Debug, PartialEq, Eq)]
pub struct State {
    pub config: SurfaceConfig,
    pub camera: Camera,
    pub camera_uniform: CameraUniform,
    pub camera_controller: CameraController,
    pub model: Model,
    pub halted: bool,
}

/// The session invariant: a lawful controller and a usable surface
/// configuration.
pub open spec fn state_wf(s: State) -> bool {
    &&& ctrl_wf(s.camera_controller@)
    &&& config_wf(s.config)
}

impl State {
    /// A fresh session for a surface of the given size, negotiating
    /// the pixel format from the reported sRGB capabilities: the
    /// canonical camera, a cleared controller, an up-to-date
    /// uniform, the cube model, and the loop running.
    pub fn new(width: u32, height: u32, srgb_formats: &Vec<bool>) -> (r: State)
        requires
            1 <= width <= DIM_LIMIT,
            1 <= height <= DIM_LIMIT,
            srgb_formats@.len() > 0,
        ensures
            r.config == (SurfaceConfig {
                width,
                height,
                format_index: chosen_index(srgb_formats@) as usize,
            }),
            r.camera@ == canonical_cam(width as int, height as int),
            cam_wf(r.camera@),
            r.camera_uniform.view_proj@ == spec_view_proj(r.camera@),
            r.camera_controller@ == (CtrlV {
                speed: DEFAULT_SPEED as int,
                up_pressed: false,
                down_pressed: false,
                left_pressed: false,
                right_pressed: false,
                i_pressed: false,
                k_pressed: false,
                j_pressed: false,
                l_pressed: false,
                reset_pressed: false,
            }),
            r.model.verts@ == cube_verts(CUBE_HALF),
            r.model.indicies@ == cube_indices(),
            !r.halted,
            state_wf(r),
    {
        let camera: Camera = Camera::new(width, height);
        let mut camera_uniform: CameraUniform = CameraUniform::new();
        camera_uniform.update_view_proj(&camera);
        let camera_controller: CameraController = CameraController::new(DEFAULT_SPEED);
        let model: Model = Model::cube(CUBE_HALF);
        let format_index: usize = match choose_format(srgb_formats) {
            Some(i) => i,
            None => 0,
        };
        State {
            config: SurfaceConfig { width, height, format_index },
            camera,
            camera_uniform,
            camera_controller,
            model,
            halted: false,
        }
    }

    /// Applies a resize notification.  A zero dimension is ignored
    /// outright: no reconfiguration and no aspect change.  Otherwise
    /// the configuration takes the new size, the camera's aspect
    /// ratio becomes exactly the new pixel pair, and the uniform is
    /// refreshed for any camera the projection accepts.
    pub fn resize(&mut self, width: u32, height: u32)
        requires
            state_wf(*old(self)),
            width <= DIM_LIMIT,
            height <= DIM_LIMIT,
        ensures
            state_wf(*final(self)),
            (width == 0 || height == 0) ==> *final(self) == *old(self),
            (width > 0 && height > 0) ==> final(self).config == (SurfaceConfig {
                width,
                height,
                format_index: old(self).config.format_index,
            }),
            (width > 0 && height > 0) ==> final(self).camera@ == (CamV {
                aspect: AspectV { num: width as int, den: height as int },
                ..old(self).camera@
            }),
            (width > 0 && height > 0 && cam_wf(final(self).camera@))
                ==> final(self).camera_uniform.view_proj@ == spec_view_proj(final(self).camera@),
            (width > 0 && height > 0 && !cam_wf(final(self).camera@))
                ==> final(self).camera_uniform == old(self).camera_uniform,
            final(self).camera_controller == old(self).camera_controller,
            final(self).model == old(self).model,
            final(self).halted == old(self).halted,
    {
        if width > 0 && height > 0 {
            self.config = SurfaceConfig { width, height, format_index: self.config.format_index };
            self.camera = Camera { aspect: Aspect { num: width, den: height }, ..self.camera };
            if self.camera.well_formed() {
                self.camera_uniform.update_view_proj(&self.camera);
            }
        }
    }

    /// One tick: the controller moves the camera in the fixed model
    /// order, then the uniform is recomputed.  A camera outside the
    /// range the fixed-point routines accept is left untouched —
    /// except that a held reset key still restores the canonical
    /// pose first, so the reset works whatever the prior state.  The
    /// uniform keeps its old value when the resulting pose is out of
    /// range.
    pub fn update(&mut self)
        requires
            state_wf(*old(self)),
        ensures
            state_wf(*final(self)),
            cam_wf(old(self).camera@) ==> final(self).camera@ == spec_update(
                old(self).camera_controller@,
                old(self).camera@,
            ),
            (!cam_wf(old(self).camera@) && old(self).camera_controller.reset_pressed && cam_wf(
                cam_reset(old(self).camera@),
            )) ==> final(self).camera@ == spec_update(
                old(self).camera_controller@,
                old(self).camera@,
            ),
            (!cam_wf(old(self).camera@) && old(self).camera_controller.reset_pressed && !cam_wf(
                cam_reset(old(self).camera@),
            )) ==> final(self).camera@ == cam_reset(old(self).camera@),
            (!cam_wf(old(self).camera@) && !old(self).camera_controller.reset_pressed)
                ==> final(self).camera == old(self).camera,
            cam_wf(final(self).camera@) ==> final(self).camera_uniform.view_proj@
                == spec_view_proj(final(self).camera@),
            !cam_wf(final(self).camera@)
                ==> final(self).camera_uniform == old(self).camera_uniform,
            final(self).camera_controller == old(self).camera_controller,
            final(self).config == old(self).config,
            final(self).model == old(self).model,
            final(self).halted == old(self).halted,
    {
        let ghost c = self.camera_controller@;
        let ghost m0 = self.camera@;
        if !self.camera.well_formed() && self.camera_controller.reset_pressed {
            self.camera.reset_view();
        }
        if self.camera.well_formed() {
            let ctrl: CameraController = self.camera_controller;
            ctrl.update_camera(&mut self.camera);
            proof {
                if !cam_wf(m0) {
                    assert(crate::controller::step_reset(c, cam_reset(m0))
                        == crate::controller::step_reset(c, m0));
                    assert(spec_update(c, cam_reset(m0)) == spec_update(c, m0));
                }
            }
        }
        if self.camera.well_formed() {
            self.camera_uniform.update_view_proj(&self.camera);
        }
    }

    /// Reacts to one frame's outcome.  A halted session stays halted
    /// and asks for nothing else; otherwise the policy of
    /// [`spec_frame_action`] decides, and a fatal device condition
    /// latches the halt so no further frame is attempted.
    pub fn handle_frame(&mut self, r: &Result<(), AcquireError>) -> (a: FrameAction)
        ensures
            old(self).halted ==> a == FrameAction::Halt && *final(self) == *old(self),
            !old(self).halted ==> a == spec_frame_action(*r),
            !old(self).halted ==> final(self).halted == (a == FrameAction::Halt),
            final(self).config == old(self).config,
            final(self).camera == old(self).camera,
            final(self).camera_uniform == old(self).camera_uniform,
            final(self).camera_controller == old(self).camera_controller,
            final(self).model == old(self).model,
    {
        if self.halted {
            return FrameAction::Halt;
        }
        match r {
            Result::Ok(_) => FrameAction::Presented,
            Result::Err(e) => match classify(e) {
                ErrorKind::SurfaceStale => FrameAction::Reconfigure,
                ErrorKind::SurfaceTimeout => FrameAction::SkipFrame,
                ErrorKind::DeviceExhausted => {
                    self.halted = true;
                    FrameAction::Halt
                },
            },
        }
    }
}

} // verus!
