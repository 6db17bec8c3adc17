//! The orbit camera: pose, projection parameters and reset.
//!
//! Positions are fixed-point vectors in millionths; the aspect ratio
//! is kept as the exact integer pair reported by the window, so a
//! resize updates it without rounding.

use vstd::prelude::*;
use crate::binding::{BindGroupEntry, BindGroupLayout, BindingKind, ShaderStage};
use crate::fixed::{divt, lemma_divt_bound, lemma_divt_quotient_bound, mul_div, SCALE};
use crate::mat4::{m4_bounded, m4_identity, mat_mul, mat_mul_x, Mat4, M4};
use crate::vec3::{
    lemma_mul_range, v3, v3_bounded, v3_cross, v3_cross_x, v3_dot, v3_dot_x, v3_normalize,
    v3_normalize_x, v3_sub, v3_sub_x, V3, Vec3,
};

verus! {

/// Coordinate bound under which a camera is accepted by the update
/// and projection routines; one tick of movement and two matrix
/// products keep every intermediate inside the machine range.
pub const CAM_LIMIT: i64 = 500_000_000_000;

/// Largest pixel dimension the camera accepts for its aspect ratio.
pub const DIM_LIMIT: u32 = 65_535;

/// Bound on the entries of the projection matrix.
pub const PROJ_LIMIT: i64 = 160_000_000_000;

/// Bound on the entries of the view matrix.
pub const VIEW_LIMIT: i64 = 3_100_000_000_000;

/// Bound on the entries of the projection-times-view product.
pub const VP_LIMIT: i64 = 2_000_000_000_000_000_000;

/// Vertical field of view in microradians: a quarter turn of pi.
pub const FOVY: i64 = 785_398;

/// Reciprocal tangent of half [`FOVY`], in millionths: the focal
/// length of the projection, precomputed for the one field of view
/// the camera is created with.
pub const FOCAL: i64 = 2_414_213;

/// Near clip plane distance in millionths (one tenth of a unit).
pub const ZNEAR: i64 = 100_000;

/// Far clip plane distance in millionths (one hundred units).
pub const ZFAR: i64 = 100_000_000;

/// Distance of the canonical eye from the origin along `z`, in
/// millionths (two units).
pub const EYE_Z: i64 = 2_000_000;

/// Exact aspect ratio of the surface, as the integer pixel pair.
#[derive(Clone, Copy, Debug, PartialEq, Eq, Structural)]
pub struct Aspect {
    pub num: u32,
    pub den: u32,
}

/// Mathematical model of an aspect ratio.
pub struct AspectV {
    pub num: int,
    pub den: int,
}

impl View for Aspect {
    type V = AspectV;

    open spec fn view(&self) -> AspectV {
        AspectV { num: self.num as int, den: self.den as int }
    }
}

/// The orbit camera.
#[derive(Clone, Copy, Debug, PartialEq, Eq, Structural)]
pub struct Camera {
    pub eye: Vec3,
    pub target: Vec3,
    pub up: Vec3,
    pub aspect: Aspect,
    pub fovy: i64,
    pub znear: i64,
    pub zfar: i64,
}

/// Mathematical model of a camera.
pub struct CamV {
    pub eye: V3,
    pub target: V3,
    pub up: V3,
    pub aspect: AspectV,
    pub fovy: int,
    pub znear: int,
    pub zfar: int,
}

impl View for Camera {
    type V = CamV;

    open spec fn view(&self) -> CamV {
        CamV {
            eye: self.eye@,
            target: self.target@,
            up: self.up@,
            aspect: self.aspect@,
            fovy: self.fovy as int,
            znear: self.znear as int,
            zfar: self.zfar as int,
        }
    }
}

/// The canonical eye position: two units back along `z`.
pub open spec fn canonical_eye() -> V3 {
    v3(0, 0, EYE_Z as int)
}

/// The canonical look target: the origin.
pub open spec fn canonical_target() -> V3 {
    v3(0, 0, 0)
}

/// The invariant of a camera: positions in range, the fixed unit `up`
/// axis, positive ordered clip planes, a nonzero aspect ratio, and
/// the one field of view the focal constant was computed for.
pub open spec fn cam_wf(c: CamV) -> bool {
    &&& v3_bounded(c.eye, CAM_LIMIT as int)
    &&& v3_bounded(c.target, CAM_LIMIT as int)
    &&& c.up == v3(0, SCALE as int, 0)
    &&& 1 <= c.aspect.num <= DIM_LIMIT
    &&& 1 <= c.aspect.den <= DIM_LIMIT
    &&& c.fovy == FOVY
    &&& 0 < c.znear < c.zfar
    &&& c.znear == ZNEAR
    &&& c.zfar == ZFAR
}

/// What `reset_view` does: restore the canonical eye and target and
/// keep every other parameter.
pub open spec fn cam_reset(c: CamV) -> CamV {
    CamV { eye: canonical_eye(), target: canonical_target(), ..c }
}

/// The camera a fresh session starts from: the canonical pose with
/// the surface's aspect ratio and the fixed projection parameters.
pub open spec fn canonical_cam(width: int, height: int) -> CamV {
    CamV {
        eye: canonical_eye(),
        target: canonical_target(),
        up: v3(0, SCALE as int, 0),
        aspect: AspectV { num: width, den: height },
        fovy: FOVY as int,
        znear: ZNEAR as int,
        zfar: ZFAR as int,
    }
}

impl Camera {
    /// A fresh camera for a surface of the given pixel size: the
    /// canonical pose with the surface's exact aspect ratio.
    pub fn new(width: u32, height: u32) -> (r: Camera)
        requires
            1 <= width <= DIM_LIMIT,
            1 <= height <= DIM_LIMIT,
        ensures
            r@ == canonical_cam(width as int, height as int),
            cam_wf(r@),
    {
        Camera {
            eye: Vec3 { x: 0, y: 0, z: EYE_Z },
            target: Vec3 { x: 0, y: 0, z: 0 },
            up: Vec3 { x: 0, y: SCALE, z: 0 },
            aspect: Aspect { num: width, den: height },
            fovy: FOVY,
            znear: ZNEAR,
            zfar: ZFAR,
        }
    }

    /// Restores the canonical eye and target whatever the prior pose;
    /// projection parameters are untouched.
    pub fn reset_view(&mut self)
        ensures
            final(self)@ == cam_reset(old(self)@),
    {
        self.eye = Vec3 { x: 0, y: 0, z: EYE_Z };
        self.target = Vec3 { x: 0, y: 0, z: 0 };
    }

    /// Runtime check of the camera invariant, for callers outside
    /// verified code.
    pub fn well_formed(&self) -> (r: bool)
        ensures
            r == cam_wf(self@),
    {
        let b = -CAM_LIMIT <= self.eye.x && self.eye.x <= CAM_LIMIT && -CAM_LIMIT <= self.eye.y
            && self.eye.y <= CAM_LIMIT && -CAM_LIMIT <= self.eye.z && self.eye.z <= CAM_LIMIT
            && -CAM_LIMIT <= self.target.x && self.target.x <= CAM_LIMIT && -CAM_LIMIT
            <= self.target.y && self.target.y <= CAM_LIMIT && -CAM_LIMIT <= self.target.z
            && self.target.z <= CAM_LIMIT;
        b && self.up.x == 0 && self.up.y == SCALE && self.up.z == 0 && self.aspect.num >= 1
            && self.aspect.num <= DIM_LIMIT && self.aspect.den >= 1 && self.aspect.den <= DIM_LIMIT
            && self.znear == ZNEAR && self.zfar == ZFAR && self.fovy == FOVY
    }

    /// The right-handed view-projection matrix: the perspective
    /// projection composed with the look-at transform, both in fixed
    /// point.
    pub fn view_proj_matrix(&self) -> (r: Mat4)
        requires
            cam_wf(self@),
        ensures
            r@ == spec_view_proj(self@),
            m4_bounded(r@, VP_LIMIT as int),
    {
        let view: Mat4 = view_mat(self);
        let proj: Mat4 = proj_mat(self);
        mat_mul_x(
            &proj,
            &view,
            Ghost(PROJ_LIMIT as int),
            Ghost(VIEW_LIMIT as int),
            Ghost(VP_LIMIT as int),
        )
    }
}

/// The look-at view transform, in the model: orthonormal-in-fixed-
/// point rows built from the view direction, and translations that
/// carry the eye to the origin.
pub open spec fn spec_view_mat(c: CamV) -> M4 {
    let f = v3_normalize(v3_sub(c.target, c.eye));
    let s = v3_normalize(v3_cross(f, c.up));
    let u = v3_cross(s, f);
    M4 {
        c0r0: s.x,
        c0r1: u.x,
        c0r2: -f.x,
        c0r3: 0,
        c1r0: s.y,
        c1r1: u.y,
        c1r2: -f.y,
        c1r3: 0,
        c2r0: s.z,
        c2r1: u.z,
        c2r2: -f.z,
        c2r3: 0,
        c3r0: -v3_dot(c.eye, s),
        c3r1: -v3_dot(c.eye, u),
        c3r2: v3_dot(c.eye, f),
        c3r3: SCALE as int,
    }
}

/// The right-handed perspective projection, in the model: focal
/// terms on the diagonal and the depth mapping of the clip planes in
/// the third and fourth columns.  The clip-space correction is
/// folded in here: depth lands directly on the device's zero-to-one
/// range, so the remap between depth conventions happens exactly
/// once in the pipeline.
pub open spec fn spec_proj_mat(c: CamV) -> M4 {
    let w = divt((FOCAL as int) * c.aspect.den, c.aspect.num);
    let r = divt(c.zfar * (SCALE as int), c.znear - c.zfar);
    M4 {
        c0r0: w,
        c0r1: 0,
        c0r2: 0,
        c0r3: 0,
        c1r0: 0,
        c1r1: FOCAL as int,
        c1r2: 0,
        c1r3: 0,
        c2r0: 0,
        c2r1: 0,
        c2r2: r,
        c2r3: -(SCALE as int),
        c3r0: 0,
        c3r1: 0,
        c3r2: divt(r * c.znear, SCALE as int),
        c3r3: 0,
    }
}

/// Projection times view: what `view_proj_matrix` returns, and what
/// the uniform carries to the device.
pub open spec fn spec_view_proj(c: CamV) -> M4 {
    mat_mul(spec_proj_mat(c), spec_view_mat(c))
}

/// A three-term fixed-point dot product of bounded vectors stays
/// within the given quotient bound.
proof fn lemma_dot_in_bound(a: V3, b: V3, ma: int, mb: int, c: int)
    requires
        0 <= ma,
        0 <= mb,
        0 <= c,
        v3_bounded(a, ma),
        v3_bounded(b, mb),
        3 * (ma * mb) <= c * (SCALE as int),
    ensures
        -c <= v3_dot(a, b) <= c,
{
    lemma_mul_range(a.x, b.x, ma, mb);
    lemma_mul_range(a.y, b.y, ma, mb);
    lemma_mul_range(a.z, b.z, ma, mb);
    lemma_divt_quotient_bound(a.x * b.x + a.y * b.y + a.z * b.z, SCALE as int, c);
}

/// The look-at view transform, executable.
fn view_mat(cam: &Camera) -> (r: Mat4)
    requires
        cam_wf(cam@),
    ensures
        r@ == spec_view_mat(cam@),
        m4_bounded(r@, VIEW_LIMIT as int),
{
    let fwd_raw: Vec3 = v3_sub_x(&cam.target, &cam.eye);
    let f: Vec3 = v3_normalize_x(&fwd_raw);
    proof {
        crate::controller::lemma_cross_of_units(f@, cam.up@);
    }
    let s_raw: Vec3 = v3_cross_x(&f, &cam.up);
    let s: Vec3 = v3_normalize_x(&s_raw);
    proof {
        crate::controller::lemma_cross_of_units(s@, f@);
        lemma_dot_in_bound(cam.eye@, s@, CAM_LIMIT as int, SCALE as int, 3 * CAM_LIMIT as int);
        lemma_dot_in_bound(cam.eye@, f@, CAM_LIMIT as int, SCALE as int, 3 * CAM_LIMIT as int);
    }
    let u: Vec3 = v3_cross_x(&s, &f);
    proof {
        lemma_dot_in_bound(
            cam.eye@,
            u@,
            CAM_LIMIT as int,
            2 * SCALE as int,
            6 * CAM_LIMIT as int,
        );
    }
    let tx: i64 = v3_dot_x(&cam.eye, &s);
    let ty: i64 = v3_dot_x(&cam.eye, &u);
    let tz: i64 = v3_dot_x(&cam.eye, &f);
    Mat4 {
        c0r0: s.x,
        c0r1: u.x,
        c0r2: -f.x,
        c0r3: 0,
        c1r0: s.y,
        c1r1: u.y,
        c1r2: -f.y,
        c1r3: 0,
        c2r0: s.z,
        c2r1: u.z,
        c2r2: -f.z,
        c2r3: 0,
        c3r0: -tx,
        c3r1: -ty,
        c3r2: tz,
        c3r3: SCALE,
    }
}

/// The perspective projection, executable.
fn proj_mat(cam: &Camera) -> (r: Mat4)
    requires
        cam_wf(cam@),
    ensures
        r@ == spec_proj_mat(cam@),
        m4_bounded(r@, PROJ_LIMIT as int),
{
    proof {
        lemma_mul_range(FOCAL as int, cam.aspect.den as int, FOCAL as int, DIM_LIMIT as int);
        lemma_divt_bound(
            (FOCAL as int) * (cam.aspect.den as int),
            cam.aspect.num as int,
            (FOCAL as int) * (DIM_LIMIT as int),
        );
    }
    let w: i64 = mul_div(FOCAL, cam.aspect.den as i64, cam.aspect.num as i64);
    proof {
        vstd::arithmetic::div_mod::lemma_fundamental_div_mod_converse(
            100_000_000_000_000int,
            99_900_000int,
            1_001_001int,
            100_000int,
        );
    }
    let r_: i64 = mul_div(cam.zfar, SCALE, cam.znear - cam.zfar);
    proof {
        assert(r_ == -1_001_001);
        vstd::arithmetic::div_mod::lemma_fundamental_div_mod_converse(
            100_100_100_000int,
            1_000_000int,
            100_100int,
            100_000int,
        );
    }
    let depth_bias: i64 = mul_div(r_, cam.znear, SCALE);
    Mat4 {
        c0r0: w,
        c0r1: 0,
        c0r2: 0,
        c0r3: 0,
        c1r0: 0,
        c1r1: FOCAL,
        c1r2: 0,
        c1r3: 0,
        c2r0: 0,
        c2r1: 0,
        c2r2: r_,
        c2r3: -SCALE,
        c3r0: 0,
        c3r1: 0,
        c3r2: depth_bias,
        c3r3: 0,
    }
}

/// The device-facing copy of the view-projection matrix, refreshed
/// once per tick.
#[derive(Clone, Copy, Debug, PartialEq, Eq, Structural)]
pub struct CameraUniform {
    pub view_proj: Mat4,
}

impl CameraUniform {
    /// A fresh uniform holding the identity.
    pub fn new() -> (r: CameraUniform)
        ensures
            r.view_proj@ == m4_identity(),
    {
        CameraUniform { view_proj: Mat4::identity() }
    }

    /// Refreshes the uniform: a copy of the camera's
    /// view-projection, whose projection already maps depth onto the
    /// device's range, so no further correction is applied.
    pub fn update_view_proj(&mut self, camera: &Camera)
        requires
            cam_wf(camera@),
        ensures
            final(self).view_proj@ == spec_view_proj(camera@),
    {
        self.view_proj = camera.view_proj_matrix();
    }

    /// The layout of the camera resource group: one uniform buffer
    /// at binding zero, visible to the vertex stage only.
    pub fn bind_desc(&self) -> (r: BindGroupLayout)
        ensures
            r.entries@.len() == 1,
            r.entries@[0] == (BindGroupEntry {
                binding: 0,
                visibility: ShaderStage::Vertex,
                kind: BindingKind::UniformBuffer,
            }),
    {
        let mut entries: Vec<BindGroupEntry> = Vec::new();
        entries.push(
            BindGroupEntry {
                binding: 0,
                visibility: ShaderStage::Vertex,
                kind: BindingKind::UniformBuffer,
            },
        );
        BindGroupLayout { entries }
    }
}

} // verus!
