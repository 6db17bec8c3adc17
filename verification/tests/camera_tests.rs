//! The camera: canonical pose, reset, and the reference
//! view-projection matrix.

use orbitcam::binding::{texture_bind_desc, BindingKind, ShaderStage};
use orbitcam::camera::{Camera, CameraUniform, EYE_Z, FOVY, ZFAR, ZNEAR};
use orbitcam::fixed::SCALE;
use orbitcam::mat4::Mat4;
use orbitcam::vec3::Vec3;

fn to_f32(x: i64) -> f32 {
    x as f32 / SCALE as f32
}

fn mat_to_array(m: &Mat4) -> [f32; 16] {
    let v = m.to_cols_vec();
    let mut out = [0.0f32; 16];
    for i in 0..16 {
        out[i] = to_f32(v[i]);
    }
    out
}

#[test]
fn new_camera_is_canonical() {
    let c = Camera::new(800, 600);
    assert_eq!((c.eye.x, c.eye.y, c.eye.z), (0, 0, EYE_Z));
    assert_eq!((c.target.x, c.target.y, c.target.z), (0, 0, 0));
    assert_eq!((c.up.x, c.up.y, c.up.z), (0, SCALE, 0));
    assert_eq!((c.aspect.num, c.aspect.den), (800, 600));
    assert_eq!(c.fovy, FOVY);
    assert_eq!(c.znear, ZNEAR);
    assert_eq!(c.zfar, ZFAR);
}

#[test]
fn reset_view_restores_canonical_pose() {
    let mut c = Camera::new(640, 480);
    c.eye = Vec3::new(123_456, -789_000, 4_000_000);
    c.target = Vec3::new(-50_000, 60_000, -70_000);
    c.reset_view();
    assert_eq!((c.eye.x, c.eye.y, c.eye.z), (0, 0, EYE_Z));
    assert_eq!((c.target.x, c.target.y, c.target.z), (0, 0, 0));
    // Projection parameters are untouched by a reset.
    assert_eq!((c.aspect.num, c.aspect.den), (640, 480));
}

#[test]
fn view_projection_matches_reference() {
    // The canonical camera: eye (0,0,2), target at the origin, up
    // (0,1,0), a quarter-pi field of view, aspect 1, near 0.1,
    // far 100.
    let c = Camera::new(1, 1);
    let got = mat_to_array(&c.view_proj_matrix());
    let view = glam::camera::rh::view::look_at_mat4(
        glam::Vec3::new(0.0, 0.0, 2.0),
        glam::Vec3::ZERO,
        glam::Vec3::Y,
    );
    let proj =
        glam::camera::rh::proj::directx::perspective(std::f32::consts::FRAC_PI_4, 1.0, 0.1, 100.0);
    let want = (proj * view).to_cols_array();
    for i in 0..16 {
        assert!(
            (got[i] - want[i]).abs() < 1e-3,
            "entry {}: got {} want {}",
            i,
            got[i],
            want[i]
        );
    }
}

#[test]
fn view_projection_nontrivial_pose_matches_reference() {
    let mut c = Camera::new(800, 600);
    c.eye = Vec3::new(500_000, 300_000, 1_200_000);
    c.target = Vec3::new(-100_000, 50_000, 0);
    let got = mat_to_array(&c.view_proj_matrix());
    let view = glam::camera::rh::view::look_at_mat4(
        glam::Vec3::new(0.5, 0.3, 1.2),
        glam::Vec3::new(-0.1, 0.05, 0.0),
        glam::Vec3::Y,
    );
    let proj = glam::camera::rh::proj::directx::perspective(
        std::f32::consts::FRAC_PI_4,
        800.0 / 600.0,
        0.1,
        100.0,
    );
    let want = (proj * view).to_cols_array();
    for i in 0..16 {
        assert!(
            (got[i] - want[i]).abs() < 1e-3,
            "entry {}: got {} want {}",
            i,
            got[i],
            want[i]
        );
    }
}

#[test]
fn fresh_uniform_is_identity() {
    let u = CameraUniform::new();
    let v = u.view_proj.to_cols_vec();
    for col in 0..4 {
        for row in 0..4 {
            let want = if col == row { SCALE } else { 0 };
            assert_eq!(v[col * 4 + row], want);
        }
    }
}

#[test]
fn uniform_copies_view_projection_with_single_remap() {
    // The projection already maps depth onto the device's [0, 1]
    // range, so the uniform is exactly the view-projection: the
    // depth-convention remap happens once, not twice.
    let c = Camera::new(1, 1);
    let mut u = CameraUniform::new();
    u.update_view_proj(&c);
    assert_eq!(u.view_proj, c.view_proj_matrix());
    let got = mat_to_array(&u.view_proj);
    let view = glam::camera::rh::view::look_at_mat4(
        glam::Vec3::new(0.0, 0.0, 2.0),
        glam::Vec3::ZERO,
        glam::Vec3::Y,
    );
    let proj =
        glam::camera::rh::proj::directx::perspective(std::f32::consts::FRAC_PI_4, 1.0, 0.1, 100.0);
    let want = (proj * view).to_cols_array();
    for i in 0..16 {
        assert!(
            (got[i] - want[i]).abs() < 1e-3,
            "entry {}: got {} want {}",
            i,
            got[i],
            want[i]
        );
    }
    // The depth column is the device-range mapping, applied once:
    // zfar / (znear - zfar) is about -1.001, not the -0.5005 a
    // second remap would produce.
    assert!((got[10] - (-1.001001)).abs() < 1e-3);
}

#[test]
fn cols_vec_is_column_major() {
    let m = Mat4 {
        c0r0: 1,
        c0r1: 2,
        c0r2: 3,
        c0r3: 4,
        c1r0: 5,
        c1r1: 6,
        c1r2: 7,
        c1r3: 8,
        c2r0: 9,
        c2r1: 10,
        c2r2: 11,
        c2r3: 12,
        c3r0: 13,
        c3r1: 14,
        c3r2: 15,
        c3r3: 16,
    };
    let v = m.to_cols_vec();
    let want: Vec<i64> = (1..=16).collect();
    assert_eq!(v, want);
}

#[test]
fn degenerate_camera_does_not_panic() {
    // Eye equal to the target: the result is unspecified but the
    // computation must complete.
    let mut c = Camera::new(1, 1);
    c.target = c.eye;
    let _ = c.view_proj_matrix();
}

#[test]
fn camera_bind_group_layout_is_one_vertex_uniform() {
    let u = CameraUniform::new();
    let d = u.bind_desc();
    assert_eq!(d.entries.len(), 1);
    assert_eq!(d.entries[0].binding, 0);
    assert_eq!(d.entries[0].visibility, ShaderStage::Vertex);
    assert_eq!(d.entries[0].kind, BindingKind::UniformBuffer);
}

#[test]
fn texture_bind_group_layout_is_texture_then_sampler() {
    let d = texture_bind_desc();
    assert_eq!(d.entries.len(), 2);
    assert_eq!(d.entries[0].binding, 0);
    assert_eq!(d.entries[0].visibility, ShaderStage::Fragment);
    assert_eq!(d.entries[0].kind, BindingKind::Texture2dFloat);
    assert_eq!(d.entries[1].binding, 1);
    assert_eq!(d.entries[1].visibility, ShaderStage::Fragment);
    assert_eq!(d.entries[1].kind, BindingKind::FilteringSampler);
}
