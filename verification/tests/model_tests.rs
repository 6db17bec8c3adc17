//! The mesh: square and cube construction and the vertex layout.

use orbitcam::fixed::SCALE;
use orbitcam::model::{Model, Vec2, Vec4, Vert, VertexFormat};

#[test]
fn square_has_expected_vertices_and_indices() {
    let m = Model::square(500_000);
    assert_eq!(m.verts.len(), 4);
    assert_eq!(m.indicies, vec![3, 2, 1, 3, 1, 0]);
    let s = 500_000;
    assert_eq!((m.verts[0].pos.x, m.verts[0].pos.y, m.verts[0].pos.z), (s, s, 0));
    assert_eq!((m.verts[1].pos.x, m.verts[1].pos.y), (s, -s));
    assert_eq!((m.verts[2].pos.x, m.verts[2].pos.y), (-s, -s));
    assert_eq!((m.verts[3].pos.x, m.verts[3].pos.y), (-s, s));
    // Texture corners.
    assert_eq!((m.verts[0].tex_coords.x, m.verts[0].tex_coords.y), (SCALE, 0));
    assert_eq!((m.verts[2].tex_coords.x, m.verts[2].tex_coords.y), (0, SCALE));
    for v in &m.verts {
        assert_eq!(v.pos.w, SCALE);
        assert_eq!((v.color.x, v.color.y, v.color.z, v.color.w), (SCALE, SCALE, SCALE, SCALE));
    }
}

#[test]
fn square_clamps_oversized_half_side() {
    let m = Model::square(5 * SCALE);
    assert_eq!(m.verts[0].pos.x, SCALE);
    let m2 = Model::square(-5 * SCALE);
    assert_eq!(m2.verts[0].pos.x, -SCALE);
}

#[test]
fn cube_has_24_vertices_and_36_valid_indices() {
    let m = Model::cube(500_000);
    assert_eq!(m.verts.len(), 24);
    assert_eq!(m.indicies.len(), 36);
    for &i in &m.indicies {
        assert!((i as usize) < m.verts.len());
    }
    // Two triangles per face, sharing the face's diagonal.
    assert_eq!(&m.indicies[0..6], &[0, 1, 2, 2, 3, 0]);
    assert_eq!(&m.indicies[30..36], &[20, 21, 22, 22, 23, 20]);
}

#[test]
fn cube_corners_sit_on_the_half_side() {
    let s = 250_000;
    let m = Model::cube(s);
    for v in &m.verts {
        assert!(v.pos.x == s || v.pos.x == -s);
        assert!(v.pos.y == s || v.pos.y == -s);
        assert!(v.pos.z == s || v.pos.z == -s);
        assert_eq!(v.pos.w, SCALE);
        assert!(v.tex_coords.x == 0 || v.tex_coords.x == SCALE);
        assert!(v.tex_coords.y == 0 || v.tex_coords.y == SCALE);
    }
    // Spot checks against the layout of the first face.
    assert_eq!((m.verts[0].pos.x, m.verts[0].pos.y, m.verts[0].pos.z), (-s, -s, s));
    assert_eq!((m.verts[2].pos.x, m.verts[2].pos.y, m.verts[2].pos.z), (s, s, s));
}

#[test]
fn vert_new_assembles_parts() {
    let v = Vert::new(
        Vec4 { x: 1, y: 2, z: 3, w: 4 },
        Vec4 { x: 5, y: 6, z: 7, w: 8 },
        Vec2 { x: 9, y: 10 },
    );
    assert_eq!((v.pos.x, v.pos.y, v.pos.z, v.pos.w), (1, 2, 3, 4));
    assert_eq!((v.color.x, v.color.w), (5, 8));
    assert_eq!((v.tex_coords.x, v.tex_coords.y), (9, 10));
}

#[test]
fn vertex_layout_is_bit_exact() {
    let d = Vert::desc();
    assert_eq!(d.array_stride, 40);
    assert_eq!(d.attributes.len(), 3);
    assert_eq!(d.attributes[0].offset, 0);
    assert_eq!(d.attributes[0].shader_location, 0);
    assert_eq!(d.attributes[0].format, VertexFormat::Float32x4);
    assert_eq!(d.attributes[1].offset, 16);
    assert_eq!(d.attributes[1].shader_location, 1);
    assert_eq!(d.attributes[1].format, VertexFormat::Float32x4);
    assert_eq!(d.attributes[2].offset, 32);
    assert_eq!(d.attributes[2].shader_location, 2);
    assert_eq!(d.attributes[2].format, VertexFormat::Float32x2);
}
