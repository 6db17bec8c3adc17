//! The mesh: fixed-point vertices, a textured square and cube, and
//! the bit-exact buffer layout the graphics pipeline consumes.

use vstd::prelude::*;
use crate::fixed::SCALE;

verus! {

/// A four-component fixed-point value: a position or a color.
#[derive(Clone, Copy, Debug, PartialEq, Eq, Structural)]
pub struct Vec4 {
    pub x: i64,
    pub y: i64,
    pub z: i64,
    pub w: i64,
}

/// A two-component fixed-point value: a texture coordinate.
#[derive(Clone, Copy, Debug, PartialEq, Eq, Structural)]
pub struct Vec2 {
    pub x: i64,
    pub y: i64,
}

/// One vertex: position, color and texture coordinates, all in
/// millionths.
#[derive(Clone, Copy, Debug, PartialEq, Eq, Structural)]
pub struct Vert {
    pub pos: Vec4,
    pub color: Vec4,
    pub tex_coords: Vec2,
}

/// The base vertex color: opaque white.
pub open spec fn base_color() -> Vec4 {
    Vec4 { x: SCALE, y: SCALE, z: SCALE, w: SCALE }
}

/// Negation within the fixed-point range.
pub open spec fn negi(a: i64) -> i64 {
    (0 - a) as i64
}

/// A vertex of a model: the given corner position with unit `w`, the
/// base color, and the given texture corner (each coordinate either
/// zero or one unit).
pub open spec fn corner(x: i64, y: i64, z: i64, u: i64, v: i64) -> Vert {
    Vert {
        pos: Vec4 { x, y, z, w: SCALE },
        color: base_color(),
        tex_coords: Vec2 { x: u, y: v },
    }
}

/// The model: an ordered vertex list and triangle-list indices into
/// it, immutable after construction.
#[derive(Clone, Debug, PartialEq, Eq)]
pub struct Model {
    pub verts: Vec<Vert>,
    pub indicies: Vec<u16>,
}

/// Every index points inside the vertex list.
pub open spec fn model_indices_valid(m: Model) -> bool {
    forall|i: int| 0 <= i < m.indicies@.len() ==> (m.indicies@[i] as int) < m.verts@.len()
}

/// The four vertices of the square of half-side `s`.
pub open spec fn square_verts(s: i64) -> Seq<Vert> {
    seq![
        corner(s, s, 0, SCALE, 0),
        corner(s, negi(s), 0, SCALE, SCALE),
        corner(negi(s), negi(s), 0, 0, SCALE),
        corner(negi(s), s, 0, 0, 0),
    ]
}

/// The indices of the square: two counter-clockwise triangles.
pub open spec fn square_indices() -> Seq<u16> {
    seq![3u16, 2u16, 1u16, 3u16, 1u16, 0u16]
}

/// The twenty-four vertices of the cube of half-side `s`: four per
/// face, textured corner to corner.
pub open spec fn cube_verts(s: i64) -> Seq<Vert> {
    seq![
        corner(negi(s), negi(s), s, 0, 0),
        corner(s, negi(s), s, SCALE, 0),
        corner(s, s, s, SCALE, SCALE),
        corner(negi(s), s, s, 0, SCALE),
        corner(negi(s), s, negi(s), SCALE, 0),
        corner(s, s, negi(s), 0, 0),
        corner(s, negi(s), negi(s), 0, SCALE),
        corner(negi(s), negi(s), negi(s), SCALE, SCALE),
        corner(s, negi(s), negi(s), 0, 0),
        corner(s, s, negi(s), SCALE, 0),
        corner(s, s, s, SCALE, SCALE),
        corner(s, negi(s), s, 0, SCALE),
        corner(negi(s), negi(s), s, SCALE, 0),
        corner(negi(s), s, s, 0, 0),
        corner(negi(s), s, negi(s), 0, SCALE),
        corner(negi(s), negi(s), negi(s), SCALE, SCALE),
        corner(s, s, negi(s), SCALE, 0),
        corner(negi(s), s, negi(s), 0, 0),
        corner(negi(s), s, s, 0, SCALE),
        corner(s, s, s, SCALE, SCALE),
        corner(s, negi(s), s, 0, 0),
        corner(negi(s), negi(s), s, SCALE, 0),
        corner(negi(s), negi(s), negi(s), SCALE, SCALE),
        corner(s, negi(s), negi(s), 0, SCALE),
    ]
}

/// The thirty-six indices of the cube: two triangles per face.
pub open spec fn cube_indices() -> Seq<u16> {
    seq![
        0u16, 1u16, 2u16, 2u16, 3u16, 0u16,
        4u16, 5u16, 6u16, 6u16, 7u16, 4u16,
        8u16, 9u16, 10u16, 10u16, 11u16, 8u16,
        12u16, 13u16, 14u16, 14u16, 15u16, 12u16,
        16u16, 17u16, 18u16, 18u16, 19u16, 16u16,
        20u16, 21u16, 22u16, 22u16, 23u16, 20u16,
    ]
}

/// The half-side clamped to the unit cube of device coordinates.
pub open spec fn clamped(size: i64) -> i64 {
    if size < negi(SCALE) {
        negi(SCALE)
    } else if size > SCALE {
        SCALE
    } else {
        size
    }
}

impl Vert {
    /// Builds a vertex from its parts.
    pub fn new(pos: Vec4, color: Vec4, uv: Vec2) -> (r: Vert)
        ensures
            r == (Vert { pos, color, tex_coords: uv }),
    {
        Vert { pos, color, tex_coords: uv }
    }

    /// The buffer layout of a vertex: forty bytes per record, the
    /// position at offset zero, the color after four floats, the
    /// texture coordinates after eight.
    pub fn desc() -> (r: VertexLayout)
        ensures
            r.array_stride == 40,
            r.attributes@.len() == 3,
            r.attributes@[0] == (VertexAttribute {
                offset: 0,
                shader_location: 0,
                format: VertexFormat::Float32x4,
            }),
            r.attributes@[1] == (VertexAttribute {
                offset: 16,
                shader_location: 1,
                format: VertexFormat::Float32x4,
            }),
            r.attributes@[2] == (VertexAttribute {
                offset: 32,
                shader_location: 2,
                format: VertexFormat::Float32x2,
            }),
    {
        let mut attributes: Vec<VertexAttribute> = Vec::new();
        attributes.push(
            VertexAttribute { offset: 0, shader_location: 0, format: VertexFormat::Float32x4 },
        );
        attributes.push(
            VertexAttribute { offset: 16, shader_location: 1, format: VertexFormat::Float32x4 },
        );
        attributes.push(
            VertexAttribute { offset: 32, shader_location: 2, format: VertexFormat::Float32x2 },
        );
        VertexLayout { array_stride: 40, attributes }
    }
}

/// The element format of one vertex attribute.
#[derive(Clone, Copy, Debug, PartialEq, Eq, Structural)]
pub enum VertexFormat {
    Float32x4,
    Float32x2,
}

/// One attribute of the vertex buffer layout.
#[derive(Clone, Copy, Debug, PartialEq, Eq, Structural)]
pub struct VertexAttribute {
    pub offset: u64,
    pub shader_location: u32,
    pub format: VertexFormat,
}

/// The vertex buffer layout: the record stride and the attributes.
#[derive(Clone, Debug, PartialEq, Eq)]
pub struct VertexLayout {
    pub array_stride: u64,
    pub attributes: Vec<VertexAttribute>,
}

/// Clamps the half-side to the unit cube.
fn clamp_size(size: i64) -> (r: i64)
    ensures
        r == clamped(size),
        -SCALE <= r <= SCALE,
{
    if size < -SCALE {
        -SCALE
    } else if size > SCALE {
        SCALE
    } else {
        size
    }
}

impl Model {
    /// A textured square of the given half-side, clamped to device
    /// coordinates: four vertices and two counter-clockwise
    /// triangles.
    pub fn square(size: i64) -> (r: Model)
        ensures
            r.verts@ == square_verts(clamped(size)),
            r.indicies@ == square_indices(),
            model_indices_valid(r),
    {
        let s: i64 = clamp_size(size);
        let mut verts: Vec<Vert> = Vec::new();
        verts.push(corner_x(s, s, 0, SCALE, 0));
        verts.push(corner_x(s, -s, 0, SCALE, SCALE));
        verts.push(corner_x(-s, -s, 0, 0, SCALE));
        verts.push(corner_x(-s, s, 0, 0, 0));
        let mut indicies: Vec<u16> = Vec::new();
        indicies.push(3);
        indicies.push(2);
        indicies.push(1);
        indicies.push(3);
        indicies.push(1);
        indicies.push(0);
        proof {
            assert(verts@ =~= square_verts(s));
            assert(indicies@ =~= square_indices());
        }
        Model { verts, indicies }
    }

    /// A textured cube of the given half-side, clamped to device
    /// coordinates: twenty-four vertices, four per face, and twelve
    /// triangles.
    pub fn cube(size: i64) -> (r: Model)
        ensures
            r.verts@ == cube_verts(clamped(size)),
            r.indicies@ == cube_indices(),
            model_indices_valid(r),
    {
        let s: i64 = clamp_size(size);
        let mut verts: Vec<Vert> = Vec::new();
        verts.push(corner_x(-s, -s, s, 0, 0));
        verts.push(corner_x(s, -s, s, SCALE, 0));
        verts.push(corner_x(s, s, s, SCALE, SCALE));
        verts.push(corner_x(-s, s, s, 0, SCALE));
        verts.push(corner_x(-s, s, -s, SCALE, 0));
        verts.push(corner_x(s, s, -s, 0, 0));
        verts.push(corner_x(s, -s, -s, 0, SCALE));
        verts.push(corner_x(-s, -s, -s, SCALE, SCALE));
        verts.push(corner_x(s, -s, -s, 0, 0));
        verts.push(corner_x(s, s, -s, SCALE, 0));
        verts.push(corner_x(s, s, s, SCALE, SCALE));
        verts.push(corner_x(s, -s, s, 0, SCALE));
        verts.push(corner_x(-s, -s, s, SCALE, 0));
        verts.push(corner_x(-s, s, s, 0, 0));
        verts.push(corner_x(-s, s, -s, 0, SCALE));
        verts.push(corner_x(-s, -s, -s, SCALE, SCALE));
        verts.push(corner_x(s, s, -s, SCALE, 0));
        verts.push(corner_x(-s, s, -s, 0, 0));
        verts.push(corner_x(-s, s, s, 0, SCALE));
        verts.push(corner_x(s, s, s, SCALE, SCALE));
        verts.push(corner_x(s, -s, s, 0, 0));
        verts.push(corner_x(-s, -s, s, SCALE, 0));
        verts.push(corner_x(-s, -s, -s, SCALE, SCALE));
        verts.push(corner_x(s, -s, -s, 0, SCALE));
        let mut indicies: Vec<u16> = Vec::new();
        indicies.push(0);
        indicies.push(1);
        indicies.push(2);
        indicies.push(2);
        indicies.push(3);
        indicies.push(0);
        indicies.push(4);
        indicies.push(5);
        indicies.push(6);
        indicies.push(6);
        indicies.push(7);
        indicies.push(4);
        indicies.push(8);
        indicies.push(9);
        indicies.push(10);
        indicies.push(10);
        indicies.push(11);
        indicies.push(8);
        indicies.push(12);
        indicies.push(13);
        indicies.push(14);
        indicies.push(14);
        indicies.push(15);
        indicies.push(12);
        indicies.push(16);
        indicies.push(17);
        indicies.push(18);
        indicies.push(18);
        indicies.push(19);
        indicies.push(16);
        indicies.push(20);
        indicies.push(21);
        indicies.push(22);
        indicies.push(22);
        indicies.push(23);
        indicies.push(20);
        proof {
            assert(verts@ =~= cube_verts(s));
            assert(indicies@ =~= cube_indices());
        }
        Model { verts, indicies }
    }
}

/// Builds one corner vertex.
fn corner_x(x: i64, y: i64, z: i64, u: i64, v: i64) -> (r: Vert)
    ensures
        r == corner(x, y, z, u, v),
{
    Vert {
        pos: Vec4 { x, y, z, w: SCALE },
        color: Vec4 { x: SCALE, y: SCALE, z: SCALE, w: SCALE },
        tex_coords: Vec2 { x: u, y: v },
    }
}

} // verus!
