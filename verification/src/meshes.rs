//! Meshes and drawable geometry.
//!
//! A mesh owns its vertex and index data plus a material; the GPU objects
//! that carry them (vertex array and buffers) are plain handles assigned by
//! the renderer.  The cube, square, skybox and screen-canvas builders
//! produce their geometry exactly: the contracts list every vertex and
//! index, and the cube's vertex normals are the unit axis vectors pointing
//! away from the cube's center.

use vstd::prelude::*;

use crate::algebra::{mat4_transform, rotation_mat, Vec3w, Vec4w, xform4_bits};
use crate::fbits::{
    add_bits, div_bits, f32_add, f32_div, F32_FIVE, F32_NEG_FIVE, F32_NEG_ONE, F32_ONE, F32_TWO,
    F32_ZERO,
};
use crate::textures::{CubeMap, Material, Texture2D};

verus! {

/// One vertex: position, normal and texture coordinates.
#[derive(Debug, Clone, Copy, PartialEq, Eq, Structural)]
pub struct Vertex {
    pub pos: Vec3w,
    pub normal: Vec3w,
    pub tex_coords: Vec3w,
}

impl Vertex {
    /// A vertex at a position, with zero normal and texture coordinates.
    pub fn new(posx: u32, posy: u32, posz: u32) -> (r: Vertex)
        ensures
            r == (Vertex {
                pos: Vec3w { x: posx, y: posy, z: posz },
                normal: Vec3w { x: F32_ZERO, y: F32_ZERO, z: F32_ZERO },
                tex_coords: Vec3w { x: F32_ZERO, y: F32_ZERO, z: F32_ZERO },
            }),
    {
        Vertex {
            pos: Vec3w { x: posx, y: posy, z: posz },
            normal: Vec3w { x: F32_ZERO, y: F32_ZERO, z: F32_ZERO },
            tex_coords: Vec3w { x: F32_ZERO, y: F32_ZERO, z: F32_ZERO },
        }
    }

    /// A vertex at a position given as a vector.
    pub fn from_vector(pos: Vec3w) -> (r: Vertex)
        ensures
            r == (Vertex {
                pos,
                normal: Vec3w { x: F32_ZERO, y: F32_ZERO, z: F32_ZERO },
                tex_coords: Vec3w { x: F32_ZERO, y: F32_ZERO, z: F32_ZERO },
            }),
    {
        Vertex {
            pos,
            normal: Vec3w { x: F32_ZERO, y: F32_ZERO, z: F32_ZERO },
            tex_coords: Vec3w { x: F32_ZERO, y: F32_ZERO, z: F32_ZERO },
        }
    }

    /// Move the vertex by per-axis offsets.
    pub fn translate(&mut self, offset_x: u32, offset_y: u32, offset_z: u32)
        ensures
            final(self).pos == (Vec3w {
                x: add_bits(old(self).pos.x, offset_x),
                y: add_bits(old(self).pos.y, offset_y),
                z: add_bits(old(self).pos.z, offset_z),
            }),
            final(self).normal == old(self).normal,
            final(self).tex_coords == old(self).tex_coords,
    {
        self.pos = Vec3w {
            x: f32_add(self.pos.x, offset_x),
            y: f32_add(self.pos.y, offset_y),
            z: f32_add(self.pos.z, offset_z),
        };
    }

    /// Rotate the vertex position about an axis through the origin.  The
    /// rotation matrix goes through sines and cosines, so the new position
    /// is stated as some rotation matrix applied to the old homogeneous
    /// position.
    pub fn rotate(&mut self, angle: u32, axis: &Vec3w)
        ensures
            exists|m: Seq<u32>|
                final(self).pos == #[trigger] spec_rotated_pos(m, old(self).pos),
            final(self).normal == old(self).normal,
            final(self).tex_coords == old(self).tex_coords,
    {
        let matrix = rotation_mat(angle, *axis);
        let rotated = mat4_transform(
            &matrix,
            Vec4w { x: self.pos.x, y: self.pos.y, z: self.pos.z, w: F32_ZERO },
        );
        self.pos = Vec3w { x: rotated.x, y: rotated.y, z: rotated.z };
        proof {
            assert(final(self).pos == spec_rotated_pos(matrix@, old(self).pos));
        }
    }
}

/// The position a 4x4 float matrix sends a point to: the spatial components
/// of the matrix applied to the position with homogeneous weight zero.
pub open spec fn spec_rotated_pos(m: Seq<u32>, pos: Vec3w) -> Vec3w {
    let p = xform4_bits(m, seq![pos.x, pos.y, pos.z, F32_ZERO]);
    Vec3w { x: p[0], y: p[1], z: p[2] }
}

/// The 24 cube vertices for the half side `h` with `nh` its negation: four
/// vertices per face, each carrying that face's outward unit normal and a
/// checker of texture coordinates.
pub open spec fn spec_cube_vertices(h: u32) -> Seq<Vertex> {
    let nh = h ^ 0x8000_0000u32;
    seq![
        Vertex { pos: Vec3w { x: nh, y: h, z: nh }, normal: Vec3w { x: F32_ZERO, y: F32_ONE, z: F32_ZERO }, tex_coords: Vec3w { x: F32_ZERO, y: F32_ZERO, z: F32_ZERO } },
        Vertex { pos: Vec3w { x: h, y: h, z: nh }, normal: Vec3w { x: F32_ZERO, y: F32_ONE, z: F32_ZERO }, tex_coords: Vec3w { x: F32_ONE, y: F32_ZERO, z: F32_ZERO } },
        Vertex { pos: Vec3w { x: nh, y: h, z: h }, normal: Vec3w { x: F32_ZERO, y: F32_ONE, z: F32_ZERO }, tex_coords: Vec3w { x: F32_ZERO, y: F32_ONE, z: F32_ZERO } },
        Vertex { pos: Vec3w { x: h, y: h, z: h }, normal: Vec3w { x: F32_ZERO, y: F32_ONE, z: F32_ZERO }, tex_coords: Vec3w { x: F32_ONE, y: F32_ONE, z: F32_ZERO } },
        Vertex { pos: Vec3w { x: nh, y: nh, z: nh }, normal: Vec3w { x: F32_ZERO, y: F32_NEG_ONE, z: F32_ZERO }, tex_coords: Vec3w { x: F32_ZERO, y: F32_ZERO, z: F32_ZERO } },
        Vertex { pos: Vec3w { x: h, y: nh, z: nh }, normal: Vec3w { x: F32_ZERO, y: F32_NEG_ONE, z: F32_ZERO }, tex_coords: Vec3w { x: F32_ONE, y: F32_ZERO, z: F32_ZERO } },
        Vertex { pos: Vec3w { x: nh, y: nh, z: h }, normal: Vec3w { x: F32_ZERO, y: F32_NEG_ONE, z: F32_ZERO }, tex_coords: Vec3w { x: F32_ZERO, y: F32_ONE, z: F32_ZERO } },
        Vertex { pos: Vec3w { x: h, y: nh, z: h }, normal: Vec3w { x: F32_ZERO, y: F32_NEG_ONE, z: F32_ZERO }, tex_coords: Vec3w { x: F32_ONE, y: F32_ONE, z: F32_ZERO } },
        Vertex { pos: Vec3w { x: h, y: h, z: nh }, normal: Vec3w { x: F32_ZERO, y: F32_ZERO, z: F32_NEG_ONE }, tex_coords: Vec3w { x: F32_ZERO, y: F32_ZERO, z: F32_ZERO } },
        Vertex { pos: Vec3w { x: nh, y: h, z: nh }, normal: Vec3w { x: F32_ZERO, y: F32_ZERO, z: F32_NEG_ONE }, tex_coords: Vec3w { x: F32_ONE, y: F32_ZERO, z: F32_ZERO } },
        Vertex { pos: Vec3w { x: h, y: nh, z: nh }, normal: Vec3w { x: F32_ZERO, y: F32_ZERO, z: F32_NEG_ONE }, tex_coords: Vec3w { x: F32_ZERO, y: F32_ONE, z: F32_ZERO } },
        Vertex { pos: Vec3w { x: nh, y: nh, z: nh }, normal: Vec3w { x: F32_ZERO, y: F32_ZERO, z: F32_NEG_ONE }, tex_coords: Vec3w { x: F32_ONE, y: F32_ONE, z: F32_ZERO } },
        Vertex { pos: Vec3w { x: h, y: h, z: h }, normal: Vec3w { x: F32_ONE, y: F32_ZERO, z: F32_ZERO }, tex_coords: Vec3w { x: F32_ZERO, y: F32_ZERO, z: F32_ZERO } },
        Vertex { pos: Vec3w { x: h, y: h, z: nh }, normal: Vec3w { x: F32_ONE, y: F32_ZERO, z: F32_ZERO }, tex_coords: Vec3w { x: F32_ONE, y: F32_ZERO, z: F32_ZERO } },
        Vertex { pos: Vec3w { x: h, y: nh, z: h }, normal: Vec3w { x: F32_ONE, y: F32_ZERO, z: F32_ZERO }, tex_coords: Vec3w { x: F32_ZERO, y: F32_ONE, z: F32_ZERO } },
        Vertex { pos: Vec3w { x: h, y: nh, z: nh }, normal: Vec3w { x: F32_ONE, y: F32_ZERO, z: F32_ZERO }, tex_coords: Vec3w { x: F32_ONE, y: F32_ONE, z: F32_ZERO } },
        Vertex { pos: Vec3w { x: nh, y: h, z: h }, normal: Vec3w { x: F32_ZERO, y: F32_ZERO, z: F32_ONE }, tex_coords: Vec3w { x: F32_ZERO, y: F32_ZERO, z: F32_ZERO } },
        Vertex { pos: Vec3w { x: h, y: h, z: h }, normal: Vec3w { x: F32_ZERO, y: F32_ZERO, z: F32_ONE }, tex_coords: Vec3w { x: F32_ONE, y: F32_ZERO, z: F32_ZERO } },
        Vertex { pos: Vec3w { x: nh, y: nh, z: h }, normal: Vec3w { x: F32_ZERO, y: F32_ZERO, z: F32_ONE }, tex_coords: Vec3w { x: F32_ZERO, y: F32_ONE, z: F32_ZERO } },
        Vertex { pos: Vec3w { x: h, y: nh, z: h }, normal: Vec3w { x: F32_ZERO, y: F32_ZERO, z: F32_ONE }, tex_coords: Vec3w { x: F32_ONE, y: F32_ONE, z: F32_ZERO } },
        Vertex { pos: Vec3w { x: nh, y: h, z: nh }, normal: Vec3w { x: F32_NEG_ONE, y: F32_ZERO, z: F32_ZERO }, tex_coords: Vec3w { x: F32_ZERO, y: F32_ZERO, z: F32_ZERO } },
        Vertex { pos: Vec3w { x: nh, y: h, z: h }, normal: Vec3w { x: F32_NEG_ONE, y: F32_ZERO, z: F32_ZERO }, tex_coords: Vec3w { x: F32_ONE, y: F32_ZERO, z: F32_ZERO } },
        Vertex { pos: Vec3w { x: nh, y: nh, z: nh }, normal: Vec3w { x: F32_NEG_ONE, y: F32_ZERO, z: F32_ZERO }, tex_coords: Vec3w { x: F32_ZERO, y: F32_ONE, z: F32_ZERO } },
        Vertex { pos: Vec3w { x: nh, y: nh, z: h }, normal: Vec3w { x: F32_NEG_ONE, y: F32_ZERO, z: F32_ZERO }, tex_coords: Vec3w { x: F32_ONE, y: F32_ONE, z: F32_ZERO } },
    ]
}

/// The 36 cube indices: two triangles per face over the face's four
/// vertices.
pub open spec fn spec_cube_indices() -> Seq<u32> {
    seq![
        0u32, 2, 1, 1, 2, 3, 4, 5, 6, 6, 5, 7, 8, 10, 9, 9, 10, 11, 12, 14, 13, 13, 14, 15, 16,
        18, 17, 17, 18, 19, 20, 22, 21, 21, 22, 23,
    ]
}

/// The 24 skybox vertices: the same box at half side `5.0`, positions only.
pub open spec fn spec_skybox_vertices() -> Seq<Vertex> {
    seq![
        Vertex { pos: Vec3w { x: F32_NEG_FIVE, y: F32_FIVE, z: F32_NEG_FIVE }, normal: Vec3w { x: F32_ZERO, y: F32_ZERO, z: F32_ZERO }, tex_coords: Vec3w { x: F32_ZERO, y: F32_ZERO, z: F32_ZERO } },
        Vertex { pos: Vec3w { x: F32_FIVE, y: F32_FIVE, z: F32_NEG_FIVE }, normal: Vec3w { x: F32_ZERO, y: F32_ZERO, z: F32_ZERO }, tex_coords: Vec3w { x: F32_ZERO, y: F32_ZERO, z: F32_ZERO } },
        Vertex { pos: Vec3w { x: F32_NEG_FIVE, y: F32_FIVE, z: F32_FIVE }, normal: Vec3w { x: F32_ZERO, y: F32_ZERO, z: F32_ZERO }, tex_coords: Vec3w { x: F32_ZERO, y: F32_ZERO, z: F32_ZERO } },
        Vertex { pos: Vec3w { x: F32_FIVE, y: F32_FIVE, z: F32_FIVE }, normal: Vec3w { x: F32_ZERO, y: F32_ZERO, z: F32_ZERO }, tex_coords: Vec3w { x: F32_ZERO, y: F32_ZERO, z: F32_ZERO } },
        Vertex { pos: Vec3w { x: F32_NEG_FIVE, y: F32_NEG_FIVE, z: F32_NEG_FIVE }, normal: Vec3w { x: F32_ZERO, y: F32_ZERO, z: F32_ZERO }, tex_coords: Vec3w { x: F32_ZERO, y: F32_ZERO, z: F32_ZERO } },
        Vertex { pos: Vec3w { x: F32_FIVE, y: F32_NEG_FIVE, z: F32_NEG_FIVE }, normal: Vec3w { x: F32_ZERO, y: F32_ZERO, z: F32_ZERO }, tex_coords: Vec3w { x: F32_ZERO, y: F32_ZERO, z: F32_ZERO } },
        Vertex { pos: Vec3w { x: F32_NEG_FIVE, y: F32_NEG_FIVE, z: F32_FIVE }, normal: Vec3w { x: F32_ZERO, y: F32_ZERO, z: F32_ZERO }, tex_coords: Vec3w { x: F32_ZERO, y: F32_ZERO, z: F32_ZERO } },
        Vertex { pos: Vec3w { x: F32_FIVE, y: F32_NEG_FIVE, z: F32_FIVE }, normal: Vec3w { x: F32_ZERO, y: F32_ZERO, z: F32_ZERO }, tex_coords: Vec3w { x: F32_ZERO, y: F32_ZERO, z: F32_ZERO } },
        Vertex { pos: Vec3w { x: F32_FIVE, y: F32_FIVE, z: F32_NEG_FIVE }, normal: Vec3w { x: F32_ZERO, y: F32_ZERO, z: F32_ZERO }, tex_coords: Vec3w { x: F32_ZERO, y: F32_ZERO, z: F32_ZERO } },
        Vertex { pos: Vec3w { x: F32_NEG_FIVE, y: F32_FIVE, z: F32_NEG_FIVE }, normal: Vec3w { x: F32_ZERO, y: F32_ZERO, z: F32_ZERO }, tex_coords: Vec3w { x: F32_ZERO, y: F32_ZERO, z: F32_ZERO } },
        Vertex { pos: Vec3w { x: F32_FIVE, y: F32_NEG_FIVE, z: F32_NEG_FIVE }, normal: Vec3w { x: F32_ZERO, y: F32_ZERO, z: F32_ZERO }, tex_coords: Vec3w { x: F32_ZERO, y: F32_ZERO, z: F32_ZERO } },
        Vertex { pos: Vec3w { x: F32_NEG_FIVE, y: F32_NEG_FIVE, z: F32_NEG_FIVE }, normal: Vec3w { x: F32_ZERO, y: F32_ZERO, z: F32_ZERO }, tex_coords: Vec3w { x: F32_ZERO, y: F32_ZERO, z: F32_ZERO } },
        Vertex { pos: Vec3w { x: F32_FIVE, y: F32_FIVE, z: F32_FIVE }, normal: Vec3w { x: F32_ZERO, y: F32_ZERO, z: F32_ZERO }, tex_coords: Vec3w { x: F32_ZERO, y: F32_ZERO, z: F32_ZERO } },
        Vertex { pos: Vec3w { x: F32_FIVE, y: F32_FIVE, z: F32_NEG_FIVE }, normal: Vec3w { x: F32_ZERO, y: F32_ZERO, z: F32_ZERO }, tex_coords: Vec3w { x: F32_ZERO, y: F32_ZERO, z: F32_ZERO } },
        Vertex { pos: Vec3w { x: F32_FIVE, y: F32_NEG_FIVE, z: F32_FIVE }, normal: Vec3w { x: F32_ZERO, y: F32_ZERO, z: F32_ZERO }, tex_coords: Vec3w { x: F32_ZERO, y: F32_ZERO, z: F32_ZERO } },
        Vertex { pos: Vec3w { x: F32_FIVE, y: F32_NEG_FIVE, z: F32_NEG_FIVE }, normal: Vec3w { x: F32_ZERO, y: F32_ZERO, z: F32_ZERO }, tex_coords: Vec3w { x: F32_ZERO, y: F32_ZERO, z: F32_ZERO } },
        Vertex { pos: Vec3w { x: F32_NEG_FIVE, y: F32_FIVE, z: F32_FIVE }, normal: Vec3w { x: F32_ZERO, y: F32_ZERO, z: F32_ZERO }, tex_coords: Vec3w { x: F32_ZERO, y: F32_ZERO, z: F32_ZERO } },
        Vertex { pos: Vec3w { x: F32_FIVE, y: F32_FIVE, z: F32_FIVE }, normal: Vec3w { x: F32_ZERO, y: F32_ZERO, z: F32_ZERO }, tex_coords: Vec3w { x: F32_ZERO, y: F32_ZERO, z: F32_ZERO } },
        Vertex { pos: Vec3w { x: F32_NEG_FIVE, y: F32_NEG_FIVE, z: F32_FIVE }, normal: Vec3w { x: F32_ZERO, y: F32_ZERO, z: F32_ZERO }, tex_coords: Vec3w { x: F32_ZERO, y: F32_ZERO, z: F32_ZERO } },
        Vertex { pos: Vec3w { x: F32_FIVE, y: F32_NEG_FIVE, z: F32_FIVE }, normal: Vec3w { x: F32_ZERO, y: F32_ZERO, z: F32_ZERO }, tex_coords: Vec3w { x: F32_ZERO, y: F32_ZERO, z: F32_ZERO } },
        Vertex { pos: Vec3w { x: F32_NEG_FIVE, y: F32_FIVE, z: F32_NEG_FIVE }, normal: Vec3w { x: F32_ZERO, y: F32_ZERO, z: F32_ZERO }, tex_coords: Vec3w { x: F32_ZERO, y: F32_ZERO, z: F32_ZERO } },
        Vertex { pos: Vec3w { x: F32_NEG_FIVE, y: F32_FIVE, z: F32_FIVE }, normal: Vec3w { x: F32_ZERO, y: F32_ZERO, z: F32_ZERO }, tex_coords: Vec3w { x: F32_ZERO, y: F32_ZERO, z: F32_ZERO } },
        Vertex { pos: Vec3w { x: F32_NEG_FIVE, y: F32_NEG_FIVE, z: F32_NEG_FIVE }, normal: Vec3w { x: F32_ZERO, y: F32_ZERO, z: F32_ZERO }, tex_coords: Vec3w { x: F32_ZERO, y: F32_ZERO, z: F32_ZERO } },
        Vertex { pos: Vec3w { x: F32_NEG_FIVE, y: F32_NEG_FIVE, z: F32_FIVE }, normal: Vec3w { x: F32_ZERO, y: F32_ZERO, z: F32_ZERO }, tex_coords: Vec3w { x: F32_ZERO, y: F32_ZERO, z: F32_ZERO } },
    ]
}

} // verus!

verus! {

/// A vector that is one of the six outward unit axis directions.
pub open spec fn spec_unit_axis(n: Vec3w) -> bool {
    ||| n == Vec3w { x: F32_ONE, y: F32_ZERO, z: F32_ZERO }
    ||| n == Vec3w { x: F32_NEG_ONE, y: F32_ZERO, z: F32_ZERO }
    ||| n == Vec3w { x: F32_ZERO, y: F32_ONE, z: F32_ZERO }
    ||| n == Vec3w { x: F32_ZERO, y: F32_NEG_ONE, z: F32_ZERO }
    ||| n == Vec3w { x: F32_ZERO, y: F32_ZERO, z: F32_ONE }
    ||| n == Vec3w { x: F32_ZERO, y: F32_ZERO, z: F32_NEG_ONE }
}

/// The vertex normal points away from the cube center: on each axis where
/// the normal is the positive unit it sits on the positive face, and on each
/// axis where it is the negative unit it sits on the negative face.
pub open spec fn spec_points_away(v: Vertex, h: u32) -> bool {
    let nh = h ^ 0x8000_0000u32;
    &&& (v.normal.x == F32_ONE ==> v.pos.x == h)
    &&& (v.normal.x == F32_NEG_ONE ==> v.pos.x == nh)
    &&& (v.normal.y == F32_ONE ==> v.pos.y == h)
    &&& (v.normal.y == F32_NEG_ONE ==> v.pos.y == nh)
    &&& (v.normal.z == F32_ONE ==> v.pos.z == h)
    &&& (v.normal.z == F32_NEG_ONE ==> v.pos.z == nh)
}

/// The cube builder yields exactly four vertices per face and six faces,
/// two triangles each; every vertex normal is an outward unit axis vector
/// pointing away from the cube center, and every index addresses a vertex.
pub proof fn lemma_cube_mesh_properties(h: u32)
    ensures
        spec_cube_vertices(h).len() == 24,
        spec_cube_indices().len() == 36,
        forall|k: int| 0 <= k < 36 ==> 0 <= #[trigger] spec_cube_indices()[k] < 24,
        forall|k: int|
            0 <= k < 24 ==> spec_unit_axis(#[trigger] spec_cube_vertices(h)[k].normal),
        forall|k: int| 0 <= k < 24 ==> spec_points_away(#[trigger] spec_cube_vertices(h)[k], h),
{
    assert forall|k: int| 0 <= k < 36 implies 0 <= #[trigger] spec_cube_indices()[k] < 24 by {
        assert(spec_cube_indices().len() == 36);
    }
}

/// A drawable mesh: vertex and index data, a material, a face-culling flag
/// and the GPU handles the renderer assigned to it.
#[derive(Clone)]
pub struct BasicMesh {
    pub vertices: Vec<Vertex>,
    pub indices: Vec<u32>,
    pub material: Material,
    pub cull_faces: bool,
    pub vao: u32,
    pub vbo: u32,
    pub ebo: u32,
}

impl BasicMesh {
    /// A mesh from its data, culling back faces, before any GPU handles are
    /// assigned.
    pub fn new(vertices: Vec<Vertex>, indices: Vec<u32>, material: Material) -> (r: BasicMesh)
        ensures
            r.vertices@ == vertices@,
            r.indices@ == indices@,
            r.material == material,
            r.cull_faces == true,
            r.vao == 0 && r.vbo == 0 && r.ebo == 0,
    {
        BasicMesh { vertices, indices, material, cull_faces: true, vao: 0, vbo: 0, ebo: 0 }
    }

    /// The cube of the given side length: 24 vertices (4 per face), 36
    /// indices (2 triangles per face), unit normals pointing away from the
    /// center, and an empty material.
    pub fn cube(side: u32) -> (r: BasicMesh)
        ensures
            r.vertices@ == spec_cube_vertices(div_bits(side, F32_TWO)),
            r.indices@ == spec_cube_indices(),
            r.vertices@.len() == 24,
            r.indices@.len() == 36,
            r.material.spec_diffuse() == Seq::<Texture2D>::empty(),
            r.material.spec_specular() == Seq::<Texture2D>::empty(),
            r.material.spec_shininess() == F32_ONE,
            r.cull_faces == true,
    {
        let h = f32_div(side, F32_TWO);
        let nh = crate::fbits::neg_bits(h);
        let vertices: Vec<Vertex> = vec![
            Vertex { pos: Vec3w { x: nh, y: h, z: nh }, normal: Vec3w { x: F32_ZERO, y: F32_ONE, z: F32_ZERO }, tex_coords: Vec3w { x: F32_ZERO, y: F32_ZERO, z: F32_ZERO } },
            Vertex { pos: Vec3w { x: h, y: h, z: nh }, normal: Vec3w { x: F32_ZERO, y: F32_ONE, z: F32_ZERO }, tex_coords: Vec3w { x: F32_ONE, y: F32_ZERO, z: F32_ZERO } },
            Vertex { pos: Vec3w { x: nh, y: h, z: h }, normal: Vec3w { x: F32_ZERO, y: F32_ONE, z: F32_ZERO }, tex_coords: Vec3w { x: F32_ZERO, y: F32_ONE, z: F32_ZERO } },
            Vertex { pos: Vec3w { x: h, y: h, z: h }, normal: Vec3w { x: F32_ZERO, y: F32_ONE, z: F32_ZERO }, tex_coords: Vec3w { x: F32_ONE, y: F32_ONE, z: F32_ZERO } },
            Vertex { pos: Vec3w { x: nh, y: nh, z: nh }, normal: Vec3w { x: F32_ZERO, y: F32_NEG_ONE, z: F32_ZERO }, tex_coords: Vec3w { x: F32_ZERO, y: F32_ZERO, z: F32_ZERO } },
            Vertex { pos: Vec3w { x: h, y: nh, z: nh }, normal: Vec3w { x: F32_ZERO, y: F32_NEG_ONE, z: F32_ZERO }, tex_coords: Vec3w { x: F32_ONE, y: F32_ZERO, z: F32_ZERO } },
            Vertex { pos: Vec3w { x: nh, y: nh, z: h }, normal: Vec3w { x: F32_ZERO, y: F32_NEG_ONE, z: F32_ZERO }, tex_coords: Vec3w { x: F32_ZERO, y: F32_ONE, z: F32_ZERO } },
            Vertex { pos: Vec3w { x: h, y: nh, z: h }, normal: Vec3w { x: F32_ZERO, y: F32_NEG_ONE, z: F32_ZERO }, tex_coords: Vec3w { x: F32_ONE, y: F32_ONE, z: F32_ZERO } },
            Vertex { pos: Vec3w { x: h, y: h, z: nh }, normal: Vec3w { x: F32_ZERO, y: F32_ZERO, z: F32_NEG_ONE }, tex_coords: Vec3w { x: F32_ZERO, y: F32_ZERO, z: F32_ZERO } },
            Vertex { pos: Vec3w { x: nh, y: h, z: nh }, normal: Vec3w { x: F32_ZERO, y: F32_ZERO, z: F32_NEG_ONE }, tex_coords: Vec3w { x: F32_ONE, y: F32_ZERO, z: F32_ZERO } },
            Vertex { pos: Vec3w { x: h, y: nh, z: nh }, normal: Vec3w { x: F32_ZERO, y: F32_ZERO, z: F32_NEG_ONE }, tex_coords: Vec3w { x: F32_ZERO, y: F32_ONE, z: F32_ZERO } },
            Vertex { pos: Vec3w { x: nh, y: nh, z: nh }, normal: Vec3w { x: F32_ZERO, y: F32_ZERO, z: F32_NEG_ONE }, tex_coords: Vec3w { x: F32_ONE, y: F32_ONE, z: F32_ZERO } },
            Vertex { pos: Vec3w { x: h, y: h, z: h }, normal: Vec3w { x: F32_ONE, y: F32_ZERO, z: F32_ZERO }, tex_coords: Vec3w { x: F32_ZERO, y: F32_ZERO, z: F32_ZERO } },
            Vertex { pos: Vec3w { x: h, y: h, z: nh }, normal: Vec3w { x: F32_ONE, y: F32_ZERO, z: F32_ZERO }, tex_coords: Vec3w { x: F32_ONE, y: F32_ZERO, z: F32_ZERO } },
            Vertex { pos: Vec3w { x: h, y: nh, z: h }, normal: Vec3w { x: F32_ONE, y: F32_ZERO, z: F32_ZERO }, tex_coords: Vec3w { x: F32_ZERO, y: F32_ONE, z: F32_ZERO } },
            Vertex { pos: Vec3w { x: h, y: nh, z: nh }, normal: Vec3w { x: F32_ONE, y: F32_ZERO, z: F32_ZERO }, tex_coords: Vec3w { x: F32_ONE, y: F32_ONE, z: F32_ZERO } },
            Vertex { pos: Vec3w { x: nh, y: h, z: h }, normal: Vec3w { x: F32_ZERO, y: F32_ZERO, z: F32_ONE }, tex_coords: Vec3w { x: F32_ZERO, y: F32_ZERO, z: F32_ZERO } },
            Vertex { pos: Vec3w { x: h, y: h, z: h }, normal: Vec3w { x: F32_ZERO, y: F32_ZERO, z: F32_ONE }, tex_coords: Vec3w { x: F32_ONE, y: F32_ZERO, z: F32_ZERO } },
            Vertex { pos: Vec3w { x: nh, y: nh, z: h }, normal: Vec3w { x: F32_ZERO, y: F32_ZERO, z: F32_ONE }, tex_coords: Vec3w { x: F32_ZERO, y: F32_ONE, z: F32_ZERO } },
            Vertex { pos: Vec3w { x: h, y: nh, z: h }, normal: Vec3w { x: F32_ZERO, y: F32_ZERO, z: F32_ONE }, tex_coords: Vec3w { x: F32_ONE, y: F32_ONE, z: F32_ZERO } },
            Vertex { pos: Vec3w { x: nh, y: h, z: nh }, normal: Vec3w { x: F32_NEG_ONE, y: F32_ZERO, z: F32_ZERO }, tex_coords: Vec3w { x: F32_ZERO, y: F32_ZERO, z: F32_ZERO } },
            Vertex { pos: Vec3w { x: nh, y: h, z: h }, normal: Vec3w { x: F32_NEG_ONE, y: F32_ZERO, z: F32_ZERO }, tex_coords: Vec3w { x: F32_ONE, y: F32_ZERO, z: F32_ZERO } },
            Vertex { pos: Vec3w { x: nh, y: nh, z: nh }, normal: Vec3w { x: F32_NEG_ONE, y: F32_ZERO, z: F32_ZERO }, tex_coords: Vec3w { x: F32_ZERO, y: F32_ONE, z: F32_ZERO } },
            Vertex { pos: Vec3w { x: nh, y: nh, z: h }, normal: Vec3w { x: F32_NEG_ONE, y: F32_ZERO, z: F32_ZERO }, tex_coords: Vec3w { x: F32_ONE, y: F32_ONE, z: F32_ZERO } },
        ];
        let indices: Vec<u32> = vec![
            0u32, 2, 1, 1, 2, 3, 4, 5, 6, 6, 5, 7, 8, 10, 9, 9, 10, 11, 12, 14, 13, 13, 14, 15,
            16, 18, 17, 17, 18, 19, 20, 22, 21, 21, 22, 23,
        ];
        proof {
            assert(vertices@ =~= spec_cube_vertices(div_bits(side, F32_TWO)));
            assert(indices@ =~= spec_cube_indices());
        }
        BasicMesh {
            vertices,
            indices,
            material: Material::new(Vec::new(), Vec::new(), F32_ONE),
            cull_faces: true,
            vao: 0,
            vbo: 0,
            ebo: 0,
        }
    }

    /// The vertices of the square of the given side length in the plane
    /// `z = 0`: a corner fan with the outward normal `(0, 0, 1)` and corner
    /// texture coordinates.
    pub fn square(side: u32) -> (r: BasicMesh)
        ensures
            ({
                let h = div_bits(side, F32_TWO);
                let nh = h ^ 0x8000_0000u32;
                r.vertices@ =~= seq![
                    Vertex {
                        pos: Vec3w { x: nh, y: h, z: F32_ZERO },
                        normal: Vec3w { x: F32_ZERO, y: F32_ZERO, z: F32_ONE },
                        tex_coords: Vec3w { x: F32_ZERO, y: F32_ONE, z: F32_ZERO },
                    },
                    Vertex {
                        pos: Vec3w { x: h, y: h, z: F32_ZERO },
                        normal: Vec3w { x: F32_ZERO, y: F32_ZERO, z: F32_ONE },
                        tex_coords: Vec3w { x: F32_ONE, y: F32_ONE, z: F32_ZERO },
                    },
                    Vertex {
                        pos: Vec3w { x: nh, y: nh, z: F32_ZERO },
                        normal: Vec3w { x: F32_ZERO, y: F32_ZERO, z: F32_ONE },
                        tex_coords: Vec3w { x: F32_ZERO, y: F32_ZERO, z: F32_ZERO },
                    },
                    Vertex {
                        pos: Vec3w { x: h, y: nh, z: F32_ZERO },
                        normal: Vec3w { x: F32_ZERO, y: F32_ZERO, z: F32_ONE },
                        tex_coords: Vec3w { x: F32_ONE, y: F32_ZERO, z: F32_ZERO },
                    },
                ]
            }),
            r.indices@ =~= seq![0u32, 2, 1, 1, 2, 3],
            r.material.spec_diffuse() == Seq::<Texture2D>::empty(),
            r.material.spec_specular() == Seq::<Texture2D>::empty(),
            r.material.spec_shininess() == F32_ONE,
            r.cull_faces == false,
    {
        let h = f32_div(side, F32_TWO);
        let nh = crate::fbits::neg_bits(h);
        let n = Vec3w { x: F32_ZERO, y: F32_ZERO, z: F32_ONE };
        let vertices: Vec<Vertex> = vec![
            Vertex {
                pos: Vec3w { x: nh, y: h, z: F32_ZERO },
                normal: n,
                tex_coords: Vec3w { x: F32_ZERO, y: F32_ONE, z: F32_ZERO },
            },
            Vertex {
                pos: Vec3w { x: h, y: h, z: F32_ZERO },
                normal: n,
                tex_coords: Vec3w { x: F32_ONE, y: F32_ONE, z: F32_ZERO },
            },
            Vertex {
                pos: Vec3w { x: nh, y: nh, z: F32_ZERO },
                normal: n,
                tex_coords: Vec3w { x: F32_ZERO, y: F32_ZERO, z: F32_ZERO },
            },
            Vertex {
                pos: Vec3w { x: h, y: nh, z: F32_ZERO },
                normal: n,
                tex_coords: Vec3w { x: F32_ONE, y: F32_ZERO, z: F32_ZERO },
            },
        ];
        let indices: Vec<u32> = vec![0u32, 2, 1, 1, 2, 3];
        BasicMesh {
            vertices,
            indices,
            material: Material::new(Vec::new(), Vec::new(), F32_ONE),
            cull_faces: false,
            vao: 0,
            vbo: 0,
            ebo: 0,
        }
    }
}

/// A skybox: a cube map and a fixed box of geometry drawn at the far plane.
#[derive(Clone)]
pub struct Skybox {
    pub texture: CubeMap,
    pub vertices: Vec<Vertex>,
    pub indices: Vec<u32>,
    pub vao: u32,
    pub vbo: u32,
    pub ebo: u32,
}

impl Skybox {
    /// A skybox around a cube map: the fixed 24-vertex box with the cube's
    /// index pattern.
    pub fn new(texture: CubeMap) -> (r: Skybox)
        ensures
            r.texture == texture,
            r.vertices@ == spec_skybox_vertices(),
            r.indices@ == spec_cube_indices(),
            r.vertices@.len() == 24,
            r.indices@.len() == 36,
    {
        let vertices: Vec<Vertex> = vec![
            Vertex::new(F32_NEG_FIVE, F32_FIVE, F32_NEG_FIVE),
            Vertex::new(F32_FIVE, F32_FIVE, F32_NEG_FIVE),
            Vertex::new(F32_NEG_FIVE, F32_FIVE, F32_FIVE),
            Vertex::new(F32_FIVE, F32_FIVE, F32_FIVE),
            Vertex::new(F32_NEG_FIVE, F32_NEG_FIVE, F32_NEG_FIVE),
            Vertex::new(F32_FIVE, F32_NEG_FIVE, F32_NEG_FIVE),
            Vertex::new(F32_NEG_FIVE, F32_NEG_FIVE, F32_FIVE),
            Vertex::new(F32_FIVE, F32_NEG_FIVE, F32_FIVE),
            Vertex::new(F32_FIVE, F32_FIVE, F32_NEG_FIVE),
            Vertex::new(F32_NEG_FIVE, F32_FIVE, F32_NEG_FIVE),
            Vertex::new(F32_FIVE, F32_NEG_FIVE, F32_NEG_FIVE),
            Vertex::new(F32_NEG_FIVE, F32_NEG_FIVE, F32_NEG_FIVE),
            Vertex::new(F32_FIVE, F32_FIVE, F32_FIVE),
            Vertex::new(F32_FIVE, F32_FIVE, F32_NEG_FIVE),
            Vertex::new(F32_FIVE, F32_NEG_FIVE, F32_FIVE),
            Vertex::new(F32_FIVE, F32_NEG_FIVE, F32_NEG_FIVE),
            Vertex::new(F32_NEG_FIVE, F32_FIVE, F32_FIVE),
            Vertex::new(F32_FIVE, F32_FIVE, F32_FIVE),
            Vertex::new(F32_NEG_FIVE, F32_NEG_FIVE, F32_FIVE),
            Vertex::new(F32_FIVE, F32_NEG_FIVE, F32_FIVE),
            Vertex::new(F32_NEG_FIVE, F32_FIVE, F32_NEG_FIVE),
            Vertex::new(F32_NEG_FIVE, F32_FIVE, F32_FIVE),
            Vertex::new(F32_NEG_FIVE, F32_NEG_FIVE, F32_NEG_FIVE),
            Vertex::new(F32_NEG_FIVE, F32_NEG_FIVE, F32_FIVE),
        ];
        let indices: Vec<u32> = vec![
            0u32, 2, 1, 1, 2, 3, 4, 5, 6, 6, 5, 7, 8, 10, 9, 9, 10, 11, 12, 14, 13, 13, 14, 15,
            16, 18, 17, 17, 18, 19, 20, 22, 21, 21, 22, 23,
        ];
        proof {
            assert(vertices@ =~= spec_skybox_vertices());
            assert(indices@ =~= spec_cube_indices());
        }
        Skybox { texture, vertices, indices, vao: 0, vbo: 0, ebo: 0 }
    }
}

/// The fullscreen canvas: a quad spanning clip space, with texture
/// coordinates at the corners.
#[derive(Clone)]
pub struct Canvas {
    pub vertices: Vec<Vertex>,
    pub indices: Vec<u32>,
    pub vao: u32,
    pub vbo: u32,
    pub ebo: u32,
}

impl Canvas {
    /// The canvas quad.
    pub fn new() -> (r: Canvas)
        ensures
            r.vertices@ =~= seq![
                Vertex {
                    pos: Vec3w { x: F32_NEG_ONE, y: F32_ONE, z: F32_ZERO },
                    normal: Vec3w { x: F32_ZERO, y: F32_ZERO, z: F32_ZERO },
                    tex_coords: Vec3w { x: F32_ZERO, y: F32_ONE, z: F32_ZERO },
                },
                Vertex {
                    pos: Vec3w { x: F32_ONE, y: F32_ONE, z: F32_ZERO },
                    normal: Vec3w { x: F32_ZERO, y: F32_ZERO, z: F32_ZERO },
                    tex_coords: Vec3w { x: F32_ONE, y: F32_ONE, z: F32_ZERO },
                },
                Vertex {
                    pos: Vec3w { x: F32_NEG_ONE, y: F32_NEG_ONE, z: F32_ZERO },
                    normal: Vec3w { x: F32_ZERO, y: F32_ZERO, z: F32_ZERO },
                    tex_coords: Vec3w { x: F32_ZERO, y: F32_ZERO, z: F32_ZERO },
                },
                Vertex {
                    pos: Vec3w { x: F32_ONE, y: F32_NEG_ONE, z: F32_ZERO },
                    normal: Vec3w { x: F32_ZERO, y: F32_ZERO, z: F32_ZERO },
                    tex_coords: Vec3w { x: F32_ONE, y: F32_ZERO, z: F32_ZERO },
                },
            ],
            r.indices@ =~= seq![0u32, 2, 1, 1, 2, 3],
    {
        let mut vertices: Vec<Vertex> = vec![
            Vertex::new(F32_NEG_ONE, F32_ONE, F32_ZERO),
            Vertex::new(F32_ONE, F32_ONE, F32_ZERO),
            Vertex::new(F32_NEG_ONE, F32_NEG_ONE, F32_ZERO),
            Vertex::new(F32_ONE, F32_NEG_ONE, F32_ZERO),
        ];
        let v0 = Vertex {
            tex_coords: Vec3w { x: F32_ZERO, y: F32_ONE, z: F32_ZERO },
            ..vertices[0]
        };
        vertices.set(0, v0);
        let v1 = Vertex { tex_coords: Vec3w { x: F32_ONE, y: F32_ONE, z: F32_ZERO }, ..vertices[1] };
        vertices.set(1, v1);
        let v2 = Vertex {
            tex_coords: Vec3w { x: F32_ZERO, y: F32_ZERO, z: F32_ZERO },
            ..vertices[2]
        };
        vertices.set(2, v2);
        let v3 = Vertex {
            tex_coords: Vec3w { x: F32_ONE, y: F32_ZERO, z: F32_ZERO },
            ..vertices[3]
        };
        vertices.set(3, v3);
        let indices: Vec<u32> = vec![0u32, 2, 1, 1, 2, 3];
        Canvas { vertices, indices, vao: 0, vbo: 0, ebo: 0 }
    }
}

/// A model imported from a file: a flat list of meshes.
#[derive(Clone)]
pub struct Model {
    pub meshes: Vec<BasicMesh>,
    pub directory: String,
    pub loaded_textures: Vec<String>,
}

/// Every drawable kind the scene can hold.
#[derive(Clone)]
pub enum Drawable {
    Mesh(BasicMesh),
    Sky(Skybox),
    Screen(Canvas),
    Imported(Model),
}

impl Drawable {
    /// Whether back faces should be culled while drawing this.
    pub fn cull_faces(&self) -> (r: bool)
        ensures
            r == match self {
                Drawable::Mesh(m) => m.cull_faces,
                _ => false,
            },
    {
        match self {
            Drawable::Mesh(m) => m.cull_faces,
            _ => false,
        }
    }
}

/// One vertex-attribute pointer of a vertex layout: attribute index,
/// component count, stride and offset in bytes, and the instancing divisor.
#[derive(Clone, Copy, PartialEq, Eq, Structural, Debug)]
pub struct AttrPointer {
    pub index: u32,
    pub size: u32,
    pub stride: u32,
    pub offset: u32,
    pub divisor: u32,
}

/// The per-vertex layout of a mesh: position, normal and texture
/// coordinates, each three floats, packed in a 36-byte vertex record.
pub fn vertex_attr_plan() -> (r: Vec<AttrPointer>)
    ensures
        r@ =~= seq![
            AttrPointer { index: 0, size: 3, stride: 36, offset: 0, divisor: 0 },
            AttrPointer { index: 1, size: 3, stride: 36, offset: 12, divisor: 0 },
            AttrPointer { index: 2, size: 3, stride: 36, offset: 24, divisor: 0 },
        ],
{
    vec![
        AttrPointer { index: 0, size: 3, stride: 36, offset: 0, divisor: 0 },
        AttrPointer { index: 1, size: 3, stride: 36, offset: 12, divisor: 0 },
        AttrPointer { index: 2, size: 3, stride: 36, offset: 24, divisor: 0 },
    ]
}

/// The per-vertex layout of a screen quad: position and texture
/// coordinates alone, the latter at its 24-byte offset in the same 36-byte
/// vertex record.
pub fn canvas_attr_plan() -> (r: Vec<AttrPointer>)
    ensures
        r@ =~= seq![
            AttrPointer { index: 0, size: 3, stride: 36, offset: 0, divisor: 0 },
            AttrPointer { index: 1, size: 3, stride: 36, offset: 24, divisor: 0 },
        ],
{
    vec![
        AttrPointer { index: 0, size: 3, stride: 36, offset: 0, divisor: 0 },
        AttrPointer { index: 1, size: 3, stride: 36, offset: 24, divisor: 0 },
    ]
}

/// The per-instance layout consumed by the instancing shader: four model
/// -matrix columns then three normal-matrix columns, contiguous in a
/// 228-byte instance record, all stepped per instance.
pub fn instance_attr_plan() -> (r: Vec<AttrPointer>)
    ensures
        r@.len() == 7,
        forall|i: int|
            0 <= i < 4 ==> r@[i] == (AttrPointer {
                index: (3 + i) as u32,
                size: 4,
                stride: 228,
                offset: (16 * i) as u32,
                divisor: 1,
            }),
        forall|i: int|
            4 <= i < 7 ==> r@[i] == (AttrPointer {
                index: (3 + i) as u32,
                size: 3,
                stride: 228,
                offset: (64 + 12 * (i - 4)) as u32,
                divisor: 1,
            }),
{
    let r: Vec<AttrPointer> = vec![
        AttrPointer { index: 3, size: 4, stride: 228, offset: 0, divisor: 1 },
        AttrPointer { index: 4, size: 4, stride: 228, offset: 16, divisor: 1 },
        AttrPointer { index: 5, size: 4, stride: 228, offset: 32, divisor: 1 },
        AttrPointer { index: 6, size: 4, stride: 228, offset: 48, divisor: 1 },
        AttrPointer { index: 7, size: 3, stride: 228, offset: 64, divisor: 1 },
        AttrPointer { index: 8, size: 3, stride: 228, offset: 76, divisor: 1 },
        AttrPointer { index: 9, size: 3, stride: 228, offset: 88, divisor: 1 },
    ];
    r
}

} // verus!
