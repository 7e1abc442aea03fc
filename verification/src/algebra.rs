//! Vectors and matrices of scalar bit patterns.
//!
//! A matrix is stored column-major, as the GPU consumes it: entry `(r, c)`
//! of a 4x4 matrix lives at index `c * 4 + r`.  Structural operations
//! (building a translation or scaling matrix, extracting or replacing the
//! translation column, transposing, stripping a matrix to its rotation
//! block) are verified; products, inverses and view matrices are delegated
//! to the linear-algebra crate behind trusted wrappers.  The named results
//! carry the same assumption as the scalar ones: IEEE-754 arithmetic is
//! deterministic except for the payload bits of the NaNs it produces, which
//! the platform may choose, and no contract here distinguishes NaN
//! payloads.

use vstd::prelude::*;

use crate::fbits::{F32_HUNDRED, F32_ONE, F32_TENTH, F32_ZERO};

verus! {

/// A 2-vector of scalar bit patterns.
#[derive(Clone, Copy, PartialEq, Eq, Structural, Debug)]
pub struct Vec2w {
    pub x: u32,
    pub y: u32,
}

/// A 3-vector of scalar bit patterns.
#[derive(Clone, Copy, PartialEq, Eq, Structural, Debug)]
pub struct Vec3w {
    pub x: u32,
    pub y: u32,
    pub z: u32,
}

/// A 4-vector of scalar bit patterns.
#[derive(Clone, Copy, PartialEq, Eq, Structural, Debug)]
pub struct Vec4w {
    pub x: u32,
    pub y: u32,
    pub z: u32,
    pub w: u32,
}

/// A 4x4 matrix of scalar bit patterns, column-major.
#[derive(Clone, Copy, Debug)]
pub struct Mat4w(pub [u32; 16]);

/// A 3x3 matrix of scalar bit patterns, column-major.
#[derive(Clone, Copy, Debug)]
pub struct Mat3w(pub [u32; 9]);

impl Vec3w {
    /// The components as a sequence.
    pub open spec fn view(self) -> Seq<u32> {
        seq![self.x, self.y, self.z]
    }

    pub fn new(x: u32, y: u32, z: u32) -> (r: Vec3w)
        ensures
            r == (Vec3w { x, y, z }),
    {
        Vec3w { x, y, z }
    }

    /// The zero vector.
    pub fn zeros() -> (r: Vec3w)
        ensures
            r == (Vec3w { x: F32_ZERO, y: F32_ZERO, z: F32_ZERO }),
    {
        Vec3w { x: F32_ZERO, y: F32_ZERO, z: F32_ZERO }
    }
}

impl Mat4w {
    /// The entries as a sequence, column-major.
    pub open spec fn view(self) -> Seq<u32> {
        self.0@
    }

    /// Spec entry at row `r`, column `c`.
    pub open spec fn at(self, r: int, c: int) -> u32 {
        self.0@[c * 4 + r]
    }

    /// The identity matrix pattern.
    pub open spec fn spec_identity() -> Seq<u32> {
        seq![
            F32_ONE,
            F32_ZERO,
            F32_ZERO,
            F32_ZERO,
            F32_ZERO,
            F32_ONE,
            F32_ZERO,
            F32_ZERO,
            F32_ZERO,
            F32_ZERO,
            F32_ONE,
            F32_ZERO,
            F32_ZERO,
            F32_ZERO,
            F32_ZERO,
            F32_ONE,
        ]
    }

    /// The identity matrix.
    pub fn identity() -> (r: Mat4w)
        ensures
            r@ == Mat4w::spec_identity(),
    {
        let m = Mat4w(
            [
                F32_ONE,
                F32_ZERO,
                F32_ZERO,
                F32_ZERO,
                F32_ZERO,
                F32_ONE,
                F32_ZERO,
                F32_ZERO,
                F32_ZERO,
                F32_ZERO,
                F32_ONE,
                F32_ZERO,
                F32_ZERO,
                F32_ZERO,
                F32_ZERO,
                F32_ONE,
            ],
        );
        proof {
            assert(m@ =~= Mat4w::spec_identity());
        }
        m
    }

    /// The translation column (column 3) of the matrix.
    pub fn column3(&self) -> (r: Vec4w)
        ensures
            r == (Vec4w { x: self@[12], y: self@[13], z: self@[14], w: self@[15] }),
    {
        Vec4w { x: self.0[12], y: self.0[13], z: self.0[14], w: self.0[15] }
    }

    /// Replace the translation entries (column 3 rows 0..3) with zero,
    /// keeping the corner entry, as the renderer does before applying a
    /// linear transform.
    pub fn with_zero_translation(&self) -> (r: Mat4w)
        ensures
            r@ == self@.update(12, F32_ZERO).update(13, F32_ZERO).update(14, F32_ZERO),
    {
        let m = self.0;
        let r = Mat4w(
            [
                m[0],
                m[1],
                m[2],
                m[3],
                m[4],
                m[5],
                m[6],
                m[7],
                m[8],
                m[9],
                m[10],
                m[11],
                F32_ZERO,
                F32_ZERO,
                F32_ZERO,
                m[15],
            ],
        );
        proof {
            assert(r@ =~= self@.update(12, F32_ZERO).update(13, F32_ZERO).update(14, F32_ZERO));
        }
        r
    }

    /// Replace column 3 by the given vector.
    pub fn with_column3(&self, t: Vec4w) -> (r: Mat4w)
        ensures
            r@ == self@.update(12, t.x).update(13, t.y).update(14, t.z).update(15, t.w),
    {
        let m = self.0;
        let r = Mat4w(
            [
                m[0],
                m[1],
                m[2],
                m[3],
                m[4],
                m[5],
                m[6],
                m[7],
                m[8],
                m[9],
                m[10],
                m[11],
                t.x,
                t.y,
                t.z,
                t.w,
            ],
        );
        proof {
            assert(r@ =~= self@.update(12, t.x).update(13, t.y).update(14, t.z).update(15, t.w));
        }
        r
    }
}

/// The rotation/scale block of a 4x4 pattern kept, translation and the last
/// row stripped: what converting to 3x3 and back to 4x4 yields.
pub open spec fn spec_rotation_only(s: Seq<u32>) -> Seq<u32> {
    seq![
        s[0],
        s[1],
        s[2],
        F32_ZERO,
        s[4],
        s[5],
        s[6],
        F32_ZERO,
        s[8],
        s[9],
        s[10],
        F32_ZERO,
        F32_ZERO,
        F32_ZERO,
        F32_ZERO,
        F32_ONE,
    ]
}

/// The transpose of a 4x4 pattern, column-major.
pub open spec fn spec_transpose4(s: Seq<u32>) -> Seq<u32> {
    seq![
        s[0],
        s[4],
        s[8],
        s[12],
        s[1],
        s[5],
        s[9],
        s[13],
        s[2],
        s[6],
        s[10],
        s[14],
        s[3],
        s[7],
        s[11],
        s[15],
    ]
}

/// The upper-left 3x3 block of a 4x4 pattern, column-major.
pub open spec fn spec_to_mat3(s: Seq<u32>) -> Seq<u32> {
    seq![s[0], s[1], s[2], s[4], s[5], s[6], s[8], s[9], s[10]]
}

impl Mat4w {
    /// The matrix with its rotation/scale block kept and its translation
    /// stripped.
    pub fn rotation_only(&self) -> (r: Mat4w)
        ensures
            r@ == spec_rotation_only(self@),
    {
        let m = self.0;
        let t = Mat4w(
            [
                m[0],
                m[1],
                m[2],
                F32_ZERO,
                m[4],
                m[5],
                m[6],
                F32_ZERO,
                m[8],
                m[9],
                m[10],
                F32_ZERO,
                F32_ZERO,
                F32_ZERO,
                F32_ZERO,
                F32_ONE,
            ],
        );
        proof {
            assert(t@ =~= spec_rotation_only(self@));
        }
        t
    }

    /// The transpose.
    pub fn transpose(&self) -> (r: Mat4w)
        ensures
            r@ == spec_transpose4(self@),
    {
        let m = self.0;
        let t = Mat4w(
            [
                m[0],
                m[4],
                m[8],
                m[12],
                m[1],
                m[5],
                m[9],
                m[13],
                m[2],
                m[6],
                m[10],
                m[14],
                m[3],
                m[7],
                m[11],
                m[15],
            ],
        );
        proof {
            assert(t@ =~= spec_transpose4(self@));
        }
        t
    }

    /// The upper-left 3x3 block.
    pub fn to_mat3(&self) -> (r: Mat3w)
        ensures
            r@ == spec_to_mat3(self@),
    {
        let m = self.0;
        let t = Mat3w([m[0], m[1], m[2], m[4], m[5], m[6], m[8], m[9], m[10]]);
        proof {
            assert(t@ =~= spec_to_mat3(self@));
        }
        t
    }

    /// A translation matrix: identity with the offset in column 3.
    pub fn translation(t: Vec3w) -> (r: Mat4w)
        ensures
            r@.len() == 16,
            r@ == Mat4w::spec_identity().update(12, t.x).update(13, t.y).update(14, t.z),
    {
        let m = Mat4w(
            [
                F32_ONE,
                F32_ZERO,
                F32_ZERO,
                F32_ZERO,
                F32_ZERO,
                F32_ONE,
                F32_ZERO,
                F32_ZERO,
                F32_ZERO,
                F32_ZERO,
                F32_ONE,
                F32_ZERO,
                t.x,
                t.y,
                t.z,
                F32_ONE,
            ],
        );
        proof {
            assert(m@ =~= Mat4w::spec_identity().update(12, t.x).update(13, t.y).update(14, t.z));
        }
        m
    }

    /// A scaling matrix: the factors on the diagonal.
    pub fn scaling(f: Vec3w) -> (r: Mat4w)
        ensures
            r@.len() == 16,
            r@ == Mat4w::spec_identity().update(0, f.x).update(5, f.y).update(10, f.z),
    {
        let m = Mat4w(
            [
                f.x,
                F32_ZERO,
                F32_ZERO,
                F32_ZERO,
                F32_ZERO,
                f.y,
                F32_ZERO,
                F32_ZERO,
                F32_ZERO,
                F32_ZERO,
                f.z,
                F32_ZERO,
                F32_ZERO,
                F32_ZERO,
                F32_ZERO,
                F32_ONE,
            ],
        );
        proof {
            assert(m@ =~= Mat4w::spec_identity().update(0, f.x).update(5, f.y).update(10, f.z));
        }
        m
    }
}

impl Mat3w {
    /// The entries as a sequence, column-major.
    pub open spec fn view(self) -> Seq<u32> {
        self.0@
    }

    /// The identity pattern.
    pub open spec fn spec_identity() -> Seq<u32> {
        seq![F32_ONE, F32_ZERO, F32_ZERO, F32_ZERO, F32_ONE, F32_ZERO, F32_ZERO, F32_ZERO, F32_ONE]
    }

    /// The identity matrix.
    pub fn identity() -> (r: Mat3w)
        ensures
            r@ == Mat3w::spec_identity(),
    {
        let m = Mat3w(
            [F32_ONE, F32_ZERO, F32_ZERO, F32_ZERO, F32_ONE, F32_ZERO, F32_ZERO, F32_ZERO, F32_ONE],
        );
        proof {
            assert(m@ =~= Mat3w::spec_identity());
        }
        m
    }
}

/// Componentwise sum of two 3-vectors, through the scalar addition wrapper.
pub fn vec3_add(a: Vec3w, b: Vec3w) -> (r: Vec3w)
    ensures
        r.x == crate::fbits::add_bits(a.x, b.x),
        r.y == crate::fbits::add_bits(a.y, b.y),
        r.z == crate::fbits::add_bits(a.z, b.z),
{
    Vec3w {
        x: crate::fbits::f32_add(a.x, b.x),
        y: crate::fbits::f32_add(a.y, b.y),
        z: crate::fbits::f32_add(a.z, b.z),
    }
}

/// Componentwise difference of two 3-vectors.
pub fn vec3_sub(a: Vec3w, b: Vec3w) -> (r: Vec3w)
    ensures
        r.x == crate::fbits::sub_bits(a.x, b.x),
        r.y == crate::fbits::sub_bits(a.y, b.y),
        r.z == crate::fbits::sub_bits(a.z, b.z),
{
    Vec3w {
        x: crate::fbits::f32_sub(a.x, b.x),
        y: crate::fbits::f32_sub(a.y, b.y),
        z: crate::fbits::f32_sub(a.z, b.z),
    }
}

/// A 3-vector scaled by a scalar, componentwise.
pub fn vec3_scale(s: u32, v: Vec3w) -> (r: Vec3w)
    ensures
        r.x == crate::fbits::mul_bits(s, v.x),
        r.y == crate::fbits::mul_bits(s, v.y),
        r.z == crate::fbits::mul_bits(s, v.z),
{
    Vec3w {
        x: crate::fbits::f32_mul(s, v.x),
        y: crate::fbits::f32_mul(s, v.y),
        z: crate::fbits::f32_mul(s, v.z),
    }
}

/// Componentwise negation of a 3-vector (a sign-bit flip per component).
pub fn vec3_neg(v: Vec3w) -> (r: Vec3w)
    ensures
        r.x == (v.x ^ 0x8000_0000u32),
        r.y == (v.y ^ 0x8000_0000u32),
        r.z == (v.z ^ 0x8000_0000u32),
{
    Vec3w {
        x: crate::fbits::neg_bits(v.x),
        y: crate::fbits::neg_bits(v.y),
        z: crate::fbits::neg_bits(v.z),
    }
}

/// What the cross product of two float 3-vectors denotes (products and
/// differences of the components, deterministic).
pub uninterp spec fn cross_bits(a: Seq<u32>, b: Seq<u32>) -> Seq<u32>;

/// What normalizing a float 3-vector denotes (divisions by a square root,
/// deterministic).
pub uninterp spec fn normalize_bits(v: Seq<u32>) -> Seq<u32>;

/// What the Euclidean length of a float 3-vector denotes.
pub uninterp spec fn len3_bits(v: Seq<u32>) -> u32;

/// What the right-handed view matrix for an eye point, a focal point and an
/// up direction denotes (cross products, normalizations and dot products,
/// deterministic).
pub uninterp spec fn look_at_bits(eye: Seq<u32>, center: Seq<u32>, up: Seq<u32>) -> Seq<u32>;

/// What the orthographic projection for the six clip planes denotes (sums,
/// differences and quotients, deterministic).
pub uninterp spec fn ortho_bits(
    left: u32,
    right: u32,
    bottom: u32,
    top: u32,
    znear: u32,
    zfar: u32,
) -> Seq<u32>;

/// What a 4x4 float matrix applied to a float 4-vector denotes (dot
/// products, deterministic).
pub uninterp spec fn xform4_bits(m: Seq<u32>, v: Seq<u32>) -> Seq<u32>;

/// What inverting a 4x4 float matrix denotes: the inverse where one exists.
pub uninterp spec fn inv4_bits(m: Seq<u32>) -> Option<Seq<u32>>;

/// Relies on `nalgebra_glm::cross`.
#[verifier::external_body]
pub(crate) fn vec3_cross(a: Vec3w, b: Vec3w) -> (r: Vec3w)
    ensures
        r@ == cross_bits(a@, b@),
{
    let va: nalgebra_glm::Vec3 = nalgebra_glm::make_vec3(bytemuck::cast_slice(&[a.x, a.y, a.z]));
    let vb: nalgebra_glm::Vec3 = nalgebra_glm::make_vec3(bytemuck::cast_slice(&[b.x, b.y, b.z]));
    let c = nalgebra_glm::cross(&va, &vb);
    Vec3w { x: c.x.to_bits(), y: c.y.to_bits(), z: c.z.to_bits() }
}

/// Relies on `nalgebra_glm::normalize`.
#[verifier::external_body]
pub(crate) fn vec3_normalize(v: Vec3w) -> (r: Vec3w)
    ensures
        r@ == normalize_bits(v@),
{
    let vv: nalgebra_glm::Vec3 = nalgebra_glm::make_vec3(bytemuck::cast_slice(&[v.x, v.y, v.z]));
    let n = nalgebra_glm::normalize(&vv);
    Vec3w { x: n.x.to_bits(), y: n.y.to_bits(), z: n.z.to_bits() }
}

/// Relies on `nalgebra_glm::length`.
#[verifier::external_body]
pub(crate) fn vec3_length(v: Vec3w) -> (r: u32)
    ensures
        r == len3_bits(v@),
{
    let vv: nalgebra_glm::Vec3 = nalgebra_glm::make_vec3(bytemuck::cast_slice(&[v.x, v.y, v.z]));
    nalgebra_glm::length(&vv).to_bits()
}

/// Relies on `nalgebra_glm::angle`.  Its result goes through an arc cosine
/// of unspecified precision, so nothing is claimed of it.
#[verifier::external_body]
pub(crate) fn vec3_angle(a: Vec3w, b: Vec3w) -> u32 {
    let va: nalgebra_glm::Vec3 = nalgebra_glm::make_vec3(bytemuck::cast_slice(&[a.x, a.y, a.z]));
    let vb: nalgebra_glm::Vec3 = nalgebra_glm::make_vec3(bytemuck::cast_slice(&[b.x, b.y, b.z]));
    nalgebra_glm::angle(&va, &vb).to_bits()
}

/// Relies on `nalgebra_glm::look_at`.
#[verifier::external_body]
pub(crate) fn look_at_mat(eye: Vec3w, center: Vec3w, up: Vec3w) -> (r: Mat4w)
    ensures
        r@ == look_at_bits(eye@, center@, up@),
        r@.len() == 16,
{
    let ve: nalgebra_glm::Vec3 = nalgebra_glm::make_vec3(
        bytemuck::cast_slice(&[eye.x, eye.y, eye.z]),
    );
    let vc: nalgebra_glm::Vec3 = nalgebra_glm::make_vec3(
        bytemuck::cast_slice(&[center.x, center.y, center.z]),
    );
    let vu: nalgebra_glm::Vec3 = nalgebra_glm::make_vec3(
        bytemuck::cast_slice(&[up.x, up.y, up.z]),
    );
    let m = nalgebra_glm::look_at(&ve, &vc, &vu);
    let mut out = [0u32; 16];
    out.copy_from_slice(bytemuck::cast_slice(m.as_slice()));
    Mat4w(out)
}

/// Relies on `nalgebra_glm::perspective`.  The function panics where the
/// aspect ratio or the distance between the clip planes is close to zero,
/// so the arguments other than the field of view are pinned to the patterns
/// this library draws its frustum with, where neither panic can fire.  The
/// result goes through a tangent of unspecified precision, so only its
/// shape is claimed.
#[verifier::external_body]
pub(crate) fn perspective_mat(aspect: u32, fovy: u32, near: u32, far: u32) -> (r: Mat4w)
    requires
        aspect == F32_ONE,
        near == F32_TENTH,
        far == F32_HUNDRED,
    ensures
        r@.len() == 16,
{
    let v: nalgebra_glm::Vec4 = nalgebra_glm::make_vec4(
        bytemuck::cast_slice(&[aspect, fovy, near, far]),
    );
    let m = nalgebra_glm::perspective(v.x, v.y, v.z, v.w);
    let mut out = [0u32; 16];
    out.copy_from_slice(bytemuck::cast_slice(m.as_slice()));
    Mat4w(out)
}

/// Relies on `nalgebra_glm::ortho`.
#[verifier::external_body]
pub(crate) fn ortho_mat(left: u32, right: u32, bottom: u32, top: u32, znear: u32, zfar: u32) -> (r: Mat4w)
    ensures
        r@ == ortho_bits(left, right, bottom, top, znear, zfar),
        r@.len() == 16,
{
    let v: nalgebra_glm::Vec4 = nalgebra_glm::make_vec4(
        bytemuck::cast_slice(&[left, right, bottom, top]),
    );
    let nf: nalgebra_glm::Vec2 = nalgebra_glm::make_vec2(bytemuck::cast_slice(&[znear, zfar]));
    let m = nalgebra_glm::ortho(v.x, v.y, v.z, v.w, nf.x, nf.y);
    let mut out = [0u32; 16];
    out.copy_from_slice(bytemuck::cast_slice(m.as_slice()));
    Mat4w(out)
}

/// Relies on `nalgebra_glm::rotation`.  Its result goes through a sine and a
/// cosine of unspecified precision, so only its shape is claimed.
#[verifier::external_body]
pub(crate) fn rotation_mat(angle: u32, axis: Vec3w) -> (r: Mat4w)
    ensures
        r@.len() == 16,
{
    let ang: nalgebra_glm::Vec2 = nalgebra_glm::make_vec2(bytemuck::cast_slice(&[angle, angle]));
    let ax: nalgebra_glm::Vec3 = nalgebra_glm::make_vec3(
        bytemuck::cast_slice(&[axis.x, axis.y, axis.z]),
    );
    let m = nalgebra_glm::rotation(ang.x, &ax);
    let mut out = [0u32; 16];
    out.copy_from_slice(bytemuck::cast_slice(m.as_slice()));
    Mat4w(out)
}

/// Relies on `nalgebra`'s matrix-vector multiplication.
#[verifier::external_body]
pub(crate) fn mat4_transform(m: &Mat4w, v: Vec4w) -> (r: Vec4w)
    ensures
        seq![r.x, r.y, r.z, r.w] == xform4_bits(m@, seq![v.x, v.y, v.z, v.w]),
{
    let mm: nalgebra_glm::Mat4 = nalgebra_glm::make_mat4(bytemuck::cast_slice(&m.0));
    let vv: nalgebra_glm::Vec4 = nalgebra_glm::make_vec4(
        bytemuck::cast_slice(&[v.x, v.y, v.z, v.w]),
    );
    let p = mm * vv;
    Vec4w { x: p.x.to_bits(), y: p.y.to_bits(), z: p.z.to_bits(), w: p.w.to_bits() }
}

/// Relies on `nalgebra`'s `try_inverse`: `Some` exactly where the matrix is
/// invertible.
#[verifier::external_body]
pub(crate) fn mat4_inverse(m: &Mat4w) -> (r: Option<Mat4w>)
    ensures
        r is Some <==> inv4_bits(m@) is Some,
        r is Some ==> r->0@ == inv4_bits(m@)->0 && r->0@.len() == 16,
{
    let mm: nalgebra_glm::Mat4 = nalgebra_glm::make_mat4(bytemuck::cast_slice(&m.0));
    match mm.try_inverse() {
        Some(inv) => {
            let mut out = [0u32; 16];
            out.copy_from_slice(bytemuck::cast_slice(inv.as_slice()));
            Some(Mat4w(out))
        },
        None => None,
    }
}

/// What the product of two 4x4 float matrices denotes.  A matrix product is
/// sums and products of the entries, deterministic in the operand patterns.
pub uninterp spec fn mul4_bits(a: Seq<u32>, b: Seq<u32>) -> Seq<u32>;

/// Relies on `nalgebra`'s 4x4 matrix multiplication.
#[verifier::external_body]
pub(crate) fn mat4_mul(a: &Mat4w, b: &Mat4w) -> (r: Mat4w)
    ensures
        r@ == mul4_bits(a@, b@),
        r@.len() == 16,
{
    let ma: nalgebra_glm::Mat4 = nalgebra_glm::make_mat4(bytemuck::cast_slice(&a.0));
    let mb: nalgebra_glm::Mat4 = nalgebra_glm::make_mat4(bytemuck::cast_slice(&b.0));
    let p = ma * mb;
    let mut out = [0u32; 16];
    out.copy_from_slice(bytemuck::cast_slice(p.as_slice()));
    Mat4w(out)
}

} // verus!
