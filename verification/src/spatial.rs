//! Shared transform algebra for every positioned entity.
//!
//! A model matrix is mutated by three operations: `translate` adds an offset
//! into the translation column; `rotate` and `scale` apply a linear
//! transform to the rest of the matrix while preserving the translation
//! column exactly (the column is extracted, zeroed, the linear transform is
//! applied, and the saved column is written back).

use vstd::prelude::*;

use crate::algebra::{mat4_mul, mul4_bits, rotation_mat, Mat3w, Mat4w, Vec3w};
use crate::fbits::{add_bits, f32_add, F32_ZERO};

verus! {

/// The model pattern after adding `off` into the translation column (the
/// corner entry gains zero, as adding a homogeneous vector with weight zero
/// does).
pub open spec fn spec_translated(m: Seq<u32>, off: Vec3w) -> Seq<u32> {
    m.update(12, add_bits(m[12], off.x)).update(13, add_bits(m[13], off.y)).update(
        14,
        add_bits(m[14], off.z),
    ).update(15, add_bits(m[15], F32_ZERO))
}

/// The model pattern after applying the linear transform `lin` to it with
/// the translation column saved and restored.
pub open spec fn spec_linear_applied(lin: Seq<u32>, m: Seq<u32>) -> Seq<u32> {
    mul4_bits(lin, m.update(12, F32_ZERO).update(13, F32_ZERO).update(14, F32_ZERO)).update(
        12,
        m[12],
    ).update(13, m[13]).update(14, m[14]).update(15, m[15])
}

/// Apply `translate` to a model matrix.
pub fn mat4_translated(m: &Mat4w, offset: &Vec3w) -> (r: Mat4w)
    ensures
        r@ == spec_translated(m@, *offset),
{
    let c = m.column3();
    let r = m.with_column3(
        crate::algebra::Vec4w {
            x: f32_add(c.x, offset.x),
            y: f32_add(c.y, offset.y),
            z: f32_add(c.z, offset.z),
            w: f32_add(c.w, F32_ZERO),
        },
    );
    proof {
        assert(r@ =~= spec_translated(m@, *offset));
    }
    r
}

/// Apply a linear transform to a model matrix, preserving its translation
/// column.
pub fn mat4_linear_applied(lin: &Mat4w, m: &Mat4w) -> (r: Mat4w)
    ensures
        r@ == spec_linear_applied(lin@, m@),
        r@.len() == 16,
        r@[12] == m@[12] && r@[13] == m@[13] && r@[14] == m@[14] && r@[15] == m@[15],
{
    let saved = m.column3();
    let zeroed = m.with_zero_translation();
    let p = mat4_mul(lin, &zeroed);
    let r = p.with_column3(saved);
    proof {
        assert(r@ =~= spec_linear_applied(lin@, m@));
    }
    r
}

/// One transform step applied to a model matrix: an offset added into the
/// translation column, or a linear transform (a rotation or scaling
/// pattern) applied around it.
pub enum SpatialOp {
    Translate(Vec3w),
    Linear(Seq<u32>),
}

/// The model pattern after one transform step.
pub open spec fn spec_apply_op(m: Seq<u32>, op: SpatialOp) -> Seq<u32> {
    match op {
        SpatialOp::Translate(off) => spec_translated(m, off),
        SpatialOp::Linear(l) => spec_linear_applied(l, m),
    }
}

/// The model pattern after a sequence of transform steps, in order.
pub open spec fn spec_apply_ops(m: Seq<u32>, ops: Seq<SpatialOp>) -> Seq<u32>
    decreases ops.len(),
{
    if ops.len() == 0 {
        m
    } else {
        spec_apply_op(spec_apply_ops(m, ops.drop_last()), ops.last())
    }
}

/// Every linear step's matrix product yields a full 4x4 pattern, as the
/// matrix-product wrapper guarantees of every product at run time.
pub open spec fn spec_ops_products_wf(m: Seq<u32>, ops: Seq<SpatialOp>) -> bool
    decreases ops.len(),
{
    if ops.len() == 0 {
        true
    } else {
        let prev = spec_apply_ops(m, ops.drop_last());
        spec_ops_products_wf(m, ops.drop_last()) && (match ops.last() {
            SpatialOp::Linear(l) => mul4_bits(
                l,
                prev.update(12, F32_ZERO).update(13, F32_ZERO).update(14, F32_ZERO),
            ).len() == 16,
            SpatialOp::Translate(_) => true,
        })
    }
}

/// The translation steps of a sequence of transform steps, in order.
pub open spec fn spec_translates_of(ops: Seq<SpatialOp>) -> Seq<SpatialOp>
    decreases ops.len(),
{
    if ops.len() == 0 {
        Seq::empty()
    } else {
        let head = spec_translates_of(ops.drop_last());
        match ops.last() {
            SpatialOp::Translate(_) => head.push(ops.last()),
            SpatialOp::Linear(_) => head,
        }
    }
}

/// However translations, rotations and scalings are ordered and repeated,
/// the translation column of the result is the one the translation steps
/// alone produce: each translation adds its offset into the column, and no
/// rotation or scaling step perturbs it.
pub proof fn lemma_translation_column_accumulates(m: Seq<u32>, ops: Seq<SpatialOp>)
    requires
        m.len() == 16,
        spec_ops_products_wf(m, ops),
    ensures
        spec_apply_ops(m, ops).len() == 16,
        spec_apply_ops(m, spec_translates_of(ops)).len() == 16,
        spec_apply_ops(m, ops)[12] == spec_apply_ops(m, spec_translates_of(ops))[12],
        spec_apply_ops(m, ops)[13] == spec_apply_ops(m, spec_translates_of(ops))[13],
        spec_apply_ops(m, ops)[14] == spec_apply_ops(m, spec_translates_of(ops))[14],
    decreases ops.len(),
{
    if ops.len() > 0 {
        lemma_translation_column_accumulates(m, ops.drop_last());
        let prev = spec_apply_ops(m, ops.drop_last());
        let tprev = spec_apply_ops(m, spec_translates_of(ops.drop_last()));
        match ops.last() {
            SpatialOp::Translate(off) => {
                assert(spec_translates_of(ops).drop_last() =~= spec_translates_of(ops.drop_last()));
            },
            SpatialOp::Linear(l) => {
            },
        }
    }
}

/// Transform algebra shared by every positioned entity: reading and writing
/// the model matrix, and mutating it while keeping the translation column
/// intact under rotation and scaling.
pub trait Spatial: Sized {
    /// The current model pattern.
    spec fn spec_model(&self) -> Seq<u32>;

    /// The same entity with a replaced model matrix and everything else as
    /// it was.
    spec fn spec_with_model(&self, m: Mat4w) -> Self;

    /// A well-formed entity carries a full 4x4 model pattern.
    proof fn model_wf(&self)
        ensures
            self.spec_model().len() == 16,
    ;

    /// Replacing the model replaces exactly the model pattern.
    proof fn with_model_model(&self, m: Mat4w)
        ensures
            self.spec_with_model(m).spec_model() == m@,
    ;

    fn get_model(&self) -> (r: &Mat4w)
        ensures
            r@ == self.spec_model(),
    ;

    fn set_model(&mut self, model: &Mat4w)
        ensures
            *final(self) == old(self).spec_with_model(*model),
            final(self).spec_model() == model@,
    ;

    /// Add the offset into the translation column.
    fn translate(&mut self, offset: &Vec3w)
        ensures
            final(self).spec_model() == spec_translated(old(self).spec_model(), *offset),
            exists|m: Mat4w| *final(self) == #[trigger] old(self).spec_with_model(m),
    {
        let next = mat4_translated(self.get_model(), offset);
        self.set_model(&next);
    }

    /// Apply a rotation matrix, preserving the translation column.
    fn apply_rotation(&mut self, rotation: &Mat4w)
        ensures
            final(self).spec_model() == spec_linear_applied(rotation@, old(self).spec_model()),
            final(self).spec_model().len() == 16,
            final(self).spec_model()[12] == old(self).spec_model()[12],
            final(self).spec_model()[13] == old(self).spec_model()[13],
            final(self).spec_model()[14] == old(self).spec_model()[14],
            final(self).spec_model()[15] == old(self).spec_model()[15],
            exists|m: Mat4w| *final(self) == #[trigger] old(self).spec_with_model(m),
    {
        let next = mat4_linear_applied(rotation, self.get_model());
        self.set_model(&next);
    }

    /// Apply a scaling matrix, preserving the translation column.
    fn apply_scaling(&mut self, scaling: &Mat4w)
        ensures
            final(self).spec_model() == spec_linear_applied(scaling@, old(self).spec_model()),
            final(self).spec_model().len() == 16,
            final(self).spec_model()[12] == old(self).spec_model()[12],
            final(self).spec_model()[13] == old(self).spec_model()[13],
            final(self).spec_model()[14] == old(self).spec_model()[14],
            final(self).spec_model()[15] == old(self).spec_model()[15],
            exists|m: Mat4w| *final(self) == #[trigger] old(self).spec_with_model(m),
    {
        let next = mat4_linear_applied(scaling, self.get_model());
        self.set_model(&next);
    }

    /// Rotate about an axis by an angle (in radians), preserving the
    /// translation column.  The rotation matrix itself goes through sines
    /// and cosines, so only the application shape is stated.
    fn rotate(&mut self, angle: u32, axis: &Vec3w)
        ensures
            exists|lin: Seq<u32>|
                final(self).spec_model() == spec_linear_applied(lin, old(self).spec_model()),
            final(self).spec_model().len() == 16,
            final(self).spec_model()[12] == old(self).spec_model()[12],
            final(self).spec_model()[13] == old(self).spec_model()[13],
            final(self).spec_model()[14] == old(self).spec_model()[14],
            final(self).spec_model()[15] == old(self).spec_model()[15],
            exists|m: Mat4w| *final(self) == #[trigger] old(self).spec_with_model(m),
    {
        let rotation = rotation_mat(angle, *axis);
        self.apply_rotation(&rotation);
    }

    /// Scale by per-axis factors, preserving the translation column.
    fn scale(&mut self, factors: &Vec3w)
        ensures
            final(self).spec_model() == spec_linear_applied(
                Mat4w::spec_identity().update(0, factors.x).update(5, factors.y).update(
                    10,
                    factors.z,
                ),
                old(self).spec_model(),
            ),
            final(self).spec_model().len() == 16,
            final(self).spec_model()[12] == old(self).spec_model()[12],
            final(self).spec_model()[13] == old(self).spec_model()[13],
            final(self).spec_model()[14] == old(self).spec_model()[14],
            final(self).spec_model()[15] == old(self).spec_model()[15],
            exists|m: Mat4w| *final(self) == #[trigger] old(self).spec_with_model(m),
    {
        let scaling = Mat4w::scaling(*factors);
        self.apply_scaling(&scaling);
    }
}

} // verus!
