//! Scene objects, instancing and scene composition.
//!
//! A scene object pairs a drawable with one or more instance records; the
//! records are uploaded to an instance buffer as one contiguous block in
//! insertion order.  A scene orders the draw calls of a frame: shadow maps
//! first, then the skybox under a relaxed depth test, then every object
//! back-to-front with its optional debug and outline redraws interleaved.

use vstd::prelude::*;

use crate::algebra::{inv4_bits, spec_to_mat3, spec_transpose4, Mat3w, Mat4w, Vec3w, Vec4w};
use crate::camera::Camera;
use crate::controls::{Controller, Key, SignalType, Slot};
use crate::fbits::{
    add_bits, fkey, lemma_scatter_range_ok, F32_FIFTH, F32_HALF, F32_HUNDRED, F32_NEG_HALF_PI,
    F32_NEG_HUNDRED, F32_NEG_ONE_AND_HALF, F32_ONE, F32_ONE_AND_HALF, F32_TEN, F32_TENTH,
    F32_THREE_TENTHS, F32_ZERO,
};
use crate::spatial::{spec_linear_applied, spec_translated};
use crate::textures::Material;
use crate::lighting::Lighting;
use crate::meshes::{Drawable, Skybox};
use crate::rendering::RenderCmd;
use crate::spatial::Spatial;
use crate::utils::RandomTransform;

verus! {

/// One instance of a drawable: a model matrix, its normal matrix and two
/// extra transform matrices for effects.
#[derive(Clone, Copy)]
pub struct Instance {
    pub model: Mat4w,
    pub normal: Mat3w,
    pub trans: Mat4w,
    pub rot: Mat4w,
}

impl Instance {
    /// An identity instance.
    pub fn new() -> (r: Instance)
        ensures
            r.model@ == Mat4w::spec_identity(),
            r.normal@ == Mat3w::spec_identity(),
            r.trans@ == Mat4w::spec_identity(),
            r.rot@ == Mat4w::spec_identity(),
    {
        Instance {
            model: Mat4w::identity(),
            normal: Mat3w::identity(),
            trans: Mat4w::identity(),
            rot: Mat4w::identity(),
        }
    }

    /// Recompute the normal matrix as the inverse-transpose of the model's
    /// rotation/scale block, eagerly from the current model.  `None` means
    /// the model is singular, which is a fatal condition -- a renderable
    /// model matrix must be invertible -- so the caller must fail loudly
    /// rather than draw on; the stored normal matrix is left as it was.
    pub fn get_normal(&mut self) -> (r: Option<Mat3w>)
        ensures
            final(self).model == old(self).model,
            final(self).trans == old(self).trans,
            final(self).rot == old(self).rot,
            r is Some <==> inv4_bits(old(self).model@) is Some,
            r is Some ==> final(self).normal@ == spec_to_mat3(
                spec_transpose4(inv4_bits(old(self).model@)->0),
            ) && r->0 == final(self).normal,
            r is None ==> final(self).normal == old(self).normal,
    {
        match crate::algebra::mat4_inverse(&self.model) {
            Some(inv) => {
                self.normal = inv.transpose().to_mat3();
                Some(self.normal)
            },
            None => None,
        }
    }
}

impl Spatial for Instance {
    open spec fn spec_model(&self) -> Seq<u32> {
        self.model@
    }

    open spec fn spec_with_model(&self, m: Mat4w) -> Instance {
        Instance { model: m, ..*self }
    }

    proof fn model_wf(&self) {
    }

    proof fn with_model_model(&self, m: Mat4w) {
    }

    fn get_model(&self) -> (r: &Mat4w) {
        &self.model
    }

    fn set_model(&mut self, model: &Mat4w) {
        self.model = *model;
    }
}

/// The words of one instance record as the instance buffer carries it: the
/// model matrix, the normal matrix and the two extra matrices, contiguous.
pub open spec fn spec_instance_words(i: Instance) -> Seq<u32> {
    i.model@ + i.normal@ + i.trans@ + i.rot@
}

/// The words of a whole instance list, record after record in list order.
pub open spec fn spec_instances_words(s: Seq<Instance>) -> Seq<u32>
    decreases s.len(),
{
    if s.len() == 0 {
        Seq::empty()
    } else {
        spec_instances_words(s.drop_last()) + spec_instance_words(s.last())
    }
}

/// Each instance record is 57 words, so a list of `n` records flattens to
/// exactly `57 * n` words.
pub proof fn lemma_instances_words_len(s: Seq<Instance>)
    ensures
        spec_instances_words(s).len() == 57 * s.len(),
    decreases s.len(),
{
    if s.len() > 0 {
        lemma_instances_words_len(s.drop_last());
    }
}

/// Append the 16 words of a 4x4 matrix.
fn push_mat4_words(out: &mut Vec<u32>, m: &Mat4w)
    ensures
        final(out)@ == old(out)@ + m@,
{
    let mut k: usize = 0;
    while k < 16
        invariant
            0 <= k <= 16,
            out@ == old(out)@ + m@.take(k as int),
        decreases 16 - k,
    {
        out.push(m.0[k]);
        proof {
            assert(m@.take(k + 1 as int) =~= m@.take(k as int).push(m@[k as int]));
            assert(old(out)@ + m@.take(k + 1 as int) =~= (old(out)@ + m@.take(k as int)).push(
                m@[k as int],
            ));
        }
        k += 1;
    }
    proof {
        assert(m@.take(16) =~= m@);
    }
}

/// Append the 9 words of a 3x3 matrix.
fn push_mat3_words(out: &mut Vec<u32>, m: &Mat3w)
    ensures
        final(out)@ == old(out)@ + m@,
{
    let mut k: usize = 0;
    while k < 9
        invariant
            0 <= k <= 9,
            out@ == old(out)@ + m@.take(k as int),
        decreases 9 - k,
    {
        out.push(m.0[k]);
        proof {
            assert(m@.take(k + 1 as int) =~= m@.take(k as int).push(m@[k as int]));
            assert(old(out)@ + m@.take(k + 1 as int) =~= (old(out)@ + m@.take(k as int)).push(
                m@[k as int],
            ));
        }
        k += 1;
    }
    proof {
        assert(m@.take(9) =~= m@);
    }
}

/// A drawable with its instances, outline state and GPU bookkeeping.
#[derive(Clone)]
pub struct SceneObject {
    pub drawable: Drawable,
    pub instances: Vec<Instance>,
    pub ibo: u32,
    pub model: Mat4w,
    pub normal: Mat3w,
    pub outline: Vec4w,
    pub dirty_instances: bool,
    pub dirty_normal: bool,
}

impl SceneObject {
    /// A scene object around a drawable: one identity instance, no outline,
    /// nothing dirty.
    pub fn from(object: Drawable) -> (r: SceneObject)
        ensures
            r.drawable == object,
            r.instances@.len() == 1,
            r.instances@[0].model@ == Mat4w::spec_identity(),
            r.instances@[0].normal@ == Mat3w::spec_identity(),
            r.instances@[0].trans@ == Mat4w::spec_identity(),
            r.instances@[0].rot@ == Mat4w::spec_identity(),
            r.model@ == Mat4w::spec_identity(),
            r.normal@ == Mat3w::spec_identity(),
            r.outline == (Vec4w { x: F32_ZERO, y: F32_ZERO, z: F32_ZERO, w: F32_ZERO }),
            r.dirty_instances == false,
            r.dirty_normal == false,
            r.ibo == 0,
    {
        let mut instances: Vec<Instance> = Vec::new();
        instances.push(Instance::new());
        SceneObject {
            drawable: object,
            instances,
            ibo: 0,
            model: Mat4w::identity(),
            normal: Mat3w::identity(),
            outline: Vec4w { x: F32_ZERO, y: F32_ZERO, z: F32_ZERO, w: F32_ZERO },
            dirty_instances: false,
            dirty_normal: false,
        }
    }

    /// Add one identity instance at the end and mark the instance buffer
    /// dirty, so it is re-uploaded before the next draw.
    pub fn add_instance(&mut self)
        ensures
            final(self).instances@.len() == old(self).instances@.len() + 1,
            forall|k: int|
                0 <= k < old(self).instances@.len() ==> final(self).instances@[k] == old(
                    self,
                ).instances@[k],
            final(self).instances@.last().model@ == Mat4w::spec_identity(),
            final(self).instances@.last().normal@ == Mat3w::spec_identity(),
            final(self).instances@.last().trans@ == Mat4w::spec_identity(),
            final(self).instances@.last().rot@ == Mat4w::spec_identity(),
            final(self).drawable == old(self).drawable,
            final(self).model == old(self).model,
            final(self).normal == old(self).normal,
            final(self).outline == old(self).outline,
            final(self).dirty_instances == true,
            final(self).dirty_normal == old(self).dirty_normal,
            final(self).ibo == old(self).ibo,
    {
        self.dirty_instances = true;
        self.instances.push(Instance::new());
    }

    /// Add the given number of identity instances at the end, in order, and
    /// mark the instance buffer dirty, so it is re-uploaded before the next
    /// draw.
    pub fn add_instances(&mut self, instances: usize)
        requires
            old(self).instances@.len() + instances <= usize::MAX,
        ensures
            final(self).instances@.len() == old(self).instances@.len() + instances,
            forall|k: int|
                0 <= k < old(self).instances@.len() ==> final(self).instances@[k] == old(
                    self,
                ).instances@[k],
            forall|k: int|
                old(self).instances@.len() <= k < final(self).instances@.len()
                    ==> (#[trigger] final(self).instances@[k]).model@ == Mat4w::spec_identity(),
            final(self).drawable == old(self).drawable,
            final(self).model == old(self).model,
            final(self).normal == old(self).normal,
            final(self).outline == old(self).outline,
            final(self).dirty_instances == true,
            final(self).dirty_normal == old(self).dirty_normal,
            final(self).ibo == old(self).ibo,
    {
        self.dirty_instances = true;
        let mut n: usize = 0;
        while n < instances
            invariant
                0 <= n <= instances,
                old(self).instances@.len() + instances <= usize::MAX,
                self.instances@.len() == old(self).instances@.len() + n,
                forall|k: int|
                    0 <= k < old(self).instances@.len() ==> self.instances@[k] == old(
                        self,
                    ).instances@[k],
                forall|k: int|
                    old(self).instances@.len() <= k < self.instances@.len() ==> (#[trigger] self.instances@[k]).model@
                        == Mat4w::spec_identity(),
                self.drawable == old(self).drawable,
                self.model == old(self).model,
                self.normal == old(self).normal,
                self.outline == old(self).outline,
                self.dirty_instances == true,
                self.dirty_normal == old(self).dirty_normal,
                self.ibo == old(self).ibo,
            decreases instances - n,
        {
            self.instances.push(Instance::new());
            n += 1;
        }
    }

    /// How many instances the object has.
    pub fn get_instances(&self) -> (r: usize)
        ensures
            r == self.instances@.len(),
    {
        self.instances.len()
    }

    /// The index an instance argument resolves to: negative arguments count
    /// from the end.
    pub open spec fn spec_instance_index(&self, instance: int) -> int {
        if instance < 0 {
            self.instances@.len() + instance
        } else {
            instance
        }
    }

    /// The instance at the index; a negative index counts from the end.
    pub fn get_instance(&self, instance: isize) -> (r: &Instance)
        requires
            0 - self.instances@.len() <= instance < self.instances@.len(),
            self.instances@.len() <= isize::MAX,
        ensures
            r == self.instances@[self.spec_instance_index(instance as int)],
    {
        if instance < 0 {
            let index = self.instances.len() - ((-instance) as usize);
            &self.instances[index]
        } else {
            &self.instances[instance as usize]
        }
    }

    /// A mutable instance at the index; marks the instance buffer dirty so
    /// that it is re-uploaded before the next draw.
    pub fn get_instance_mut(&mut self, instance: isize) -> (r: &mut Instance)
        requires
            0 - old(self).instances@.len() <= instance < old(self).instances@.len(),
            old(self).instances@.len() <= isize::MAX,
        ensures
            *r == old(self).instances@[old(self).spec_instance_index(instance as int)],
            final(self).instances@ == old(self).instances@.update(
                old(self).spec_instance_index(instance as int),
                *final(r),
            ),
            final(self).dirty_instances == true,
            final(self).drawable == old(self).drawable,
            final(self).model == old(self).model,
            final(self).normal == old(self).normal,
            final(self).outline == old(self).outline,
            final(self).dirty_normal == old(self).dirty_normal,
            final(self).ibo == old(self).ibo,
    {
        self.dirty_instances = true;
        if instance < 0 {
            let index = self.instances.len() - ((-instance) as usize);
            &mut self.instances[index]
        } else {
            &mut self.instances[instance as usize]
        }
    }

    /// The outline color and enable flag.
    pub fn get_outline(&self) -> (r: Vec4w)
        ensures
            r == self.outline,
    {
        self.outline
    }

    /// Set the outline color (all four components).
    pub fn set_outline(&mut self, color: Vec4w)
        ensures
            final(self).outline == color,
            final(self).instances@ == old(self).instances@,
            final(self).drawable == old(self).drawable,
            final(self).model == old(self).model,
            final(self).normal == old(self).normal,
            final(self).dirty_instances == old(self).dirty_instances,
            final(self).dirty_normal == old(self).dirty_normal,
            final(self).ibo == old(self).ibo,
    {
        self.outline = Vec4w { x: color.x, y: color.y, z: color.z, w: color.w };
    }

    /// Switch the outline on or off; on is the pattern of one, off the
    /// pattern of zero.
    pub fn enable_outline(&mut self, enable: bool)
        ensures
            final(self).outline == (Vec4w {
                w: if enable {
                    F32_ONE
                } else {
                    F32_ZERO
                },
                ..old(self).outline
            }),
            final(self).instances@ == old(self).instances@,
            final(self).drawable == old(self).drawable,
            final(self).model == old(self).model,
            final(self).normal == old(self).normal,
            final(self).dirty_instances == old(self).dirty_instances,
            final(self).dirty_normal == old(self).dirty_normal,
            final(self).ibo == old(self).ibo,
    {
        self.outline.w = if enable {
            F32_ONE
        } else {
            F32_ZERO
        };
    }

    /// Whether the object is outlined: its outline weight is above zero in
    /// the scalar total order.
    pub fn has_outline(&self) -> (r: bool)
        ensures
            r == (fkey(F32_ZERO) < fkey(self.outline.w)),
    {
        crate::fbits::lt_bits(F32_ZERO, self.outline.w)
    }

    /// The exact content of the instance buffer upload: every instance
    /// record, contiguous, in insertion order, 57 words each.
    pub fn instance_words(&self) -> (r: Vec<u32>)
        ensures
            r@ == spec_instances_words(self.instances@),
            r@.len() == 57 * self.instances@.len(),
    {
        let mut out: Vec<u32> = Vec::new();
        let mut i: usize = 0;
        while i < self.instances.len()
            invariant
                0 <= i <= self.instances@.len(),
                out@ == spec_instances_words(self.instances@.take(i as int)),
            decreases self.instances@.len() - i,
        {
            let inst = &self.instances[i];
            push_mat4_words(&mut out, &inst.model);
            push_mat3_words(&mut out, &inst.normal);
            push_mat4_words(&mut out, &inst.trans);
            push_mat4_words(&mut out, &inst.rot);
            proof {
                assert(self.instances@.take(i + 1 as int).drop_last() =~= self.instances@.take(
                    i as int,
                ));
                assert(self.instances@.take(i + 1 as int).last() == self.instances@[i as int]);
            }
            i += 1;
        }
        proof {
            assert(self.instances@.take(self.instances@.len() as int) =~= self.instances@);
            lemma_instances_words_len(self.instances@);
        }
        out
    }

    /// The commands one draw of this object issues: a re-upload of the
    /// instance buffer where it is dirty, then one instanced draw over all
    /// instances.
    pub open spec fn spec_draw(&self, object: usize) -> Seq<RenderCmd> {
        let draw = seq![
            RenderCmd::DrawObject { object, instances: self.instances@.len() as usize },
        ];
        if self.dirty_instances {
            seq![RenderCmd::UploadInstances { object }] + draw
        } else {
            draw
        }
    }

    /// Plan one draw of this object.
    pub fn draw(&self, object: usize) -> (r: Vec<RenderCmd>)
        ensures
            r@ == self.spec_draw(object),
    {
        let mut out: Vec<RenderCmd> = Vec::new();
        if self.dirty_instances {
            out.push(RenderCmd::UploadInstances { object });
        }
        out.push(RenderCmd::DrawObject { object, instances: self.instances.len() });
        proof {
            assert(out@ =~= self.spec_draw(object));
        }
        out
    }

    /// The commands of the stencil outline redraw: color only where the
    /// object's fresh stencil mark is missing, in the outline color, then
    /// restore the stencil and depth state.
    pub open spec fn spec_draw_outline(&self, object: usize) -> Seq<RenderCmd> {
        seq![
            RenderCmd::StencilOutlineBegin,
            RenderCmd::SetOutlineColor(
                Vec3w { x: self.outline.x, y: self.outline.y, z: self.outline.z },
            ),
            RenderCmd::DrawOutline { object },
            RenderCmd::StencilOutlineEnd,
        ]
    }

    /// Plan the outline redraw of this object.
    pub fn draw_outline(&self, object: usize) -> (r: Vec<RenderCmd>)
        ensures
            r@ == self.spec_draw_outline(object),
    {
        let mut out: Vec<RenderCmd> = Vec::new();
        out.push(RenderCmd::StencilOutlineBegin);
        out.push(
            RenderCmd::SetOutlineColor(
                Vec3w { x: self.outline.x, y: self.outline.y, z: self.outline.z },
            ),
        );
        out.push(RenderCmd::DrawOutline { object });
        out.push(RenderCmd::StencilOutlineEnd);
        proof {
            assert(out@ =~= self.spec_draw_outline(object));
        }
        out
    }

    /// Recompute the normal matrix where the model changed since the last
    /// use.  `None` means the model is singular: a fatal condition, since a
    /// renderable model matrix must be invertible; the caller must fail
    /// loudly rather than draw on.
    pub fn get_normal(&mut self) -> (r: Option<Mat3w>)
        ensures
            final(self).model == old(self).model,
            final(self).instances@ == old(self).instances@,
            final(self).drawable == old(self).drawable,
            final(self).outline == old(self).outline,
            final(self).dirty_instances == old(self).dirty_instances,
            final(self).ibo == old(self).ibo,
            !old(self).dirty_normal ==> r == Some(old(self).normal) && *final(self) == *old(self),
            old(self).dirty_normal && inv4_bits(old(self).model@) is None ==> r is None
                && *final(self) == *old(self),
            old(self).dirty_normal && inv4_bits(old(self).model@) is Some ==> final(self).normal@
                == spec_to_mat3(spec_transpose4(inv4_bits(old(self).model@)->0))
                && r == Some(final(self).normal) && final(self).dirty_normal == false,
    {
        if self.dirty_normal {
            match crate::algebra::mat4_inverse(&self.model) {
                Some(inv) => {
                    self.normal = inv.transpose().to_mat3();
                    self.dirty_normal = false;
                },
                None => {
                    return None;
                },
            }
        }
        Some(self.normal)
    }
}

impl Spatial for SceneObject {
    open spec fn spec_model(&self) -> Seq<u32> {
        self.model@
    }

    /// Replacing the model also marks the cached normal matrix dirty, so it
    /// is recomputed before its next use.
    open spec fn spec_with_model(&self, m: Mat4w) -> SceneObject {
        SceneObject { model: m, dirty_normal: true, ..*self }
    }

    proof fn model_wf(&self) {
    }

    proof fn with_model_model(&self, m: Mat4w) {
    }

    fn get_model(&self) -> (r: &Mat4w) {
        &self.model
    }

    fn set_model(&mut self, model: &Mat4w) {
        self.dirty_normal = true;
        self.model = *model;
    }
}

/// The distance from the camera position to an object's translation, as the
/// length of the float difference vector.
pub open spec fn spec_distance(cam: Vec3w, o: SceneObject) -> u32 {
    crate::algebra::len3_bits(
        seq![
            crate::fbits::sub_bits(cam.x, o.model@[12]),
            crate::fbits::sub_bits(cam.y, o.model@[13]),
            crate::fbits::sub_bits(cam.z, o.model@[14]),
        ],
    )
}

/// The camera-to-object distance used by the back-to-front sort.
pub fn object_distance(cam: Vec3w, o: &SceneObject) -> (r: u32)
    ensures
        r == spec_distance(cam, *o),
{
    let p = Vec3w { x: o.model.0[12], y: o.model.0[13], z: o.model.0[14] };
    crate::algebra::vec3_length(crate::algebra::vec3_sub(cam, p))
}

/// The objects stand back-to-front: camera distances never increase along
/// the list.
pub open spec fn spec_back_to_front(s: Seq<SceneObject>, cam: Vec3w) -> bool {
    forall|i: int, j: int|
        0 <= i < j < s.len() ==> fkey(#[trigger] spec_distance(cam, s[i])) >= fkey(
            #[trigger] spec_distance(cam, s[j]),
        )
}

/// Sort the objects back-to-front by camera distance: the result is a
/// permutation of the input whose distances never increase.
pub fn sort_back_to_front(cam: Vec3w, input: Vec<SceneObject>) -> (r: Vec<SceneObject>)
    ensures
        spec_back_to_front(r@, cam),
        r@.to_multiset() == input@.to_multiset(),
        r@.len() == input@.len(),
{
    broadcast use vstd::seq_lib::group_to_multiset_ensures;

    let mut rest = input;
    let mut out: Vec<SceneObject> = Vec::new();
    while rest.len() > 0
        invariant
            spec_back_to_front(out@, cam),
            out@.to_multiset().add(rest@.to_multiset()) == input@.to_multiset(),
            out@.len() + rest@.len() == input@.len(),
            forall|k: int, l: int|
                0 <= k < out@.len() && 0 <= l < rest@.len() ==> fkey(
                    #[trigger] spec_distance(cam, out@[k]),
                ) >= fkey(#[trigger] spec_distance(cam, rest@[l])),
        decreases rest@.len(),
    {
        let mut best: usize = 0;
        let mut best_dist = object_distance(cam, &rest[0]);
        let mut bi: usize = 1;
        while bi < rest.len()
            invariant
                0 <= best < bi <= rest@.len(),
                rest@.len() > 0,
                best_dist == spec_distance(cam, rest@[best as int]),
                forall|j: int|
                    0 <= j < bi ==> fkey(#[trigger] spec_distance(cam, rest@[j])) <= fkey(
                        spec_distance(cam, rest@[best as int]),
                    ),
            decreases rest@.len() - bi,
        {
            let d = object_distance(cam, &rest[bi]);
            if crate::fbits::lt_bits(best_dist, d) {
                best = bi;
                best_dist = d;
            }
            bi += 1;
        }
        let ghost rest0 = rest@;
        let ghost out0 = out@;
        let picked = rest.remove(best);
        out.push(picked);
        proof {
            rest0.to_multiset_ensures();
            out0.to_multiset_ensures();
            assert(rest0[best as int] == picked);
            assert(rest0.contains(picked));
            assert(rest0.to_multiset().count(picked) > 0);
            assert(rest@ == rest0.remove(best as int));
            assert(rest@.to_multiset() =~= rest0.to_multiset().remove(picked));
            assert(out@ == out0.push(picked));
            assert(out@.to_multiset() =~= out0.to_multiset().insert(picked));
            assert(out@.to_multiset().add(rest@.to_multiset()) =~= out0.to_multiset().insert(
                picked,
            ).add(rest0.to_multiset().remove(picked)));
            assert(out0.to_multiset().insert(picked).add(rest0.to_multiset().remove(picked))
                =~= out0.to_multiset().add(rest0.to_multiset()));
            assert(out@.to_multiset().add(rest@.to_multiset()) =~= input@.to_multiset());
            assert forall|k: int, l: int|
                0 <= k < out@.len() && 0 <= l < rest@.len() implies fkey(
                #[trigger] spec_distance(cam, out@[k]),
            ) >= fkey(#[trigger] spec_distance(cam, rest@[l])) by {
                if l < best as int {
                    assert(rest@[l] == rest0[l]);
                } else {
                    assert(rest@[l] == rest0[l + 1]);
                }
                if k < out0.len() {
                    assert(out@[k] == out0[k]);
                } else {
                    assert(out@[k] == picked);
                }
            }
        }
    }
    out
}

/// Scene-wide toggles.
#[derive(Clone, Copy)]
pub struct SceneParameters {
    pub visualize_normals: bool,
}

impl SceneParameters {
    /// The initial scene parameters: no normal visualization.
    pub fn init() -> (r: SceneParameters)
        ensures
            r.visualize_normals == false,
    {
        SceneParameters { visualize_normals: false }
    }
}

/// Toggles the scene-wide normal visualization on its key.
pub struct SceneController {
    pub visualize_normals: bool,
}

/// The visualization flag after a key press: the normals key toggles it.
pub open spec fn spec_visualize_after_key(on: bool, keycode: Key) -> bool {
    if keycode == Key::N {
        !on
    } else {
        on
    }
}

impl SceneController {
    /// A fresh controller: normal visualization off.
    pub fn new() -> (r: SceneController)
        ensures
            r.visualize_normals == false,
    {
        SceneController { visualize_normals: false }
    }

    /// Toggle on the normals key.
    pub fn on_key_pressed(&mut self, keycode: Key)
        ensures
            final(self).visualize_normals == spec_visualize_after_key(
                old(self).visualize_normals,
                keycode,
            ),
    {
        match keycode {
            Key::N => self.visualize_normals = !self.visualize_normals,
            _ => (),
        }
    }
}

/// The visualization flag after a list of signals, dispatched in order.
pub open spec fn spec_visualize_fold(on: bool, sigs: Seq<SignalType>) -> bool
    decreases sigs.len(),
{
    if sigs.len() == 0 {
        on
    } else {
        match sigs.last() {
            SignalType::KeyPressed(key) => spec_visualize_after_key(
                spec_visualize_fold(on, sigs.drop_last()),
                key,
            ),
            _ => spec_visualize_fold(on, sigs.drop_last()),
        }
    }
}

impl Slot for SceneController {
    /// The scene controller reacts to key presses alone.
    fn on_signal(&mut self, signal: SignalType)
        ensures
            final(self).visualize_normals == match signal {
                SignalType::KeyPressed(key) => spec_visualize_after_key(
                    old(self).visualize_normals,
                    key,
                ),
                _ => old(self).visualize_normals,
            },
    {
        match signal {
            SignalType::KeyPressed(key) => self.on_key_pressed(key),
            _ => (),
        }
    }
}

impl Controller<SceneParameters> for SceneController {
    open spec fn process_requires(&self, obj: SceneParameters) -> bool {
        true
    }

    /// Apply the accumulated visualization flag to the scene parameters.
    fn process_signals(&mut self, obj: &mut SceneParameters)
        ensures
            *final(self) == *old(self),
            final(obj).visualize_normals == old(self).visualize_normals,
    {
        obj.visualize_normals = self.visualize_normals;
    }
}

/// The uniform scaling pattern the outline redraw enlarges a model by.
pub open spec fn spec_outline_scale() -> Seq<u32> {
    Mat4w::spec_identity().update(0, crate::fbits::F32_ELEVEN_TENTHS).update(
        5,
        crate::fbits::F32_ELEVEN_TENTHS,
    ).update(10, crate::fbits::F32_ELEVEN_TENTHS)
}

/// The commands one object contributes to the opaque pass: its model matrix
/// and draw, a debug redraw under the normal-visualization program where
/// that toggle is set, and, where the object is outlined, an enlarged
/// stencil-outline redraw immediately after, before any other object draws.
pub open spec fn spec_object_pass(
    r: Seq<RenderCmd>,
    o: SceneObject,
    idx: usize,
    object_shader: u32,
    debug_shader: u32,
    outline_shader: u32,
    viz: bool,
) -> bool {
    let base = seq![RenderCmd::SetUboModel(o.model)] + o.spec_draw(idx);
    let with_debug = if viz {
        base + seq![RenderCmd::UseProgram(debug_shader)] + o.spec_draw(idx) + seq![
            RenderCmd::UseProgram(object_shader),
        ]
    } else {
        base
    };
    if fkey(F32_ZERO) < fkey(o.outline.w) {
        exists|om: Mat4w|
            (#[trigger] om@) == crate::algebra::mul4_bits(o.model@, spec_outline_scale()) && r
                == with_debug + seq![
                RenderCmd::UseProgram(outline_shader),
                RenderCmd::SetUboModel(om),
            ] + o.spec_draw_outline(idx) + seq![RenderCmd::UseProgram(object_shader)]
    } else {
        r == with_debug
    }
}

/// The commands of the opaque pass over a list of objects, in list order.
pub open spec fn spec_objects_pass(
    r: Seq<RenderCmd>,
    objects: Seq<SceneObject>,
    object_shader: u32,
    debug_shader: u32,
    outline_shader: u32,
    viz: bool,
) -> bool
    decreases objects.len(),
{
    if objects.len() == 0 {
        r.len() == 0
    } else {
        exists|k: int|
            0 <= k <= r.len() && spec_objects_pass(
                #[trigger] r.take(k),
                objects.drop_last(),
                object_shader,
                debug_shader,
                outline_shader,
                viz,
            ) && spec_object_pass(
                r.skip(k),
                objects.last(),
                (objects.len() - 1) as usize,
                object_shader,
                debug_shader,
                outline_shader,
                viz,
            )
    }
}

/// The skybox draw commands, one per skybox, in order.
pub open spec fn spec_skybox_draws(n: int) -> Seq<RenderCmd>
    decreases n,
{
    if n <= 0 {
        Seq::empty()
    } else {
        spec_skybox_draws(n - 1).push(RenderCmd::DrawSkybox { skybox: (n - 1) as usize })
    }
}

/// A skybox pass draws one command per skybox.
pub proof fn lemma_skybox_draws_len(n: int)
    requires
        n >= 0,
    ensures
        spec_skybox_draws(n).len() == n,
    decreases n,
{
    if n > 0 {
        lemma_skybox_draws_len(n - 1);
    }
}

/// The commands of the shadow pass over a list of objects: each object's
/// model matrix, then its draw, in list order.
pub open spec fn spec_shadow_plan(objects: Seq<SceneObject>) -> Seq<RenderCmd>
    decreases objects.len(),
{
    if objects.len() == 0 {
        Seq::empty()
    } else {
        spec_shadow_plan(objects.drop_last()) + seq![
            RenderCmd::SetUboModel(objects.last().model),
        ] + objects.last().spec_draw((objects.len() - 1) as usize)
    }
}

/// Plan one object's contribution to the opaque pass.
fn object_pass(
    o: &SceneObject,
    idx: usize,
    object_shader: u32,
    debug_shader: u32,
    outline_shader: u32,
    viz: bool,
) -> (r: Vec<RenderCmd>)
    ensures
        spec_object_pass(r@, *o, idx, object_shader, debug_shader, outline_shader, viz),
{
    let mut out: Vec<RenderCmd> = Vec::new();
    out.push(RenderCmd::SetUboModel(o.model));
    let mut d = o.draw(idx);
    out.append(&mut d);
    if viz {
        out.push(RenderCmd::UseProgram(debug_shader));
        let mut d2 = o.draw(idx);
        out.append(&mut d2);
        out.push(RenderCmd::UseProgram(object_shader));
    }
    let ghost with_debug = out@;
    proof {
        if viz {
            assert(with_debug =~= seq![RenderCmd::SetUboModel(o.model)] + o.spec_draw(idx) + seq![
                RenderCmd::UseProgram(debug_shader),
            ] + o.spec_draw(idx) + seq![RenderCmd::UseProgram(object_shader)]);
        } else {
            assert(with_debug =~= seq![RenderCmd::SetUboModel(o.model)] + o.spec_draw(idx));
        }
    }
    if o.has_outline() {
        out.push(RenderCmd::UseProgram(outline_shader));
        let scale = Mat4w::scaling(
            Vec3w {
                x: crate::fbits::F32_ELEVEN_TENTHS,
                y: crate::fbits::F32_ELEVEN_TENTHS,
                z: crate::fbits::F32_ELEVEN_TENTHS,
            },
        );
        let om = crate::algebra::mat4_mul(&o.model, &scale);
        out.push(RenderCmd::SetUboModel(om));
        let mut oc = o.draw_outline(idx);
        out.append(&mut oc);
        out.push(RenderCmd::UseProgram(object_shader));
        proof {
            assert(om@ == crate::algebra::mul4_bits(o.model@, spec_outline_scale()));
            assert(out@ =~= with_debug + seq![
                RenderCmd::UseProgram(outline_shader),
                RenderCmd::SetUboModel(om),
            ] + o.spec_draw_outline(idx) + seq![RenderCmd::UseProgram(object_shader)]);
        }
    } else {
        proof {
            if viz {
                assert(out@ =~= seq![RenderCmd::SetUboModel(o.model)] + o.spec_draw(idx) + seq![
                    RenderCmd::UseProgram(debug_shader),
                ] + o.spec_draw(idx) + seq![RenderCmd::UseProgram(object_shader)]);
            } else {
                assert(out@ =~= seq![RenderCmd::SetUboModel(o.model)] + o.spec_draw(idx));
            }
        }
    }
    out
}

/// How many instances the scattered object carries.
pub const INSTANCES: usize = 1000;

/// Build the demo's five scene objects around the given drawable and
/// materials: the scattered object with one instance per scatter slot, the
/// outlined crate, the window pane raised and pulled back, one lamp marker
/// per point light at its light's position, and the floor turned flat and
/// lowered.
pub fn build_scene_objects(
    rock: Drawable,
    container: Material,
    window: Material,
    lamp: Material,
    floor: Material,
    lamps: &Vec<crate::lighting::PointLight>,
) -> (r: Vec<SceneObject>)
    requires
        lamps@.len() <= isize::MAX,
    ensures
        r@.len() == 5,
        r@[0].drawable == rock,
        r@[0].instances@.len() == INSTANCES,
        r@[0].dirty_instances == true,
        r@[1].instances@.len() == 1,
        r@[1].outline == (Vec4w { x: F32_HALF, y: F32_FIFTH, z: F32_THREE_TENTHS, w: F32_ONE }),
        r@[2].instances@.len() == 1,
        r@[2].model@ == spec_translated(
            Mat4w::spec_identity(),
            Vec3w { x: F32_ZERO, y: F32_ONE_AND_HALF, z: F32_NEG_ONE_AND_HALF },
        ),
        r@[3].instances@.len() == if lamps@.len() == 0 {
            1int
        } else {
            lamps@.len() as int
        },
        forall|k: int|
            0 <= k < lamps@.len() ==> {
                let m = (#[trigger] r@[3].instances@[k]).model@;
                &&& m.len() == 16
                &&& m[12] == add_bits(F32_ZERO, lamps@[k].pos.x)
                &&& m[13] == add_bits(F32_ZERO, lamps@[k].pos.y)
                &&& m[14] == add_bits(F32_ZERO, lamps@[k].pos.z)
            },
        r@[4].instances@.len() == 1,
        exists|lin: Seq<u32>|
            r@[4].model@ == #[trigger] spec_translated(
                spec_linear_applied(lin, Mat4w::spec_identity()),
                Vec3w { x: F32_ZERO, y: F32_NEG_ONE_AND_HALF, z: F32_ZERO },
            ),
{
    let mut objects_list: Vec<SceneObject> = Vec::new();

    let mut rock_object = SceneObject::from(rock);
    rock_object.scale(&Vec3w { x: F32_TENTH, y: F32_TENTH, z: F32_TENTH });
    rock_object.add_instances(INSTANCES - 1);
    let mut i: usize = 0;
    while i < INSTANCES
        invariant
            0 <= i <= INSTANCES,
            rock_object.instances@.len() == INSTANCES,
            rock_object.drawable == rock,
            rock_object.dirty_instances == true,
        decreases INSTANCES - i,
    {
        proof {
            lemma_scatter_range_ok();
        }
        RandomTransform::position(
            rock_object.get_instance_mut(i as isize),
            (F32_NEG_HUNDRED, F32_HUNDRED),
            (F32_NEG_HUNDRED, F32_HUNDRED),
            (F32_NEG_HUNDRED, F32_HUNDRED),
        );
        i += 1;
    }
    objects_list.push(rock_object);

    let mut box_mesh = crate::meshes::BasicMesh::cube(F32_ONE);
    box_mesh.material = container;
    let mut box_object = SceneObject::from(Drawable::Mesh(box_mesh));
    box_object.set_outline(
        Vec4w { x: F32_HALF, y: F32_FIFTH, z: F32_THREE_TENTHS, w: F32_ONE },
    );
    objects_list.push(box_object);

    let mut wind_mesh = crate::meshes::BasicMesh::square(F32_ONE);
    wind_mesh.material = window;
    let mut wind_object = SceneObject::from(Drawable::Mesh(wind_mesh));
    wind_object.translate(&Vec3w { x: F32_ZERO, y: F32_ONE_AND_HALF, z: F32_NEG_ONE_AND_HALF });
    objects_list.push(wind_object);

    let mut lamp_mesh = crate::meshes::BasicMesh::cube(F32_ONE);
    lamp_mesh.material = lamp;
    let mut lamp_object = SceneObject::from(Drawable::Mesh(lamp_mesh));
    if lamps.len() > 0 {
        lamp_object.add_instances(lamps.len() - 1);
    }
    let mut l: usize = 0;
    while l < lamps.len()
        invariant
            0 <= l <= lamps@.len(),
            lamps@.len() <= isize::MAX,
            lamp_object.instances@.len() == if lamps@.len() == 0 {
                1int
            } else {
                lamps@.len() as int
            },
            forall|k: int|
                l <= k < lamp_object.instances@.len() ==> (#[trigger] lamp_object.instances@[k]).model@
                    == Mat4w::spec_identity(),
            forall|k: int|
                0 <= k < l ==> {
                    let m = (#[trigger] lamp_object.instances@[k]).model@;
                    &&& m.len() == 16
                    &&& m[12] == add_bits(F32_ZERO, lamps@[k].pos.x)
                    &&& m[13] == add_bits(F32_ZERO, lamps@[k].pos.y)
                    &&& m[14] == add_bits(F32_ZERO, lamps@[k].pos.z)
                },
        decreases lamps@.len() - l,
    {
        lamp_object.get_instance_mut(l as isize).translate(&lamps[l].pos);
        lamp_object.get_instance_mut(l as isize).scale(
            &Vec3w { x: F32_TENTH, y: F32_TENTH, z: F32_TENTH },
        );
        l += 1;
    }
    objects_list.push(lamp_object);

    let mut floor_mesh = crate::meshes::BasicMesh::square(F32_TEN);
    floor_mesh.material = floor;
    let mut floor_object = SceneObject::from(Drawable::Mesh(floor_mesh));
    let tilt = crate::algebra::rotation_mat(
        F32_NEG_HALF_PI,
        Vec3w { x: F32_ONE, y: F32_ZERO, z: F32_ZERO },
    );
    floor_object.apply_rotation(&tilt);
    floor_object.translate(&Vec3w { x: F32_ZERO, y: F32_NEG_ONE_AND_HALF, z: F32_ZERO });
    proof {
        assert(floor_object.model@ == spec_translated(
            spec_linear_applied(tilt@, Mat4w::spec_identity()),
            Vec3w { x: F32_ZERO, y: F32_NEG_ONE_AND_HALF, z: F32_ZERO },
        ));
    }
    objects_list.push(floor_object);
    objects_list
}

/// An exact copy of a scene object's instancing, transform and outline
/// state; the drawable itself is cloned by the derived clone, of which
/// nothing further is stated.
pub fn duplicate_object(o: &SceneObject) -> (r: SceneObject)
    ensures
        r.instances@ == o.instances@,
        r.model == o.model,
        r.normal == o.normal,
        r.outline == o.outline,
        r.dirty_instances == o.dirty_instances,
        r.dirty_normal == o.dirty_normal,
        r.ibo == o.ibo,
{
    let mut instances: Vec<Instance> = Vec::new();
    let mut j: usize = 0;
    while j < o.instances.len()
        invariant
            0 <= j <= o.instances@.len(),
            instances@ == o.instances@.take(j as int),
        decreases o.instances@.len() - j,
    {
        instances.push(o.instances[j]);
        proof {
            assert(o.instances@.take(j + 1 as int) =~= o.instances@.take(j as int).push(
                o.instances@[j as int],
            ));
        }
        j += 1;
    }
    proof {
        assert(o.instances@.take(o.instances@.len() as int) =~= o.instances@);
    }
    SceneObject {
        drawable: o.drawable.clone(),
        instances,
        ibo: o.ibo,
        model: o.model,
        normal: o.normal,
        outline: o.outline,
        dirty_instances: o.dirty_instances,
        dirty_normal: o.dirty_normal,
    }
}

/// A frame's worth of scene: the objects, the skyboxes, the shader programs
/// of each pass, the camera, the lighting and the scene-wide toggles.
pub struct Scene {
    pub objects: Vec<SceneObject>,
    pub skyboxes: Vec<Skybox>,
    pub object_shader: u32,
    pub skybox_shader: u32,
    pub outline_shader: u32,
    pub shadow_shader: u32,
    pub debug_shader: u32,
    pub camera: Camera,
    pub lighting: Lighting,
    pub params: SceneParameters,
}

/// The commands of a whole composed frame after the shadow pass: the
/// projection, the translation-stripped view under which the skyboxes draw
/// with a relaxed depth test, the true view, the lighting and camera
/// uniforms, and then the opaque pass over the (already sorted) objects.
pub open spec fn spec_compose(
    r: Seq<RenderCmd>,
    cam: Camera,
    nsky: int,
    objects: Seq<SceneObject>,
    object_shader: u32,
    skybox_shader: u32,
    outline_shader: u32,
    debug_shader: u32,
    viz: bool,
) -> bool {
    let pre = 13 + nsky;
    &&& r.len() >= pre
    &&& exists|proj: Mat4w, view: Mat4w, skyview: Mat4w|
        #![trigger proj.0, view.0, skyview.0]
        {
            &&& view@ == crate::algebra::look_at_bits(
                cam.pos@,
                Vec3w {
                    x: crate::fbits::add_bits(cam.direction.x, cam.pos.x),
                    y: crate::fbits::add_bits(cam.direction.y, cam.pos.y),
                    z: crate::fbits::add_bits(cam.direction.z, cam.pos.z),
                }@,
                crate::camera::spec_world_up()@,
            )
            &&& skyview@ == crate::algebra::spec_rotation_only(view@)
            &&& r.take(pre) == seq![
                RenderCmd::SetUboProjection(proj),
                RenderCmd::SetUboView(skyview),
                RenderCmd::UseProgram(skybox_shader),
                RenderCmd::DisableStencil,
                RenderCmd::DisableCull,
                RenderCmd::DepthLessOrEqual,
            ] + spec_skybox_draws(nsky) + seq![
                RenderCmd::EnableStencil,
                RenderCmd::EnableCull,
                RenderCmd::DepthLess,
                RenderCmd::SetUboView(view),
                RenderCmd::UseProgram(object_shader),
                RenderCmd::SetLightingUniforms,
                RenderCmd::SetViewPos(cam.pos),
            ]
        }
    &&& spec_objects_pass(r.skip(pre), objects, object_shader, debug_shader, outline_shader, viz)
}

/// The commands of the shadow-map generation: front-face culling around one
/// depth-only pass from the directional light's view, then the light-space
/// matrix and the shadow map handed to the object shader.
pub open spec fn spec_shadow_maps(
    r: Seq<RenderCmd>,
    light_dir: Vec3w,
    objects: Seq<SceneObject>,
    shadow_shader: u32,
    object_shader: u32,
    width: u32,
    height: u32,
) -> bool {
    exists|p: Mat4w, v: Mat4w, pv: Mat4w|
        #![trigger p.0, v.0, pv.0]
        {
            &&& p@ == crate::algebra::ortho_bits(
                crate::fbits::F32_NEG_TEN,
                crate::fbits::F32_TEN,
                crate::fbits::F32_NEG_TEN,
                crate::fbits::F32_TEN,
                crate::fbits::F32_NEG_TWO,
                crate::fbits::F32_TEN,
            )
            &&& v@ == crate::algebra::look_at_bits(
                Vec3w {
                    x: light_dir.x ^ 0x8000_0000u32,
                    y: light_dir.y ^ 0x8000_0000u32,
                    z: light_dir.z ^ 0x8000_0000u32,
                }@,
                Vec3w { x: F32_ZERO, y: F32_ZERO, z: F32_ZERO }@,
                crate::camera::spec_world_up()@,
            )
            &&& pv@ == crate::algebra::mul4_bits(p@, v@)
            &&& r == seq![
                RenderCmd::SetViewport { width, height },
                RenderCmd::CullFront,
                RenderCmd::SetUboProjection(p),
                RenderCmd::SetUboView(v),
                RenderCmd::UseProgram(shadow_shader),
            ] + spec_shadow_plan(objects) + seq![
                RenderCmd::UseProgram(object_shader),
                RenderCmd::SetLightSpace(pv),
                RenderCmd::BindShadowMap,
                RenderCmd::CullBack,
            ]
        }
}

impl Scene {
    /// Plan the skybox pass: stencil and culling off and the depth test
    /// relaxed while the skyboxes draw, everything restored after.
    pub fn draw_skybox(&self) -> (r: Vec<RenderCmd>)
        ensures
            r@ == seq![
                RenderCmd::DisableStencil,
                RenderCmd::DisableCull,
                RenderCmd::DepthLessOrEqual,
            ] + spec_skybox_draws(self.skyboxes@.len() as int) + seq![
                RenderCmd::EnableStencil,
                RenderCmd::EnableCull,
                RenderCmd::DepthLess,
            ],
    {
        let mut out: Vec<RenderCmd> = Vec::new();
        out.push(RenderCmd::DisableStencil);
        out.push(RenderCmd::DisableCull);
        out.push(RenderCmd::DepthLessOrEqual);
        let ghost prefix = out@;
        let mut si: usize = 0;
        while si < self.skyboxes.len()
            invariant
                0 <= si <= self.skyboxes@.len(),
                prefix.len() == 3,
                out@ == prefix + spec_skybox_draws(si as int),
            decreases self.skyboxes@.len() - si,
        {
            out.push(RenderCmd::DrawSkybox { skybox: si });
            si += 1;
        }
        out.push(RenderCmd::EnableStencil);
        out.push(RenderCmd::EnableCull);
        out.push(RenderCmd::DepthLess);
        proof {
            assert(out@ =~= seq![
                RenderCmd::DisableStencil,
                RenderCmd::DisableCull,
                RenderCmd::DepthLessOrEqual,
            ] + spec_skybox_draws(self.skyboxes@.len() as int) + seq![
                RenderCmd::EnableStencil,
                RenderCmd::EnableCull,
                RenderCmd::DepthLess,
            ]);
        }
        out
    }

    /// Plan the depth-only draw of every object, in current list order.
    pub fn draw_shadows(&self) -> (r: Vec<RenderCmd>)
        ensures
            r@ == spec_shadow_plan(self.objects@),
    {
        let mut out: Vec<RenderCmd> = Vec::new();
        let mut i: usize = 0;
        while i < self.objects.len()
            invariant
                0 <= i <= self.objects@.len(),
                out@ == spec_shadow_plan(self.objects@.take(i as int)),
            decreases self.objects@.len() - i,
        {
            let ghost out0 = out@;
            out.push(RenderCmd::SetUboModel(self.objects[i].model));
            let mut d = self.objects[i].draw(i);
            out.append(&mut d);
            proof {
                assert(self.objects@.take(i + 1 as int).drop_last() =~= self.objects@.take(
                    i as int,
                ));
                assert(self.objects@.take(i + 1 as int).last() == self.objects@[i as int]);
                assert(out@ =~= out0 + seq![RenderCmd::SetUboModel(self.objects@[i as int].model)]
                    + self.objects@[i as int].spec_draw(i));
            }
            i += 1;
        }
        proof {
            assert(self.objects@.take(self.objects@.len() as int) =~= self.objects@);
        }
        out
    }

    /// Plan the shadow-map generation for the directional light.
    pub fn set_shadow_maps(&self, width: u32, height: u32) -> (r: Vec<RenderCmd>)
        ensures
            spec_shadow_maps(
                r@,
                self.lighting.dir.dir,
                self.objects@,
                self.shadow_shader,
                self.object_shader,
                width,
                height,
            ),
    {
        let p = crate::algebra::ortho_mat(
            crate::fbits::F32_NEG_TEN,
            crate::fbits::F32_TEN,
            crate::fbits::F32_NEG_TEN,
            crate::fbits::F32_TEN,
            crate::fbits::F32_NEG_TWO,
            crate::fbits::F32_TEN,
        );
        let directional_pos = crate::algebra::vec3_neg(self.lighting.dir.dir);
        let v = crate::algebra::look_at_mat(
            directional_pos,
            Vec3w::zeros(),
            Vec3w { x: F32_ZERO, y: F32_ONE, z: F32_ZERO },
        );
        let pv = crate::algebra::mat4_mul(&p, &v);
        let mut out: Vec<RenderCmd> = Vec::new();
        out.push(RenderCmd::SetViewport { width, height });
        out.push(RenderCmd::CullFront);
        out.push(RenderCmd::SetUboProjection(p));
        out.push(RenderCmd::SetUboView(v));
        out.push(RenderCmd::UseProgram(self.shadow_shader));
        let mut shadows = self.draw_shadows();
        out.append(&mut shadows);
        out.push(RenderCmd::UseProgram(self.object_shader));
        out.push(RenderCmd::SetLightSpace(pv));
        out.push(RenderCmd::BindShadowMap);
        out.push(RenderCmd::CullBack);
        proof {
            assert(out@ =~= seq![
                RenderCmd::SetViewport { width, height },
                RenderCmd::CullFront,
                RenderCmd::SetUboProjection(p),
                RenderCmd::SetUboView(v),
                RenderCmd::UseProgram(self.shadow_shader),
            ] + spec_shadow_plan(self.objects@) + seq![
                RenderCmd::UseProgram(self.object_shader),
                RenderCmd::SetLightSpace(pv),
                RenderCmd::BindShadowMap,
                RenderCmd::CullBack,
            ]);
        }
        out
    }

    /// Sort the objects back-to-front by camera distance and plan their
    /// opaque pass.
    pub fn draw_objects(&mut self) -> (r: Vec<RenderCmd>)
        ensures
            final(self).objects@.to_multiset() == old(self).objects@.to_multiset(),
            final(self).objects@.len() == old(self).objects@.len(),
            spec_back_to_front(final(self).objects@, old(self).camera.pos),
            spec_objects_pass(
                r@,
                final(self).objects@,
                old(self).object_shader,
                old(self).debug_shader,
                old(self).outline_shader,
                old(self).params.visualize_normals,
            ),
            final(self).skyboxes@ == old(self).skyboxes@,
            final(self).object_shader == old(self).object_shader,
            final(self).skybox_shader == old(self).skybox_shader,
            final(self).outline_shader == old(self).outline_shader,
            final(self).shadow_shader == old(self).shadow_shader,
            final(self).debug_shader == old(self).debug_shader,
            final(self).camera == old(self).camera,
            final(self).lighting.dir == old(self).lighting.dir,
            final(self).lighting.point@ == old(self).lighting.point@,
            final(self).lighting.spot == old(self).lighting.spot,
            final(self).params == old(self).params,
    {
        let cam = self.camera.get_pos();
        let mut objs: Vec<SceneObject> = Vec::new();
        core::mem::swap(&mut objs, &mut self.objects);
        let sorted = sort_back_to_front(cam, objs);
        self.objects = sorted;
        let viz = self.params.visualize_normals;
        let mut out: Vec<RenderCmd> = Vec::new();
        let ghost snap = *self;
        let mut i: usize = 0;
        while i < self.objects.len()
            invariant
                0 <= i <= self.objects@.len(),
                *self == snap,
                viz == self.params.visualize_normals,
                spec_objects_pass(
                    out@,
                    self.objects@.take(i as int),
                    self.object_shader,
                    self.debug_shader,
                    self.outline_shader,
                    viz,
                ),
            decreases self.objects@.len() - i,
        {
            let mut seg = object_pass(
                &self.objects[i],
                i,
                self.object_shader,
                self.debug_shader,
                self.outline_shader,
                viz,
            );
            let ghost out0 = out@;
            let ghost segv = seg@;
            out.append(&mut seg);
            proof {
                let k = out0.len() as int;
                assert(self.objects@.take(i + 1 as int).drop_last() =~= self.objects@.take(
                    i as int,
                ));
                assert(self.objects@.take(i + 1 as int).last() == self.objects@[i as int]);
                assert(out@.take(k) =~= out0);
                assert(out@.skip(k) =~= segv);
                assert(spec_objects_pass(
                    out@,
                    self.objects@.take(i + 1 as int),
                    self.object_shader,
                    self.debug_shader,
                    self.outline_shader,
                    viz,
                ));
            }
            i += 1;
        }
        proof {
            assert(self.objects@.take(self.objects@.len() as int) =~= self.objects@);
        }
        out
    }

    /// Compose the frame after the shadow pass: projection, the skybox pass
    /// under the translation-stripped view, then the opaque pass over the
    /// objects sorted back-to-front.
    pub fn compose(&mut self) -> (r: Vec<RenderCmd>)
        ensures
            final(self).objects@.to_multiset() == old(self).objects@.to_multiset(),
            final(self).objects@.len() == old(self).objects@.len(),
            spec_back_to_front(final(self).objects@, old(self).camera.pos),
            spec_compose(
                r@,
                old(self).camera,
                old(self).skyboxes@.len() as int,
                final(self).objects@,
                old(self).object_shader,
                old(self).skybox_shader,
                old(self).outline_shader,
                old(self).debug_shader,
                old(self).params.visualize_normals,
            ),
            final(self).camera == old(self).camera,
            final(self).skyboxes@ == old(self).skyboxes@,
            final(self).object_shader == old(self).object_shader,
            final(self).skybox_shader == old(self).skybox_shader,
            final(self).outline_shader == old(self).outline_shader,
            final(self).shadow_shader == old(self).shadow_shader,
            final(self).debug_shader == old(self).debug_shader,
            final(self).lighting.dir == old(self).lighting.dir,
            final(self).lighting.point@ == old(self).lighting.point@,
            final(self).lighting.spot == old(self).lighting.spot,
            final(self).params == old(self).params,
    {
        let projection = crate::algebra::perspective_mat(
            F32_ONE,
            self.camera.get_fov(),
            crate::fbits::F32_TENTH,
            crate::fbits::F32_HUNDRED,
        );
        let mut out: Vec<RenderCmd> = Vec::new();
        out.push(RenderCmd::SetUboProjection(projection));
        let view = self.camera.look_at();
        let skyview = view.rotation_only();
        out.push(RenderCmd::SetUboView(skyview));
        out.push(RenderCmd::UseProgram(self.skybox_shader));
        let mut sky = self.draw_skybox();
        out.append(&mut sky);
        out.push(RenderCmd::SetUboView(view));
        out.push(RenderCmd::UseProgram(self.object_shader));
        out.push(RenderCmd::SetLightingUniforms);
        out.push(RenderCmd::SetViewPos(self.camera.get_pos()));
        let ghost pre = out@;
        let mut objects = self.draw_objects();
        let ghost objv = objects@;
        out.append(&mut objects);
        proof {
            let nsky = old(self).skyboxes@.len() as int;
            lemma_skybox_draws_len(nsky);
            assert(pre.len() == 13 + nsky);
            assert(out@.take(13 + nsky) =~= pre);
            assert(out@.skip(13 + nsky) =~= objv);
            assert(pre =~= seq![
                RenderCmd::SetUboProjection(projection),
                RenderCmd::SetUboView(skyview),
                RenderCmd::UseProgram(old(self).skybox_shader),
                RenderCmd::DisableStencil,
                RenderCmd::DisableCull,
                RenderCmd::DepthLessOrEqual,
            ] + spec_skybox_draws(nsky) + seq![
                RenderCmd::EnableStencil,
                RenderCmd::EnableCull,
                RenderCmd::DepthLess,
                RenderCmd::SetUboView(view),
                RenderCmd::UseProgram(old(self).object_shader),
                RenderCmd::SetLightingUniforms,
                RenderCmd::SetViewPos(old(self).camera.pos),
            ]);
        }
        out
    }

    /// The mirror scene: the same drawables and lighting under the inverted
    /// camera.  Instance records, model matrices and outline state carry
    /// over exactly.
    pub fn mirrored(&self) -> (r: Scene)
        ensures
            r.objects@.len() == self.objects@.len(),
            forall|i: int|
                0 <= i < self.objects@.len() ==> {
                    &&& (#[trigger] r.objects@[i]).instances@ == self.objects@[i].instances@
                    &&& r.objects@[i].model == self.objects@[i].model
                    &&& r.objects@[i].normal == self.objects@[i].normal
                    &&& r.objects@[i].outline == self.objects@[i].outline
                    &&& r.objects@[i].dirty_instances == self.objects@[i].dirty_instances
                    &&& r.objects@[i].dirty_normal == self.objects@[i].dirty_normal
                    &&& r.objects@[i].ibo == self.objects@[i].ibo
                },
            r.skyboxes@.len() == self.skyboxes@.len(),
            forall|i: int|
                0 <= i < self.skyboxes@.len() ==> {
                    &&& (#[trigger] r.skyboxes@[i]).texture == self.skyboxes@[i].texture
                    &&& r.skyboxes@[i].vertices@ == self.skyboxes@[i].vertices@
                    &&& r.skyboxes@[i].indices@ == self.skyboxes@[i].indices@
                    &&& r.skyboxes@[i].vao == self.skyboxes@[i].vao
                    &&& r.skyboxes@[i].vbo == self.skyboxes@[i].vbo
                    &&& r.skyboxes@[i].ebo == self.skyboxes@[i].ebo
                },
            r.object_shader == self.object_shader,
            r.skybox_shader == self.skybox_shader,
            r.outline_shader == self.outline_shader,
            r.shadow_shader == self.shadow_shader,
            r.debug_shader == self.debug_shader,
            (r.camera.pitch, r.camera.yaw, r.camera.roll) == Camera::spec_invert_angles(
                self.camera.pitch,
                self.camera.yaw,
                self.camera.roll,
            ),
            r.camera.pos == self.camera.pos,
            r.camera.fov == self.camera.fov,
            r.lighting.dir == self.lighting.dir,
            r.lighting.point@ == self.lighting.point@,
            r.lighting.spot == self.lighting.spot,
            r.params == self.params,
    {
        let mut objects: Vec<SceneObject> = Vec::new();
        let mut i: usize = 0;
        while i < self.objects.len()
            invariant
                0 <= i <= self.objects@.len(),
                objects@.len() == i,
                forall|k: int|
                    0 <= k < i ==> {
                        &&& (#[trigger] objects@[k]).instances@ == self.objects@[k].instances@
                        &&& objects@[k].model == self.objects@[k].model
                        &&& objects@[k].normal == self.objects@[k].normal
                        &&& objects@[k].outline == self.objects@[k].outline
                        &&& objects@[k].dirty_instances == self.objects@[k].dirty_instances
                        &&& objects@[k].dirty_normal == self.objects@[k].dirty_normal
                        &&& objects@[k].ibo == self.objects@[k].ibo
                    },
            decreases self.objects@.len() - i,
        {
            let o = &self.objects[i];
            let mut instances: Vec<Instance> = Vec::new();
            let mut j: usize = 0;
            while j < o.instances.len()
                invariant
                    0 <= j <= o.instances@.len(),
                    instances@ == o.instances@.take(j as int),
                decreases o.instances@.len() - j,
            {
                instances.push(o.instances[j]);
                proof {
                    assert(o.instances@.take(j + 1 as int) =~= o.instances@.take(j as int).push(
                        o.instances@[j as int],
                    ));
                }
                j += 1;
            }
            proof {
                assert(o.instances@.take(o.instances@.len() as int) =~= o.instances@);
            }
            objects.push(
                SceneObject {
                    drawable: o.drawable.clone(),
                    instances,
                    ibo: o.ibo,
                    model: o.model,
                    normal: o.normal,
                    outline: o.outline,
                    dirty_instances: o.dirty_instances,
                    dirty_normal: o.dirty_normal,
                },
            );
            i += 1;
        }
        let mut skyboxes: Vec<Skybox> = Vec::new();
        let mut s: usize = 0;
        while s < self.skyboxes.len()
            invariant
                0 <= s <= self.skyboxes@.len(),
                skyboxes@.len() == s,
                forall|k: int|
                    0 <= k < s ==> {
                        &&& (#[trigger] skyboxes@[k]).texture == self.skyboxes@[k].texture
                        &&& skyboxes@[k].vertices@ == self.skyboxes@[k].vertices@
                        &&& skyboxes@[k].indices@ == self.skyboxes@[k].indices@
                        &&& skyboxes@[k].vao == self.skyboxes@[k].vao
                        &&& skyboxes@[k].vbo == self.skyboxes@[k].vbo
                        &&& skyboxes@[k].ebo == self.skyboxes@[k].ebo
                    },
            decreases self.skyboxes@.len() - s,
        {
            let sky = &self.skyboxes[s];
            let mut vertices: Vec<crate::meshes::Vertex> = Vec::new();
            let mut j: usize = 0;
            while j < sky.vertices.len()
                invariant
                    0 <= j <= sky.vertices@.len(),
                    vertices@ == sky.vertices@.take(j as int),
                decreases sky.vertices@.len() - j,
            {
                vertices.push(sky.vertices[j]);
                proof {
                    assert(sky.vertices@.take(j + 1 as int) =~= sky.vertices@.take(j as int).push(
                        sky.vertices@[j as int],
                    ));
                }
                j += 1;
            }
            let mut indices: Vec<u32> = Vec::new();
            let mut j2: usize = 0;
            while j2 < sky.indices.len()
                invariant
                    0 <= j2 <= sky.indices@.len(),
                    indices@ == sky.indices@.take(j2 as int),
                decreases sky.indices@.len() - j2,
            {
                indices.push(sky.indices[j2]);
                proof {
                    assert(sky.indices@.take(j2 + 1 as int) =~= sky.indices@.take(j2 as int).push(
                        sky.indices@[j2 as int],
                    ));
                }
                j2 += 1;
            }
            let copy = Skybox {
                texture: sky.texture,
                vertices,
                indices,
                vao: sky.vao,
                vbo: sky.vbo,
                ebo: sky.ebo,
            };
            skyboxes.push(copy);
            proof {
                assert(sky.vertices@.take(sky.vertices@.len() as int) =~= sky.vertices@);
                assert(sky.indices@.take(sky.indices@.len() as int) =~= sky.indices@);
            }
            s += 1;
        }
        let mut point: Vec<crate::lighting::PointLight> = Vec::new();
        let mut pl: usize = 0;
        while pl < self.lighting.point.len()
            invariant
                0 <= pl <= self.lighting.point@.len(),
                point@ == self.lighting.point@.take(pl as int),
            decreases self.lighting.point@.len() - pl,
        {
            point.push(self.lighting.point[pl]);
            proof {
                assert(self.lighting.point@.take(pl + 1 as int) =~= self.lighting.point@.take(
                    pl as int,
                ).push(self.lighting.point@[pl as int]));
            }
            pl += 1;
        }
        proof {
            assert(self.lighting.point@.take(self.lighting.point@.len() as int)
                =~= self.lighting.point@);
        }
        Scene {
            objects,
            skyboxes,
            object_shader: self.object_shader,
            skybox_shader: self.skybox_shader,
            outline_shader: self.outline_shader,
            shadow_shader: self.shadow_shader,
            debug_shader: self.debug_shader,
            camera: self.camera.invert(),
            lighting: Lighting { dir: self.lighting.dir, point, spot: self.lighting.spot },
            params: self.params,
        }
    }
}
} // verus!
