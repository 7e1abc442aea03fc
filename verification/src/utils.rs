//! Continuous random transforms and the stepping helper.
//!
//! A random transform spins and drifts an instance along randomly drawn
//! axes, redrawing the axes at fixed tick rates.  The random draws come
//! from the random-number crate behind trusted wrappers that promise only
//! the documented range of the result.

use vstd::prelude::*;

use crate::algebra::{rotation_mat, vec3_normalize, vec3_scale, Mat4w, Vec3w};
use crate::controls::{Controller, SignalType, Slot};
use crate::fbits::{fle, mul_bits, F32_NEG_ONE, F32_NEG_SPAN_LIMIT, F32_NEG_ZERO, F32_ONE, F32_SPAN_LIMIT};
use crate::spatial::{spec_linear_applied, spec_translated, Spatial};

verus! {

/// Relies on `rand::random_range` over an inclusive float range: the result
/// lies in `[-1, 1]`; nothing more is promised of a random draw.
#[verifier::external_body]
fn rand_symmetric() -> (r: u32)
    ensures
        fle(F32_NEG_ONE, r) && fle(r, F32_ONE),
{
    let bounds: nalgebra_glm::Vec2 = nalgebra_glm::make_vec2(
        bytemuck::cast_slice(&[F32_NEG_ONE, F32_ONE]),
    );
    rand::random_range(bounds.x..=bounds.y).to_bits()
}

/// Relies on `rand::random_range` over an inclusive float range: the result
/// lies in `[lo, hi]`.  The call panics on an unordered range and on one
/// whose width is not finite, so the bounds are confined to a half-range
/// whose difference can never overflow.  An upper bound of negative zero is
/// excluded: the sampler computes with the numeric values, on which the two
/// zeros are equal, so it can return positive zero, which sits strictly
/// above negative zero in the scalar total order (callers write positive
/// zero instead, the same number).
#[verifier::external_body]
fn rand_range(lo: u32, hi: u32) -> (r: u32)
    requires
        fle(lo, hi),
        fle(F32_NEG_SPAN_LIMIT, lo),
        fle(hi, F32_SPAN_LIMIT),
        hi != F32_NEG_ZERO,
    ensures
        fle(lo, r) && fle(r, hi),
{
    let bounds: nalgebra_glm::Vec2 = nalgebra_glm::make_vec2(bytemuck::cast_slice(&[lo, hi]));
    rand::random_range(bounds.x..=bounds.y).to_bits()
}

/// A normalized random direction.
fn random_unit() -> (r: Vec3w)
{
    let v = Vec3w { x: rand_symmetric(), y: rand_symmetric(), z: rand_symmetric() };
    vec3_normalize(v)
}

/// A continuous random motion: a spin about a random axis and a drift along
/// a random direction, re-randomized at fixed tick rates.
pub struct RandomTransform {
    pub axis: Vec3w,
    pub dir: Vec3w,
    pub ang_step: u32,
    pub lin_step: u32,
    pub ang_upd_rate: u32,
    pub lin_upd_rate: u32,
    pub rotation: Mat4w,
    pub translation: Vec3w,
}

impl RandomTransform {
    /// A random motion with the given step sizes and re-randomization
    /// rates.  The drift is the linear step along the drawn direction.
    pub fn continuous(ang_step: u32, lin_step: u32, ang_rate: u32, lin_rate: u32) -> (r:
        RandomTransform)
        ensures
            r.ang_step == ang_step,
            r.lin_step == lin_step,
            r.ang_upd_rate == ang_rate,
            r.lin_upd_rate == lin_rate,
            r.rotation@.len() == 16,
            r.translation == (Vec3w {
                x: mul_bits(lin_step, r.dir.x),
                y: mul_bits(lin_step, r.dir.y),
                z: mul_bits(lin_step, r.dir.z),
            }),
    {
        let axis = random_unit();
        let dir = random_unit();
        RandomTransform {
            axis,
            dir,
            ang_step,
            lin_step,
            ang_upd_rate: ang_rate,
            lin_upd_rate: lin_rate,
            rotation: rotation_mat(ang_step, axis),
            translation: vec3_scale(lin_step, dir),
        }
    }

    /// Move an entity by a random offset drawn from per-axis ranges.  Each
    /// range must be ordered, confined to the half-range within which a
    /// width never overflows, and bounded above by anything but negative
    /// zero (write positive zero instead, the same number).
    pub fn position<S: Spatial>(
        obj: &mut S,
        range_x: (u32, u32),
        range_y: (u32, u32),
        range_z: (u32, u32),
    )
        requires
            fle(range_x.0, range_x.1) && fle(F32_NEG_SPAN_LIMIT, range_x.0) && fle(
                range_x.1,
                F32_SPAN_LIMIT,
            ) && range_x.1 != F32_NEG_ZERO,
            fle(range_y.0, range_y.1) && fle(F32_NEG_SPAN_LIMIT, range_y.0) && fle(
                range_y.1,
                F32_SPAN_LIMIT,
            ) && range_y.1 != F32_NEG_ZERO,
            fle(range_z.0, range_z.1) && fle(F32_NEG_SPAN_LIMIT, range_z.0) && fle(
                range_z.1,
                F32_SPAN_LIMIT,
            ) && range_z.1 != F32_NEG_ZERO,
        ensures
            exists|off: Vec3w, m: Mat4w|
                #![trigger spec_translated(old(obj).spec_model(), off), old(obj).spec_with_model(m)]
                {
                    &&& fle(range_x.0, off.x) && fle(off.x, range_x.1)
                    &&& fle(range_y.0, off.y) && fle(off.y, range_y.1)
                    &&& fle(range_z.0, off.z) && fle(off.z, range_z.1)
                    &&& final(obj).spec_model() == spec_translated(old(obj).spec_model(), off)
                    &&& *final(obj) == old(obj).spec_with_model(m)
                },
    {
        let offset_x = rand_range(range_x.0, range_x.1);
        let offset_y = rand_range(range_y.0, range_y.1);
        let offset_z = rand_range(range_z.0, range_z.1);
        let off = Vec3w { x: offset_x, y: offset_y, z: offset_z };
        obj.translate(&off);
    }

    /// Spin an entity one step about the current random axis, preserving
    /// its translation column.
    pub fn rotate<S: Spatial>(&self, obj: &mut S)
        ensures
            final(obj).spec_model() == spec_linear_applied(self.rotation@, old(obj).spec_model()),
            final(obj).spec_model().len() == 16,
            final(obj).spec_model()[12] == old(obj).spec_model()[12],
            final(obj).spec_model()[13] == old(obj).spec_model()[13],
            final(obj).spec_model()[14] == old(obj).spec_model()[14],
            final(obj).spec_model()[15] == old(obj).spec_model()[15],
            exists|m: Mat4w| *final(obj) == #[trigger] old(obj).spec_with_model(m),
    {
        obj.apply_rotation(&self.rotation);
    }

    /// Drift an entity one step along the current random direction.
    pub fn translate<S: Spatial>(&self, obj: &mut S)
        ensures
            final(obj).spec_model() == spec_translated(old(obj).spec_model(), self.translation),
            exists|m: Mat4w| *final(obj) == #[trigger] old(obj).spec_with_model(m),
    {
        obj.translate(&self.translation);
    }

    /// Draw a fresh spin axis and rebuild the rotation step.
    pub fn update_axis(&mut self)
        ensures
            final(self).dir == old(self).dir,
            final(self).ang_step == old(self).ang_step,
            final(self).lin_step == old(self).lin_step,
            final(self).ang_upd_rate == old(self).ang_upd_rate,
            final(self).lin_upd_rate == old(self).lin_upd_rate,
            final(self).translation == old(self).translation,
            final(self).rotation@.len() == 16,
    {
        self.axis = random_unit();
        self.rotation = rotation_mat(self.ang_step, self.axis);
    }

    /// Draw a fresh drift direction and rebuild the drift step.
    pub fn update_dir(&mut self)
        ensures
            final(self).axis == old(self).axis,
            final(self).ang_step == old(self).ang_step,
            final(self).lin_step == old(self).lin_step,
            final(self).ang_upd_rate == old(self).ang_upd_rate,
            final(self).lin_upd_rate == old(self).lin_upd_rate,
            final(self).rotation == old(self).rotation,
            final(self).translation == (Vec3w {
                x: mul_bits(old(self).lin_step, final(self).dir.x),
                y: mul_bits(old(self).lin_step, final(self).dir.y),
                z: mul_bits(old(self).lin_step, final(self).dir.z),
            }),
    {
        self.dir = random_unit();
        self.translation = vec3_scale(self.lin_step, self.dir);
    }
}

/// The per-transform tick pair of a controller entry: the angular and
/// linear re-randomization rates.
pub open spec fn spec_rates(s: Seq<RandomTransform>) -> Seq<(u32, u32)> {
    Seq::new(s.len(), |i: int| (s[i].ang_upd_rate, s[i].lin_upd_rate))
}

/// Counts ticks down to the next re-randomization of each transform.
pub struct RTController {
    pub tick_list: Vec<(u32, u32)>,
}

/// One countdown step of a tick value.
pub open spec fn spec_tick_step(tick: u32, reset: u32) -> u32 {
    if tick == 1 {
        reset
    } else if tick > 1 {
        (tick - 1) as u32
    } else {
        tick
    }
}

impl Slot for RTController {
    /// The countdown pays no attention to input.
    fn on_signal(&mut self, _signal: SignalType)
        ensures
            *final(self) == *old(self),
    {
    }
}

impl RTController {
    /// A fresh controller with no transforms registered.
    pub fn new() -> (r: RTController)
        ensures
            r.tick_list@ == Seq::<(u32, u32)>::empty(),
    {
        RTController { tick_list: Vec::new() }
    }

    /// Register the tick rates of a list of transforms.
    pub fn add_rts(&mut self, rts: &Vec<RandomTransform>)
        ensures
            final(self).tick_list@ == old(self).tick_list@ + spec_rates(rts@),
    {
        let mut i: usize = 0;
        while i < rts.len()
            invariant
                0 <= i <= rts@.len(),
                self.tick_list@ == old(self).tick_list@ + spec_rates(rts@).take(i as int),
            decreases rts@.len() - i,
        {
            self.tick_list.push((rts[i].ang_upd_rate, rts[i].lin_upd_rate));
            proof {
                assert(spec_rates(rts@).take(i + 1 as int) =~= spec_rates(rts@).take(
                    i as int,
                ).push((rts@[i as int].ang_upd_rate, rts@[i as int].lin_upd_rate)));
                assert(old(self).tick_list@ + spec_rates(rts@).take(i + 1 as int) =~= (old(
                    self,
                ).tick_list@ + spec_rates(rts@).take(i as int)).push(
                    (rts@[i as int].ang_upd_rate, rts@[i as int].lin_upd_rate),
                ));
            }
            i += 1;
        }
        proof {
            assert(spec_rates(rts@).take(rts@.len() as int) =~= spec_rates(rts@));
        }
    }
}

impl Controller<Vec<RandomTransform>> for RTController {
    open spec fn process_requires(&self, obj: Vec<RandomTransform>) -> bool {
        self.tick_list@.len() <= obj@.len()
    }

    /// Count every registered tick down; a tick that reaches its last step
    /// re-randomizes its transform's axis or direction and restarts from
    /// the transform's rate.
    fn process_signals(&mut self, obj: &mut Vec<RandomTransform>)
        ensures
            final(self).tick_list@.len() == old(self).tick_list@.len(),
            final(obj)@.len() == old(obj)@.len(),
            forall|i: int|
                0 <= i < old(self).tick_list@.len() ==> #[trigger] final(self).tick_list@[i] == (
                    spec_tick_step(old(self).tick_list@[i].0, old(obj)@[i].ang_upd_rate),
                    spec_tick_step(old(self).tick_list@[i].1, old(obj)@[i].lin_upd_rate),
                ),
            forall|i: int|
                0 <= i < old(obj)@.len() ==> {
                    &&& (#[trigger] final(obj)@[i]).ang_step == old(obj)@[i].ang_step
                    &&& final(obj)@[i].lin_step == old(obj)@[i].lin_step
                    &&& final(obj)@[i].ang_upd_rate == old(obj)@[i].ang_upd_rate
                    &&& final(obj)@[i].lin_upd_rate == old(obj)@[i].lin_upd_rate
                },
            forall|i: int|
                0 <= i < old(obj)@.len() && !(i < old(self).tick_list@.len() && old(
                    self,
                ).tick_list@[i].0 == 1) ==> {
                    &&& (#[trigger] final(obj)@[i]).axis == old(obj)@[i].axis
                    &&& final(obj)@[i].rotation == old(obj)@[i].rotation
                },
            forall|i: int|
                0 <= i < old(obj)@.len() && !(i < old(self).tick_list@.len() && old(
                    self,
                ).tick_list@[i].1 == 1) ==> {
                    &&& (#[trigger] final(obj)@[i]).dir == old(obj)@[i].dir
                    &&& final(obj)@[i].translation == old(obj)@[i].translation
                },
    {
        let mut i: usize = 0;
        while i < self.tick_list.len()
            invariant
                0 <= i <= self.tick_list@.len(),
                self.tick_list@.len() == old(self).tick_list@.len(),
                obj@.len() == old(obj)@.len(),
                old(self).tick_list@.len() <= old(obj)@.len(),
                forall|k: int|
                    i <= k < self.tick_list@.len() ==> #[trigger] self.tick_list@[k] == old(
                        self,
                    ).tick_list@[k],
                forall|k: int|
                    0 <= k < i ==> #[trigger] self.tick_list@[k] == (
                        spec_tick_step(old(self).tick_list@[k].0, old(obj)@[k].ang_upd_rate),
                        spec_tick_step(old(self).tick_list@[k].1, old(obj)@[k].lin_upd_rate),
                    ),
                forall|k: int| i <= k < obj@.len() ==> #[trigger] obj@[k] == old(obj)@[k],
                forall|k: int|
                    0 <= k < i ==> {
                        &&& (#[trigger] obj@[k]).ang_step == old(obj)@[k].ang_step
                        &&& obj@[k].lin_step == old(obj)@[k].lin_step
                        &&& obj@[k].ang_upd_rate == old(obj)@[k].ang_upd_rate
                        &&& obj@[k].lin_upd_rate == old(obj)@[k].lin_upd_rate
                    },
                forall|k: int|
                    0 <= k < i && old(self).tick_list@[k].0 != 1 ==> {
                        &&& (#[trigger] obj@[k]).axis == old(obj)@[k].axis
                        &&& obj@[k].rotation == old(obj)@[k].rotation
                    },
                forall|k: int|
                    0 <= k < i && old(self).tick_list@[k].1 != 1 ==> {
                        &&& (#[trigger] obj@[k]).dir == old(obj)@[k].dir
                        &&& obj@[k].translation == old(obj)@[k].translation
                    },
            decreases self.tick_list@.len() - i,
        {
            let (ang_tick, lin_tick) = self.tick_list[i];
            if ang_tick == 1 {
                let target = &mut obj[i];
                target.update_axis();
                let rate = obj[i].ang_upd_rate;
                self.tick_list[i] = (rate, lin_tick);
            } else if ang_tick > 1 {
                self.tick_list[i] = (ang_tick - 1, lin_tick);
            }
            let (ang_now, _) = self.tick_list[i];
            if lin_tick == 1 {
                let target = &mut obj[i];
                target.update_dir();
                let rate = obj[i].lin_upd_rate;
                self.tick_list[i] = (ang_now, rate);
            } else if lin_tick > 1 {
                self.tick_list[i] = (ang_now, lin_tick - 1);
            }
            i += 1;
        }
    }
}

/// Step a cyclic value: advance `curr_value` by `step` within the cycle
/// `[min, min + modulus)`, wrapping around the cycle boundary in either
/// direction.  The result stays in the cycle and differs from
/// `curr_value + step` by a multiple of the modulus.
pub fn constrained_step(curr_value: i64, min: i64, step: i64, modulus: i64) -> (r: i64)
    requires
        modulus > 0,
        min <= curr_value,
        curr_value - min + 2 * modulus <= i64::MAX,
        min + modulus <= i64::MAX,
    ensures
        min <= r < min + modulus,
        (r - curr_value - step) % (modulus as int) == 0,
{
    let ghost m = modulus as int;
    let sm: i64 = if step >= 0 {
        step % modulus
    } else if step == i64::MIN {
        let k1 = i64::MAX % modulus;
        let k = (k1 + 1) % modulus;
        if k == 0 {
            0
        } else {
            -k
        }
    } else {
        let t = -step;
        let tr = t % modulus;
        if tr == 0 {
            0
        } else {
            -tr
        }
    };
    proof {
        assert(-modulus < sm < modulus);
        assert((step - sm) % m == 0) by {
            if step >= 0 {
                assert(sm == (step as int) % m);
                vstd::arithmetic::div_mod::lemma_fundamental_div_mod(step as int, m);
                assert(step - sm == m * ((step as int) / m));
                vstd::arithmetic::div_mod::lemma_mod_multiples_basic((step as int) / m, m);
                assert((m * ((step as int) / m)) % m == (((step as int) / m) * m) % m) by (nonlinear_arith);
            } else if step == i64::MIN {
                let kk = (i64::MAX as int) + 1;
                vstd::arithmetic::div_mod::lemma_add_mod_noop(i64::MAX as int, 1, m);
                assert(kk % m == ((i64::MAX as int) % m + 1int % m) % m);
                vstd::arithmetic::div_mod::lemma_fundamental_div_mod(kk, m);
                if m == 1 {
                    vstd::arithmetic::div_mod::lemma_mod_self_0(1);
                    assert(sm == 0);
                    assert((step - sm) % m == 0) by {
                        vstd::arithmetic::div_mod::lemma_mod_multiples_basic(step as int, 1);
                        assert(((step as int) * 1) % 1 == (step as int) % 1) by (nonlinear_arith);
                    }
                } else {
                    vstd::arithmetic::div_mod::lemma_small_mod(1nat, m as nat);
                    assert(1int % m == 1);
                    vstd::arithmetic::div_mod::lemma_mod_pos_bound(
                        (i64::MAX as int) % m + 1,
                        m,
                    );
                    assert(kk % m == if sm == 0 {
                        0int
                    } else {
                        -sm
                    });
                    assert(kk % m == kk - m * (kk / m));
                    assert(step as int == -kk);
                    let q = -(kk / m);
                    assert(step - sm == m * q) by (nonlinear_arith)
                        requires
                            step as int == -kk,
                            kk % m == kk - m * (kk / m),
                            kk % m == if sm == 0 {
                                0int
                            } else {
                                -sm
                            },
                            q == -(kk / m),
                    ;
                    vstd::arithmetic::div_mod::lemma_mod_multiples_basic(q, m);
                    assert((m * q) % m == (q * m) % m) by (nonlinear_arith);
                }
            } else {
                let t = -(step as int);
                vstd::arithmetic::div_mod::lemma_fundamental_div_mod(t, m);
                assert(t % m == t - m * (t / m));
                let q = if (t % m) == 0 {
                    -(t / m)
                } else {
                    -(t / m)
                };
                assert(step - sm == m * q) by (nonlinear_arith)
                    requires
                        step as int == -t,
                        t % m == t - m * (t / m),
                        sm == if (t % m) == 0 {
                            0int
                        } else {
                            -(t % m)
                        },
                        q == -(t / m),
                ;
                vstd::arithmetic::div_mod::lemma_mod_multiples_basic(q, m);
                assert((m * q) % m == (q * m) % m) by (nonlinear_arith);
            }
        }
    }
    let x = curr_value - min + sm + modulus;
    let r = x % modulus + min;
    proof {
        assert(x >= 0);
        assert((x as int) % m == x % modulus);
        assert(0 <= (x as int) % m < m);
        assert((r - curr_value - step) % m == 0) by {
            let q1 = ((step as int) - sm) / m;
            vstd::arithmetic::div_mod::lemma_fundamental_div_mod((step as int) - sm, m);
            assert(step - sm == m * q1);
            vstd::arithmetic::div_mod::lemma_fundamental_div_mod(x as int, m);
            assert((x as int) % m == x - m * ((x as int) / m));
            let q2 = 1 - ((x as int) / m) - q1;
            assert(r - curr_value - step == m * q2) by (nonlinear_arith)
                requires
                    r == (x as int) % m + min,
                    (x as int) % m == x - m * ((x as int) / m),
                    x == curr_value - min + sm + modulus,
                    m == modulus as int,
                    step - sm == m * q1,
                    q2 == 1 - ((x as int) / m) - q1,
            ;
            vstd::arithmetic::div_mod::lemma_mod_multiples_basic(q2, m);
            assert((m * q2) % m == (q2 * m) % m) by (nonlinear_arith);
        }
    }
    r
}

} // verus!
