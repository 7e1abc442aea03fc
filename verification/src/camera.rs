//! The fly camera and its controller.
//!
//! The camera keeps a position, a view direction, Euler angles and a field
//! of view.  Pitch is clamped into the open interval strictly inside
//! (-90, 90) degrees on every rotation, so the view direction never reaches
//! a gimbal singularity.  The controller accumulates input signals into
//! per-tick deltas and applies them to the camera once per tick, resetting
//! the edge-triggered accumulators afterwards.

use vstd::prelude::*;

use crate::algebra::{
    cross_bits, look_at_bits, look_at_mat, normalize_bits, vec3_angle, vec3_cross, vec3_normalize,
    Mat4w, Vec3w,
};
use crate::controls::{Controller, Key, SignalType, Slot};
use crate::fbits::{
    add_bits, f32_add, f32_cos, f32_from_i32, f32_mul, f32_sin, f32_sub, f32_to_radians, fclamp,
    fle, i32_bits, mul_bits, rad_bits, sub_bits, F32_HUNDREDTH, F32_ONE, F32_TENTH,
    F32_TWO_THOUSANDTHS, F32_ZERO, PITCH_MAX, PITCH_MIN,
};

verus! {

/// The world up direction, `(0, 1, 0)`.
pub open spec fn spec_world_up() -> Vec3w {
    Vec3w { x: F32_ZERO, y: F32_ONE, z: F32_ZERO }
}

/// Position after the view-relative translation: the offset's `z` moves
/// against the view direction, `x` against the camera-right axis and `y`
/// against the camera-up axis.
pub open spec fn spec_camera_translate(pos: Vec3w, dir: Vec3w, off: Vec3w) -> Vec3w {
    let p1 = Vec3w {
        x: sub_bits(pos.x, mul_bits(off.z, dir.x)),
        y: sub_bits(pos.y, mul_bits(off.z, dir.y)),
        z: sub_bits(pos.z, mul_bits(off.z, dir.z)),
    };
    let right = normalize_bits(cross_bits(spec_world_up()@, dir@));
    let p2 = Vec3w {
        x: sub_bits(p1.x, mul_bits(off.x, right[0])),
        y: sub_bits(p1.y, mul_bits(off.x, right[1])),
        z: sub_bits(p1.z, mul_bits(off.x, right[2])),
    };
    let up = cross_bits(dir@, right);
    Vec3w {
        x: sub_bits(p2.x, mul_bits(off.y, up[0])),
        y: sub_bits(p2.y, mul_bits(off.y, up[1])),
        z: sub_bits(p2.z, mul_bits(off.y, up[2])),
    }
}

/// Position after walking forward: the yaw-only horizontal projection of
/// the view direction, scaled by the offset, is added to the position, so a
/// positive offset walks toward the view.  `cos_yaw` and `sin_yaw` are
/// whatever patterns the trigonometric calls returned.
pub open spec fn spec_forward_step(pos: Vec3w, cos_yaw: u32, sin_yaw: u32, off: u32) -> Vec3w {
    Vec3w {
        x: add_bits(pos.x, mul_bits(cos_yaw, off)),
        y: add_bits(pos.y, mul_bits(F32_ZERO, off)),
        z: add_bits(pos.z, mul_bits(sin_yaw, off)),
    }
}

/// The shape of a recomputed view direction: the products of a yaw cosine
/// and sine with a pitch cosine around a pitch sine, whatever patterns the
/// trigonometric calls returned.
pub open spec fn spec_direction_shape(cos_yaw: u32, sin_yaw: u32, cos_pitch: u32, sin_pitch: u32) -> Vec3w {
    Vec3w {
        x: mul_bits(cos_yaw, cos_pitch),
        y: sin_pitch,
        z: mul_bits(sin_yaw, cos_pitch),
    }
}

/// The Euler angles after one rotation step: pitch is clamped into
/// `[PITCH_MIN, PITCH_MAX]`, yaw and roll accumulate freely.
pub open spec fn spec_rotate_angles(pitch: u32, yaw: u32, roll: u32, e: Vec3w) -> (u32, u32, u32) {
    (
        fclamp(add_bits(pitch, rad_bits(e.x)), PITCH_MIN, PITCH_MAX),
        add_bits(yaw, rad_bits(e.y)),
        add_bits(roll, rad_bits(e.z)),
    )
}

/// An orbit/fly camera.
#[derive(Clone, Copy)]
pub struct Camera {
    pub pos: Vec3w,
    pub direction: Vec3w,
    pub pitch: u32,
    pub yaw: u32,
    pub roll: u32,
    pub fov: u32,
}

impl Camera {
    /// A camera at `initial_pos` looking at the origin.  The initial yaw and
    /// pitch come from angle measurements of unspecified precision, so only
    /// the remaining fields are pinned.
    pub fn new(initial_pos: Vec3w) -> (r: Camera)
        ensures
            r.pos == initial_pos,
            r.direction == (Vec3w {
                x: initial_pos.x ^ 0x8000_0000u32,
                y: initial_pos.y ^ 0x8000_0000u32,
                z: initial_pos.z ^ 0x8000_0000u32,
            }),
            r.roll == F32_ZERO,
            r.fov == F32_ONE,
    {
        let focal_point = crate::algebra::vec3_neg(initial_pos);
        let yaw = vec3_angle(
            Vec3w { x: focal_point.x, y: F32_ZERO, z: focal_point.z },
            Vec3w { x: F32_ONE, y: F32_ZERO, z: F32_ZERO },
        );
        let pitch = vec3_angle(
            Vec3w { x: focal_point.x, y: focal_point.y, z: F32_ZERO },
            Vec3w { x: F32_ONE, y: F32_ZERO, z: F32_ZERO },
        );
        Camera { pos: initial_pos, direction: focal_point, pitch, yaw, roll: F32_ZERO, fov: F32_ONE }
    }

    /// The right-handed view matrix from the position toward the view
    /// direction, with the world up.
    pub fn look_at(&self) -> (r: Mat4w)
        ensures
            r@ == look_at_bits(
                self.pos@,
                Vec3w {
                    x: add_bits(self.direction.x, self.pos.x),
                    y: add_bits(self.direction.y, self.pos.y),
                    z: add_bits(self.direction.z, self.pos.z),
                }@,
                spec_world_up()@,
            ),
    {
        let center = crate::algebra::vec3_add(self.direction, self.pos);
        look_at_mat(self.pos, center, Vec3w { x: F32_ZERO, y: F32_ONE, z: F32_ZERO })
    }

    /// View-relative strafe/fly movement.
    pub fn translate(&mut self, offset: Vec3w)
        ensures
            final(self).pos == spec_camera_translate(old(self).pos, old(self).direction, offset),
            final(self).direction == old(self).direction,
            final(self).pitch == old(self).pitch,
            final(self).yaw == old(self).yaw,
            final(self).roll == old(self).roll,
            final(self).fov == old(self).fov,
    {
        let dir = self.direction;
        self.pos = Vec3w {
            x: f32_sub(self.pos.x, f32_mul(offset.z, dir.x)),
            y: f32_sub(self.pos.y, f32_mul(offset.z, dir.y)),
            z: f32_sub(self.pos.z, f32_mul(offset.z, dir.z)),
        };
        let global_up = Vec3w { x: F32_ZERO, y: F32_ONE, z: F32_ZERO };
        let camera_right = vec3_normalize(vec3_cross(global_up, dir));
        self.pos = Vec3w {
            x: f32_sub(self.pos.x, f32_mul(offset.x, camera_right.x)),
            y: f32_sub(self.pos.y, f32_mul(offset.x, camera_right.y)),
            z: f32_sub(self.pos.z, f32_mul(offset.x, camera_right.z)),
        };
        let camera_up = vec3_cross(dir, camera_right);
        self.pos = Vec3w {
            x: f32_sub(self.pos.x, f32_mul(offset.y, camera_up.x)),
            y: f32_sub(self.pos.y, f32_mul(offset.y, camera_up.y)),
            z: f32_sub(self.pos.z, f32_mul(offset.y, camera_up.z)),
        };
    }

    /// Strafe along the camera-right axis.
    pub fn translate_longitudinal(&mut self, offset: u32)
        ensures
            final(self).pos == spec_camera_translate(
                old(self).pos,
                old(self).direction,
                Vec3w { x: offset, y: F32_ZERO, z: F32_ZERO },
            ),
            final(self).direction == old(self).direction,
            final(self).pitch == old(self).pitch,
            final(self).yaw == old(self).yaw,
            final(self).roll == old(self).roll,
            final(self).fov == old(self).fov,
    {
        self.translate(Vec3w { x: offset, y: F32_ZERO, z: F32_ZERO });
    }

    /// Fly along the camera-up axis.
    pub fn translate_axial(&mut self, offset: u32)
        ensures
            final(self).pos == spec_camera_translate(
                old(self).pos,
                old(self).direction,
                Vec3w { x: F32_ZERO, y: offset, z: F32_ZERO },
            ),
            final(self).direction == old(self).direction,
            final(self).pitch == old(self).pitch,
            final(self).yaw == old(self).yaw,
            final(self).roll == old(self).roll,
            final(self).fov == old(self).fov,
    {
        self.translate(Vec3w { x: F32_ZERO, y: offset, z: F32_ZERO });
    }

    /// Move along the view direction.
    pub fn translate_frontal(&mut self, offset: u32)
        ensures
            final(self).pos == spec_camera_translate(
                old(self).pos,
                old(self).direction,
                Vec3w { x: F32_ZERO, y: F32_ZERO, z: offset },
            ),
            final(self).direction == old(self).direction,
            final(self).pitch == old(self).pitch,
            final(self).yaw == old(self).yaw,
            final(self).roll == old(self).roll,
            final(self).fov == old(self).fov,
    {
        self.translate(Vec3w { x: F32_ZERO, y: F32_ZERO, z: offset });
    }

    /// Ground-locked walking: moves along the yaw-only horizontal projection
    /// of the view direction, ignoring pitch.
    pub fn translate_forward(&mut self, offset: u32)
        ensures
            exists|cos_yaw: u32, sin_yaw: u32|
                final(self).pos == spec_forward_step(old(self).pos, cos_yaw, sin_yaw, offset),
            final(self).pos.y == add_bits(old(self).pos.y, mul_bits(F32_ZERO, offset)),
            final(self).direction == old(self).direction,
            final(self).pitch == old(self).pitch,
            final(self).yaw == old(self).yaw,
            final(self).roll == old(self).roll,
            final(self).fov == old(self).fov,
    {
        let cos_yaw = f32_cos(self.yaw);
        let sin_yaw = f32_sin(self.yaw);
        let next = Vec3w {
            x: f32_add(self.pos.x, f32_mul(cos_yaw, offset)),
            y: f32_add(self.pos.y, f32_mul(F32_ZERO, offset)),
            z: f32_add(self.pos.z, f32_mul(sin_yaw, offset)),
        };
        self.pos = next;
        proof {
            assert(final(self).pos == spec_forward_step(old(self).pos, cos_yaw, sin_yaw, offset));
        }
    }

    /// Move straight up or down in world space.
    pub fn translate_vertical(&mut self, offset: u32)
        ensures
            final(self).pos == (Vec3w {
                x: old(self).pos.x,
                y: add_bits(old(self).pos.y, offset),
                z: old(self).pos.z,
            }),
            final(self).direction == old(self).direction,
            final(self).pitch == old(self).pitch,
            final(self).yaw == old(self).yaw,
            final(self).roll == old(self).roll,
            final(self).fov == old(self).fov,
    {
        self.pos = Vec3w { x: self.pos.x, y: f32_add(self.pos.y, offset), z: self.pos.z };
    }

    /// Rotate by Euler angle deltas, in degrees.  Pitch stays clamped inside
    /// the open interval around level view; yaw and roll accumulate freely.
    /// The view direction is recomputed from the new yaw and pitch through
    /// sines and cosines of unspecified precision, so only its shape is
    /// pinned.
    pub fn rotate(&mut self, euler_angles: Vec3w)
        ensures
            (final(self).pitch, final(self).yaw, final(self).roll) == spec_rotate_angles(
                old(self).pitch,
                old(self).yaw,
                old(self).roll,
                euler_angles,
            ),
            fle(PITCH_MIN, final(self).pitch) && fle(final(self).pitch, PITCH_MAX),
            exists|cy: u32, sy: u32, cp: u32, sp: u32|
                final(self).direction == #[trigger] spec_direction_shape(cy, sy, cp, sp),
            final(self).pos == old(self).pos,
            final(self).fov == old(self).fov,
    {
        proof {
            crate::fbits::lemma_pitch_bounds_ordered();
        }
        let sum = f32_add(self.pitch, f32_to_radians(euler_angles.x));
        self.pitch = crate::fbits::clamp_bits(sum, PITCH_MIN, PITCH_MAX);
        self.yaw = f32_add(self.yaw, f32_to_radians(euler_angles.y));
        self.roll = f32_add(self.roll, f32_to_radians(euler_angles.z));

        let cos_yaw = f32_cos(self.yaw);
        let sin_yaw = f32_sin(self.yaw);
        let cos_pitch = f32_cos(self.pitch);
        let sin_pitch = f32_sin(self.pitch);
        self.direction = Vec3w {
            x: f32_mul(cos_yaw, cos_pitch),
            y: sin_pitch,
            z: f32_mul(sin_yaw, cos_pitch),
        };
        proof {
            assert(final(self).direction == spec_direction_shape(
                cos_yaw,
                sin_yaw,
                cos_pitch,
                sin_pitch,
            ));
        }
    }

    /// Rotate about the pitch axis only, in degrees.
    pub fn rotate_pitch(&mut self, rotation: u32)
        ensures
            (final(self).pitch, final(self).yaw, final(self).roll) == spec_rotate_angles(
                old(self).pitch,
                old(self).yaw,
                old(self).roll,
                Vec3w { x: rotation, y: F32_ZERO, z: F32_ZERO },
            ),
            fle(PITCH_MIN, final(self).pitch) && fle(final(self).pitch, PITCH_MAX),
            final(self).pos == old(self).pos,
            final(self).fov == old(self).fov,
    {
        self.rotate(Vec3w { x: rotation, y: F32_ZERO, z: F32_ZERO });
    }

    /// Rotate about the yaw axis only, in degrees.
    pub fn rotate_yaw(&mut self, rotation: u32)
        ensures
            (final(self).pitch, final(self).yaw, final(self).roll) == spec_rotate_angles(
                old(self).pitch,
                old(self).yaw,
                old(self).roll,
                Vec3w { x: F32_ZERO, y: rotation, z: F32_ZERO },
            ),
            fle(PITCH_MIN, final(self).pitch) && fle(final(self).pitch, PITCH_MAX),
            final(self).pos == old(self).pos,
            final(self).fov == old(self).fov,
    {
        self.rotate(Vec3w { x: F32_ZERO, y: rotation, z: F32_ZERO });
    }

    /// Rotate about the roll axis only, in degrees.
    pub fn rotate_roll(&mut self, rotation: u32)
        ensures
            (final(self).pitch, final(self).yaw, final(self).roll) == spec_rotate_angles(
                old(self).pitch,
                old(self).yaw,
                old(self).roll,
                Vec3w { x: F32_ZERO, y: F32_ZERO, z: rotation },
            ),
            fle(PITCH_MIN, final(self).pitch) && fle(final(self).pitch, PITCH_MAX),
            final(self).pos == old(self).pos,
            final(self).fov == old(self).fov,
    {
        self.rotate(Vec3w { x: F32_ZERO, y: F32_ZERO, z: rotation });
    }

    /// The current pitch, in radians.
    pub fn get_pitch(&self) -> (r: u32)
        ensures
            r == self.pitch,
    {
        self.pitch
    }

    /// The current yaw, in radians.
    pub fn get_yaw(&self) -> (r: u32)
        ensures
            r == self.yaw,
    {
        self.yaw
    }

    /// The Euler angles of the mirror camera: pitch reflected about level
    /// view, then yaw turned half around, as two rotation steps.
    pub open spec fn spec_invert_angles(pitch: u32, yaw: u32, roll: u32) -> (u32, u32, u32) {
        let deg = crate::fbits::deg_bits(pitch);
        let first = spec_rotate_angles(
            pitch,
            yaw,
            roll,
            Vec3w { x: mul_bits(deg, crate::fbits::F32_NEG_TWO), y: F32_ZERO, z: F32_ZERO },
        );
        spec_rotate_angles(
            first.0,
            first.1,
            first.2,
            Vec3w { x: F32_ZERO, y: crate::fbits::F32_ONE_EIGHTY, z: F32_ZERO },
        )
    }

    /// The mirror camera: pitch reflected about level view and yaw turned
    /// half around, as two rotation steps.
    pub fn invert(&self) -> (r: Camera)
        ensures
            (r.pitch, r.yaw, r.roll) == Camera::spec_invert_angles(self.pitch, self.yaw, self.roll),
            fle(PITCH_MIN, r.pitch) && fle(r.pitch, PITCH_MAX),
            r.pos == self.pos,
            r.fov == self.fov,
    {
        let mut inverted = *self;
        let deg = crate::fbits::f32_to_degrees(inverted.get_pitch());
        inverted.rotate_pitch(f32_mul(deg, crate::fbits::F32_NEG_TWO));
        inverted.rotate_yaw(crate::fbits::F32_ONE_EIGHTY);
        inverted
    }

    /// Widen or narrow the field of view by a delta in degrees.
    pub fn change_fov(&mut self, offset: u32)
        ensures
            final(self).fov == add_bits(old(self).fov, rad_bits(offset)),
            final(self).pos == old(self).pos,
            final(self).direction == old(self).direction,
            final(self).pitch == old(self).pitch,
            final(self).yaw == old(self).yaw,
            final(self).roll == old(self).roll,
    {
        self.fov = f32_add(self.fov, f32_to_radians(offset));
    }

    /// The current field of view, in radians.
    pub fn get_fov(&self) -> (r: u32)
        ensures
            r == self.fov,
    {
        self.fov
    }

    /// The current position.
    pub fn get_pos(&self) -> (r: Vec3w)
        ensures
            r == self.pos,
    {
        self.pos
    }

    /// The current view direction.
    pub fn get_dir(&self) -> (r: Vec3w)
        ensures
            r == self.direction,
    {
        self.direction
    }
}

/// Accumulates input signals into per-tick camera deltas.
pub struct CameraController {
    pub signal_list: Vec<SignalType>,
    pub inv_vertical: bool,
    pub trans_speed: u32,
    pub rot_speed: u32,
    pub zoom_speed: u32,
    pub cycle_time: u32,
    pub positive_delta_mov: Vec3w,
    pub negative_delta_mov: Vec3w,
    pub delta_rot: Vec3w,
    pub delta_zoom: u32,
}

/// The negation of a 32-bit integer, wrapping on the smallest value.
pub open spec fn spec_neg_i32(x: i32) -> i32 {
    if x == i32::MIN {
        x
    } else {
        (-(x as int)) as i32
    }
}

/// The controller after a key press: the movement component the key drives
/// is set to the translation speed.
pub open spec fn spec_on_key_pressed(c: CameraController, keycode: Key) -> CameraController {
    match keycode {
        Key::D => CameraController {
            positive_delta_mov: Vec3w { x: c.trans_speed, ..c.positive_delta_mov },
            ..c
        },
        Key::A => CameraController {
            negative_delta_mov: Vec3w { x: c.trans_speed, ..c.negative_delta_mov },
            ..c
        },
        Key::Space => CameraController {
            positive_delta_mov: Vec3w { y: c.trans_speed, ..c.positive_delta_mov },
            ..c
        },
        Key::LCtrl => CameraController {
            negative_delta_mov: Vec3w { y: c.trans_speed, ..c.negative_delta_mov },
            ..c
        },
        Key::W => CameraController {
            positive_delta_mov: Vec3w { z: c.trans_speed, ..c.positive_delta_mov },
            ..c
        },
        Key::S => CameraController {
            negative_delta_mov: Vec3w { z: c.trans_speed, ..c.negative_delta_mov },
            ..c
        },
        _ => c,
    }
}

/// The controller after a key release: the movement component the key
/// drives is cleared.
pub open spec fn spec_on_key_released(c: CameraController, keycode: Key) -> CameraController {
    match keycode {
        Key::D => CameraController {
            positive_delta_mov: Vec3w { x: F32_ZERO, ..c.positive_delta_mov },
            ..c
        },
        Key::A => CameraController {
            negative_delta_mov: Vec3w { x: F32_ZERO, ..c.negative_delta_mov },
            ..c
        },
        Key::Space => CameraController {
            positive_delta_mov: Vec3w { y: F32_ZERO, ..c.positive_delta_mov },
            ..c
        },
        Key::LCtrl => CameraController {
            negative_delta_mov: Vec3w { y: F32_ZERO, ..c.negative_delta_mov },
            ..c
        },
        Key::W => CameraController {
            positive_delta_mov: Vec3w { z: F32_ZERO, ..c.positive_delta_mov },
            ..c
        },
        Key::S => CameraController {
            negative_delta_mov: Vec3w { z: F32_ZERO, ..c.negative_delta_mov },
            ..c
        },
        _ => c,
    }
}

/// The controller after a mouse motion: the rotation delta gains the scaled
/// motion, with the horizontal delta negated.
pub open spec fn spec_on_mouse_moved(c: CameraController, x: i32, y: i32) -> CameraController {
    CameraController {
        delta_rot: Vec3w {
            x: add_bits(c.delta_rot.x, mul_bits(i32_bits(spec_neg_i32(x)), c.rot_speed)),
            y: add_bits(c.delta_rot.y, mul_bits(i32_bits(y), c.rot_speed)),
            z: add_bits(c.delta_rot.z, mul_bits(F32_ZERO, c.rot_speed)),
        },
        ..c
    }
}

/// The controller after a wheel motion: the zoom delta gains the scaled
/// wheel delta.
pub open spec fn spec_on_mouse_scrolled(c: CameraController, y: i32) -> CameraController {
    CameraController { delta_zoom: add_bits(c.delta_zoom, mul_bits(i32_bits(y), c.zoom_speed)), ..c }
}

/// The controller after one dispatched signal.
pub open spec fn spec_apply_camera_signal(c: CameraController, s: SignalType) -> CameraController {
    match s {
        SignalType::KeyPressed(key) => spec_on_key_pressed(c, key),
        SignalType::KeyReleased(key) => spec_on_key_released(c, key),
        SignalType::MouseMoved(x, y) => spec_on_mouse_moved(c, x, y),
        SignalType::MouseScrolled(y) => spec_on_mouse_scrolled(c, y),
        SignalType::Quit => c,
    }
}

/// The controller after dispatching a list of signals in order.
pub open spec fn spec_camera_ctl_fold(c: CameraController, sigs: Seq<SignalType>) -> CameraController
    decreases sigs.len(),
{
    if sigs.len() == 0 {
        c
    } else {
        spec_apply_camera_signal(spec_camera_ctl_fold(c, sigs.drop_last()), sigs.last())
    }
}

/// Two controllers that agree on everything but their signal queues keep
/// agreeing on everything but the queues under any dispatched signal list:
/// the dispatch handlers never read or write the queue.
pub proof fn lemma_camera_fold_ignores_queue(
    a: CameraController,
    b: CameraController,
    sigs: Seq<SignalType>,
)
    requires
        a.inv_vertical == b.inv_vertical,
        a.trans_speed == b.trans_speed,
        a.rot_speed == b.rot_speed,
        a.zoom_speed == b.zoom_speed,
        a.cycle_time == b.cycle_time,
        a.positive_delta_mov == b.positive_delta_mov,
        a.negative_delta_mov == b.negative_delta_mov,
        a.delta_rot == b.delta_rot,
        a.delta_zoom == b.delta_zoom,
    ensures
        ({
            let fa = spec_camera_ctl_fold(a, sigs);
            let fb = spec_camera_ctl_fold(b, sigs);
            &&& fa.inv_vertical == fb.inv_vertical
            &&& fa.trans_speed == fb.trans_speed
            &&& fa.rot_speed == fb.rot_speed
            &&& fa.zoom_speed == fb.zoom_speed
            &&& fa.cycle_time == fb.cycle_time
            &&& fa.positive_delta_mov == fb.positive_delta_mov
            &&& fa.negative_delta_mov == fb.negative_delta_mov
            &&& fa.delta_rot == fb.delta_rot
            &&& fa.delta_zoom == fb.delta_zoom
        }),
    decreases sigs.len(),
{
    if sigs.len() > 0 {
        lemma_camera_fold_ignores_queue(a, b, sigs.drop_last());
    }
}

impl CameraController {
    /// A fresh controller with default speeds and cleared accumulators.
    pub fn new() -> (r: CameraController)
        ensures
            r.signal_list@ == Seq::<SignalType>::empty(),
            r.inv_vertical == false,
            r.trans_speed == F32_TENTH,
            r.rot_speed == F32_TENTH,
            r.zoom_speed == F32_TENTH,
            r.cycle_time == F32_ZERO,
            r.positive_delta_mov == (Vec3w { x: F32_ZERO, y: F32_ZERO, z: F32_ZERO }),
            r.negative_delta_mov == (Vec3w { x: F32_ZERO, y: F32_ZERO, z: F32_ZERO }),
            r.delta_rot == (Vec3w { x: F32_ZERO, y: F32_ZERO, z: F32_ZERO }),
            r.delta_zoom == F32_ZERO,
    {
        CameraController {
            signal_list: Vec::new(),
            inv_vertical: false,
            trans_speed: F32_TENTH,
            rot_speed: F32_TENTH,
            zoom_speed: F32_TENTH,
            cycle_time: F32_ZERO,
            positive_delta_mov: Vec3w::zeros(),
            negative_delta_mov: Vec3w::zeros(),
            delta_rot: Vec3w::zeros(),
            delta_zoom: F32_ZERO,
        }
    }

    /// Derive the movement, rotation and zoom speeds from the cycle time.
    pub fn set_speeds(&mut self, cycle_time: u32)
        ensures
            final(self).trans_speed == mul_bits(cycle_time, F32_TWO_THOUSANDTHS),
            final(self).rot_speed == mul_bits(cycle_time, F32_HUNDREDTH),
            final(self).zoom_speed == mul_bits(cycle_time, F32_TENTH),
            final(self).cycle_time == cycle_time,
            final(self).signal_list@ == old(self).signal_list@,
            final(self).positive_delta_mov == old(self).positive_delta_mov,
            final(self).negative_delta_mov == old(self).negative_delta_mov,
            final(self).delta_rot == old(self).delta_rot,
            final(self).delta_zoom == old(self).delta_zoom,
            final(self).inv_vertical == old(self).inv_vertical,
    {
        self.trans_speed = f32_mul(cycle_time, F32_TWO_THOUSANDTHS);
        self.rot_speed = f32_mul(cycle_time, F32_HUNDREDTH);
        self.zoom_speed = f32_mul(cycle_time, F32_TENTH);
        self.cycle_time = cycle_time;
    }

    /// Record a key press into the movement deltas.
    pub fn on_key_pressed(&mut self, keycode: Key)
        ensures
            *final(self) == spec_on_key_pressed(*old(self), keycode),
    {
        match keycode {
            Key::D => self.positive_delta_mov.x = self.trans_speed,
            Key::A => self.negative_delta_mov.x = self.trans_speed,
            Key::Space => self.positive_delta_mov.y = self.trans_speed,
            Key::LCtrl => self.negative_delta_mov.y = self.trans_speed,
            Key::W => self.positive_delta_mov.z = self.trans_speed,
            Key::S => self.negative_delta_mov.z = self.trans_speed,
            _ => {},
        }
    }

    /// Record a key release into the movement deltas.
    pub fn on_key_released(&mut self, keycode: Key)
        ensures
            *final(self) == spec_on_key_released(*old(self), keycode),
    {
        match keycode {
            Key::D => self.positive_delta_mov.x = F32_ZERO,
            Key::A => self.negative_delta_mov.x = F32_ZERO,
            Key::Space => self.positive_delta_mov.y = F32_ZERO,
            Key::LCtrl => self.negative_delta_mov.y = F32_ZERO,
            Key::W => self.positive_delta_mov.z = F32_ZERO,
            Key::S => self.negative_delta_mov.z = F32_ZERO,
            _ => {},
        }
    }

    /// Accumulate a mouse motion into the rotation delta.
    pub fn on_mouse_moved(&mut self, x: i32, y: i32)
        ensures
            *final(self) == spec_on_mouse_moved(*old(self), x, y),
    {
        let nx: i32 = if x == i32::MIN {
            x
        } else {
            -x
        };
        self.delta_rot = Vec3w {
            x: f32_add(self.delta_rot.x, f32_mul(f32_from_i32(nx), self.rot_speed)),
            y: f32_add(self.delta_rot.y, f32_mul(f32_from_i32(y), self.rot_speed)),
            z: f32_add(self.delta_rot.z, f32_mul(F32_ZERO, self.rot_speed)),
        };
    }

    /// Accumulate a wheel motion into the zoom delta.
    pub fn on_mouse_scrolled(&mut self, y: i32)
        ensures
            *final(self) == spec_on_mouse_scrolled(*old(self), y),
    {
        self.delta_zoom = f32_add(self.delta_zoom, f32_mul(f32_from_i32(y), self.zoom_speed));
    }
}

impl Slot for CameraController {
    /// Queue a signal for the next `process_signals` step.
    fn on_signal(&mut self, signal: SignalType)
        ensures
            final(self).signal_list@ == old(self).signal_list@.push(signal),
            final(self).inv_vertical == old(self).inv_vertical,
            final(self).trans_speed == old(self).trans_speed,
            final(self).rot_speed == old(self).rot_speed,
            final(self).zoom_speed == old(self).zoom_speed,
            final(self).cycle_time == old(self).cycle_time,
            final(self).positive_delta_mov == old(self).positive_delta_mov,
            final(self).negative_delta_mov == old(self).negative_delta_mov,
            final(self).delta_rot == old(self).delta_rot,
            final(self).delta_zoom == old(self).delta_zoom,
    {
        self.signal_list.push(signal);
    }
}

impl Controller<Camera> for CameraController {
    open spec fn process_requires(&self, obj: Camera) -> bool {
        true
    }

    /// Dispatch the queued signals into the accumulators, apply the
    /// accumulated movement, rotation and zoom to the camera, and reset the
    /// per-tick accumulators.  The camera's pitch ends clamped, its yaw,
    /// roll and field of view gain exactly the accumulated deltas, and its
    /// position moves by the strafe, vertical and forward steps in that
    /// order.
    fn process_signals(&mut self, obj: &mut Camera)
        ensures
            ({
                let c = spec_camera_ctl_fold(*old(self), old(self).signal_list@);
                let dx = sub_bits(c.positive_delta_mov.x, c.negative_delta_mov.x);
                let dy = sub_bits(c.positive_delta_mov.y, c.negative_delta_mov.y);
                let dz = sub_bits(c.positive_delta_mov.z, c.negative_delta_mov.z);
                let p1 = spec_camera_translate(
                    old(obj).pos,
                    old(obj).direction,
                    Vec3w { x: dx, y: F32_ZERO, z: F32_ZERO },
                );
                let p2 = Vec3w { x: p1.x, y: add_bits(p1.y, dy), z: p1.z };
                &&& final(self).signal_list@ == Seq::<SignalType>::empty()
                &&& final(self).positive_delta_mov == c.positive_delta_mov
                &&& final(self).negative_delta_mov == c.negative_delta_mov
                &&& final(self).delta_rot == (Vec3w {
                    x: mul_bits(c.delta_rot.x, F32_ZERO),
                    y: mul_bits(c.delta_rot.y, F32_ZERO),
                    z: mul_bits(c.delta_rot.z, F32_ZERO),
                })
                &&& final(self).delta_zoom == F32_ZERO
                &&& final(self).trans_speed == c.trans_speed
                &&& final(self).rot_speed == c.rot_speed
                &&& final(self).zoom_speed == c.zoom_speed
                &&& final(self).cycle_time == c.cycle_time
                &&& final(self).inv_vertical == c.inv_vertical
                &&& exists|cos_yaw: u32, sin_yaw: u32|
                    final(obj).pos == spec_forward_step(p2, cos_yaw, sin_yaw, dz)
                &&& (final(obj).pitch, final(obj).yaw, final(obj).roll) == spec_rotate_angles(
                    old(obj).pitch,
                    old(obj).yaw,
                    old(obj).roll,
                    c.delta_rot,
                )
                &&& fle(PITCH_MIN, final(obj).pitch) && fle(final(obj).pitch, PITCH_MAX)
                &&& final(obj).fov == add_bits(old(obj).fov, rad_bits(c.delta_zoom))
            }),
    {
        let mut sigs: Vec<SignalType> = Vec::new();
        let mut j: usize = 0;
        while j < self.signal_list.len()
            invariant
                0 <= j <= self.signal_list@.len(),
                sigs@ == self.signal_list@.take(j as int),
                *self == *old(self),
                *obj == *old(obj),
            decreases self.signal_list@.len() - j,
        {
            sigs.push(self.signal_list[j]);
            proof {
                assert(self.signal_list@.take(j + 1 as int) =~= self.signal_list@.take(
                    j as int,
                ).push(self.signal_list@[j as int]));
            }
            j += 1;
        }
        proof {
            assert(old(self).signal_list@.take(old(self).signal_list@.len() as int) =~= old(
                self,
            ).signal_list@);
        }
        let mut i: usize = 0;
        while i < sigs.len()
            invariant
                0 <= i <= sigs@.len(),
                sigs@ == old(self).signal_list@,
                *self == spec_camera_ctl_fold(*old(self), sigs@.take(i as int)),
                *obj == *old(obj),
            decreases sigs@.len() - i,
        {
            proof {
                assert(sigs@.take(i + 1 as int).drop_last() =~= sigs@.take(i as int));
                assert(sigs@.take(i + 1 as int).last() == sigs@[i as int]);
            }
            match sigs[i] {
                SignalType::KeyPressed(key) => self.on_key_pressed(key),
                SignalType::KeyReleased(key) => self.on_key_released(key),
                SignalType::MouseMoved(x, y) => self.on_mouse_moved(x, y),
                SignalType::MouseScrolled(y) => self.on_mouse_scrolled(y),
                _ => (),
            }
            i += 1;
        }
        let positive = self.positive_delta_mov;
        let negative = self.negative_delta_mov;
        let delta_mov = crate::algebra::vec3_sub(positive, negative);
        obj.translate_longitudinal(delta_mov.x);
        obj.translate_vertical(delta_mov.y);
        obj.translate_forward(delta_mov.z);
        obj.rotate(self.delta_rot);
        obj.change_fov(self.delta_zoom);
        self.delta_rot = Vec3w {
            x: f32_mul(self.delta_rot.x, F32_ZERO),
            y: f32_mul(self.delta_rot.y, F32_ZERO),
            z: f32_mul(self.delta_rot.z, F32_ZERO),
        };
        self.delta_zoom = F32_ZERO;
        self.signal_list = Vec::new();
    }
}

} // verus!
