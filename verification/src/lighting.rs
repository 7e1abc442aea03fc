//! Light descriptors and the flashlight controller.
//!
//! Lights are data: colors, positions, directions and attenuation factors.
//! The one behavior is the spotlight's on/off gate: a spotlight that is off
//! contributes exactly the zero vector as its ambient, diffuse and specular
//! color, whatever its other parameters hold.

use vstd::prelude::*;

use crate::algebra::Vec3w;
use crate::controls::{Controller, Key, SignalType, Slot};
use crate::fbits::F32_ZERO;

verus! {

/// A directional light: a direction and its colors, no position.
#[derive(Clone, Copy)]
pub struct DirectionalLight {
    pub dir: Vec3w,
    pub amb: Vec3w,
    pub diff: Vec3w,
    pub specular: Vec3w,
    pub on: bool,
}

impl DirectionalLight {
    /// A directional light, initially on.
    pub fn new(dir: Vec3w, amb: Vec3w, diff: Vec3w, specular: Vec3w) -> (r: DirectionalLight)
        ensures
            r.dir == dir && r.amb == amb && r.diff == diff && r.specular == specular,
            r.on == true,
    {
        DirectionalLight { dir, amb, diff, specular, on: true }
    }
}

/// A point light: a position, colors and quadratic attenuation factors.
#[derive(Clone, Copy)]
pub struct PointLight {
    pub pos: Vec3w,
    pub amb: Vec3w,
    pub diff: Vec3w,
    pub specular: Vec3w,
    pub att: Vec3w,
    pub on: bool,
}

impl PointLight {
    /// A point light, initially on.
    pub fn new(pos: Vec3w, amb: Vec3w, diff: Vec3w, specular: Vec3w, att: Vec3w) -> (r: PointLight)
        ensures
            r.pos == pos && r.amb == amb && r.diff == diff && r.specular == specular && r.att
                == att,
            r.on == true,
    {
        PointLight { pos, amb, diff, specular, att, on: true }
    }
}

/// A spotlight: position, direction, colors, attenuation, the cosine cone
/// angles (`phi` inner, `gamma` outer) and an on/off gate.
#[derive(Clone, Copy)]
pub struct Spotlight {
    pub pos: Vec3w,
    pub dir: Vec3w,
    pub amb: Vec3w,
    pub diff: Vec3w,
    pub specular: Vec3w,
    pub att: Vec3w,
    pub phi: u32,
    pub gamma: u32,
    pub on: bool,
}

/// The zero color vector.
pub open spec fn spec_zero3() -> Vec3w {
    Vec3w { x: F32_ZERO, y: F32_ZERO, z: F32_ZERO }
}

/// The color a gated light contributes: its own color while on, the zero
/// vector while off.
pub open spec fn spec_gated(color: Vec3w, on: bool) -> Vec3w {
    if on {
        color
    } else {
        spec_zero3()
    }
}

impl Spotlight {
    /// A spotlight, initially on.
    pub fn new(
        pos: Vec3w,
        dir: Vec3w,
        amb: Vec3w,
        diff: Vec3w,
        specular: Vec3w,
        att: Vec3w,
        phi: u32,
        gamma: u32,
    ) -> (r: Spotlight)
        ensures
            r.pos == pos && r.dir == dir && r.att == att && r.phi == phi && r.gamma == gamma,
            r.amb == amb && r.diff == diff && r.specular == specular,
            r.on == true,
    {
        Spotlight { pos, dir, amb, diff, specular, att, phi, gamma, on: true }
    }

    /// The shader-facing ambient color: the zero vector while the spotlight
    /// is off.
    pub fn get_amb(&self) -> (r: Vec3w)
        ensures
            r == spec_gated(self.amb, self.on),
            !self.on ==> r == spec_zero3(),
    {
        if self.on {
            self.amb
        } else {
            Vec3w::zeros()
        }
    }

    /// The shader-facing diffuse color: the zero vector while the spotlight
    /// is off.
    pub fn get_diff(&self) -> (r: Vec3w)
        ensures
            r == spec_gated(self.diff, self.on),
            !self.on ==> r == spec_zero3(),
    {
        if self.on {
            self.diff
        } else {
            Vec3w::zeros()
        }
    }

    /// The shader-facing specular color: the zero vector while the spotlight
    /// is off.
    pub fn get_spec(&self) -> (r: Vec3w)
        ensures
            r == spec_gated(self.specular, self.on),
            !self.on ==> r == spec_zero3(),
    {
        if self.on {
            self.specular
        } else {
            Vec3w::zeros()
        }
    }
}

/// Toggles the flashlight on its key.
pub struct FlashlightController {
    pub on: bool,
}

/// The flashlight state after a key press: the flashlight key toggles it,
/// any other key leaves it.
pub open spec fn spec_flashlight_after_key(on: bool, keycode: Key) -> bool {
    if keycode == Key::F {
        !on
    } else {
        on
    }
}

impl FlashlightController {
    /// A fresh controller: the flashlight starts off.
    pub fn new() -> (r: FlashlightController)
        ensures
            r.on == false,
    {
        FlashlightController { on: false }
    }

    /// Toggle on the flashlight key.
    pub fn on_key_pressed(&mut self, keycode: Key)
        ensures
            final(self).on == spec_flashlight_after_key(old(self).on, keycode),
    {
        match keycode {
            Key::F => self.on = !self.on,
            _ => (),
        }
    }
}

/// The flashlight state after a list of signals, dispatched in order.
pub open spec fn spec_flashlight_fold(on: bool, sigs: Seq<SignalType>) -> bool
    decreases sigs.len(),
{
    if sigs.len() == 0 {
        on
    } else {
        match sigs.last() {
            SignalType::KeyPressed(key) => spec_flashlight_after_key(
                spec_flashlight_fold(on, sigs.drop_last()),
                key,
            ),
            _ => spec_flashlight_fold(on, sigs.drop_last()),
        }
    }
}

/// Two presses of the flashlight key return the flashlight to its original
/// state, whatever that state was.
pub proof fn lemma_flashlight_toggle_involution(on: bool)
    ensures
        spec_flashlight_after_key(spec_flashlight_after_key(on, Key::F), Key::F) == on,
{
}

impl Slot for FlashlightController {
    /// The flashlight reacts to key presses alone.
    fn on_signal(&mut self, signal: SignalType)
        ensures
            final(self).on == match signal {
                SignalType::KeyPressed(key) => spec_flashlight_after_key(old(self).on, key),
                _ => old(self).on,
            },
    {
        match signal {
            SignalType::KeyPressed(key) => self.on_key_pressed(key),
            _ => (),
        }
    }
}

impl Controller<Spotlight> for FlashlightController {
    open spec fn process_requires(&self, obj: Spotlight) -> bool {
        true
    }

    /// Apply the accumulated on/off state to the spotlight; the level
    /// -triggered state persists in the controller.
    fn process_signals(&mut self, obj: &mut Spotlight)
        ensures
            *final(self) == *old(self),
            final(obj).on == old(self).on,
            final(obj).pos == old(obj).pos && final(obj).dir == old(obj).dir,
            final(obj).att == old(obj).att,
            final(obj).phi == old(obj).phi && final(obj).gamma == old(obj).gamma,
            final(obj).amb == old(obj).amb,
            final(obj).diff == old(obj).diff,
            final(obj).specular == old(obj).specular,
    {
        obj.on = self.on;
    }
}

/// The whole lighting set handed to the shaders each frame.
pub struct Lighting {
    pub dir: DirectionalLight,
    pub point: Vec<PointLight>,
    pub spot: Spotlight,
}

} // verus!
