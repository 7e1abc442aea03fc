//! The screen compositor and its controller.
//!
//! A screen owns an offscreen multisampled framebuffer, a shadow
//! framebuffer and a fullscreen canvas.  A frame renders the scene into the
//! offscreen framebuffer (shadow maps first), optionally blends another
//! screen's texture on top as a picture-in-picture, and finally draws the
//! offscreen texture to the visible framebuffer with gamma correction and
//! optional edge detection.  The shared texture-unit counter is reset
//! exactly once per top-level draw.

use vstd::prelude::*;

use crate::algebra::{Mat4w, Vec2w, Vec3w, Vec4w};
use crate::controls::{Controller, Key, SignalType, Slot};
use crate::fbits::{add_bits, f32_add, fclamp, fle, sub_bits, F32_FIFTH, F32_GAMMA, F32_ONE, F32_THREE, F32_ZERO};
use crate::rendering::RenderCmd;
use crate::scene::{
    duplicate_object, spec_compose, spec_shadow_maps, Scene, SceneObject, spec_back_to_front,
};
use crate::spatial::{spec_linear_applied, spec_translated, Spatial};

verus! {

/// The side of the square shadow-map framebuffer.
pub const SHADOW_RESOLUTION: u32 = 1024;

/// The screen's own parameters.
#[derive(Clone, Copy)]
pub struct ScreenParameters {
    pub clear_color: Vec4w,
    pub sobel_on: bool,
    pub msaa_on: bool,
    pub gamma: u32,
    pub window_size: (u32, u32),
}

/// A render target: a fullscreen canvas, the offscreen framebuffer handles
/// the renderer assigned, and the post-process parameters.
pub struct Screen {
    pub canvas: SceneObject,
    pub fbo: u32,
    pub fbo_texture: u32,
    pub fbo_samples: u32,
    pub sfbo: u32,
    pub shader: u32,
    pub ubo: u32,
    pub params: ScreenParameters,
}

/// The commands one canvas draw issues: a re-upload of its instance records
/// where they are dirty, then one instanced draw.
pub open spec fn spec_canvas_draw(o: SceneObject) -> Seq<RenderCmd> {
    let draw = seq![RenderCmd::DrawCanvas { instances: o.instances@.len() as usize }];
    if o.dirty_instances {
        seq![RenderCmd::UploadCanvas] + draw
    } else {
        draw
    }
}

/// Plan one canvas draw.
fn canvas_draw(o: &SceneObject) -> (r: Vec<RenderCmd>)
    ensures
        r@ == spec_canvas_draw(*o),
{
    let mut out: Vec<RenderCmd> = Vec::new();
    if o.dirty_instances {
        out.push(RenderCmd::UploadCanvas);
    }
    out.push(RenderCmd::DrawCanvas { instances: o.instances.len() });
    proof {
        assert(out@ =~= spec_canvas_draw(*o));
    }
    out
}

impl Screen {
    /// A screen around a canvas, before the renderer assigns its
    /// framebuffers: edge detection and multisample resolution start off,
    /// gamma at its default.
    pub fn new(
        canvas: SceneObject,
        clear_color: Vec4w,
        window_size: (u32, u32),
        shader: u32,
        ubo: u32,
    ) -> (r: Screen)
        ensures
            r.canvas.instances@ == canvas.instances@,
            r.canvas.model == canvas.model,
            r.canvas.outline == canvas.outline,
            r.canvas.dirty_instances == canvas.dirty_instances,
            r.params.clear_color == clear_color,
            r.params.sobel_on == false,
            r.params.msaa_on == false,
            r.params.gamma == F32_GAMMA,
            r.params.window_size == window_size,
            r.shader == shader,
            r.ubo == ubo,
            r.fbo == 0 && r.fbo_texture == 0 && r.fbo_samples == 0 && r.sfbo == 0,
    {
        Screen {
            canvas,
            fbo: 0,
            fbo_texture: 0,
            fbo_samples: 0,
            sfbo: 0,
            shader,
            ubo,
            params: ScreenParameters {
                clear_color,
                sobel_on: false,
                msaa_on: false,
                gamma: F32_GAMMA,
                window_size,
            },
        }
    }

    /// Plan clearing the color, depth and stencil buffers in the screen's
    /// clear color.
    pub fn clear_buffers(&self) -> (r: Vec<RenderCmd>)
        ensures
            r@ == seq![RenderCmd::ClearBuffers { color: self.params.clear_color }],
    {
        let mut out: Vec<RenderCmd> = Vec::new();
        out.push(RenderCmd::ClearBuffers { color: self.params.clear_color });
        proof {
            assert(out@ =~= seq![RenderCmd::ClearBuffers { color: self.params.clear_color }]);
        }
        out
    }

    /// Plan one whole offscreen frame: the texture-unit counter is reset
    /// once, the shadow maps are generated into the shadow framebuffer,
    /// then the scene composes into the offscreen framebuffer.  The scene's
    /// objects end sorted back-to-front.
    pub fn draw_on_framebuffer(&self, scene: &mut Scene) -> (r: Vec<RenderCmd>)
        ensures
            final(scene).objects@.to_multiset() == old(scene).objects@.to_multiset(),
            spec_back_to_front(final(scene).objects@, old(scene).camera.pos),
            final(scene).camera == old(scene).camera,
            final(scene).skyboxes@ == old(scene).skyboxes@,
            final(scene).object_shader == old(scene).object_shader,
            final(scene).skybox_shader == old(scene).skybox_shader,
            final(scene).outline_shader == old(scene).outline_shader,
            final(scene).shadow_shader == old(scene).shadow_shader,
            final(scene).debug_shader == old(scene).debug_shader,
            final(scene).lighting.dir == old(scene).lighting.dir,
            final(scene).lighting.point@ == old(scene).lighting.point@,
            final(scene).lighting.spot == old(scene).lighting.spot,
            final(scene).params == old(scene).params,
            r@.len() >= 8,
            r@.take(3) == seq![
                RenderCmd::ResetTexUnits,
                RenderCmd::BindFramebuffer { fbo: self.sfbo },
                RenderCmd::ClearBuffers { color: self.params.clear_color },
            ],
            r@.last() == RenderCmd::BindDefaultFramebuffer,
            exists|k: int|
                {
                    &&& 3 <= k
                    &&& k + 5 <= r@.len()
                    &&& spec_shadow_maps(
                        #[trigger] r@.subrange(3, k),
                        old(scene).lighting.dir.dir,
                        old(scene).objects@,
                        old(scene).shadow_shader,
                        old(scene).object_shader,
                        SHADOW_RESOLUTION,
                        SHADOW_RESOLUTION,
                    )
                    &&& r@.subrange(k, k + 4) == seq![
                        RenderCmd::RestoreViewport,
                        RenderCmd::BindDefaultFramebuffer,
                        RenderCmd::BindFramebuffer { fbo: self.fbo },
                        RenderCmd::ClearBuffers { color: self.params.clear_color },
                    ]
                    &&& spec_compose(
                        r@.subrange(k + 4, r@.len() - 1),
                        old(scene).camera,
                        old(scene).skyboxes@.len() as int,
                        final(scene).objects@,
                        old(scene).object_shader,
                        old(scene).skybox_shader,
                        old(scene).outline_shader,
                        old(scene).debug_shader,
                        old(scene).params.visualize_normals,
                    )
                },
    {
        let mut out: Vec<RenderCmd> = Vec::new();
        out.push(RenderCmd::ResetTexUnits);
        out.push(RenderCmd::BindFramebuffer { fbo: self.sfbo });
        out.push(RenderCmd::ClearBuffers { color: self.params.clear_color });
        let mut shadows = scene.set_shadow_maps(SHADOW_RESOLUTION, SHADOW_RESOLUTION);
        let ghost shadow_len = shadows@.len() as int;
        let ghost shadowv = shadows@;
        out.append(&mut shadows);
        out.push(RenderCmd::RestoreViewport);
        out.push(RenderCmd::BindDefaultFramebuffer);
        out.push(RenderCmd::BindFramebuffer { fbo: self.fbo });
        out.push(RenderCmd::ClearBuffers { color: self.params.clear_color });
        let mut composed = scene.compose();
        let ghost composedv = composed@;
        out.append(&mut composed);
        out.push(RenderCmd::BindDefaultFramebuffer);
        proof {
            let k = 3 + shadow_len;
            assert(out@.take(3) =~= seq![
                RenderCmd::ResetTexUnits,
                RenderCmd::BindFramebuffer { fbo: self.sfbo },
                RenderCmd::ClearBuffers { color: self.params.clear_color },
            ]);
            assert(out@.subrange(3, k) =~= shadowv);
            assert(out@.subrange(k, k + 4) =~= seq![
                RenderCmd::RestoreViewport,
                RenderCmd::BindDefaultFramebuffer,
                RenderCmd::BindFramebuffer { fbo: self.fbo },
                RenderCmd::ClearBuffers { color: self.params.clear_color },
            ]);
            assert(out@.subrange(k + 4, out@.len() - 1) =~= composedv);
            assert(out@.last() == RenderCmd::BindDefaultFramebuffer);
        }
        out
    }

    /// Plan drawing this screen's texture as a scaled, offset quad onto
    /// another screen's framebuffer: the picture-in-picture pass, with the
    /// depth test off and no gamma correction.
    pub fn draw_on_another(&self, other: &Screen, scaling: u32, offset: Vec2w) -> (r: Vec<
        RenderCmd,
    >)
        ensures
            exists|tm: Mat4w|
                {
                    &&& (#[trigger] tm.0)@ == spec_translated(
                        spec_linear_applied(
                            Mat4w::spec_identity().update(0, scaling).update(5, scaling).update(
                                10,
                                scaling,
                            ),
                            self.canvas.model@,
                        ),
                        Vec3w { x: offset.x, y: offset.y, z: F32_ZERO },
                    )
                    &&& r@ == seq![
                        RenderCmd::BindFramebuffer { fbo: other.fbo },
                        RenderCmd::BindUboBase,
                        RenderCmd::DisableDepth,
                        RenderCmd::ResetTexUnits,
                        RenderCmd::UseProgram(self.shader),
                        RenderCmd::SetGamma(F32_ONE),
                        RenderCmd::BindScreenTexture { texture: self.fbo_texture },
                        RenderCmd::SetUboModel(tm),
                    ] + spec_canvas_draw(SceneObject { model: tm, ..self.canvas }) + seq![
                        RenderCmd::EnableDepth,
                    ]
                },
    {
        let mut transformed_canvas = duplicate_object(&self.canvas);
        transformed_canvas.scale(&Vec3w { x: scaling, y: scaling, z: scaling });
        transformed_canvas.translate(&Vec3w { x: offset.x, y: offset.y, z: F32_ZERO });
        let mut out: Vec<RenderCmd> = Vec::new();
        out.push(RenderCmd::BindFramebuffer { fbo: other.fbo });
        out.push(RenderCmd::BindUboBase);
        out.push(RenderCmd::DisableDepth);
        out.push(RenderCmd::ResetTexUnits);
        out.push(RenderCmd::UseProgram(self.shader));
        out.push(RenderCmd::SetGamma(F32_ONE));
        out.push(RenderCmd::BindScreenTexture { texture: self.fbo_texture });
        let tm = *transformed_canvas.get_model();
        out.push(RenderCmd::SetUboModel(tm));
        let mut cd = canvas_draw(&transformed_canvas);
        out.append(&mut cd);
        out.push(RenderCmd::EnableDepth);
        proof {
            assert(spec_canvas_draw(transformed_canvas) =~= spec_canvas_draw(
                SceneObject { model: tm, ..self.canvas },
            ));
            assert(out@ =~= seq![
                RenderCmd::BindFramebuffer { fbo: other.fbo },
                RenderCmd::BindUboBase,
                RenderCmd::DisableDepth,
                RenderCmd::ResetTexUnits,
                RenderCmd::UseProgram(self.shader),
                RenderCmd::SetGamma(F32_ONE),
                RenderCmd::BindScreenTexture { texture: self.fbo_texture },
                RenderCmd::SetUboModel(tm),
            ] + spec_canvas_draw(SceneObject { model: tm, ..self.canvas }) + seq![
                RenderCmd::EnableDepth,
            ]);
        }
        out
    }

    /// Plan resolving the offscreen texture to the visible framebuffer
    /// through the post-process shader: gamma correction, the multisample
    /// count and the edge-detection and multisample toggles, over a
    /// fullscreen canvas under the identity model matrix.
    pub fn draw_on_screen(&self) -> (r: Vec<RenderCmd>)
        ensures
            exists|idm: Mat4w|
                {
                    &&& (#[trigger] idm.0)@ == Mat4w::spec_identity()
                    &&& r@ == seq![
                        RenderCmd::BindDefaultFramebuffer,
                        RenderCmd::BindUboBase,
                        RenderCmd::ClearColorOnly {
                            color: Vec4w { x: F32_ONE, y: F32_ONE, z: F32_ONE, w: F32_ONE },
                        },
                        RenderCmd::DisableDepth,
                        RenderCmd::ResetTexUnits,
                        RenderCmd::UseProgram(self.shader),
                        RenderCmd::SetGamma(self.params.gamma),
                        RenderCmd::BindScreenTexture { texture: self.fbo_texture },
                        RenderCmd::SetSampleCount { samples: self.fbo_samples },
                        RenderCmd::SetSobel(self.params.sobel_on),
                        RenderCmd::SetMsaa(self.params.msaa_on),
                        RenderCmd::SetUboModel(idm),
                    ] + spec_canvas_draw(self.canvas) + seq![RenderCmd::EnableDepth]
                },
    {
        let mut out: Vec<RenderCmd> = Vec::new();
        out.push(RenderCmd::BindDefaultFramebuffer);
        out.push(RenderCmd::BindUboBase);
        out.push(
            RenderCmd::ClearColorOnly {
                color: Vec4w { x: F32_ONE, y: F32_ONE, z: F32_ONE, w: F32_ONE },
            },
        );
        out.push(RenderCmd::DisableDepth);
        out.push(RenderCmd::ResetTexUnits);
        out.push(RenderCmd::UseProgram(self.shader));
        out.push(RenderCmd::SetGamma(self.params.gamma));
        out.push(RenderCmd::BindScreenTexture { texture: self.fbo_texture });
        out.push(RenderCmd::SetSampleCount { samples: self.fbo_samples });
        out.push(RenderCmd::SetSobel(self.params.sobel_on));
        out.push(RenderCmd::SetMsaa(self.params.msaa_on));
        let idm = Mat4w::identity();
        out.push(RenderCmd::SetUboModel(idm));
        let mut cd = canvas_draw(&self.canvas);
        out.append(&mut cd);
        out.push(RenderCmd::EnableDepth);
        proof {
            assert(out@ =~= seq![
                RenderCmd::BindDefaultFramebuffer,
                RenderCmd::BindUboBase,
                RenderCmd::ClearColorOnly {
                    color: Vec4w { x: F32_ONE, y: F32_ONE, z: F32_ONE, w: F32_ONE },
                },
                RenderCmd::DisableDepth,
                RenderCmd::ResetTexUnits,
                RenderCmd::UseProgram(self.shader),
                RenderCmd::SetGamma(self.params.gamma),
                RenderCmd::BindScreenTexture { texture: self.fbo_texture },
                RenderCmd::SetSampleCount { samples: self.fbo_samples },
                RenderCmd::SetSobel(self.params.sobel_on),
                RenderCmd::SetMsaa(self.params.msaa_on),
                RenderCmd::SetUboModel(idm),
            ] + spec_canvas_draw(self.canvas) + seq![RenderCmd::EnableDepth]);
        }
        out
    }
}

/// Accumulates the post-process toggles and the gamma exponent.
pub struct ScreenController {
    pub sobel_on: bool,
    pub msaa_on: bool,
    pub gamma: u32,
}

/// The controller state after a key press: the edge-detection and
/// multisample keys toggle their flags; the gamma keys step the exponent by
/// a fifth, clamped into [1, 3] of the scalar order on both sides, so a
/// gamma key always leaves the exponent inside that interval.
pub open spec fn spec_screen_after_key(c: ScreenController, keycode: Key) -> ScreenController {
    match keycode {
        Key::E => ScreenController { sobel_on: !c.sobel_on, ..c },
        Key::M => ScreenController { msaa_on: !c.msaa_on, ..c },
        Key::Equals => ScreenController {
            gamma: fclamp(add_bits(c.gamma, F32_FIFTH), F32_ONE, F32_THREE),
            ..c
        },
        Key::Minus => ScreenController {
            gamma: fclamp(sub_bits(c.gamma, F32_FIFTH), F32_ONE, F32_THREE),
            ..c
        },
        _ => c,
    }
}

impl ScreenController {
    /// A fresh controller: edge detection off, multisample resolution on,
    /// gamma at its default.
    pub fn new() -> (r: ScreenController)
        ensures
            r.sobel_on == false,
            r.msaa_on == true,
            r.gamma == F32_GAMMA,
    {
        ScreenController { sobel_on: false, msaa_on: true, gamma: F32_GAMMA }
    }

    /// React to one key press: the gamma-range invariant [1, 3] is
    /// preserved by every key.
    pub fn on_key_pressed(&mut self, keycode: Key)
        ensures
            *final(self) == spec_screen_after_key(*old(self), keycode),
            fle(F32_ONE, old(self).gamma) && fle(old(self).gamma, F32_THREE) ==> fle(
                F32_ONE,
                final(self).gamma,
            ) && fle(final(self).gamma, F32_THREE),
    {
        proof {
            crate::fbits::lemma_gamma_bounds_ordered();
        }
        match keycode {
            Key::E => self.sobel_on = !self.sobel_on,
            Key::M => self.msaa_on = !self.msaa_on,
            Key::Equals => self.gamma = crate::fbits::clamp_bits(
                f32_add(self.gamma, F32_FIFTH),
                F32_ONE,
                F32_THREE,
            ),
            Key::Minus => self.gamma = crate::fbits::clamp_bits(
                crate::fbits::f32_sub(self.gamma, F32_FIFTH),
                F32_ONE,
                F32_THREE,
            ),
            _ => (),
        }
    }
}

/// The screen controller after a list of signals, dispatched in order.
pub open spec fn spec_screen_fold(c: ScreenController, sigs: Seq<SignalType>) -> ScreenController
    decreases sigs.len(),
{
    if sigs.len() == 0 {
        c
    } else {
        match sigs.last() {
            SignalType::KeyPressed(key) => spec_screen_after_key(
                spec_screen_fold(c, sigs.drop_last()),
                key,
            ),
            _ => spec_screen_fold(c, sigs.drop_last()),
        }
    }
}

impl Slot for ScreenController {
    /// The screen controller reacts to key presses alone; the gamma-range
    /// invariant [1, 3] is preserved by every signal.
    fn on_signal(&mut self, signal: SignalType)
        ensures
            *final(self) == match signal {
                SignalType::KeyPressed(key) => spec_screen_after_key(*old(self), key),
                _ => *old(self),
            },
            fle(F32_ONE, old(self).gamma) && fle(old(self).gamma, F32_THREE) ==> fle(
                F32_ONE,
                final(self).gamma,
            ) && fle(final(self).gamma, F32_THREE),
    {
        match signal {
            SignalType::KeyPressed(key) => self.on_key_pressed(key),
            _ => (),
        }
    }
}

impl Controller<Screen> for ScreenController {
    open spec fn process_requires(&self, obj: Screen) -> bool {
        true
    }

    /// Apply the accumulated toggles and gamma to the screen's parameters.
    fn process_signals(&mut self, obj: &mut Screen)
        ensures
            *final(self) == *old(self),
            final(obj).params.sobel_on == old(self).sobel_on,
            final(obj).params.msaa_on == old(self).msaa_on,
            final(obj).params.gamma == old(self).gamma,
            final(obj).params.clear_color == old(obj).params.clear_color,
            final(obj).params.window_size == old(obj).params.window_size,
            final(obj).canvas == old(obj).canvas,
            final(obj).fbo == old(obj).fbo,
            final(obj).fbo_texture == old(obj).fbo_texture,
            final(obj).fbo_samples == old(obj).fbo_samples,
            final(obj).sfbo == old(obj).sfbo,
            final(obj).shader == old(obj).shader,
            final(obj).ubo == old(obj).ubo,
    {
        obj.params.sobel_on = self.sobel_on;
        obj.params.msaa_on = self.msaa_on;
        obj.params.gamma = self.gamma;
    }
}

} // verus!
