//! The program loop flag, its controller, and the controller hub.
//!
//! A quit signal does not stop anything by itself: it sets a flag that the
//! outer run loop reads at its next iteration boundary.  The hub owns every
//! controller, fans each polled signal out to all of them once per tick,
//! and then applies each controller's accumulated state to the entity it
//! owns, in a fixed order.

use vstd::prelude::*;

use crate::camera::{
    lemma_camera_fold_ignores_queue, spec_camera_ctl_fold, spec_rotate_angles, Camera,
    CameraController,
};
use crate::controls::{Controller, Key, SignalType, Slot};
use crate::fbits::{
    add_bits, fle, mul_bits, rad_bits, F32_HUNDREDTH, F32_TENTH, F32_TWO_THOUSANDTHS, F32_ZERO,
    PITCH_MAX, PITCH_MIN,
};
use crate::lighting::{spec_flashlight_fold, FlashlightController, Spotlight};
use crate::scene::{spec_visualize_fold, SceneController, SceneParameters};
use crate::screen::{spec_screen_fold, Screen, ScreenController};
use crate::utils::{RTController, RandomTransform};

verus! {

/// The outer run loop's state: it keeps running while `loop_active` holds.
pub struct Program {
    pub loop_active: bool,
}

/// Accumulates the request to quit.
pub struct ProgramController {
    pub quit: bool,
}

/// The quit flag after a key press: the escape key requests the quit, any
/// other key leaves it.
pub open spec fn spec_quit_after_key(quit: bool, keycode: Key) -> bool {
    if keycode == Key::Escape {
        true
    } else {
        quit
    }
}

impl ProgramController {
    /// A fresh controller: no quit requested.
    pub fn new() -> (r: ProgramController)
        ensures
            r.quit == false,
    {
        ProgramController { quit: false }
    }

    /// The escape key requests the quit.
    pub fn on_key_pressed(&mut self, keycode: Key)
        ensures
            final(self).quit == spec_quit_after_key(old(self).quit, keycode),
    {
        match keycode {
            Key::Escape => self.quit = true,
            _ => (),
        }
    }
}

/// The quit flag after a list of signals, dispatched in order.
pub open spec fn spec_quit_fold(quit: bool, sigs: Seq<SignalType>) -> bool
    decreases sigs.len(),
{
    if sigs.len() == 0 {
        quit
    } else {
        match sigs.last() {
            SignalType::KeyPressed(key) => spec_quit_after_key(
                spec_quit_fold(quit, sigs.drop_last()),
                key,
            ),
            _ => spec_quit_fold(quit, sigs.drop_last()),
        }
    }
}

impl Slot for ProgramController {
    /// The program controller reacts to key presses alone.
    fn on_signal(&mut self, signal: SignalType)
        ensures
            final(self).quit == match signal {
                SignalType::KeyPressed(key) => spec_quit_after_key(old(self).quit, key),
                _ => old(self).quit,
            },
    {
        match signal {
            SignalType::KeyPressed(key) => self.on_key_pressed(key),
            _ => (),
        }
    }
}

impl Controller<Program> for ProgramController {
    open spec fn process_requires(&self, obj: Program) -> bool {
        true
    }

    /// The loop stays active exactly while no quit was requested.
    fn process_signals(&mut self, obj: &mut Program)
        ensures
            *final(self) == *old(self),
            final(obj).loop_active == !old(self).quit,
    {
        obj.loop_active = !self.quit;
    }
}

/// Everything that reacts to input: one controller per entity, each owning
/// disjoint state.
pub struct ControllerHub {
    pub camera: CameraController,
    pub flashlight: FlashlightController,
    pub program: ProgramController,
    pub screen: ScreenController,
    pub scene: SceneController,
    pub rt: RTController,
}

impl ControllerHub {
    /// A hub of fresh controllers.
    pub fn init() -> (r: ControllerHub)
        ensures
            r.camera.signal_list@ == Seq::<SignalType>::empty(),
            r.flashlight.on == false,
            r.program.quit == false,
            r.screen.sobel_on == false && r.screen.msaa_on == true,
            r.scene.visualize_normals == false,
            r.rt.tick_list@ == Seq::<(u32, u32)>::empty(),
    {
        ControllerHub {
            camera: CameraController::new(),
            flashlight: FlashlightController::new(),
            program: ProgramController::new(),
            screen: ScreenController::new(),
            scene: SceneController::new(),
            rt: RTController::new(),
        }
    }

    /// Fan every signal out to every controller, once, in order: each
    /// controller ends in the fold of its own handler over the whole list,
    /// and no controller touches another's state.
    pub fn dispatch(&mut self, signals: &Vec<SignalType>)
        ensures
            final(self).camera.signal_list@ == old(self).camera.signal_list@ + signals@,
            final(self).camera.inv_vertical == old(self).camera.inv_vertical,
            final(self).camera.trans_speed == old(self).camera.trans_speed,
            final(self).camera.rot_speed == old(self).camera.rot_speed,
            final(self).camera.zoom_speed == old(self).camera.zoom_speed,
            final(self).camera.cycle_time == old(self).camera.cycle_time,
            final(self).camera.positive_delta_mov == old(self).camera.positive_delta_mov,
            final(self).camera.negative_delta_mov == old(self).camera.negative_delta_mov,
            final(self).camera.delta_rot == old(self).camera.delta_rot,
            final(self).camera.delta_zoom == old(self).camera.delta_zoom,
            final(self).flashlight.on == spec_flashlight_fold(old(self).flashlight.on, signals@),
            final(self).program.quit == spec_quit_fold(old(self).program.quit, signals@),
            final(self).scene.visualize_normals == spec_visualize_fold(
                old(self).scene.visualize_normals,
                signals@,
            ),
            final(self).screen == spec_screen_fold(old(self).screen, signals@),
            final(self).rt == old(self).rt,
    {
        let mut i: usize = 0;
        while i < signals.len()
            invariant
                0 <= i <= signals@.len(),
                self.camera.signal_list@ == old(self).camera.signal_list@ + signals@.take(i as int),
                self.camera.inv_vertical == old(self).camera.inv_vertical,
                self.camera.trans_speed == old(self).camera.trans_speed,
                self.camera.rot_speed == old(self).camera.rot_speed,
                self.camera.zoom_speed == old(self).camera.zoom_speed,
                self.camera.cycle_time == old(self).camera.cycle_time,
                self.camera.positive_delta_mov == old(self).camera.positive_delta_mov,
                self.camera.negative_delta_mov == old(self).camera.negative_delta_mov,
                self.camera.delta_rot == old(self).camera.delta_rot,
                self.camera.delta_zoom == old(self).camera.delta_zoom,
                self.flashlight.on == spec_flashlight_fold(
                    old(self).flashlight.on,
                    signals@.take(i as int),
                ),
                self.program.quit == spec_quit_fold(old(self).program.quit, signals@.take(i as int)),
                self.scene.visualize_normals == spec_visualize_fold(
                    old(self).scene.visualize_normals,
                    signals@.take(i as int),
                ),
                self.screen == spec_screen_fold(old(self).screen, signals@.take(i as int)),
                self.rt == old(self).rt,
            decreases signals@.len() - i,
        {
            proof {
                assert(signals@.take(i + 1 as int).drop_last() =~= signals@.take(i as int));
                assert(signals@.take(i + 1 as int).last() == signals@[i as int]);
            }
            let s = signals[i];
            self.camera.on_signal(s);
            self.flashlight.on_signal(s);
            self.program.on_signal(s);
            self.screen.on_signal(s);
            self.scene.on_signal(s);
            self.rt.on_signal(s);
            proof {
                assert(self.camera.signal_list@ =~= old(self).camera.signal_list@ + signals@.take(
                    i + 1 as int,
                ));
            }
            i += 1;
        }
        proof {
            assert(signals@.take(signals@.len() as int) =~= signals@);
        }
    }

    /// One input tick: derive the camera speeds from the cycle time, fan the
    /// polled signals out, then apply every controller to its entity in a
    /// fixed order.  The camera's angles, bounds and field of view follow
    /// the folded deltas exactly; the other entities take their controllers'
    /// folded states; the camera controller's per-tick accumulators end
    /// reset.
    pub fn update(
        &mut self,
        cycle_time: u32,
        signals: &Vec<SignalType>,
        camera: &mut Camera,
        flashlight: &mut Spotlight,
        prog: &mut Program,
        screen: &mut Screen,
        params: &mut SceneParameters,
        rts: &mut Vec<RandomTransform>,
    )
        requires
            old(self).rt.tick_list@.len() <= old(rts)@.len(),
        ensures
            ({
                let cc = spec_camera_ctl_fold(
                    CameraController {
                        trans_speed: mul_bits(cycle_time, F32_TWO_THOUSANDTHS),
                        rot_speed: mul_bits(cycle_time, F32_HUNDREDTH),
                        zoom_speed: mul_bits(cycle_time, F32_TENTH),
                        cycle_time,
                        ..old(self).camera
                    },
                    old(self).camera.signal_list@ + signals@,
                );
                &&& (final(camera).pitch, final(camera).yaw, final(camera).roll)
                    == spec_rotate_angles(
                    old(camera).pitch,
                    old(camera).yaw,
                    old(camera).roll,
                    cc.delta_rot,
                )
                &&& fle(PITCH_MIN, final(camera).pitch) && fle(final(camera).pitch, PITCH_MAX)
                &&& final(camera).fov == add_bits(old(camera).fov, rad_bits(cc.delta_zoom))
                &&& final(self).camera.positive_delta_mov == cc.positive_delta_mov
                &&& final(self).camera.negative_delta_mov == cc.negative_delta_mov
            }),
            final(self).camera.signal_list@ == Seq::<SignalType>::empty(),
            final(self).camera.delta_zoom == F32_ZERO,
            final(flashlight).on == spec_flashlight_fold(old(self).flashlight.on, signals@),
            final(flashlight).amb == old(flashlight).amb,
            final(flashlight).diff == old(flashlight).diff,
            final(flashlight).specular == old(flashlight).specular,
            final(prog).loop_active == !spec_quit_fold(old(self).program.quit, signals@),
            final(params).visualize_normals == spec_visualize_fold(
                old(self).scene.visualize_normals,
                signals@,
            ),
            ({
                let sc = spec_screen_fold(old(self).screen, signals@);
                &&& final(screen).params.sobel_on == sc.sobel_on
                &&& final(screen).params.msaa_on == sc.msaa_on
                &&& final(screen).params.gamma == sc.gamma
            }),
            final(rts)@.len() == old(rts)@.len(),
            final(self).rt.tick_list@.len() == old(self).rt.tick_list@.len(),
    {
        self.camera.set_speeds(cycle_time);
        let ghost cc0 = self.camera;
        self.dispatch(signals);
        let ghost disp = self.camera;
        self.camera.process_signals(camera);
        proof {
            lemma_camera_fold_ignores_queue(
                disp,
                CameraController {
                    trans_speed: mul_bits(cycle_time, F32_TWO_THOUSANDTHS),
                    rot_speed: mul_bits(cycle_time, F32_HUNDREDTH),
                    zoom_speed: mul_bits(cycle_time, F32_TENTH),
                    cycle_time,
                    ..old(self).camera
                },
                old(self).camera.signal_list@ + signals@,
            );
        }
        self.flashlight.process_signals(flashlight);
        self.program.process_signals(prog);
        self.screen.process_signals(screen);
        self.scene.process_signals(params);
        self.rt.process_signals(rts);
    }
}

} // verus!
