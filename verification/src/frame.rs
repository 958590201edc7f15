//! Frame orchestrator: one ordered pass per rendered frame.
//!
//! The tick drains the frame's already-sampled input and events through
//! the components in a fixed order: ground contact tracking first, so the
//! locomotion controller reads this frame's grounded flag; then
//! locomotion; then the cursor capture machine, so the orientation
//! controller reads the already-updated capture state; then orientation;
//! then level progression.  Every step is synchronous arithmetic or
//! event-queue draining, so the whole pass completes within the frame.

use vstd::prelude::*;

verus! {

use crate::cursor::{cursor_step, spec_cursor_step, CursorMode, PointerAction};
use crate::fixed::{spec_clamp, spec_mul_scale};
use crate::grounded::{ContactEvent, GroundedProvider};
use crate::intent::KeySet;
use crate::locomotion::{
    explicit_integration_update, spec_dir_x, spec_dir_z, spec_friction_factor, spec_jump_stage,
    velocity_target_update, WalkCommand,
};
use crate::orientation::{
    spec_orientation_fold, spec_step_rate, update_orientation, valid_delta, MouseDelta,
};
use crate::player::{
    spec_spawn_point, valid_dt, CameraArm, MouseSettings, PhysicsConfig, PlayerState, FALL_RESET_Y,
    VEL_MAX,
};
use crate::progression::{
    process_goal_contacts, spec_frame_actions, spec_goal_contact_count, GameState,
    ProgressionPhase, TransitionAction,
};
use crate::vec3::{Vec3Fx, YawRot};

/// Which update law the locomotion controller runs, selected at startup
/// for the physics backend that is wired in.
#[derive(Clone, Copy, PartialEq, Eq, Structural, Debug)]
pub enum LocomotionLaw {
    /// Declare a desired velocity; the character-control backend
    /// integrates and owns jump eligibility.
    VelocityTarget,
    /// Integrate the velocity here and feed it to a kinematic sweep as a
    /// desired displacement.
    ExplicitIntegration,
}

/// Everything the core owns between frames.
pub struct GameWorld<G> {
    pub player: PlayerState,
    pub camera: CameraArm,
    pub cursor: CursorMode,
    pub game: GameState,
    /// Ground contact strategy for the wired physics backend.
    pub tracker: G,
    pub settings: MouseSettings,
    pub config: PhysicsConfig,
    pub law: LocomotionLaw,
    /// Entity identifier of the player, as contact events name it.
    pub player_id: u64,
}

impl<G> GameWorld<G> {
    pub open spec fn wf(self) -> bool {
        &&& self.player.wf()
        &&& self.camera.wf()
        &&& self.settings.wf()
        &&& self.config.wf()
        &&& self.game.phase == ProgressionPhase::Playing
    }
}

/// One frame's already-resolved input and events.
pub struct FrameInput {
    /// Keys currently held down.
    pub keys: KeySet,
    /// Primary button newly pressed this frame.
    pub interact_pressed: bool,
    /// Cancel key newly pressed this frame.
    pub cancel_pressed: bool,
    /// Mouse-delta samples, in arrival order.
    pub mouse: Vec<MouseDelta>,
    /// Contact events, in arrival order.
    pub contacts: Vec<ContactEvent>,
    /// What the kinematic sweep reported this frame, for the
    /// sweep-derived grounded strategy.
    pub sweep_hit: bool,
    /// Elapsed frame time, micro-seconds.
    pub dt: i64,
    /// Cosine/sine of the player's yaw, supplied by the embedding: the
    /// trigonometric evaluation lives outside this integer core.
    pub rot: YawRot,
    /// Entity identifiers currently tagged as goals.
    pub goals: Vec<u64>,
}

impl FrameInput {
    pub open spec fn wf(self) -> bool {
        &&& valid_dt(self.dt)
        &&& self.rot.wf()
        &&& forall|i: int| 0 <= i < self.mouse@.len() ==> valid_delta(self.mouse@[i])
    }
}

/// What one frame hands back to the external collaborators.
pub struct FrameOutput {
    /// Pointer lock/visibility command, if the capture state changed.
    pub pointer: Option<PointerAction>,
    /// The velocity-target law's command for the character-control
    /// backend; present exactly under that law.
    pub walk: Option<WalkCommand>,
    /// The explicit-integration law's desired displacement for the
    /// kinematic sweep; present exactly under that law.
    pub displacement: Option<Vec3Fx>,
    /// Level-transition side effects, in the order to apply them.
    pub actions: Vec<TransitionAction>,
}

/// The player's velocity after the locomotion stage, under the law that
/// is wired in.
pub open spec fn spec_velocity_after_locomotion(
    p: PlayerState,
    keys: KeySet,
    rot: YawRot,
    grounded: bool,
    cfg: PhysicsConfig,
    dt: int,
    law: LocomotionLaw,
) -> Vec3Fx {
    if law == LocomotionLaw::VelocityTarget {
        p.velocity
    } else if p.position.y < FALL_RESET_Y {
        Vec3Fx { x: 0, y: 0, z: 0 }
    } else {
        let gain = spec_mul_scale(cfg.speed as int, dt);
        let v1x = p.velocity.x + spec_mul_scale(spec_dir_x(keys, rot), gain);
        let v1z = p.velocity.z + spec_mul_scale(spec_dir_z(keys, rot), gain);
        let impulse = spec_mul_scale(cfg.jump_impulse as int, dt);
        let v2y = spec_jump_stage(p.velocity.y as int, grounded, keys.jump, impulse);
        let f = spec_friction_factor(grounded, cfg);
        let v4y = spec_mul_scale(v2y, f) - spec_mul_scale(cfg.gravity as int, dt);
        Vec3Fx {
            x: spec_clamp(spec_mul_scale(v1x, f), -VEL_MAX as int, VEL_MAX as int) as i64,
            y: spec_clamp(v4y, -VEL_MAX as int, VEL_MAX as int) as i64,
            z: spec_clamp(spec_mul_scale(v1z, f), -VEL_MAX as int, VEL_MAX as int) as i64,
        }
    }
}

/// Runs one frame through every component in the fixed order.
pub fn tick<G: GroundedProvider>(world: &mut GameWorld<G>, input: &FrameInput) -> (out: FrameOutput)
    requires
        old(world).wf(),
        input.wf(),
        old(world).game.level + spec_goal_contact_count(
            input.contacts@,
            old(world).player_id,
            input.goals@,
        ) <= u64::MAX,
    ensures
        final(world).wf(),
        final(world).settings == old(world).settings,
        final(world).config == old(world).config,
        final(world).law == old(world).law,
        final(world).player_id == old(world).player_id,
        // Ground contact tracking drains the frame's events first.
        final(world).tracker == old(world).tracker.next_state(input.contacts@, input.sweep_hit),
        // Cursor capture machine.
        final(world).cursor == spec_cursor_step(
            old(world).cursor,
            input.interact_pressed,
            input.cancel_pressed,
        ).0,
        out.pointer == spec_cursor_step(
            old(world).cursor,
            input.interact_pressed,
            input.cancel_pressed,
        ).1,
        // Level progression: one transition per goal contact, in order.
        final(world).game.level == old(world).game.level + spec_goal_contact_count(
            input.contacts@,
            old(world).player_id,
            input.goals@,
        ),
        out.actions@ == spec_frame_actions(
            input.contacts@,
            old(world).player_id,
            input.goals@,
            old(world).game.level as int,
        ),
        // The locomotion stage fixes the velocity for the frame.
        final(world).player.velocity == spec_velocity_after_locomotion(
            old(world).player,
            input.keys,
            input.rot,
            old(world).tracker.next_state(input.contacts@, input.sweep_hit).grounded_view(),
            old(world).config,
            input.dt as int,
            old(world).law,
        ),
        // Position: a goal contact or a fall puts the player at the
        // spawn point; nothing else moves it within the core.
        final(world).player.position == if spec_goal_contact_count(
            input.contacts@,
            old(world).player_id,
            input.goals@,
        ) > 0 || old(world).player.position.y < FALL_RESET_Y {
            spec_spawn_point()
        } else {
            old(world).player.position
        },
        // Yaw: reset by a fall, turned by the frame's mouse samples while
        // grabbed, reset again by a goal contact.
        final(world).player.yaw as int == {
            let yaw1: int = if old(world).player.position.y < FALL_RESET_Y {
                0
            } else {
                old(world).player.yaw as int
            };
            let mode = spec_cursor_step(
                old(world).cursor,
                input.interact_pressed,
                input.cancel_pressed,
            ).0;
            let yaw2: int = if mode == CursorMode::Grabbed {
                spec_orientation_fold(
                    yaw1,
                    old(world).camera.pitch as int,
                    input.mouse@,
                    spec_step_rate(old(world).settings.sensitivity as int, input.dt as int),
                ).0
            } else {
                yaw1
            };
            if spec_goal_contact_count(input.contacts@, old(world).player_id, input.goals@) > 0 {
                0
            } else {
                yaw2
            }
        },
        // Pitch: turned by the frame's mouse samples while grabbed,
        // always inside the clamp range.
        final(world).camera.pitch as int == {
            let yaw1: int = if old(world).player.position.y < FALL_RESET_Y {
                0
            } else {
                old(world).player.yaw as int
            };
            let mode = spec_cursor_step(
                old(world).cursor,
                input.interact_pressed,
                input.cancel_pressed,
            ).0;
            if mode == CursorMode::Grabbed {
                spec_orientation_fold(
                    yaw1,
                    old(world).camera.pitch as int,
                    input.mouse@,
                    spec_step_rate(old(world).settings.sensitivity as int, input.dt as int),
                ).1
            } else {
                old(world).camera.pitch as int
            }
        },
        // Exactly the wired law's motion output is present.
        old(world).law == LocomotionLaw::VelocityTarget ==> (out.displacement.is_none() && (
        out.walk matches Some(cmd) && cmd.float_height == old(world).config.float_height
            && cmd.jump == (if input.keys.jump {
            Some(old(world).config.jump_impulse)
        } else {
            None::<i64>
        }) && (old(world).player.position.y < FALL_RESET_Y ==> cmd.desired_velocity == (Vec3Fx {
            x: 0,
            y: 0,
            z: 0,
        })) && (old(world).player.position.y >= FALL_RESET_Y ==> cmd.desired_velocity.x as int
            == spec_mul_scale(spec_dir_x(input.keys, input.rot), old(world).config.speed as int)
            && cmd.desired_velocity.y == 0 && cmd.desired_velocity.z as int == spec_mul_scale(
            spec_dir_z(input.keys, input.rot),
            old(world).config.speed as int,
        )))),
        old(world).law == LocomotionLaw::ExplicitIntegration ==> out.walk.is_none()
            && out.displacement == Some(final(world).player.velocity),
{
    proof {
        crate::progression::lemma_goal_contact_count_range(
            input.contacts@,
            old(world).player_id,
            input.goals@,
        );
    }
    // Contact draining before the locomotion controller reads grounded.
    world.tracker.observe(&input.contacts, input.sweep_hit);
    let grounded: bool = world.tracker.is_grounded();
    let mut walk: Option<WalkCommand> = None;
    let mut displacement: Option<Vec3Fx> = None;
    if matches!(world.law, LocomotionLaw::VelocityTarget) {
        let cmd: WalkCommand = velocity_target_update(
            &mut world.player,
            &input.keys,
            input.rot,
            &world.config,
        );
        walk = Some(cmd);
    } else {
        let disp: Vec3Fx = explicit_integration_update(
            &mut world.player,
            &input.keys,
            input.rot,
            grounded,
            &world.config,
            input.dt,
        );
        displacement = Some(disp);
    }
    // Capture toggling resolves before orientation reads the state.
    let (mode, pointer): (CursorMode, Option<PointerAction>) = cursor_step(
        world.cursor,
        input.interact_pressed,
        input.cancel_pressed,
    );
    world.cursor = mode;
    update_orientation(
        &mut world.player,
        &mut world.camera,
        &input.mouse,
        &world.settings,
        input.dt,
        mode,
    );
    let actions: Vec<TransitionAction> = process_goal_contacts(
        &mut world.game,
        &mut world.player,
        &input.contacts,
        world.player_id,
        &input.goals,
    );
    FrameOutput { pointer, walk, displacement, actions }
}

} // verus!
