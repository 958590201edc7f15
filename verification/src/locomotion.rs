//! Locomotion controller: pressed keys, grounded flag and yaw into a
//! motion command.
//!
//! Both update laws share the same front half: combine the movement keys
//! into a raw intent vector, normalize it, rotate it into world space by
//! the player's yaw, and — first of all — reset a player that has fallen
//! out of the level back to the spawn point, treating that frame as a
//! no-motion frame.
//!
//! The velocity-target law hands a desired horizontal velocity, a float
//! height and an optional jump action to a character-control backend that
//! owns jump eligibility.  The explicit-integration law integrates the
//! velocity itself: accumulate intent, apply the jump impulse exactly when
//! grounded with the jump key held, damp the whole vector by the ground or
//! air friction factor, pull the vertical component down by gravity, and
//! feed the result to a kinematic sweep as a desired displacement.

use vstd::prelude::*;

verus! {

use crate::fixed::{clamp_fx, scale_mul, spec_clamp, spec_mul_scale, SCALE};
use crate::intent::{intent_vector, normalize_intent, spec_normalized_intent, spec_raw_intent, KeySet};
use crate::player::{
    spec_spawn_point, spawn_point, valid_dt, PhysicsConfig, PlayerState, FALL_RESET_Y, TUNABLE_MAX,
    VEL_MAX,
};
use crate::vec3::{rotate_xz, Vec3Fx, YawRot};

/// The world-space movement direction for a key set under a yaw
/// rotation, horizontal component `x`.
pub open spec fn spec_dir_x(keys: KeySet, rot: YawRot) -> int {
    let n = spec_normalized_intent(spec_raw_intent(keys));
    spec_mul_scale(n.x as int, rot.cos_fx as int) + spec_mul_scale(n.z as int, rot.sin_fx as int)
}

/// The world-space movement direction for a key set under a yaw
/// rotation, horizontal component `z`.
pub open spec fn spec_dir_z(keys: KeySet, rot: YawRot) -> int {
    let n = spec_normalized_intent(spec_raw_intent(keys));
    spec_mul_scale(n.z as int, rot.cos_fx as int) - spec_mul_scale(n.x as int, rot.sin_fx as int)
}

/// The per-frame friction factor: ground friction when grounded, air
/// friction otherwise.
pub open spec fn spec_friction_factor(grounded: bool, cfg: PhysicsConfig) -> int {
    if grounded {
        cfg.ground_friction as int
    } else {
        cfg.air_friction as int
    }
}

/// The vertical velocity after the jump stage: the impulse replaces it
/// exactly when the player is grounded and the jump key is held.
pub open spec fn spec_jump_stage(vy: int, grounded: bool, jump_key: bool, impulse: int) -> int {
    if grounded && jump_key {
        impulse
    } else {
        vy
    }
}

/// The jump impulse is applied if and only if the player is grounded and
/// the jump key is pressed in that frame.
pub proof fn lemma_jump_iff(vy: int, grounded: bool, jump_key: bool, impulse: int)
    ensures
        spec_jump_stage(vy, grounded, jump_key, impulse) == impulse <== grounded && jump_key,
        !(grounded && jump_key) ==> spec_jump_stage(vy, grounded, jump_key, impulse) == vy,
{
}

/// Friction damps by the ground factor exactly when grounded, by the air
/// factor otherwise, whatever the intent.
pub proof fn lemma_friction_choice(grounded: bool, cfg: PhysicsConfig)
    ensures
        grounded ==> spec_friction_factor(grounded, cfg) == cfg.ground_friction as int,
        !grounded ==> spec_friction_factor(grounded, cfg) == cfg.air_friction as int,
{
}

/// Computes the world-space movement direction for the held keys under
/// the player's yaw rotation.
pub fn world_direction(keys: &KeySet, rot: YawRot) -> (r: Vec3Fx)
    requires
        rot.wf(),
    ensures
        r.x as int == spec_dir_x(*keys, rot),
        r.y == 0,
        r.z as int == spec_dir_z(*keys, rot),
        r.in_bounds(2 * SCALE as int),
{
    let raw: Vec3Fx = intent_vector(keys);
    let unit: Vec3Fx = normalize_intent(raw);
    rotate_xz(unit, rot)
}

/// The desired-velocity command the velocity-target law hands to the
/// character-control backend.
#[derive(Clone, Copy, PartialEq, Eq, Structural, Debug)]
pub struct WalkCommand {
    /// Desired horizontal velocity: world direction times top speed.
    pub desired_velocity: Vec3Fx,
    /// Hover distance the backend keeps above the ground.
    pub float_height: i64,
    /// Jump action to declare, if the jump key is held; the backend's own
    /// eligibility rule decides whether it fires.
    pub jump: Option<i64>,
}

/// Velocity-target law: declare a desired velocity and an optional jump
/// action; the physics backend integrates.  A player fallen below the
/// reset height is put back at the spawn point with identity rotation and
/// contributes no motion this frame.
pub fn velocity_target_update(
    player: &mut PlayerState,
    keys: &KeySet,
    rot: YawRot,
    cfg: &PhysicsConfig,
) -> (cmd: WalkCommand)
    requires
        old(player).wf(),
        rot.wf(),
        cfg.wf(),
    ensures
        final(player).wf(),
        final(player).velocity == old(player).velocity,
        old(player).position.y < FALL_RESET_Y ==> final(player).position == spec_spawn_point()
            && final(player).yaw == 0 && cmd.desired_velocity == (Vec3Fx { x: 0, y: 0, z: 0 }),
        old(player).position.y >= FALL_RESET_Y ==> *final(player) == *old(player)
            && cmd.desired_velocity.x as int == spec_mul_scale(spec_dir_x(*keys, rot), cfg.speed as int)
            && cmd.desired_velocity.y == 0 && cmd.desired_velocity.z as int == spec_mul_scale(
            spec_dir_z(*keys, rot),
            cfg.speed as int,
        ),
        cmd.float_height == cfg.float_height,
        cmd.jump == if keys.jump {
            Some(cfg.jump_impulse)
        } else {
            None::<i64>
        },
{
    let jump: Option<i64> = if keys.jump {
        Some(cfg.jump_impulse)
    } else {
        None
    };
    if player.position.y < FALL_RESET_Y {
        player.position = spawn_point();
        player.yaw = 0;
        return WalkCommand {
            desired_velocity: Vec3Fx::zero(),
            float_height: cfg.float_height,
            jump,
        };
    }
    let dir: Vec3Fx = world_direction(keys, rot);
    let desired: Vec3Fx = dir.scale(cfg.speed);
    WalkCommand { desired_velocity: desired, float_height: cfg.float_height, jump }
}

/// Explicit-integration law: integrates the player's velocity through the
/// accumulate, jump, friction and gravity stages, clamps it to the range
/// the core keeps, and returns it as the desired displacement for the
/// kinematic sweep.  A player fallen below the reset height is put back
/// at the spawn point at rest, with identity rotation, and the frame
/// requests no motion.
pub fn explicit_integration_update(
    player: &mut PlayerState,
    keys: &KeySet,
    rot: YawRot,
    grounded: bool,
    cfg: &PhysicsConfig,
    dt: i64,
) -> (disp: Vec3Fx)
    requires
        old(player).wf(),
        rot.wf(),
        cfg.wf(),
        valid_dt(dt),
    ensures
        final(player).wf(),
        disp == final(player).velocity,
        old(player).position.y < FALL_RESET_Y ==> final(player).position == spec_spawn_point()
            && final(player).yaw == 0 && final(player).velocity == (Vec3Fx { x: 0, y: 0, z: 0 }),
        old(player).position.y >= FALL_RESET_Y ==> final(player).position == old(player).position
            && final(player).yaw == old(player).yaw && {
            let gain = spec_mul_scale(cfg.speed as int, dt as int);
            let v1x = old(player).velocity.x + spec_mul_scale(spec_dir_x(*keys, rot), gain);
            let v1z = old(player).velocity.z + spec_mul_scale(spec_dir_z(*keys, rot), gain);
            let impulse = spec_mul_scale(cfg.jump_impulse as int, dt as int);
            let v2y = spec_jump_stage(old(player).velocity.y as int, grounded, keys.jump, impulse);
            let f = spec_friction_factor(grounded, *cfg);
            let v4y = spec_mul_scale(v2y, f) - spec_mul_scale(cfg.gravity as int, dt as int);
            &&& final(player).velocity.x as int == spec_clamp(
                spec_mul_scale(v1x, f),
                -VEL_MAX as int,
                VEL_MAX as int,
            )
            &&& final(player).velocity.y as int == spec_clamp(v4y, -VEL_MAX as int, VEL_MAX as int)
            &&& final(player).velocity.z as int == spec_clamp(
                spec_mul_scale(v1z, f),
                -VEL_MAX as int,
                VEL_MAX as int,
            )
        },
{
    if player.position.y < FALL_RESET_Y {
        player.position = spawn_point();
        player.yaw = 0;
        player.velocity = Vec3Fx::zero();
        return Vec3Fx::zero();
    }
    let dir: Vec3Fx = world_direction(keys, rot);
    let gain: i64 = scale_mul(cfg.speed, dt);
    proof {
        crate::fixed::lemma_mul_scale_bound(cfg.speed as int, dt as int, TUNABLE_MAX as int, SCALE as int);
        crate::fixed::lemma_mul_scale_bound(dir.x as int, gain as int, 2 * SCALE as int, TUNABLE_MAX as int);
        crate::fixed::lemma_mul_scale_bound(dir.z as int, gain as int, 2 * SCALE as int, TUNABLE_MAX as int);
        crate::fixed::lemma_mul_scale_bound(cfg.jump_impulse as int, dt as int, TUNABLE_MAX as int, SCALE as int);
        crate::fixed::lemma_mul_scale_bound(cfg.gravity as int, dt as int, TUNABLE_MAX as int, SCALE as int);
    }
    let v1x: i64 = player.velocity.x + scale_mul(dir.x, gain);
    let v1y: i64 = player.velocity.y;
    let v1z: i64 = player.velocity.z + scale_mul(dir.z, gain);
    let v2y: i64 = if grounded && keys.jump {
        scale_mul(cfg.jump_impulse, dt)
    } else {
        v1y
    };
    let f: i64 = if grounded {
        cfg.ground_friction
    } else {
        cfg.air_friction
    };
    proof {
        crate::fixed::lemma_mul_scale_shrink(v1x as int, f as int);
        crate::fixed::lemma_mul_scale_shrink(v2y as int, f as int);
        crate::fixed::lemma_mul_scale_shrink(v1z as int, f as int);
    }
    let v3x: i64 = scale_mul(v1x, f);
    let v3y: i64 = scale_mul(v2y, f);
    let v3z: i64 = scale_mul(v1z, f);
    let v4y: i64 = v3y - scale_mul(cfg.gravity, dt);
    player.velocity = Vec3Fx {
        x: clamp_fx(v3x, -VEL_MAX, VEL_MAX),
        y: clamp_fx(v4y, -VEL_MAX, VEL_MAX),
        z: clamp_fx(v3z, -VEL_MAX, VEL_MAX),
    };
    player.velocity
}

} // verus!
