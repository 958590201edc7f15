//! The controllable character, its camera pivot, and the tunable
//! configuration singletons.
//!
//! The player's rotation is constrained to a single yaw axis, so it is
//! stored as one cumulative yaw scalar; any roll or pitch noise from
//! collision response simply has nowhere to live.  The camera arm owns the
//! pitch scalar, always kept inside its clamp range.

use vstd::prelude::*;

verus! {

use crate::fixed::{spec_abs, SCALE};
use crate::vec3::Vec3Fx;

/// Largest coordinate magnitude the world keeps, in micro-units.
pub const COORD_MAX: i64 = 1_000_000_000_000;

/// Largest velocity-component magnitude the core keeps, in micro-units
/// per second.
pub const VEL_MAX: i64 = 1_000_000_000_000;

/// Vertical position below which the player is considered fallen out of
/// the level (-20 world units).
pub const FALL_RESET_Y: i64 = -20_000_000;

/// Lowest camera pitch, in micro-radians (-1.25 rad, looking steeply
/// down).
pub const PITCH_MIN: i64 = -1_250_000;

/// Highest camera pitch, in micro-radians (0.25 rad, slightly up).
pub const PITCH_MAX: i64 = 250_000;

/// Largest magnitude accepted for one mouse-delta component.
pub const MOUSE_DELTA_MAX: i64 = 1_000_000;

/// Longest frame time accepted, in micro-seconds worth of micro-units
/// (one second).
pub const DT_MAX: i64 = 1_000_000;

/// Largest tunable magnitude (speed, impulse, gravity, sensitivity):
/// one thousand units.
pub const TUNABLE_MAX: i64 = 1_000_000_000;

/// The spawn point: position (0, 5, 0).
pub open spec fn spec_spawn_point() -> Vec3Fx {
    Vec3Fx { x: 0, y: 5_000_000, z: 0 }
}

/// The spawn point the player returns to on a fall or a level change.
pub fn spawn_point() -> (r: Vec3Fx)
    ensures
        r == spec_spawn_point(),
{
    Vec3Fx { x: 0, y: 5_000_000, z: 0 }
}

/// The controllable character: position, yaw-only rotation, velocity.
#[derive(Clone, Copy, PartialEq, Eq, Structural, Debug)]
pub struct PlayerState {
    /// World position, micro-units.
    pub position: Vec3Fx,
    /// Cumulative body yaw, micro-radians; the only rotation axis.
    pub yaw: i64,
    /// Velocity, micro-units per second; meaningful only under the
    /// explicit-integration law.
    pub velocity: Vec3Fx,
}

impl PlayerState {
    pub open spec fn wf(self) -> bool {
        self.position.in_bounds(COORD_MAX as int) && self.velocity.in_bounds(VEL_MAX as int)
    }

    /// A player at the spawn point, facing forward, at rest.
    pub fn at_spawn() -> (r: PlayerState)
        ensures
            r.position == spec_spawn_point(),
            r.yaw == 0,
            r.velocity == (Vec3Fx { x: 0, y: 0, z: 0 }),
            r.wf(),
    {
        PlayerState { position: spawn_point(), yaw: 0, velocity: Vec3Fx::zero() }
    }
}

/// The camera pivot, child of the player: it owns the clamped pitch.
#[derive(Clone, Copy, PartialEq, Eq, Structural, Debug)]
pub struct CameraArm {
    /// Camera pitch, micro-radians, always within the clamp range.
    pub pitch: i64,
}

impl CameraArm {
    pub open spec fn wf(self) -> bool {
        PITCH_MIN <= self.pitch <= PITCH_MAX
    }

    /// A level camera arm.
    pub fn level() -> (r: CameraArm)
        ensures
            r.pitch == 0,
            r.wf(),
    {
        CameraArm { pitch: 0 }
    }
}

/// Mouse sensitivity, radians per count per second, fixed point.
#[derive(Clone, Copy, PartialEq, Eq, Structural, Debug)]
pub struct MouseSettings {
    pub sensitivity: i64,
}

impl MouseSettings {
    pub open spec fn wf(self) -> bool {
        0 < self.sensitivity <= TUNABLE_MAX
    }
}

/// Process-wide locomotion tunables.
#[derive(Clone, Copy, PartialEq, Eq, Structural, Debug)]
pub struct PhysicsConfig {
    /// Top horizontal speed, micro-units per second.
    pub speed: i64,
    /// Per-frame velocity factor while grounded, in (0, 1].
    pub ground_friction: i64,
    /// Per-frame velocity factor while airborne, in (0, 1].
    pub air_friction: i64,
    /// Jump impulse magnitude, micro-units.
    pub jump_impulse: i64,
    /// Gravity scale, micro-units per second squared.
    pub gravity: i64,
    /// Hover distance kept above ground by the velocity-target law.
    pub float_height: i64,
}

impl PhysicsConfig {
    pub open spec fn wf(self) -> bool {
        &&& 0 <= self.speed <= TUNABLE_MAX
        &&& 0 < self.ground_friction <= SCALE
        &&& 0 < self.air_friction <= SCALE
        &&& 0 <= self.jump_impulse <= TUNABLE_MAX
        &&& 0 <= self.gravity <= TUNABLE_MAX
        &&& spec_abs(self.float_height as int) <= TUNABLE_MAX
    }
}

/// A frame time: positive and at most one second.
pub open spec fn valid_dt(dt: i64) -> bool {
    0 < dt <= DT_MAX
}

} // verus!
