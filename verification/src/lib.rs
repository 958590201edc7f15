//! Locomotion and orientation core of a first/third-person 3D platformer.
//!
//! The core turns already-resolved per-frame input (pressed keys, mouse
//! deltas, contact events) into character velocity, body yaw, camera pitch,
//! a grounded flag and level-progression transitions.  All quantities are
//! fixed-point integers in micro-units (one unit is `fixed::SCALE`), so the
//! whole core is plain integer arithmetic with proved contracts.  The
//! rendering pipeline, asset loading, the rigid-body solver and the input
//! device polling are external collaborators: they hand this core plain
//! values and apply the motion commands it returns.

pub mod cursor;
pub mod fixed;
pub mod frame;
pub mod grounded;
pub mod intent;
pub mod locomotion;
pub mod orientation;
pub mod player;
pub mod progression;
pub mod vec3;
