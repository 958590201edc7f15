//! Movement intent: from pressed keys to a normalized player-local
//! direction.
//!
//! Each horizontal axis combines its two opposing keys independently:
//! both or neither pressed gives 0, otherwise the pressed side wins.  The
//! raw intent vector therefore has components in {-1, 0, +1}; normalizing
//! it yields the zero vector, a unit axis vector, or a diagonal whose
//! components are the fixed-point value of 1/sqrt(2).

use vstd::prelude::*;

verus! {

use crate::fixed::{spec_abs, SCALE};
use crate::vec3::Vec3Fx;

/// Fixed-point value of 1/sqrt(2), the component of a normalized diagonal.
pub const DIAG: i64 = 707_107;

/// How far the squared length of a normalized non-zero intent vector may
/// miss one squared unit: the diagonal case gives exactly
/// `2 * DIAG * DIAG - SCALE * SCALE`.
pub const NORM_SQ_EPS: i64 = 618_898;

/// The movement and action keys held down this frame.
#[derive(Clone, Copy, PartialEq, Eq, Structural, Debug)]
pub struct KeySet {
    pub forward: bool,
    pub back: bool,
    pub left: bool,
    pub right: bool,
    pub jump: bool,
}

/// Combination of one axis's opposing keys: opposing keys cancel to 0.
pub open spec fn spec_axis_value(neg: bool, pos: bool) -> int {
    if neg == pos {
        0
    } else if pos {
        1
    } else {
        -1
    }
}

/// The raw player-local intent vector for a key set: `x` from left/right,
/// `z` from forward/back (forward is the negative `z` direction), `y` 0.
pub open spec fn spec_raw_intent(keys: KeySet) -> Vec3Fx {
    Vec3Fx {
        x: spec_axis_value(keys.left, keys.right) as i64,
        y: 0,
        z: spec_axis_value(keys.forward, keys.back) as i64,
    }
}

/// Combines one axis's opposing keys; both or neither held cancels to 0.
pub fn axis_value(neg: bool, pos: bool) -> (r: i64)
    ensures
        r as int == spec_axis_value(neg, pos),
{
    if neg == pos {
        0
    } else if pos {
        1
    } else {
        -1
    }
}

/// Builds the raw player-local intent vector from the held keys.
pub fn intent_vector(keys: &KeySet) -> (r: Vec3Fx)
    ensures
        r == spec_raw_intent(*keys),
{
    Vec3Fx {
        x: axis_value(keys.left, keys.right),
        y: 0,
        z: axis_value(keys.forward, keys.back),
    }
}

/// What normalizing a raw intent vector yields: zero stays zero, a unit
/// axis vector scales to one unit, a diagonal takes `DIAG` components.
pub open spec fn spec_normalized_intent(v: Vec3Fx) -> Vec3Fx {
    if v.x == 0 && v.z == 0 {
        Vec3Fx { x: 0, y: 0, z: 0 }
    } else if v.x == 0 {
        Vec3Fx { x: 0, y: 0, z: (v.z * SCALE) as i64 }
    } else if v.z == 0 {
        Vec3Fx { x: (v.x * SCALE) as i64, y: 0, z: 0 }
    } else {
        Vec3Fx { x: (v.x * DIAG) as i64, y: 0, z: (v.z * DIAG) as i64 }
    }
}

/// A raw intent vector: both horizontal components in {-1, 0, +1}, no
/// vertical part.
pub open spec fn is_raw_intent(v: Vec3Fx) -> bool {
    spec_abs(v.x as int) <= 1 && v.y == 0 && spec_abs(v.z as int) <= 1
}

/// Normalizes a raw intent vector to unit length in fixed point; the zero
/// vector stays zero.
pub fn normalize_intent(v: Vec3Fx) -> (r: Vec3Fx)
    requires
        is_raw_intent(v),
    ensures
        r == spec_normalized_intent(v),
        r.in_bounds(SCALE as int),
{
    if v.x == 0 && v.z == 0 {
        Vec3Fx { x: 0, y: 0, z: 0 }
    } else if v.x == 0 {
        Vec3Fx { x: 0, y: 0, z: v.z * SCALE }
    } else if v.z == 0 {
        Vec3Fx { x: v.x * SCALE, y: 0, z: 0 }
    } else {
        Vec3Fx { x: v.x * DIAG, y: 0, z: v.z * DIAG }
    }
}

/// Opposing keys held together contribute nothing to the direction: the
/// axis combination of two held opposing keys is 0, on each axis.
pub proof fn lemma_opposing_keys_cancel(keys: KeySet)
    ensures
        keys.left && keys.right ==> spec_raw_intent(keys).x == 0,
        keys.forward && keys.back ==> spec_raw_intent(keys).z == 0,
{
}

/// Normalizing keeps the zero vector zero and gives every other raw
/// intent vector a squared length within `NORM_SQ_EPS` of one squared
/// unit (exactly one squared unit on a single axis).
pub proof fn lemma_normalize_unit_length(v: Vec3Fx)
    requires
        is_raw_intent(v),
    ensures
        v.x == 0 && v.z == 0 ==> spec_normalized_intent(v).norm_sq() == 0,
        !(v.x == 0 && v.z == 0) ==> spec_abs(
            spec_normalized_intent(v).norm_sq() - (SCALE as int) * (SCALE as int),
        ) <= NORM_SQ_EPS as int,
        v.x == 0 || v.z == 0 ==> spec_normalized_intent(v).norm_sq() == 0 || spec_normalized_intent(
            v,
        ).norm_sq() == (SCALE as int) * (SCALE as int),
{
    let r = spec_normalized_intent(v);
    assert(v.x == -1 || v.x == 0 || v.x == 1);
    assert(v.z == -1 || v.z == 0 || v.z == 1);
    assert((v.x * SCALE) as i64 == v.x * SCALE as int);
    assert((v.z * SCALE) as i64 == v.z * SCALE as int);
    assert((v.x * DIAG) as i64 == v.x * DIAG as int);
    assert((v.z * DIAG) as i64 == v.z * DIAG as int);
    lemma_unit_cases(v.x as int, v.z as int);
    if v.x == 0 && v.z == 0 {
        assert(r.norm_sq() == 0);
    } else if v.x == 0 {
        assert(r.x == 0 && r.y == 0);
        assert(r.norm_sq() == (v.z * SCALE as int) * (v.z * SCALE as int));
    } else if v.z == 0 {
        assert(r.z == 0 && r.y == 0);
        assert(r.norm_sq() == (v.x * SCALE as int) * (v.x * SCALE as int));
    } else {
        assert(r.y == 0);
        assert(r.norm_sq() == (v.x * DIAG as int) * (v.x * DIAG as int) + (v.z * DIAG as int) * (
        v.z * DIAG as int));
    }
}

proof fn lemma_unit_cases(x: int, z: int)
    by (nonlinear_arith)
    requires
        x == -1 || x == 0 || x == 1,
        z == -1 || z == 0 || z == 1,
    ensures
        x != 0 && z == 0 ==> (x * SCALE as int) * (x * SCALE as int) == (SCALE as int) * (
        SCALE as int),
        x == 0 && z != 0 ==> (z * SCALE as int) * (z * SCALE as int) == (SCALE as int) * (
        SCALE as int),
        x != 0 && z != 0 ==> (x * DIAG as int) * (x * DIAG as int) + (z * DIAG as int) * (
        z * DIAG as int) == 2 * (DIAG as int) * (DIAG as int),
        2 * (DIAG as int) * (DIAG as int) - (SCALE as int) * (SCALE as int) == NORM_SQ_EPS as int,
{
}

} // verus!
