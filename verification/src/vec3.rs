//! Three-component fixed-point vectors and yaw-plane rotation.
//!
//! `Vec3Fx` is a world- or player-space vector whose components are
//! micro-unit scalars (see `crate::fixed`).  `YawRot` is a rotation about
//! the vertical axis given as a fixed-point cosine/sine pair; rotating a
//! vector by it only mixes the `x` and `z` components.

use vstd::prelude::*;

verus! {

use crate::fixed::{
    scale_mul, spec_abs, spec_mul_scale, SCALE, SCALE_MUL_LEFT_MAX, SCALE_MUL_RIGHT_MAX,
};

/// How far a cosine/sine pair may miss the unit circle, in squared
/// micro-units.  A pair rounded to the nearest micro-unit from an exact
/// angle stays well within this slack.
pub const ROT_UNIT_EPS: i64 = 2_000_000;

#[derive(Clone, Copy, PartialEq, Eq, Structural, Debug)]
pub struct Vec3Fx {
    pub x: i64,
    pub y: i64,
    pub z: i64,
}

impl Vec3Fx {
    /// Every component has magnitude at most `m`.
    pub open spec fn in_bounds(self, m: int) -> bool {
        spec_abs(self.x as int) <= m && spec_abs(self.y as int) <= m && spec_abs(self.z as int)
            <= m
    }

    /// Squared Euclidean length.
    pub open spec fn norm_sq(self) -> int {
        self.x * self.x + self.y * self.y + self.z * self.z
    }

    /// The zero vector.
    pub fn zero() -> (r: Vec3Fx)
        ensures
            r.x == 0 && r.y == 0 && r.z == 0,
    {
        Vec3Fx { x: 0, y: 0, z: 0 }
    }

    /// Multiplies each component by the fixed-point scalar `f`.
    pub fn scale(self, f: i64) -> (r: Vec3Fx)
        requires
            self.in_bounds(SCALE_MUL_LEFT_MAX as int),
            spec_abs(f as int) <= SCALE_MUL_RIGHT_MAX as int,
        ensures
            r.x as int == spec_mul_scale(self.x as int, f as int),
            r.y as int == spec_mul_scale(self.y as int, f as int),
            r.z as int == spec_mul_scale(self.z as int, f as int),
    {
        Vec3Fx {
            x: scale_mul(self.x, f),
            y: scale_mul(self.y, f),
            z: scale_mul(self.z, f),
        }
    }
}

/// A rotation about the vertical axis: the fixed-point cosine and sine of
/// the yaw angle.  The pair must lie on the unit circle up to rounding.
#[derive(Clone, Copy, PartialEq, Eq, Structural, Debug)]
pub struct YawRot {
    pub cos_fx: i64,
    pub sin_fx: i64,
}

impl YawRot {
    /// Both components fit in one unit and the pair lies on the unit
    /// circle up to `ROT_UNIT_EPS`.
    pub open spec fn wf(self) -> bool {
        &&& spec_abs(self.cos_fx as int) <= SCALE as int
        &&& spec_abs(self.sin_fx as int) <= SCALE as int
        &&& spec_abs(
            self.cos_fx * self.cos_fx + self.sin_fx * self.sin_fx - (SCALE as int) * (
            SCALE as int),
        ) <= ROT_UNIT_EPS as int
    }

    /// The rotation by a zero yaw angle.
    pub fn identity() -> (r: YawRot)
        ensures
            r.cos_fx == SCALE,
            r.sin_fx == 0,
            r.wf(),
    {
        YawRot { cos_fx: SCALE, sin_fx: 0 }
    }

    /// Builds a rotation from a cosine/sine pair, rejecting one that does
    /// not lie on the unit circle up to rounding.
    pub fn new(cos_fx: i64, sin_fx: i64) -> (r: Option<YawRot>)
        ensures
            match r {
                Some(rot) => rot.cos_fx == cos_fx && rot.sin_fx == sin_fx && rot.wf(),
                None => !(YawRot { cos_fx, sin_fx }).wf(),
            },
    {
        if cos_fx < -SCALE || cos_fx > SCALE || sin_fx < -SCALE || sin_fx > SCALE {
            return None;
        }
        proof {
            lemma_unit_products(cos_fx as int, sin_fx as int);
        }
        let cc: i64 = cos_fx * cos_fx;
        let ss: i64 = sin_fx * sin_fx;
        let dev: i64 = cc + ss - SCALE * SCALE;
        if -ROT_UNIT_EPS <= dev && dev <= ROT_UNIT_EPS {
            Some(YawRot { cos_fx, sin_fx })
        } else {
            None
        }
    }
}

proof fn lemma_unit_products(c: int, s: int)
    by (nonlinear_arith)
    requires
        -(SCALE as int) <= c <= SCALE as int,
        -(SCALE as int) <= s <= SCALE as int,
    ensures
        0 <= c * c <= (SCALE as int) * (SCALE as int),
        0 <= s * s <= (SCALE as int) * (SCALE as int),
{
}

/// Rotates `v` about the vertical axis by `rot`: the `x` and `z`
/// components mix by the cosine/sine pair, `y` is unchanged.
pub fn rotate_xz(v: Vec3Fx, rot: YawRot) -> (r: Vec3Fx)
    requires
        v.in_bounds(SCALE as int),
        rot.wf(),
    ensures
        r.x as int == spec_mul_scale(v.x as int, rot.cos_fx as int) + spec_mul_scale(
            v.z as int,
            rot.sin_fx as int,
        ),
        r.y == v.y,
        r.z as int == spec_mul_scale(v.z as int, rot.cos_fx as int) - spec_mul_scale(
            v.x as int,
            rot.sin_fx as int,
        ),
        r.in_bounds(2 * SCALE as int),
{
    proof {
        crate::fixed::lemma_mul_scale_shrink(v.x as int, rot.cos_fx as int);
        crate::fixed::lemma_mul_scale_shrink(v.z as int, rot.sin_fx as int);
        crate::fixed::lemma_mul_scale_shrink(v.z as int, rot.cos_fx as int);
        crate::fixed::lemma_mul_scale_shrink(v.x as int, rot.sin_fx as int);
    }
    let xc: i64 = scale_mul(v.x, rot.cos_fx);
    let zs: i64 = scale_mul(v.z, rot.sin_fx);
    let zc: i64 = scale_mul(v.z, rot.cos_fx);
    let xs: i64 = scale_mul(v.x, rot.sin_fx);
    Vec3Fx { x: xc + zs, y: v.y, z: zc - xs }
}

} // verus!
