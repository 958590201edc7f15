//! Fixed-point scalar arithmetic.
//!
//! A scalar is an `i64` counting micro-units: the value `SCALE` stands for
//! 1.0.  Multiplying two scalars therefore divides the wide product by
//! `SCALE`, truncating toward zero, which is what `mul_scale` computes and
//! `spec_mul_scale` states.

use vstd::prelude::*;

verus! {

/// Number of micro-units in 1.0.
pub const SCALE: i64 = 1_000_000;

/// Largest magnitude accepted for the left operand of `scale_mul`.
pub const SCALE_MUL_LEFT_MAX: i64 = 10_000_000_000_000;

/// Largest magnitude accepted for the right operand of `scale_mul`.
pub const SCALE_MUL_RIGHT_MAX: i64 = 1_000_000_000;

/// Integer division truncating toward zero (for a positive divisor).
pub open spec fn spec_div_trunc(n: int, d: int) -> int {
    if n >= 0 {
        n / d
    } else {
        -((-n) / d)
    }
}

/// The product of two fixed-point scalars: `a * b / SCALE`, truncated
/// toward zero.
pub open spec fn spec_mul_scale(a: int, b: int) -> int {
    spec_div_trunc(a * b, SCALE as int)
}

/// Magnitude of an integer.
pub open spec fn spec_abs(a: int) -> int {
    if a >= 0 {
        a
    } else {
        -a
    }
}

/// Clamping to a closed interval.
pub open spec fn spec_clamp(v: int, lo: int, hi: int) -> int {
    if v < lo {
        lo
    } else if v > hi {
        hi
    } else {
        v
    }
}

/// `i64` addition that saturates at the ends of the representable range.
pub open spec fn spec_sat_add(a: int, b: int) -> int {
    if a + b > i64::MAX {
        i64::MAX as int
    } else if a + b < i64::MIN {
        i64::MIN as int
    } else {
        a + b
    }
}

proof fn lemma_abs_product(a: int, b: int)
    by (nonlinear_arith)
    ensures
        spec_abs(a) * spec_abs(b) == spec_abs(a * b),
{
}

proof fn lemma_product_sign(a: int, b: int)
    by (nonlinear_arith)
    ensures
        a >= 0 && b >= 0 ==> a * b >= 0,
        a <= 0 && b <= 0 ==> a * b >= 0,
        a >= 0 && b <= 0 ==> a * b <= 0,
        a <= 0 && b >= 0 ==> a * b <= 0,
{
}

proof fn lemma_product_bound(a: int, b: int, ma: int, mb: int)
    by (nonlinear_arith)
    requires
        0 <= a <= ma,
        0 <= b <= mb,
    ensures
        0 <= a * b <= ma * mb,
{
}

/// The scaled product keeps the magnitude of its left operand whenever the
/// right operand is at most `SCALE` in magnitude.
pub proof fn lemma_mul_scale_shrink(a: int, b: int)
    requires
        spec_abs(b) <= SCALE as int,
    ensures
        spec_abs(spec_mul_scale(a, b)) <= spec_abs(a),
{
    lemma_abs_product(a, b);
    lemma_product_bound(spec_abs(a), spec_abs(b), spec_abs(a), SCALE as int);
    assert(spec_abs(a) * (SCALE as int) / (SCALE as int) == spec_abs(a))
        by (nonlinear_arith);
    vstd::arithmetic::div_mod::lemma_div_is_ordered(
        spec_abs(a * b),
        spec_abs(a) * (SCALE as int),
        SCALE as int,
    );
}

/// A magnitude bound on both operands bounds the scaled product.
pub proof fn lemma_mul_scale_bound(a: int, b: int, ma: int, mb: int)
    requires
        spec_abs(a) <= ma,
        spec_abs(b) <= mb,
    ensures
        spec_abs(spec_mul_scale(a, b)) <= ma * mb / (SCALE as int),
{
    lemma_abs_product(a, b);
    lemma_product_bound(spec_abs(a), spec_abs(b), ma, mb);
    vstd::arithmetic::div_mod::lemma_div_is_ordered(
        spec_abs(a * b),
        ma * mb,
        SCALE as int,
    );
}

/// Fixed-point multiplication: `a * b / SCALE`, truncated toward zero.
pub fn scale_mul(a: i64, b: i64) -> (r: i64)
    requires
        spec_abs(a as int) <= SCALE_MUL_LEFT_MAX as int,
        spec_abs(b as int) <= SCALE_MUL_RIGHT_MAX as int,
    ensures
        r as int == spec_mul_scale(a as int, b as int),
        spec_abs(r as int) <= spec_abs(a as int) * spec_abs(b as int) / (SCALE as int),
{
    let ua: u128 = if a >= 0 {
        a as u128
    } else {
        (-a) as u128
    };
    let ub: u128 = if b >= 0 {
        b as u128
    } else {
        (-b) as u128
    };
    proof {
        lemma_product_bound(ua as int, ub as int, SCALE_MUL_LEFT_MAX as int, SCALE_MUL_RIGHT_MAX as int);
    }
    let m: u128 = (ua * ub) / (SCALE as u128);
    proof {
        vstd::arithmetic::div_mod::lemma_div_is_ordered(
            ua as int * ub as int,
            SCALE_MUL_LEFT_MAX as int * SCALE_MUL_RIGHT_MAX as int,
            SCALE as int,
        );
        lemma_abs_product(a as int, b as int);
        lemma_product_sign(a as int, b as int);
    }
    if (a < 0) != (b < 0) {
        -(m as i64)
    } else {
        m as i64
    }
}

/// Largest magnitude accepted for the small operand of `mul_small`.
pub const MUL_SMALL_MAX: i64 = 1_000_000;

/// Exact product of a small count with a bounded scalar.
pub fn mul_small(a: i64, b: i64) -> (r: i64)
    requires
        spec_abs(a as int) <= MUL_SMALL_MAX as int,
        spec_abs(b as int) <= SCALE_MUL_RIGHT_MAX as int,
    ensures
        r as int == a * b,
        spec_abs(r as int) <= MUL_SMALL_MAX as int * SCALE_MUL_RIGHT_MAX as int,
{
    proof {
        lemma_abs_product(a as int, b as int);
        lemma_product_bound(
            spec_abs(a as int),
            spec_abs(b as int),
            MUL_SMALL_MAX as int,
            SCALE_MUL_RIGHT_MAX as int,
        );
    }
    a * b
}

/// Clamps a scalar to the closed interval `[lo, hi]`.
pub fn clamp_fx(v: i64, lo: i64, hi: i64) -> (r: i64)
    requires
        lo <= hi,
    ensures
        r as int == spec_clamp(v as int, lo as int, hi as int),
        lo <= r <= hi,
{
    if v < lo {
        lo
    } else if v > hi {
        hi
    } else {
        v
    }
}

/// Saturating `i64` addition.
pub fn sat_add(a: i64, b: i64) -> (r: i64)
    ensures
        r as int == spec_sat_add(a as int, b as int),
{
    if b >= 0 {
        if a > i64::MAX - b {
            i64::MAX
        } else {
            a + b
        }
    } else {
        if a < i64::MIN - b {
            i64::MIN
        } else {
            a + b
        }
    }
}

} // verus!
