//! A fixed-point sine and cosine for camera placement.
//!
//! The angle is reduced to one turn and folded onto a quarter turn, where a
//! degree-five polynomial stands in for the sine. The polynomial is the
//! specification: every contract below speaks of `sin_fx_spec`, and the
//! executable code computes exactly that value.

use crate::fixed::{fx_mul, fx_mul_spec, lemma_fx_mul_fits, lemma_fx_mul_nonneg_mono, SCALE};
use vstd::arithmetic::div_mod::{
    lemma_div_is_ordered, lemma_div_multiples_vanish, lemma_div_pos_is_pos,
    lemma_fundamental_div_mod, lemma_fundamental_div_mod_converse_mod,
};
use vstd::prelude::*;

verus! {

/// One half turn, in millionths of a radian.
pub const PI_FX: i64 = 3_141_593;

/// One full turn: twice `PI_FX`.
pub const TAU_FX: i64 = 6_283_186;

/// Half of `PI_FX`, rounded down: the fold point of the sine.
pub const HALF_PI_FX: i64 = 1_570_796;

/// Angles this large in magnitude are still reduced without overflow.
pub const ANGLE_LIMIT: i64 = 4_000_000_000_000_000_000;

/// The sine value never exceeds this magnitude.
pub const SIN_BOUND: i64 = 1_700_000;

/// The degree-five sine polynomial `t - t^3/6 + t^5/120` on a quarter turn,
/// in fixed point with truncating products.
pub open spec fn sin_poly_spec(t: int) -> int {
    let t2 = fx_mul_spec(t, t);
    let t3 = fx_mul_spec(t2, t);
    let t5 = fx_mul_spec(t3, t2);
    t - t3 / 6 + t5 / 120
}

/// The sine on a half turn, folded onto the quarter turn.
pub open spec fn sin_half_spec(h: int) -> int {
    if h <= HALF_PI_FX {
        sin_poly_spec(h)
    } else {
        sin_poly_spec(PI_FX - h)
    }
}

/// `a` reduced to `[0, TAU_FX)`.
pub open spec fn angle_mod_spec(a: int) -> int {
    a % (TAU_FX as int)
}

/// The fixed-point sine of an angle in millionths of a radian.
pub open spec fn sin_fx_spec(a: int) -> int {
    let m = angle_mod_spec(a);
    if m <= PI_FX {
        sin_half_spec(m)
    } else {
        -sin_half_spec(m - PI_FX)
    }
}

/// The fixed-point cosine: the sine a quarter turn later.
pub open spec fn cos_fx_spec(a: int) -> int {
    sin_fx_spec(a + HALF_PI_FX)
}

/// The powers of a quarter-turn argument stay under these fixed caps.
pub proof fn lemma_sin_poly_term_bounds(t: int)
    requires
        0 <= t <= HALF_PI_FX + 1,
    ensures
        0 <= fx_mul_spec(t, t) <= 2_467_403,
        0 <= fx_mul_spec(fx_mul_spec(t, t), t) <= 3_875_789,
        0 <= fx_mul_spec(fx_mul_spec(fx_mul_spec(t, t), t), fx_mul_spec(t, t)) <= 9_563_133,
{
    lemma_fx_mul_nonneg_mono(t, t, HALF_PI_FX + 1, HALF_PI_FX + 1);
    assert(fx_mul_spec(1_570_797, 1_570_797) == 2_467_403) by (nonlinear_arith);
    lemma_fx_mul_nonneg_mono(fx_mul_spec(t, t), t, 2_467_403, HALF_PI_FX + 1);
    assert(fx_mul_spec(2_467_403, 1_570_797) == 3_875_789) by (nonlinear_arith);
    lemma_fx_mul_nonneg_mono(
        fx_mul_spec(fx_mul_spec(t, t), t),
        fx_mul_spec(t, t),
        3_875_789,
        2_467_403,
    );
    assert(fx_mul_spec(3_875_789, 2_467_403) == 9_563_133) by (nonlinear_arith);
}

/// On the quarter turn the polynomial stays within `[0, SIN_BOUND]`.
pub proof fn lemma_sin_poly_bounds(t: int)
    requires
        0 <= t <= HALF_PI_FX + 1,
    ensures
        0 <= sin_poly_spec(t) <= SIN_BOUND,
{
    lemma_sin_poly_term_bounds(t);
    let t2 = fx_mul_spec(t, t);
    let t3 = fx_mul_spec(t2, t);
    let t5 = fx_mul_spec(t3, t2);
    // The cube stays below three times the argument, so a sixth of it stays
    // below the argument itself and the low terms cannot go negative.
    assert(t2 * t <= (3 * SCALE) * t) by (nonlinear_arith)
        requires
            0 <= t,
            0 <= t2 <= 3 * SCALE,
    ;
    lemma_div_is_ordered(t2 * t, (3 * SCALE) * t, SCALE as int);
    assert(((3 * SCALE) * t) / (SCALE as int) == 3 * t) by {
        assert((3 * SCALE) * t == (3 * t) * SCALE) by (nonlinear_arith);
        lemma_div_multiples_vanish(3 * t, SCALE as int);
    }
    assert(t3 <= 3 * t);
    lemma_div_is_ordered(t3, 3 * t, 6);
    lemma_div_is_ordered(6 * t, 6 * t, 6);
    lemma_div_multiples_vanish(t, 6);
    assert(3 * t <= 6 * t);
    lemma_div_is_ordered(3 * t, 6 * t, 6);
    assert(t3 / 6 <= t);
    lemma_div_pos_is_pos(t3, 6);
    lemma_div_pos_is_pos(t5, 120);
    lemma_div_is_ordered(t5, 9_563_133, 120);
}

/// The sine polynomial, evaluated exactly as the specification states it.
fn sin_poly(t: i64) -> (r: i64)
    requires
        0 <= t <= HALF_PI_FX + 1,
    ensures
        r == sin_poly_spec(t as int),
        0 <= r <= SIN_BOUND,
{
    proof {
        lemma_sin_poly_bounds(t as int);
        lemma_sin_poly_term_bounds(t as int);
        lemma_fx_mul_fits(t as int, t as int, 2_000_000, 2_000_000);
    }
    let t2 = fx_mul(t, t);
    proof {
        lemma_fx_mul_fits(t2 as int, t as int, 3_000_000, 2_000_000);
    }
    let t3 = fx_mul(t2, t);
    proof {
        lemma_fx_mul_fits(t3 as int, t2 as int, 4_000_000, 3_000_000);
    }
    let t5 = fx_mul(t3, t2);
    let d3 = ((t3 as u64) / 6) as i64;
    let d5 = ((t5 as u64) / 120) as i64;
    t - d3 + d5
}

/// The sine on a half turn.
fn sin_half(h: i64) -> (r: i64)
    requires
        0 <= h <= PI_FX,
    ensures
        r == sin_half_spec(h as int),
        0 <= r <= SIN_BOUND,
{
    if h <= HALF_PI_FX {
        sin_poly(h)
    } else {
        sin_poly(PI_FX - h)
    }
}

/// `a` brought into `[0, TAU_FX)` by whole turns.
pub fn reduce_angle(a: i64) -> (r: i64)
    requires
        -ANGLE_LIMIT <= a <= ANGLE_LIMIT,
    ensures
        r == angle_mod_spec(a as int),
        0 <= r < TAU_FX,
{
    if a >= 0 {
        ((a as u64) % (TAU_FX as u64)) as i64
    } else {
        let n: i64 = -a;
        let m0: i64 = ((n as u64) % (TAU_FX as u64)) as i64;
        proof {
            lemma_fundamental_div_mod(n as int, TAU_FX as int);
            let q0 = (n as int) / (TAU_FX as int);
            if m0 == 0 {
                lemma_fundamental_div_mod_converse_mod(a as int, TAU_FX as int, -q0, 0);
            } else {
                lemma_fundamental_div_mod_converse_mod(
                    a as int,
                    TAU_FX as int,
                    -q0 - 1,
                    TAU_FX - m0,
                );
            }
        }
        if m0 == 0 {
            0
        } else {
            TAU_FX - m0
        }
    }
}

/// The fixed-point sine of an angle in millionths of a radian.
pub fn sin_fx(a: i64) -> (r: i64)
    requires
        -ANGLE_LIMIT <= a <= ANGLE_LIMIT,
    ensures
        r == sin_fx_spec(a as int),
        -SIN_BOUND <= r <= SIN_BOUND,
{
    let m = reduce_angle(a);
    if m <= PI_FX {
        sin_half(m)
    } else {
        -sin_half(m - PI_FX)
    }
}

/// The fixed-point cosine of an angle in millionths of a radian.
pub fn cos_fx(a: i64) -> (r: i64)
    requires
        -ANGLE_LIMIT <= a <= ANGLE_LIMIT - HALF_PI_FX,
    ensures
        r == cos_fx_spec(a as int),
        -SIN_BOUND <= r <= SIN_BOUND,
{
    sin_fx(a + HALF_PI_FX)
}

} // verus!
