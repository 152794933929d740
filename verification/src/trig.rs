//! Sine and cosine of fixed-point angles in degrees.
//!
//! An angle is a fixed-point scalar counting degrees. The angle is reduced to
//! one turn, folded onto the first quadrant, and the sine there is the Taylor
//! polynomial of degree nine evaluated in fixed point and clamped to
//! `[0, SCALE]`; `sin_quadrant_spec` is the exact definition of that
//! approximation. The executable functions return precisely the value their
//! spec names, so every caller's contract is exact.

use crate::fx::{div_nn, fx_mul, fx_mul_spec, lemma_fx_mul_bound, lemma_fx_mul_nonneg, SCALE};
use vstd::arithmetic::div_mod::{
    lemma_fundamental_div_mod, lemma_fundamental_div_mod_converse_mod,
    lemma_mod_division_less_than_divisor,
};
use vstd::prelude::*;

verus! {

/// One full turn, in fixed-point degrees.
pub const DEG_FULL_TURN: i64 = 360 * SCALE;

/// A quarter turn, in fixed-point degrees.
pub const DEG_QUARTER_TURN: i64 = 90 * SCALE;

/// Half a turn, in fixed-point degrees.
pub const DEG_HALF_TURN: i64 = 180 * SCALE;

/// Radians per degree (about 0.01745), in fixed-point units.
pub const RAD_PER_DEG: i64 = 18301;

/// The largest angle the trigonometric functions accept; it leaves room for
/// the quarter-turn shift that derives the cosine.
pub const ANGLE_LIMIT: i64 = 0x4000000000000000;

/// A value clamped to a closed interval.
pub open spec fn clamp_spec(v: int, lo: int, hi: int) -> int {
    if v < lo {
        lo
    } else if v > hi {
        hi
    } else {
        v
    }
}

/// Sine on the first quadrant (`0 <= deg <= DEG_QUARTER_TURN`): the degree-nine
/// Taylor polynomial of the angle in radians, evaluated in fixed point and
/// clamped to `[0, SCALE]`.
pub open spec fn sin_quadrant_spec(deg: int) -> int {
    let r = fx_mul_spec(deg, RAD_PER_DEG as int);
    let r2 = fx_mul_spec(r, r);
    let t3 = fx_mul_spec(r, r2);
    let t5 = fx_mul_spec(t3, r2);
    let t7 = fx_mul_spec(t5, r2);
    let t9 = fx_mul_spec(t7, r2);
    let p = r - t3 / 6 + t5 / 120 - t7 / 5040 + t9 / 362880;
    clamp_spec(p, 0, SCALE as int)
}

/// Sine of any angle: the angle reduced to one turn (Euclidean remainder) and
/// folded onto the first quadrant.
pub open spec fn sin_spec(deg: int) -> int {
    let m = deg % (DEG_FULL_TURN as int);
    if m <= DEG_QUARTER_TURN as int {
        sin_quadrant_spec(m)
    } else if m <= DEG_HALF_TURN as int {
        sin_quadrant_spec(DEG_HALF_TURN as int - m)
    } else if m <= DEG_HALF_TURN as int + DEG_QUARTER_TURN as int {
        -sin_quadrant_spec(m - DEG_HALF_TURN as int)
    } else {
        -sin_quadrant_spec(DEG_FULL_TURN as int - m)
    }
}

/// Cosine of any angle, as the sine shifted by a quarter turn.
pub open spec fn cos_spec(deg: int) -> int {
    sin_spec(deg + DEG_QUARTER_TURN as int)
}

/// The Euclidean remainder of an angle by one full turn.
fn reduce_turn(deg: i64) -> (m: i64)
    ensures
        m as int == (deg as int) % (DEG_FULL_TURN as int),
        0 <= m < DEG_FULL_TURN,
{
    let c: u64 = DEG_FULL_TURN as u64;
    if deg >= 0 {
        let m = (deg as u64) % c;
        m as i64
    } else {
        let k = ((-(deg as i128)) as u64) % c;
        proof {
            let x = deg as int;
            let ci = DEG_FULL_TURN as int;
            lemma_fundamental_div_mod(-x, ci);
            let q = (-x) / ci;
            let nk = (-x) % ci;
            if nk == 0 {
                lemma_fundamental_div_mod_converse_mod(x, ci, -q, 0);
            } else {
                lemma_fundamental_div_mod_converse_mod(x, ci, -q - 1, ci - nk);
            }
        }
        if k == 0 {
            0
        } else {
            (c - k) as i64
        }
    }
}

/// Sine on the first quadrant, exactly as `sin_quadrant_spec` describes.
fn sin_quadrant(deg: i64) -> (r: i64)
    requires
        0 <= deg <= DEG_QUARTER_TURN,
    ensures
        r as int == sin_quadrant_spec(deg as int),
        0 <= r <= SCALE,
{
    proof {
        lemma_fx_mul_bound(deg as int, RAD_PER_DEG as int, DEG_QUARTER_TURN as int,
            RAD_PER_DEG as int);
        lemma_fx_mul_nonneg(deg as int, RAD_PER_DEG as int);
    }
    let r1 = fx_mul(deg, RAD_PER_DEG);
    proof {
        lemma_fx_mul_bound(r1 as int, r1 as int, 2000000, 2000000);
        lemma_fx_mul_nonneg(r1 as int, r1 as int);
    }
    let r2 = fx_mul(r1, r1);
    proof {
        lemma_fx_mul_bound(r1 as int, r2 as int, 2000000, 4000000);
        lemma_fx_mul_nonneg(r1 as int, r2 as int);
    }
    let t3 = fx_mul(r1, r2);
    proof {
        lemma_fx_mul_bound(t3 as int, r2 as int, 8000000, 4000000);
        lemma_fx_mul_nonneg(t3 as int, r2 as int);
    }
    let t5 = fx_mul(t3, r2);
    proof {
        lemma_fx_mul_bound(t5 as int, r2 as int, 31000000, 4000000);
        lemma_fx_mul_nonneg(t5 as int, r2 as int);
    }
    let t7 = fx_mul(t5, r2);
    proof {
        lemma_fx_mul_bound(t7 as int, r2 as int, 119000000, 4000000);
        lemma_fx_mul_nonneg(t7 as int, r2 as int);
    }
    let t9 = fx_mul(t7, r2);
    let d3 = div_nn(t3, 6);
    let d5 = div_nn(t5, 120);
    let d7 = div_nn(t7, 5040);
    let d9 = div_nn(t9, 362880);
    let p = r1 - d3 + d5 - d7 + d9;
    if p < 0 {
        0
    } else if p > SCALE {
        SCALE
    } else {
        p
    }
}

/// Sine of a fixed-point angle in degrees.
pub fn sin_fx(deg: i64) -> (r: i64)
    ensures
        r as int == sin_spec(deg as int),
        -SCALE <= r <= SCALE,
{
    let m = reduce_turn(deg);
    if m <= DEG_QUARTER_TURN {
        sin_quadrant(m)
    } else if m <= DEG_HALF_TURN {
        sin_quadrant(DEG_HALF_TURN - m)
    } else if m <= DEG_HALF_TURN + DEG_QUARTER_TURN {
        -sin_quadrant(m - DEG_HALF_TURN)
    } else {
        -sin_quadrant(DEG_FULL_TURN - m)
    }
}

/// Cosine of a fixed-point angle in degrees.
pub fn cos_fx(deg: i64) -> (r: i64)
    requires
        -ANGLE_LIMIT <= deg <= ANGLE_LIMIT,
    ensures
        r as int == cos_spec(deg as int),
        -SCALE <= r <= SCALE,
{
    sin_fx(deg + DEG_QUARTER_TURN)
}

/// The sine of any angle lies within one unit of magnitude.
pub proof fn lemma_sin_bounds(deg: int)
    ensures
        -(SCALE as int) <= sin_spec(deg) <= SCALE as int,
        -(SCALE as int) <= cos_spec(deg) <= SCALE as int,
{
    lemma_mod_division_less_than_divisor(deg, DEG_FULL_TURN as int);
    lemma_mod_division_less_than_divisor(deg + DEG_QUARTER_TURN as int, DEG_FULL_TURN as int);
}

} // verus!
