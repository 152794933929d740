//! Orientation quaternions over fixed-point scalars.
//!
//! A quaternion holds its scalar part `s` first, then the vector part
//! `x, y, z`. The camera keeps its orientation as a quaternion near unit
//! length; composition is the Hamilton product with fixed-point rounding, and
//! every composition is renormalized so the components stay within one unit.

use crate::fx::{
    div_trunc, fx_mul, fx_mul_spec, iabs, isqrt, isqrt_spec, lemma_div_trunc_mag,
    lemma_fx_mul_bound, lemma_mul_div_trunc_bound, mul_div_trunc, SCALE,
};
use crate::trig::{cos_fx, cos_spec, sin_fx, sin_spec, ANGLE_LIMIT};
use crate::vector::{v3_all_le, Vector3, Vector3View};
use vstd::arithmetic::div_mod::{lemma_div_is_ordered, lemma_div_multiples_vanish};
use vstd::prelude::*;

verus! {

/// A quaternion of fixed-point scalars, scalar part first.
#[derive(Clone, Copy, Debug, PartialEq, Eq, Structural)]
pub struct Quaternion {
    pub s: i64,
    pub x: i64,
    pub y: i64,
    pub z: i64,
}

/// The mathematical value of a `Quaternion`.
pub ghost struct QuaternionView {
    pub s: int,
    pub x: int,
    pub y: int,
    pub z: int,
}

impl View for Quaternion {
    type V = QuaternionView;

    open spec fn view(&self) -> QuaternionView {
        QuaternionView {
            s: self.s as int,
            x: self.x as int,
            y: self.y as int,
            z: self.z as int,
        }
    }
}

/// Every component of the quaternion has magnitude at most `l`.
pub open spec fn quat_all_le(q: QuaternionView, l: int) -> bool {
    iabs(q.s) <= l && iabs(q.x) <= l && iabs(q.y) <= l && iabs(q.z) <= l
}

/// The Hamilton product, each coordinate product rounded as a fixed-point
/// multiplication.
pub open spec fn quat_mul_spec(p: QuaternionView, q: QuaternionView) -> QuaternionView {
    QuaternionView {
        s: fx_mul_spec(p.s, q.s) - fx_mul_spec(p.x, q.x) - fx_mul_spec(p.y, q.y) - fx_mul_spec(
            p.z,
            q.z,
        ),
        x: fx_mul_spec(p.s, q.x) + fx_mul_spec(p.x, q.s) + fx_mul_spec(p.y, q.z) - fx_mul_spec(
            p.z,
            q.y,
        ),
        y: fx_mul_spec(p.s, q.y) - fx_mul_spec(p.x, q.z) + fx_mul_spec(p.y, q.s) + fx_mul_spec(
            p.z,
            q.x,
        ),
        z: fx_mul_spec(p.s, q.z) + fx_mul_spec(p.x, q.y) - fx_mul_spec(p.y, q.x) + fx_mul_spec(
            p.z,
            q.s,
        ),
    }
}

/// The sum of the squared components (the squared norm, in squared
/// fixed-point units).
pub open spec fn quat_norm_sq_spec(q: QuaternionView) -> int {
    q.s * q.s + q.x * q.x + q.y * q.y + q.z * q.z
}

/// The quaternion scaled to unit length: each component is multiplied by
/// `SCALE` and divided by the integer square root of the squared norm,
/// rounding toward zero. The zero quaternion is left unchanged.
pub open spec fn quat_normalize_spec(q: QuaternionView) -> QuaternionView {
    let n = isqrt_spec(quat_norm_sq_spec(q));
    if n <= 0 {
        q
    } else {
        QuaternionView {
            s: div_trunc(q.s * (SCALE as int), n),
            x: div_trunc(q.x * (SCALE as int), n),
            y: div_trunc(q.y * (SCALE as int), n),
            z: div_trunc(q.z * (SCALE as int), n),
        }
    }
}

/// The rotation by `angle` fixed-point degrees about `axis`: the scalar part
/// is the cosine of the half angle and the vector part is the axis scaled by
/// its sine. The axis is expected to be near unit length.
pub open spec fn quat_from_axis_deg_spec(angle: int, axis: Vector3View) -> QuaternionView {
    let half = div_trunc(angle, 2);
    let s = sin_spec(half);
    QuaternionView {
        s: cos_spec(half),
        x: fx_mul_spec(s, axis.x),
        y: fx_mul_spec(s, axis.y),
        z: fx_mul_spec(s, axis.z),
    }
}

/// Componentwise bounds on two quaternions bound their Hamilton product.
pub proof fn lemma_quat_mul_bound(p: QuaternionView, q: QuaternionView, lp: int, lq: int)
    requires
        quat_all_le(p, lp),
        quat_all_le(q, lq),
    ensures
        quat_all_le(quat_mul_spec(p, q), 4 * ((lp * lq) / (SCALE as int))),
{
    lemma_fx_mul_bound(p.s, q.s, lp, lq);
    lemma_fx_mul_bound(p.s, q.x, lp, lq);
    lemma_fx_mul_bound(p.s, q.y, lp, lq);
    lemma_fx_mul_bound(p.s, q.z, lp, lq);
    lemma_fx_mul_bound(p.x, q.s, lp, lq);
    lemma_fx_mul_bound(p.x, q.x, lp, lq);
    lemma_fx_mul_bound(p.x, q.y, lp, lq);
    lemma_fx_mul_bound(p.x, q.z, lp, lq);
    lemma_fx_mul_bound(p.y, q.s, lp, lq);
    lemma_fx_mul_bound(p.y, q.x, lp, lq);
    lemma_fx_mul_bound(p.y, q.y, lp, lq);
    lemma_fx_mul_bound(p.y, q.z, lp, lq);
    lemma_fx_mul_bound(p.z, q.s, lp, lq);
    lemma_fx_mul_bound(p.z, q.x, lp, lq);
    lemma_fx_mul_bound(p.z, q.y, lp, lq);
    lemma_fx_mul_bound(p.z, q.z, lp, lq);
}

impl Quaternion {
    /// Pack four fixed-point scalars into a quaternion, scalar part first.
    pub fn new(s: i64, x: i64, y: i64, z: i64) -> (r: Quaternion)
        ensures
            r@ == (QuaternionView { s: s as int, x: x as int, y: y as int, z: z as int }),
    {
        Quaternion { s, x, y, z }
    }

    /// The Hamilton product of two quaternions.
    pub fn mul(&self, other: &Quaternion) -> (r: Quaternion)
        requires
            quat_all_le(self@, 0x40000000),
            quat_all_le(other@, 0x40000000),
        ensures
            r@ == quat_mul_spec(self@, other@),
    {
        proof {
            lemma_fx_mul_bound(self@.s, other@.s, 0x40000000, 0x40000000);
            lemma_fx_mul_bound(self@.s, other@.x, 0x40000000, 0x40000000);
            lemma_fx_mul_bound(self@.s, other@.y, 0x40000000, 0x40000000);
            lemma_fx_mul_bound(self@.s, other@.z, 0x40000000, 0x40000000);
            lemma_fx_mul_bound(self@.x, other@.s, 0x40000000, 0x40000000);
            lemma_fx_mul_bound(self@.x, other@.x, 0x40000000, 0x40000000);
            lemma_fx_mul_bound(self@.x, other@.y, 0x40000000, 0x40000000);
            lemma_fx_mul_bound(self@.x, other@.z, 0x40000000, 0x40000000);
            lemma_fx_mul_bound(self@.y, other@.s, 0x40000000, 0x40000000);
            lemma_fx_mul_bound(self@.y, other@.x, 0x40000000, 0x40000000);
            lemma_fx_mul_bound(self@.y, other@.y, 0x40000000, 0x40000000);
            lemma_fx_mul_bound(self@.y, other@.z, 0x40000000, 0x40000000);
            lemma_fx_mul_bound(self@.z, other@.s, 0x40000000, 0x40000000);
            lemma_fx_mul_bound(self@.z, other@.x, 0x40000000, 0x40000000);
            lemma_fx_mul_bound(self@.z, other@.y, 0x40000000, 0x40000000);
            lemma_fx_mul_bound(self@.z, other@.z, 0x40000000, 0x40000000);
        }
        let s = fx_mul(self.s, other.s) - fx_mul(self.x, other.x) - fx_mul(self.y, other.y)
            - fx_mul(self.z, other.z);
        let x = fx_mul(self.s, other.x) + fx_mul(self.x, other.s) + fx_mul(self.y, other.z)
            - fx_mul(self.z, other.y);
        let y = fx_mul(self.s, other.y) - fx_mul(self.x, other.z) + fx_mul(self.y, other.s)
            + fx_mul(self.z, other.x);
        let z = fx_mul(self.s, other.z) + fx_mul(self.x, other.y) - fx_mul(self.y, other.x)
            + fx_mul(self.z, other.s);
        Quaternion { s, x, y, z }
    }

    /// The sum of the squared components.
    pub fn norm_sq(&self) -> (r: i64)
        requires
            quat_all_le(self@, 0x40000000),
        ensures
            r as int == quat_norm_sq_spec(self@),
            0 <= r <= 0x4000000000000000,
    {
        proof {
            lemma_square_bounds(self@.s, 0x40000000);
            lemma_square_bounds(self@.x, 0x40000000);
            lemma_square_bounds(self@.y, 0x40000000);
            lemma_square_bounds(self@.z, 0x40000000);
        }
        self.s * self.s + self.x * self.x + self.y * self.y + self.z * self.z
    }

    /// Scale the quaternion to unit length (leave the zero quaternion as it
    /// is).
    pub fn normalize(&self) -> (r: Quaternion)
        requires
            quat_all_le(self@, 0x40000000),
        ensures
            r@ == quat_normalize_spec(self@),
            quat_all_le(r@, SCALE as int),
    {
        let n2 = self.norm_sq();
        let n_wide = isqrt(n2 as u64);
        proof {
            lemma_isqrt_result_bound(n2 as int, n_wide as int);
        }
        let n = n_wide as i64;
        if n == 0 {
            proof {
                let np1 = (n as int) + 1;
                assert(np1 * np1 == 1) by (nonlinear_arith)
                    requires
                        np1 == 1,
                ;
                lemma_zero_norm_zero_components(self@);
            }
            *self
        } else {
            proof {
                lemma_mul_div_trunc_bound(self@.s, SCALE as int, n as int, 0x40000000, SCALE as int);
                lemma_mul_div_trunc_bound(self@.x, SCALE as int, n as int, 0x40000000, SCALE as int);
                lemma_mul_div_trunc_bound(self@.y, SCALE as int, n as int, 0x40000000, SCALE as int);
                lemma_mul_div_trunc_bound(self@.z, SCALE as int, n as int, 0x40000000, SCALE as int);
                lemma_square_le_norm(self@.s, self@, n as int);
                lemma_square_le_norm(self@.x, self@, n as int);
                lemma_square_le_norm(self@.y, self@, n as int);
                lemma_square_le_norm(self@.z, self@, n as int);
                lemma_normalized_component(self@.s, n as int);
                lemma_normalized_component(self@.x, n as int);
                lemma_normalized_component(self@.y, n as int);
                lemma_normalized_component(self@.z, n as int);
            }
            Quaternion {
                s: mul_div_trunc(self.s, SCALE, n),
                x: mul_div_trunc(self.x, SCALE, n),
                y: mul_div_trunc(self.y, SCALE, n),
                z: mul_div_trunc(self.z, SCALE, n),
            }
        }
    }

    /// The rotation by `angle` fixed-point degrees about `axis`.
    pub fn from_axis_deg(angle: i64, axis: &Vector3) -> (r: Quaternion)
        requires
            -ANGLE_LIMIT <= angle <= ANGLE_LIMIT,
            v3_all_le(axis@, 6 * (SCALE as int)),
        ensures
            r@ == quat_from_axis_deg_spec(angle as int, axis@),
            quat_all_le(r@, 6 * (SCALE as int)),
    {
        proof {
            lemma_div_trunc_mag(angle as int, 2);
        }
        let half = crate::fx::fx_half(angle);
        let s = sin_fx(half);
        let c = cos_fx(half);
        proof {
            lemma_fx_mul_bound(s as int, axis@.x, SCALE as int, 6 * (SCALE as int));
            lemma_fx_mul_bound(s as int, axis@.y, SCALE as int, 6 * (SCALE as int));
            lemma_fx_mul_bound(s as int, axis@.z, SCALE as int, 6 * (SCALE as int));
        }
        Quaternion { s: c, x: fx_mul(s, axis.x), y: fx_mul(s, axis.y), z: fx_mul(s, axis.z) }
    }
}

/// The square of a scalar bounded by `l` lies between zero and `l * l`.
proof fn lemma_square_bounds(c: int, l: int)
    requires
        iabs(c) <= l,
    ensures
        0 <= c * c <= l * l,
{
    assert(0 <= c * c <= l * l) by (nonlinear_arith)
        requires
            iabs(c) <= l,
    ;
}

/// An integer square root of a value below `2^62` fits well inside an `i64`.
proof fn lemma_isqrt_result_bound(n2: int, n: int)
    requires
        0 <= n2 <= 0x4000000000000000,
        crate::fx::is_isqrt(n2, n),
    ensures
        0 <= n <= 0x80000000,
{
    assert(n <= 0x80000000) by (nonlinear_arith)
        requires
            0 <= n,
            n * n <= 0x4000000000000000,
    ;
}

/// A quaternion with zero squared norm has all components zero.
proof fn lemma_zero_norm_zero_components(q: QuaternionView)
    requires
        quat_norm_sq_spec(q) == 0,
    ensures
        q.s == 0 && q.x == 0 && q.y == 0 && q.z == 0,
{
    assert(q.s == 0 && q.x == 0 && q.y == 0 && q.z == 0) by (nonlinear_arith)
        requires
            q.s * q.s + q.x * q.x + q.y * q.y + q.z * q.z == 0,
    ;
}

/// Each component's magnitude is at most the integer square root of the
/// squared norm.
proof fn lemma_square_le_norm(c: int, q: QuaternionView, n: int)
    requires
        c == q.s || c == q.x || c == q.y || c == q.z,
        0 <= n,
        quat_norm_sq_spec(q) < (n + 1) * (n + 1),
    ensures
        iabs(c) <= n,
{
    assert(iabs(c) <= n) by (nonlinear_arith)
        requires
            c == q.s || c == q.x || c == q.y || c == q.z,
            0 <= n,
            q.s * q.s + q.x * q.x + q.y * q.y + q.z * q.z < (n + 1) * (n + 1),
    ;
}

/// Scaling a component bounded by the norm root keeps it within one unit.
proof fn lemma_normalized_component(c: int, n: int)
    requires
        0 < n,
        iabs(c) <= n,
    ensures
        iabs(div_trunc(c * (SCALE as int), n)) <= SCALE as int,
{
    let s = SCALE as int;
    lemma_div_trunc_mag(c * s, n);
    assert(iabs(c * s) == iabs(c) * s) by (nonlinear_arith)
        requires
            s == SCALE as int,
    ;
    assert(iabs(c) * s <= n * s) by (nonlinear_arith)
        requires
            iabs(c) <= n,
            s == SCALE as int,
    ;
    lemma_div_is_ordered(iabs(c) * s, n * s, n);
    lemma_div_multiples_vanish(s, n);
}

} // verus!
