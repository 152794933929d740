//! Column-major 4x4 matrices of fixed-point scalars.
//!
//! A matrix holds four `Vector4` columns, the layout the rendering side
//! uploads directly as a shader uniform. Rotation matrices come from
//! orientation quaternions, translation matrices from positions, and the
//! perspective matrix from the frustum parameters; the product of two
//! matrices rounds each coordinate product as a fixed-point multiplication.

use crate::fx::{
    div_trunc, fx_div, fx_div_spec, fx_half, fx_mul, fx_mul_spec, iabs, lemma_fx_mul_bound,
    lemma_mul_div_trunc_bound, mul_div_trunc, SCALE,
};
use crate::quaternion::{quat_all_le, Quaternion, QuaternionView};
use crate::trig::{cos_fx, cos_spec, sin_fx, sin_spec};
use crate::vector::{v4_all_le, Vector3, Vector3View, Vector4, Vector4View};
use vstd::prelude::*;

verus! {

/// The largest frustum depth (`near`, `far`) the projection accepts.
pub const FRUSTUM_LIMIT: i64 = 0x40000000;

/// The largest magnitude of a left operand entry in a matrix product.
pub const MUL_LEFT_LIMIT: i64 = 0x800000;

/// The largest magnitude of a right operand entry in a matrix product.
pub const MUL_RIGHT_LIMIT: i64 = 0x200000000000;

/// A column-major 4x4 matrix of fixed-point scalars.
#[derive(Clone, Copy, Debug, PartialEq, Eq, Structural)]
pub struct Matrix4 {
    pub c0: Vector4,
    pub c1: Vector4,
    pub c2: Vector4,
    pub c3: Vector4,
}

/// The mathematical value of a `Matrix4`.
pub ghost struct Matrix4View {
    pub c0: Vector4View,
    pub c1: Vector4View,
    pub c2: Vector4View,
    pub c3: Vector4View,
}

impl View for Matrix4 {
    type V = Matrix4View;

    open spec fn view(&self) -> Matrix4View {
        Matrix4View { c0: self.c0@, c1: self.c1@, c2: self.c2@, c3: self.c3@ }
    }
}

/// Every entry of the matrix has magnitude at most `l`.
pub open spec fn mat4_all_le(m: Matrix4View, l: int) -> bool {
    v4_all_le(m.c0, l) && v4_all_le(m.c1, l) && v4_all_le(m.c2, l) && v4_all_le(m.c3, l)
}

/// One entry of a matrix product: the fixed-point dot product of a row
/// `(a0, a1, a2, a3)` with a column `(b0, b1, b2, b3)`.
pub open spec fn mul_entry_spec(
    a0: int,
    a1: int,
    a2: int,
    a3: int,
    b0: int,
    b1: int,
    b2: int,
    b3: int,
) -> int {
    fx_mul_spec(a0, b0) + fx_mul_spec(a1, b1) + fx_mul_spec(a2, b2) + fx_mul_spec(a3, b3)
}

/// The rotation matrix of an orientation quaternion (expected near unit
/// length): the standard quaternion-to-matrix formula with fixed-point
/// products, in column-major order.
pub open spec fn mat4_from_quat_spec(q: QuaternionView) -> Matrix4View {
    let s = SCALE as int;
    let xx = fx_mul_spec(q.x, q.x);
    let yy = fx_mul_spec(q.y, q.y);
    let zz = fx_mul_spec(q.z, q.z);
    let xy = fx_mul_spec(q.x, q.y);
    let xz = fx_mul_spec(q.x, q.z);
    let yz = fx_mul_spec(q.y, q.z);
    let sx = fx_mul_spec(q.s, q.x);
    let sy = fx_mul_spec(q.s, q.y);
    let sz = fx_mul_spec(q.s, q.z);
    Matrix4View {
        c0: Vector4View { x: s - 2 * (yy + zz), y: 2 * (xy + sz), z: 2 * (xz - sy), w: 0 },
        c1: Vector4View { x: 2 * (xy - sz), y: s - 2 * (xx + zz), z: 2 * (yz + sx), w: 0 },
        c2: Vector4View { x: 2 * (xz + sy), y: 2 * (yz - sx), z: s - 2 * (xx + yy), w: 0 },
        c3: Vector4View { x: 0, y: 0, z: 0, w: s },
    }
}

/// The affine translation matrix that moves points by `p`.
pub open spec fn mat4_translation_spec(p: Vector3View) -> Matrix4View {
    let s = SCALE as int;
    Matrix4View {
        c0: Vector4View { x: s, y: 0, z: 0, w: 0 },
        c1: Vector4View { x: 0, y: s, z: 0, w: 0 },
        c2: Vector4View { x: 0, y: 0, z: s, w: 0 },
        c3: Vector4View { x: p.x, y: p.y, z: p.z, w: s },
    }
}

/// The transpose, which inverts a pure rotation matrix.
pub open spec fn mat4_transpose_spec(m: Matrix4View) -> Matrix4View {
    Matrix4View {
        c0: Vector4View { x: m.c0.x, y: m.c1.x, z: m.c2.x, w: m.c3.x },
        c1: Vector4View { x: m.c0.y, y: m.c1.y, z: m.c2.y, w: m.c3.y },
        c2: Vector4View { x: m.c0.z, y: m.c1.z, z: m.c2.z, w: m.c3.z },
        c3: Vector4View { x: m.c0.w, y: m.c1.w, z: m.c2.w, w: m.c3.w },
    }
}

/// The matrix product `a * b`.
pub open spec fn mat4_mul_spec(a: Matrix4View, b: Matrix4View) -> Matrix4View {
    Matrix4View {
        c0: Vector4View {
            x: mul_entry_spec(a.c0.x, a.c1.x, a.c2.x, a.c3.x, b.c0.x, b.c0.y, b.c0.z, b.c0.w),
            y: mul_entry_spec(a.c0.y, a.c1.y, a.c2.y, a.c3.y, b.c0.x, b.c0.y, b.c0.z, b.c0.w),
            z: mul_entry_spec(a.c0.z, a.c1.z, a.c2.z, a.c3.z, b.c0.x, b.c0.y, b.c0.z, b.c0.w),
            w: mul_entry_spec(a.c0.w, a.c1.w, a.c2.w, a.c3.w, b.c0.x, b.c0.y, b.c0.z, b.c0.w),
        },
        c1: Vector4View {
            x: mul_entry_spec(a.c0.x, a.c1.x, a.c2.x, a.c3.x, b.c1.x, b.c1.y, b.c1.z, b.c1.w),
            y: mul_entry_spec(a.c0.y, a.c1.y, a.c2.y, a.c3.y, b.c1.x, b.c1.y, b.c1.z, b.c1.w),
            z: mul_entry_spec(a.c0.z, a.c1.z, a.c2.z, a.c3.z, b.c1.x, b.c1.y, b.c1.z, b.c1.w),
            w: mul_entry_spec(a.c0.w, a.c1.w, a.c2.w, a.c3.w, b.c1.x, b.c1.y, b.c1.z, b.c1.w),
        },
        c2: Vector4View {
            x: mul_entry_spec(a.c0.x, a.c1.x, a.c2.x, a.c3.x, b.c2.x, b.c2.y, b.c2.z, b.c2.w),
            y: mul_entry_spec(a.c0.y, a.c1.y, a.c2.y, a.c3.y, b.c2.x, b.c2.y, b.c2.z, b.c2.w),
            z: mul_entry_spec(a.c0.z, a.c1.z, a.c2.z, a.c3.z, b.c2.x, b.c2.y, b.c2.z, b.c2.w),
            w: mul_entry_spec(a.c0.w, a.c1.w, a.c2.w, a.c3.w, b.c2.x, b.c2.y, b.c2.z, b.c2.w),
        },
        c3: Vector4View {
            x: mul_entry_spec(a.c0.x, a.c1.x, a.c2.x, a.c3.x, b.c3.x, b.c3.y, b.c3.z, b.c3.w),
            y: mul_entry_spec(a.c0.y, a.c1.y, a.c2.y, a.c3.y, b.c3.x, b.c3.y, b.c3.z, b.c3.w),
            z: mul_entry_spec(a.c0.z, a.c1.z, a.c2.z, a.c3.z, b.c3.x, b.c3.y, b.c3.z, b.c3.w),
            w: mul_entry_spec(a.c0.w, a.c1.w, a.c2.w, a.c3.w, b.c3.x, b.c3.y, b.c3.z, b.c3.w),
        },
    }
}

/// The matrix applied to a vector.
pub open spec fn mat4_mul_v4_spec(m: Matrix4View, v: Vector4View) -> Vector4View {
    Vector4View {
        x: mul_entry_spec(m.c0.x, m.c1.x, m.c2.x, m.c3.x, v.x, v.y, v.z, v.w),
        y: mul_entry_spec(m.c0.y, m.c1.y, m.c2.y, m.c3.y, v.x, v.y, v.z, v.w),
        z: mul_entry_spec(m.c0.z, m.c1.z, m.c2.z, m.c3.z, v.x, v.y, v.z, v.w),
        w: mul_entry_spec(m.c0.w, m.c1.w, m.c2.w, m.c3.w, v.x, v.y, v.z, v.w),
    }
}

/// The perspective projection of a frustum: `fov` is the vertical field of
/// view in fixed-point degrees, `aspect` the width over height ratio, and
/// `0 < near < far` the depth range. The focal scalar is the cotangent of the
/// half field of view; a non-positive sine there (a degenerate field of view)
/// is replaced by one unit so the quotient stays defined.
pub open spec fn mat4_perspective_spec(fov: int, aspect: int, near: int, far: int) -> Matrix4View {
    let s = SCALE as int;
    let half = div_trunc(fov, 2);
    let sn = sin_spec(half);
    let sd = if sn <= 0 {
        1
    } else {
        sn
    };
    let f = div_trunc(cos_spec(half) * s, sd);
    Matrix4View {
        c0: Vector4View { x: fx_div_spec(f, aspect), y: 0, z: 0, w: 0 },
        c1: Vector4View { x: 0, y: f, z: 0, w: 0 },
        c2: Vector4View { x: 0, y: 0, z: fx_div_spec(far + near, near - far), w: -s },
        c3: Vector4View { x: 0, y: 0, z: fx_div_spec(2 * fx_mul_spec(far, near), near - far), w: 0 },
    }
}

/// One entry of a matrix product.
fn mul_entry(a0: i64, a1: i64, a2: i64, a3: i64, b0: i64, b1: i64, b2: i64, b3: i64) -> (r: i64)
    requires
        iabs(a0 as int) <= MUL_LEFT_LIMIT as int,
        iabs(a1 as int) <= MUL_LEFT_LIMIT as int,
        iabs(a2 as int) <= MUL_LEFT_LIMIT as int,
        iabs(a3 as int) <= MUL_LEFT_LIMIT as int,
        iabs(b0 as int) <= MUL_RIGHT_LIMIT as int,
        iabs(b1 as int) <= MUL_RIGHT_LIMIT as int,
        iabs(b2 as int) <= MUL_RIGHT_LIMIT as int,
        iabs(b3 as int) <= MUL_RIGHT_LIMIT as int,
    ensures
        r as int == mul_entry_spec(
            a0 as int,
            a1 as int,
            a2 as int,
            a3 as int,
            b0 as int,
            b1 as int,
            b2 as int,
            b3 as int,
        ),
{
    proof {
        lemma_fx_mul_bound(a0 as int, b0 as int, MUL_LEFT_LIMIT as int, MUL_RIGHT_LIMIT as int);
        lemma_fx_mul_bound(a1 as int, b1 as int, MUL_LEFT_LIMIT as int, MUL_RIGHT_LIMIT as int);
        lemma_fx_mul_bound(a2 as int, b2 as int, MUL_LEFT_LIMIT as int, MUL_RIGHT_LIMIT as int);
        lemma_fx_mul_bound(a3 as int, b3 as int, MUL_LEFT_LIMIT as int, MUL_RIGHT_LIMIT as int);
    }
    fx_mul(a0, b0) + fx_mul(a1, b1) + fx_mul(a2, b2) + fx_mul(a3, b3)
}

impl Matrix4 {
    /// The rotation matrix of an orientation quaternion whose components lie
    /// within one unit.
    pub fn from_quat(q: &Quaternion) -> (r: Matrix4)
        requires
            quat_all_le(q@, SCALE as int),
        ensures
            r@ == mat4_from_quat_spec(q@),
            mat4_all_le(r@, 6 * (SCALE as int)),
    {
        proof {
            lemma_fx_mul_bound(q@.x, q@.x, SCALE as int, SCALE as int);
            lemma_fx_mul_bound(q@.y, q@.y, SCALE as int, SCALE as int);
            lemma_fx_mul_bound(q@.z, q@.z, SCALE as int, SCALE as int);
            lemma_fx_mul_bound(q@.x, q@.y, SCALE as int, SCALE as int);
            lemma_fx_mul_bound(q@.x, q@.z, SCALE as int, SCALE as int);
            lemma_fx_mul_bound(q@.y, q@.z, SCALE as int, SCALE as int);
            lemma_fx_mul_bound(q@.s, q@.x, SCALE as int, SCALE as int);
            lemma_fx_mul_bound(q@.s, q@.y, SCALE as int, SCALE as int);
            lemma_fx_mul_bound(q@.s, q@.z, SCALE as int, SCALE as int);
        }
        let xx = fx_mul(q.x, q.x);
        let yy = fx_mul(q.y, q.y);
        let zz = fx_mul(q.z, q.z);
        let xy = fx_mul(q.x, q.y);
        let xz = fx_mul(q.x, q.z);
        let yz = fx_mul(q.y, q.z);
        let sx = fx_mul(q.s, q.x);
        let sy = fx_mul(q.s, q.y);
        let sz = fx_mul(q.s, q.z);
        Matrix4 {
            c0: Vector4 { x: SCALE - 2 * (yy + zz), y: 2 * (xy + sz), z: 2 * (xz - sy), w: 0 },
            c1: Vector4 { x: 2 * (xy - sz), y: SCALE - 2 * (xx + zz), z: 2 * (yz + sx), w: 0 },
            c2: Vector4 { x: 2 * (xz + sy), y: 2 * (yz - sx), z: SCALE - 2 * (xx + yy), w: 0 },
            c3: Vector4 { x: 0, y: 0, z: 0, w: SCALE },
        }
    }

    /// The affine translation matrix that moves points by `p`.
    pub fn from_translation(p: &Vector3) -> (r: Matrix4)
        ensures
            r@ == mat4_translation_spec(p@),
    {
        Matrix4 {
            c0: Vector4 { x: SCALE, y: 0, z: 0, w: 0 },
            c1: Vector4 { x: 0, y: SCALE, z: 0, w: 0 },
            c2: Vector4 { x: 0, y: 0, z: SCALE, w: 0 },
            c3: Vector4 { x: p.x, y: p.y, z: p.z, w: SCALE },
        }
    }

    /// The transpose.
    pub fn transpose(&self) -> (r: Matrix4)
        ensures
            r@ == mat4_transpose_spec(self@),
    {
        Matrix4 {
            c0: Vector4 { x: self.c0.x, y: self.c1.x, z: self.c2.x, w: self.c3.x },
            c1: Vector4 { x: self.c0.y, y: self.c1.y, z: self.c2.y, w: self.c3.y },
            c2: Vector4 { x: self.c0.z, y: self.c1.z, z: self.c2.z, w: self.c3.z },
            c3: Vector4 { x: self.c0.w, y: self.c1.w, z: self.c2.w, w: self.c3.w },
        }
    }

    /// The matrix product `self * other`.
    pub fn mul(&self, other: &Matrix4) -> (r: Matrix4)
        requires
            mat4_all_le(self@, MUL_LEFT_LIMIT as int),
            mat4_all_le(other@, MUL_RIGHT_LIMIT as int),
        ensures
            r@ == mat4_mul_spec(self@, other@),
    {
        Matrix4 {
            c0: Vector4 {
                x: mul_entry(
                    self.c0.x, self.c1.x, self.c2.x, self.c3.x,
                    other.c0.x, other.c0.y, other.c0.z, other.c0.w,
                ),
                y: mul_entry(
                    self.c0.y, self.c1.y, self.c2.y, self.c3.y,
                    other.c0.x, other.c0.y, other.c0.z, other.c0.w,
                ),
                z: mul_entry(
                    self.c0.z, self.c1.z, self.c2.z, self.c3.z,
                    other.c0.x, other.c0.y, other.c0.z, other.c0.w,
                ),
                w: mul_entry(
                    self.c0.w, self.c1.w, self.c2.w, self.c3.w,
                    other.c0.x, other.c0.y, other.c0.z, other.c0.w,
                ),
            },
            c1: Vector4 {
                x: mul_entry(
                    self.c0.x, self.c1.x, self.c2.x, self.c3.x,
                    other.c1.x, other.c1.y, other.c1.z, other.c1.w,
                ),
                y: mul_entry(
                    self.c0.y, self.c1.y, self.c2.y, self.c3.y,
                    other.c1.x, other.c1.y, other.c1.z, other.c1.w,
                ),
                z: mul_entry(
                    self.c0.z, self.c1.z, self.c2.z, self.c3.z,
                    other.c1.x, other.c1.y, other.c1.z, other.c1.w,
                ),
                w: mul_entry(
                    self.c0.w, self.c1.w, self.c2.w, self.c3.w,
                    other.c1.x, other.c1.y, other.c1.z, other.c1.w,
                ),
            },
            c2: Vector4 {
                x: mul_entry(
                    self.c0.x, self.c1.x, self.c2.x, self.c3.x,
                    other.c2.x, other.c2.y, other.c2.z, other.c2.w,
                ),
                y: mul_entry(
                    self.c0.y, self.c1.y, self.c2.y, self.c3.y,
                    other.c2.x, other.c2.y, other.c2.z, other.c2.w,
                ),
                z: mul_entry(
                    self.c0.z, self.c1.z, self.c2.z, self.c3.z,
                    other.c2.x, other.c2.y, other.c2.z, other.c2.w,
                ),
                w: mul_entry(
                    self.c0.w, self.c1.w, self.c2.w, self.c3.w,
                    other.c2.x, other.c2.y, other.c2.z, other.c2.w,
                ),
            },
            c3: Vector4 {
                x: mul_entry(
                    self.c0.x, self.c1.x, self.c2.x, self.c3.x,
                    other.c3.x, other.c3.y, other.c3.z, other.c3.w,
                ),
                y: mul_entry(
                    self.c0.y, self.c1.y, self.c2.y, self.c3.y,
                    other.c3.x, other.c3.y, other.c3.z, other.c3.w,
                ),
                z: mul_entry(
                    self.c0.z, self.c1.z, self.c2.z, self.c3.z,
                    other.c3.x, other.c3.y, other.c3.z, other.c3.w,
                ),
                w: mul_entry(
                    self.c0.w, self.c1.w, self.c2.w, self.c3.w,
                    other.c3.x, other.c3.y, other.c3.z, other.c3.w,
                ),
            },
        }
    }

    /// The matrix applied to a vector.
    pub fn mul_v4(&self, v: &Vector4) -> (r: Vector4)
        requires
            mat4_all_le(self@, MUL_LEFT_LIMIT as int),
            v4_all_le(v@, MUL_RIGHT_LIMIT as int),
        ensures
            r@ == mat4_mul_v4_spec(self@, v@),
    {
        Vector4 {
            x: mul_entry(self.c0.x, self.c1.x, self.c2.x, self.c3.x, v.x, v.y, v.z, v.w),
            y: mul_entry(self.c0.y, self.c1.y, self.c2.y, self.c3.y, v.x, v.y, v.z, v.w),
            z: mul_entry(self.c0.z, self.c1.z, self.c2.z, self.c3.z, v.x, v.y, v.z, v.w),
            w: mul_entry(self.c0.w, self.c1.w, self.c2.w, self.c3.w, v.x, v.y, v.z, v.w),
        }
    }

    /// The perspective projection of a frustum.
    pub fn from_perspective_fov(fov: i64, aspect: i64, near: i64, far: i64) -> (r: Matrix4)
        requires
            0 < fov < 180 * SCALE,
            0 < aspect,
            0 < near < far <= FRUSTUM_LIMIT,
        ensures
            r@ == mat4_perspective_spec(fov as int, aspect as int, near as int, far as int),
    {
        proof {
            crate::fx::lemma_div_trunc_mag(fov as int, 2);
        }
        let half = fx_half(fov);
        let sn = sin_fx(half);
        let c = cos_fx(half);
        let sd: i64 = if sn <= 0 {
            1
        } else {
            sn
        };
        proof {
            lemma_mul_div_trunc_bound(c as int, SCALE as int, sd as int, SCALE as int,
                SCALE as int);
        }
        let f = mul_div_trunc(c, SCALE, sd);
        proof {
            lemma_mul_div_trunc_bound(f as int, SCALE as int, aspect as int,
                0x10000000000, SCALE as int);
            lemma_mul_div_trunc_bound((far + near) as int, SCALE as int, (near - far) as int,
                0x80000000, SCALE as int);
            lemma_fx_mul_bound(far as int, near as int, FRUSTUM_LIMIT as int,
                FRUSTUM_LIMIT as int);
        }
        let e00 = fx_div(f, aspect);
        let e22 = fx_div(far + near, near - far);
        let t = fx_mul(far, near);
        proof {
            lemma_mul_div_trunc_bound(2 * (t as int), SCALE as int, (near - far) as int,
                0x20000000000, SCALE as int);
        }
        let e32 = fx_div(2 * t, near - far);
        Matrix4 {
            c0: Vector4 { x: e00, y: 0, z: 0, w: 0 },
            c1: Vector4 { x: 0, y: f, z: 0, w: 0 },
            c2: Vector4 { x: 0, y: 0, z: e22, w: -SCALE },
            c3: Vector4 { x: 0, y: 0, z: e32, w: 0 },
        }
    }
}

} // verus!
