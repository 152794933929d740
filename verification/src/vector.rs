//! Three- and four-component vectors of fixed-point scalars.
//!
//! Positions are `Vector3` values; the camera's local basis directions are
//! `Vector4` values whose fourth component stays zero. Each type has a ghost
//! view over unbounded integers, and every operation returns exactly what its
//! spec function names.

use crate::fx::{fx_mul, fx_mul_spec, iabs, lemma_fx_mul_bound, SCALE};
use vstd::prelude::*;

verus! {

/// A three-component vector of fixed-point scalars.
#[derive(Clone, Copy, Debug, PartialEq, Eq, Structural)]
pub struct Vector3 {
    pub x: i64,
    pub y: i64,
    pub z: i64,
}

/// The mathematical value of a `Vector3`.
pub ghost struct Vector3View {
    pub x: int,
    pub y: int,
    pub z: int,
}

impl View for Vector3 {
    type V = Vector3View;

    open spec fn view(&self) -> Vector3View {
        Vector3View { x: self.x as int, y: self.y as int, z: self.z as int }
    }
}

/// A four-component vector of fixed-point scalars.
#[derive(Clone, Copy, Debug, PartialEq, Eq, Structural)]
pub struct Vector4 {
    pub x: i64,
    pub y: i64,
    pub z: i64,
    pub w: i64,
}

/// The mathematical value of a `Vector4`.
pub ghost struct Vector4View {
    pub x: int,
    pub y: int,
    pub z: int,
    pub w: int,
}

impl View for Vector4 {
    type V = Vector4View;

    open spec fn view(&self) -> Vector4View {
        Vector4View {
            x: self.x as int,
            y: self.y as int,
            z: self.z as int,
            w: self.w as int,
        }
    }
}

/// Every component of the vector has magnitude at most `l`.
pub open spec fn v3_all_le(v: Vector3View, l: int) -> bool {
    iabs(v.x) <= l && iabs(v.y) <= l && iabs(v.z) <= l
}

/// Every component of the vector has magnitude at most `l`.
pub open spec fn v4_all_le(v: Vector4View, l: int) -> bool {
    iabs(v.x) <= l && iabs(v.y) <= l && iabs(v.z) <= l && iabs(v.w) <= l
}

/// Componentwise sum.
pub open spec fn v3_add_spec(a: Vector3View, b: Vector3View) -> Vector3View {
    Vector3View { x: a.x + b.x, y: a.y + b.y, z: a.z + b.z }
}

/// Componentwise negation.
pub open spec fn v3_neg_spec(a: Vector3View) -> Vector3View {
    Vector3View { x: -a.x, y: -a.y, z: -a.z }
}

/// The vector scaled by the fixed-point scalar `k`.
pub open spec fn v3_scale_spec(a: Vector3View, k: int) -> Vector3View {
    Vector3View { x: fx_mul_spec(a.x, k), y: fx_mul_spec(a.y, k), z: fx_mul_spec(a.z, k) }
}

/// The first three components of a four-component vector.
pub open spec fn v4_xyz_spec(a: Vector4View) -> Vector3View {
    Vector3View { x: a.x, y: a.y, z: a.z }
}

impl Vector3 {
    /// Pack three fixed-point scalars into a vector.
    pub fn new(x: i64, y: i64, z: i64) -> (r: Vector3)
        ensures
            r@ == (Vector3View { x: x as int, y: y as int, z: z as int }),
    {
        Vector3 { x, y, z }
    }

    /// Componentwise sum.
    pub fn add(&self, other: &Vector3) -> (r: Vector3)
        requires
            i64::MIN <= self@.x + other@.x <= i64::MAX,
            i64::MIN <= self@.y + other@.y <= i64::MAX,
            i64::MIN <= self@.z + other@.z <= i64::MAX,
        ensures
            r@ == v3_add_spec(self@, other@),
    {
        Vector3 { x: self.x + other.x, y: self.y + other.y, z: self.z + other.z }
    }

    /// Componentwise negation.
    pub fn neg(&self) -> (r: Vector3)
        requires
            self.x > i64::MIN,
            self.y > i64::MIN,
            self.z > i64::MIN,
        ensures
            r@ == v3_neg_spec(self@),
    {
        Vector3 { x: -self.x, y: -self.y, z: -self.z }
    }

    /// The vector scaled by the fixed-point scalar `k`.
    pub fn scale(&self, k: i64) -> (r: Vector3)
        requires
            i64::MIN <= fx_mul_spec(self@.x, k as int) <= i64::MAX,
            i64::MIN <= fx_mul_spec(self@.y, k as int) <= i64::MAX,
            i64::MIN <= fx_mul_spec(self@.z, k as int) <= i64::MAX,
        ensures
            r@ == v3_scale_spec(self@, k as int),
    {
        Vector3 { x: fx_mul(self.x, k), y: fx_mul(self.y, k), z: fx_mul(self.z, k) }
    }
}

impl Vector4 {
    /// Pack four fixed-point scalars into a vector.
    pub fn new(x: i64, y: i64, z: i64, w: i64) -> (r: Vector4)
        ensures
            r@ == (Vector4View { x: x as int, y: y as int, z: z as int, w: w as int }),
    {
        Vector4 { x, y, z, w }
    }

    /// Drop the fourth component.
    pub fn xyz(&self) -> (r: Vector3)
        ensures
            r@ == v4_xyz_spec(self@),
    {
        Vector3 { x: self.x, y: self.y, z: self.z }
    }
}

/// Scaling a vector whose components are bounded by `lv` with a scalar bounded
/// by `lk` keeps every component within `lv * lk / SCALE`.
pub proof fn lemma_v3_scale_bound(a: Vector3View, k: int, lv: int, lk: int)
    requires
        v3_all_le(a, lv),
        iabs(k) <= lk,
    ensures
        v3_all_le(v3_scale_spec(a, k), (lv * lk) / (SCALE as int)),
{
    lemma_fx_mul_bound(a.x, k, lv, lk);
    lemma_fx_mul_bound(a.y, k, lv, lk);
    lemma_fx_mul_bound(a.z, k, lv, lk);
}

} // verus!
