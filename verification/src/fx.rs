//! Fixed-point scalars.
//!
//! A scalar is an `i64` counting units of `1 / SCALE`, so the value `1.0` is
//! the integer `SCALE`. Multiplication and division rescale their result and
//! round toward zero; `div_trunc` is the exact mathematical description of
//! that rounding, and every executable operation here returns precisely the
//! value its spec function names.

use vstd::arithmetic::div_mod::{
    lemma_div_basics, lemma_div_is_ordered, lemma_div_is_ordered_by_denominator,
    lemma_div_multiples_vanish, lemma_div_pos_is_pos,
};
use vstd::prelude::*;

verus! {

/// Fixed-point units per whole unit: scalars hold 20 fractional bits.
pub const SCALE: i64 = 1048576;

/// Magnitude of an integer.
pub open spec fn iabs(a: int) -> int {
    if a < 0 {
        -a
    } else {
        a
    }
}

/// Integer division rounding toward zero (for `b != 0`), the rounding that
/// every fixed-point operation uses.
pub open spec fn div_trunc(a: int, b: int) -> int {
    let q = iabs(a) / iabs(b);
    if (a < 0) != (b < 0) {
        -q
    } else {
        q
    }
}

/// The product of two fixed-point scalars.
pub open spec fn fx_mul_spec(a: int, b: int) -> int {
    div_trunc(a * b, SCALE as int)
}

/// The quotient of two fixed-point scalars.
pub open spec fn fx_div_spec(a: int, b: int) -> int {
    div_trunc(a * (SCALE as int), b)
}

/// The magnitude of a truncating quotient is the quotient of the magnitudes.
pub proof fn lemma_div_trunc_mag(a: int, b: int)
    requires
        b != 0,
    ensures
        iabs(div_trunc(a, b)) == iabs(a) / iabs(b),
        0 <= iabs(a) / iabs(b),
{
    lemma_div_pos_is_pos(iabs(a), iabs(b));
}

/// Bounds on the operands of a fixed-point product bound its result.
pub proof fn lemma_fx_mul_bound(a: int, b: int, la: int, lb: int)
    requires
        iabs(a) <= la,
        iabs(b) <= lb,
    ensures
        iabs(fx_mul_spec(a, b)) <= (la * lb) / (SCALE as int),
{
    assert(iabs(a * b) == iabs(a) * iabs(b)) by (nonlinear_arith);
    assert(iabs(a) * iabs(b) <= la * lb) by (nonlinear_arith)
        requires
            0 <= iabs(a) <= la,
            0 <= iabs(b) <= lb,
    ;
    lemma_div_trunc_mag(a * b, SCALE as int);
    lemma_div_is_ordered(iabs(a * b), la * lb, SCALE as int);
}

/// Multiplying by one (`SCALE`), by minus one or by zero is exact.
pub proof fn lemma_fx_mul_units(a: int)
    ensures
        fx_mul_spec(a, SCALE as int) == a,
        fx_mul_spec(a, -(SCALE as int)) == -a,
        fx_mul_spec(a, 0) == 0,
        fx_mul_spec(0, a) == 0,
{
    let s = SCALE as int;
    assert(iabs(a * s) == s * iabs(a)) by (nonlinear_arith)
        requires
            s == SCALE as int,
    ;
    assert(iabs(a * -s) == s * iabs(a)) by (nonlinear_arith)
        requires
            s == SCALE as int,
    ;
    assert((a * s < 0 <==> a < 0) && (a * -s < 0 <==> a > 0)) by (nonlinear_arith)
        requires
            s == SCALE as int,
    ;
    lemma_div_multiples_vanish(iabs(a), s);
    assert(a * 0 == 0) by (nonlinear_arith);
    assert(0 * a == 0) by (nonlinear_arith);
}

/// A fixed-point product of non-negative scalars is non-negative, and its
/// truncating division coincides with Euclidean division.
pub proof fn lemma_fx_mul_nonneg(a: int, b: int)
    requires
        0 <= a,
        0 <= b,
    ensures
        0 <= fx_mul_spec(a, b),
        fx_mul_spec(a, b) == (a * b) / (SCALE as int),
{
    assert(0 <= a * b && iabs(a * b) == a * b) by (nonlinear_arith)
        requires
            0 <= a,
            0 <= b,
    ;
    lemma_div_pos_is_pos(a * b, SCALE as int);
}

/// Multiply two fixed-point scalars, rounding toward zero.
pub fn fx_mul(a: i64, b: i64) -> (r: i64)
    requires
        i64::MIN <= fx_mul_spec(a as int, b as int) <= i64::MAX,
    ensures
        r as int == fx_mul_spec(a as int, b as int),
{
    let neg: bool = (a < 0) != (b < 0);
    let aa: i128 = if a < 0 {
        -(a as i128)
    } else {
        a as i128
    };
    let bb: i128 = if b < 0 {
        -(b as i128)
    } else {
        b as i128
    };
    assert(aa == iabs(a as int) && bb == iabs(b as int));
    assert(aa * bb <= 0x40000000000000000000000000000000) by (nonlinear_arith)
        requires
            0 <= aa <= 0x8000000000000000,
            0 <= bb <= 0x8000000000000000,
    ;
    assert((a as int) * (b as int) == if neg {
        -(aa * bb)
    } else {
        aa * bb
    }) by (nonlinear_arith)
        requires
            aa == iabs(a as int),
            bb == iabs(b as int),
            neg == ((a < 0) != (b < 0)),
    ;
    let m: u128 = (aa as u128) * (bb as u128);
    let q: u128 = m / (SCALE as u128);
    proof {
        lemma_div_is_ordered(0, m as int, SCALE as int);
        lemma_div_is_ordered(m as int, 0x40000000000000000000000000000000, SCALE as int);
        assert(iabs((a as int) * (b as int)) == aa * bb);
    }
    let qi: i128 = q as i128;
    let r128: i128 = if neg {
        -qi
    } else {
        qi
    };
    assert(r128 == fx_mul_spec(a as int, b as int));
    r128 as i64
}

/// Divide two fixed-point scalars, rounding toward zero; `b` must not be zero.
pub fn fx_div(a: i64, b: i64) -> (r: i64)
    requires
        b != 0,
        i64::MIN <= fx_div_spec(a as int, b as int) <= i64::MAX,
    ensures
        r as int == fx_div_spec(a as int, b as int),
{
    let neg: bool = (a < 0) != (b < 0);
    let aa: i128 = if a < 0 {
        -(a as i128)
    } else {
        a as i128
    };
    let bb: i128 = if b < 0 {
        -(b as i128)
    } else {
        b as i128
    };
    assert(aa == iabs(a as int) && bb == iabs(b as int) && bb > 0);
    let ghost s: int = SCALE as int;
    assert((a as int) * s == if a < 0 {
        -(aa * s)
    } else {
        aa * s
    }) by (nonlinear_arith)
        requires
            aa == iabs(a as int),
            s == SCALE as int,
    ;
    let num: u128 = (aa as u128) * (SCALE as u128);
    let q: u128 = num / (bb as u128);
    proof {
        assert(aa * s <= 0x8000000000000000 * (SCALE as int)) by (nonlinear_arith)
            requires
                0 <= aa <= 0x8000000000000000,
                s == SCALE as int,
        ;
        lemma_div_pos_is_pos(num as int, bb as int);
        lemma_div_is_ordered_by_denominator(num as int, 1, bb as int);
        assert(iabs((a as int) * s) == aa * s);
        assert(iabs(b as int) == bb);
    }
    let qi: i128 = q as i128;
    let r128: i128 = if neg {
        -qi
    } else {
        qi
    };
    assert(r128 == fx_div_spec(a as int, b as int));
    r128 as i64
}

/// A product over a non-zero divisor stays below the product of the operand
/// bounds (the divisor's magnitude is at least one).
pub proof fn lemma_mul_div_trunc_bound(a: int, b: int, d: int, la: int, lb: int)
    requires
        d != 0,
        iabs(a) <= la,
        iabs(b) <= lb,
    ensures
        iabs(div_trunc(a * b, d)) <= la * lb,
{
    assert(iabs(a * b) == iabs(a) * iabs(b)) by (nonlinear_arith);
    assert(iabs(a) * iabs(b) <= la * lb) by (nonlinear_arith)
        requires
            0 <= iabs(a) <= la,
            0 <= iabs(b) <= lb,
    ;
    lemma_div_trunc_mag(a * b, d);
    lemma_div_is_ordered_by_denominator(iabs(a * b), 1, iabs(d));
    lemma_div_basics(iabs(a * b));
}

/// Multiply two scalars and divide the double-width product by `d`, rounding
/// toward zero.
pub fn mul_div_trunc(a: i64, b: i64, d: i64) -> (r: i64)
    requires
        d != 0,
        i64::MIN <= div_trunc((a as int) * (b as int), d as int) <= i64::MAX,
    ensures
        r as int == div_trunc((a as int) * (b as int), d as int),
{
    let neg: bool = ((a < 0) != (b < 0)) != (d < 0);
    let aa: i128 = if a < 0 {
        -(a as i128)
    } else {
        a as i128
    };
    let bb: i128 = if b < 0 {
        -(b as i128)
    } else {
        b as i128
    };
    let dd: i128 = if d < 0 {
        -(d as i128)
    } else {
        d as i128
    };
    assert(aa == iabs(a as int) && bb == iabs(b as int) && dd == iabs(d as int) && dd > 0);
    assert(aa * bb <= 0x40000000000000000000000000000000) by (nonlinear_arith)
        requires
            0 <= aa <= 0x8000000000000000,
            0 <= bb <= 0x8000000000000000,
    ;
    assert((a as int) * (b as int) == if (a < 0) != (b < 0) {
        -(aa * bb)
    } else {
        aa * bb
    }) by (nonlinear_arith)
        requires
            aa == iabs(a as int),
            bb == iabs(b as int),
    ;
    let m: u128 = (aa as u128) * (bb as u128);
    let q: u128 = m / (dd as u128);
    proof {
        lemma_div_pos_is_pos(m as int, dd as int);
        lemma_div_is_ordered_by_denominator(m as int, 1, dd as int);
        lemma_div_basics(m as int);
        assert(iabs((a as int) * (b as int)) == aa * bb);
    }
    let qi: i128 = q as i128;
    let r128: i128 = if neg {
        -qi
    } else {
        qi
    };
    assert(r128 == div_trunc((a as int) * (b as int), d as int));
    r128 as i64
}

/// Halve a fixed-point scalar, rounding toward zero.
pub fn fx_half(a: i64) -> (r: i64)
    ensures
        r as int == div_trunc(a as int, 2),
{
    let aa: i128 = if a < 0 {
        -(a as i128)
    } else {
        a as i128
    };
    let q: i128 = aa / 2;
    proof {
        lemma_div_pos_is_pos(aa as int, 2);
        assert(iabs(a as int) == aa);
    }
    let r128: i128 = if a < 0 {
        -q
    } else {
        q
    };
    assert(r128 == div_trunc(a as int, 2));
    r128 as i64
}

/// Divide a non-negative scalar by a positive constant (Euclidean, equal to
/// truncation on these signs).
pub fn div_nn(a: i64, c: i64) -> (r: i64)
    requires
        0 <= a,
        0 < c,
    ensures
        r as int == (a as int) / (c as int),
        0 <= r <= a,
{
    let q: u64 = (a as u64) / (c as u64);
    proof {
        lemma_div_pos_is_pos(a as int, c as int);
        lemma_div_is_ordered_by_denominator(a as int, 1, c as int);
    }
    q as i64
}

/// `r` is the integer square root of `n`.
pub open spec fn is_isqrt(n: int, r: int) -> bool {
    0 <= r && r * r <= n && n < (r + 1) * (r + 1)
}

/// The integer square root (floor) of a non-negative integer.
pub closed spec fn isqrt_spec(n: int) -> int {
    choose|r: int| is_isqrt(n, r)
}

/// Two integer square roots of the same number are equal.
pub proof fn lemma_isqrt_unique(n: int, r1: int, r2: int)
    requires
        is_isqrt(n, r1),
        is_isqrt(n, r2),
    ensures
        r1 == r2,
{
    assert(r1 == r2) by (nonlinear_arith)
        requires
            0 <= r1 && r1 * r1 <= n && n < (r1 + 1) * (r1 + 1),
            0 <= r2 && r2 * r2 <= n && n < (r2 + 1) * (r2 + 1),
    ;
}

/// Compute the integer square root of `n` by binary search.
pub fn isqrt(n: u64) -> (r: u64)
    ensures
        is_isqrt(n as int, r as int),
        r as int == isqrt_spec(n as int),
{
    let mut lo: u64 = 0;
    let mut hi: u64 = 4294967296;
    assert((hi as int) * (hi as int) > n as int) by (nonlinear_arith)
        requires
            hi == 4294967296u64,
            n <= 0xffffffffffffffffu64,
    ;
    while lo + 1 < hi
        invariant
            lo < hi <= 4294967296,
            (lo as int) * (lo as int) <= n as int,
            (hi as int) * (hi as int) > n as int,
        decreases hi - lo,
    {
        let mid: u64 = lo + (hi - lo) / 2;
        assert((mid as int) * (mid as int) <= 0xffffffffffffffff * 0xffffffffffffffff)
            by (nonlinear_arith)
            requires
                mid <= 0xffffffffffffffffu64,
        ;
        let mm: u128 = (mid as u128) * (mid as u128);
        if mm <= n as u128 {
            lo = mid;
        } else {
            hi = mid;
        }
    }
    assert(is_isqrt(n as int, lo as int));
    proof {
        assert(exists|r: int| is_isqrt(n as int, r));
        lemma_isqrt_unique(n as int, lo as int, isqrt_spec(n as int));
    }
    lo
}

} // verus!
