//! Fixed-point scalar arithmetic.
//!
//! A scalar is an `i64` counted in millionths: `SCALE` units stand for 1.0.
//! Multiplication rescales its result and, like addition, saturates at the
//! `i64` range instead of overflowing.

use vstd::prelude::*;

verus! {

/// Number of fixed-point units that stand for 1.0.
pub const SCALE: i64 = 1_000_000;

/// Saturation of a mathematical integer to the `i64` range.
pub open spec fn sat_i64(x: int) -> int {
    if x > i64::MAX as int {
        i64::MAX as int
    } else if x < i64::MIN as int {
        i64::MIN as int
    } else {
        x
    }
}

/// Division of `p` by `SCALE`, rounded toward zero.
pub open spec fn div_scale(p: int) -> int {
    if p >= 0 {
        p / (SCALE as int)
    } else {
        -((-p) / (SCALE as int))
    }
}

/// The fixed-point product of two scalars: `(a * b) / SCALE`, rounded toward
/// zero and saturated to the `i64` range.
pub open spec fn mul_fixed(a: i64, b: i64) -> int {
    sat_i64(div_scale(a as int * b as int))
}

/// Saturating addition of two scalars.
pub fn sat_add(a: i64, b: i64) -> (r: i64)
    ensures
        r as int == sat_i64(a as int + b as int),
{
    let s: i128 = a as i128 + b as i128;
    if s > i64::MAX as i128 {
        i64::MAX
    } else if s < i64::MIN as i128 {
        i64::MIN
    } else {
        s as i64
    }
}

/// Fixed-point multiplication of two scalars.
pub fn mul_scaled(a: i64, b: i64) -> (r: i64)
    ensures
        r as int == mul_fixed(a, b),
{
    proof {
        assert((a as int) * (b as int) <= 0x4000_0000_0000_0000_0000_0000_0000_0000int
            && (a as int) * (b as int) >= -0x4000_0000_0000_0000_0000_0000_0000_0000int)
            by (nonlinear_arith)
            requires
                -0x8000_0000_0000_0000int <= a as int <= 0x7fff_ffff_ffff_ffffint,
                -0x8000_0000_0000_0000int <= b as int <= 0x7fff_ffff_ffff_ffffint,
        ;
    }
    let p: i128 = (a as i128) * (b as i128);
    if p >= 0 {
        let q: u128 = (p as u128) / (SCALE as u128);
        proof {
            assert(q <= p) by (nonlinear_arith)
                requires
                    p >= 0,
                    q == (p as int) / (SCALE as int),
            ;
        }
        if q > i64::MAX as u128 {
            i64::MAX
        } else {
            q as i64
        }
    } else {
        let m: u128 = (-p) as u128;
        let q: u128 = m / (SCALE as u128);
        proof {
            assert(q <= m) by (nonlinear_arith)
                requires
                    m >= 0,
                    q == (m as int) / (SCALE as int),
            ;
        }
        if q >= 0x8000_0000_0000_0000u128 {
            i64::MIN
        } else {
            let qi: i64 = q as i64;
            -qi
        }
    }
}

/// Rectified linear unit: the scalar floored at zero.
pub fn relu(x: i64) -> (r: i64)
    ensures
        r as int == relu_spec(x as int),
{
    if x < 0 {
        0
    } else {
        x
    }
}

/// The value floored at zero.
pub open spec fn relu_spec(x: int) -> int {
    if x < 0 {
        0
    } else {
        x
    }
}

} // verus!
