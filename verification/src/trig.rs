//! Fixed-point trigonometry for the orbital camera: sine and cosine by a
//! truncated series after range reduction, arc tangent by a polynomial
//! approximation, and the inverse functions built from them.
//!
//! Angles are fixed-point radians.  The functions are exact mirrors of their
//! specification counterparts; their accuracy against the mathematical
//! functions is a few units in the fourth decimal place and is not part of
//! any contract.

use vstd::prelude::*;
use crate::fx;
use crate::fx::FX_ONE;

verus! {

/// Pi in fixed-point radians.
pub const PI_FX: i64 = 3_141_593;

/// Pi/2 in fixed-point radians.
pub const HALF_PI_FX: i64 = 1_570_796;

/// Pi/4 in fixed-point radians.
pub const QUARTER_PI_FX: i64 = 785_398;

/// 2*Pi in fixed-point radians.
pub const TWO_PI_FX: i64 = 6_283_185;

/// Series for the sine on the folded quarter wave `[0, pi/2]`:
/// `x - x^3/6 + x^5/120 - x^7/5040`, capped into `[-1, 1]`.
pub open spec fn spec_sin_quarter(x: i64) -> i64 {
    let xx = fx::spec_mul(x, x);
    let x3 = fx::spec_mul(xx, x);
    let x5 = fx::spec_mul(x3, xx);
    let x7 = fx::spec_mul(x5, xx);
    let s = fx::spec_sub(
        fx::spec_add(fx::spec_sub(x, fx::spec_div(x3, (6 * FX_ONE) as i64)), fx::spec_div(x5, (120 * FX_ONE) as i64)),
        fx::spec_div(x7, (5040 * FX_ONE) as i64),
    );
    fx::spec_clamp(s, (-FX_ONE) as i64, FX_ONE)
}

/// Sine: the angle reduced to `[0, 2*pi)`, folded onto the first quarter
/// wave, the series applied, the sign restored.
pub open spec fn spec_sin(a: i64) -> i64 {
    let r = fx::spec_emod(a, TWO_PI_FX);
    let (x, neg) = if r <= PI_FX { (r, false) } else { (fx::spec_sub(r, PI_FX), true) };
    let xf = if x > HALF_PI_FX { fx::spec_sub(PI_FX, x) } else { x };
    let s = spec_sin_quarter(xf);
    if neg { fx::spec_neg(s) } else { s }
}

/// Cosine as the sine shifted a quarter turn.
pub open spec fn spec_cos(a: i64) -> i64 {
    spec_sin(fx::spec_add(a, HALF_PI_FX))
}

/// Tangent as the ratio of sine to cosine (saturated where the cosine
/// rounds to zero).
pub open spec fn spec_tan(a: i64) -> i64 {
    let c = spec_cos(a);
    if c == 0 { i64::MAX } else { fx::spec_div(spec_sin(a), c) }
}

/// Arc tangent on `[0, 1]`: `(pi/4) q + q (1 - q) (0.2447 + 0.0663 q)`.
pub open spec fn spec_atan_unit(q: i64) -> i64 {
    fx::spec_add(
        fx::spec_mul(QUARTER_PI_FX, q),
        fx::spec_mul(fx::spec_mul(q, fx::spec_sub(FX_ONE, q)), fx::spec_add(244_700, fx::spec_mul(66_300, q))),
    )
}

/// Two-argument arc tangent, in `(-pi, pi]`: the first-octant arc tangent of
/// the magnitude ratio, unfolded by quadrant.
pub open spec fn spec_atan2(y: i64, x: i64) -> i64 {
    if x == 0 && y == 0 {
        0
    } else {
        let ax = fx::spec_abs(x);
        let ay = fx::spec_abs(y);
        let base = if ay <= ax {
            spec_atan_unit(fx::spec_div(ay, ax))
        } else {
            fx::spec_sub(HALF_PI_FX, spec_atan_unit(fx::spec_div(ax, ay)))
        };
        let unsigned = if x >= 0 { base } else { fx::spec_sub(PI_FX, base) };
        if y >= 0 { unsigned } else { fx::spec_neg(unsigned) }
    }
}

/// Arc sine on `[-1, 1]` (inputs beyond the band are clamped onto it):
/// `atan2(s, sqrt(1 - s^2))`.
pub open spec fn spec_asin(t: i64) -> i64 {
    let s = fx::spec_clamp(t, (-FX_ONE) as i64, FX_ONE);
    let c = fx::spec_sqrt(fx::spec_sub(FX_ONE, fx::spec_mul(s, s)));
    spec_atan2(s, c)
}

fn sin_quarter(x: i64) -> (r: i64)
    ensures
        r == spec_sin_quarter(x),
{
    let xx = fx::fx_mul(x, x);
    let x3 = fx::fx_mul(xx, x);
    let x5 = fx::fx_mul(x3, xx);
    let x7 = fx::fx_mul(x5, xx);
    let s = fx::fx_sub(
        fx::fx_add(fx::fx_sub(x, fx::fx_div(x3, 6 * FX_ONE)), fx::fx_div(x5, 120 * FX_ONE)),
        fx::fx_div(x7, 5040 * FX_ONE),
    );
    fx::fx_clamp(s, -FX_ONE, FX_ONE)
}

pub fn sin_fx(a: i64) -> (r: i64)
    ensures
        r == spec_sin(a),
{
    let rm = fx::fx_emod(a, TWO_PI_FX);
    let (x, neg) = if rm <= PI_FX {
        (rm, false)
    } else {
        (fx::fx_sub(rm, PI_FX), true)
    };
    let xf = if x > HALF_PI_FX {
        fx::fx_sub(PI_FX, x)
    } else {
        x
    };
    let s = sin_quarter(xf);
    if neg {
        fx::fx_neg(s)
    } else {
        s
    }
}

pub fn cos_fx(a: i64) -> (r: i64)
    ensures
        r == spec_cos(a),
{
    sin_fx(fx::fx_add(a, HALF_PI_FX))
}

pub fn tan_fx(a: i64) -> (r: i64)
    ensures
        r == spec_tan(a),
{
    let c = cos_fx(a);
    if c == 0 {
        i64::MAX
    } else {
        fx::fx_div(sin_fx(a), c)
    }
}

fn atan_unit(q: i64) -> (r: i64)
    ensures
        r == spec_atan_unit(q),
{
    fx::fx_add(
        fx::fx_mul(QUARTER_PI_FX, q),
        fx::fx_mul(fx::fx_mul(q, fx::fx_sub(FX_ONE, q)), fx::fx_add(244_700, fx::fx_mul(66_300, q))),
    )
}

pub fn atan2_fx(y: i64, x: i64) -> (r: i64)
    ensures
        r == spec_atan2(y, x),
{
    if x == 0 && y == 0 {
        return 0;
    }
    let ax = fx::fx_abs(x);
    let ay = fx::fx_abs(y);
    let base = if ay <= ax {
        atan_unit(fx::fx_div(ay, ax))
    } else {
        fx::fx_sub(HALF_PI_FX, atan_unit(fx::fx_div(ax, ay)))
    };
    let unsigned = if x >= 0 {
        base
    } else {
        fx::fx_sub(PI_FX, base)
    };
    if y >= 0 {
        unsigned
    } else {
        fx::fx_neg(unsigned)
    }
}

pub fn asin_fx(t: i64) -> (r: i64)
    ensures
        r == spec_asin(t),
{
    let s = fx::fx_clamp(t, -FX_ONE, FX_ONE);
    let c = fx::fx_sqrt(fx::fx_sub(FX_ONE, fx::fx_mul(s, s)));
    atan2_fx(s, c)
}

} // verus!
