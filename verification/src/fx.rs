//! Signed fixed-point arithmetic with six fractional decimal digits.
//!
//! A quantity `x` is represented by the integer `x * 1_000_000` stored in an
//! `i64`.  Every operation computes in a wide intermediate type, truncates
//! any quotient toward zero, and saturates the result into the `i64` range,
//! so all operations are total, and each is mirrored exactly by a
//! specification function.

use vstd::prelude::*;

verus! {

/// One unit (1.0) in the fixed-point scale.
pub const FX_ONE: i64 = 1_000_000;

/// Magnitude of a mathematical integer.
pub open spec fn abs_int(x: int) -> int {
    if x >= 0 { x } else { -x }
}

/// Clamp a mathematical integer into the `i64` range.
pub open spec fn sat64(x: int) -> i64 {
    if x > i64::MAX { i64::MAX } else if x < i64::MIN { i64::MIN } else { x as i64 }
}

/// Division truncated toward zero, the rounding the executable code uses.
pub open spec fn tdiv(a: int, b: int) -> int {
    if (a >= 0) == (b >= 0) { abs_int(a) / abs_int(b) } else { -(abs_int(a) / abs_int(b)) }
}

/// Saturating fixed-point sum.
pub open spec fn spec_add(a: i64, b: i64) -> i64 {
    sat64(a + b)
}

/// Saturating fixed-point difference.
pub open spec fn spec_sub(a: i64, b: i64) -> i64 {
    sat64(a - b)
}

/// Saturating fixed-point negation.
pub open spec fn spec_neg(a: i64) -> i64 {
    sat64(-a)
}

/// Saturating fixed-point product: `a * b / FX_ONE`, truncated toward zero.
pub open spec fn spec_mul(a: i64, b: i64) -> i64 {
    sat64(tdiv(a * b, FX_ONE as int))
}

/// Saturating fixed-point quotient: `a * FX_ONE / b`, truncated toward zero.
pub open spec fn spec_div(a: i64, b: i64) -> i64 {
    sat64(tdiv(a * FX_ONE, b as int))
}

/// Clamp into `[lo, hi]`, biased exactly as the executable comparison chain.
pub open spec fn spec_clamp(x: i64, lo: i64, hi: i64) -> i64 {
    if x < lo { lo } else if x > hi { hi } else { x }
}

/// Saturating absolute value.
pub open spec fn spec_abs(a: i64) -> i64 {
    sat64(abs_int(a as int))
}

/// Quotient that yields zero on a zero divisor, for ratios whose divisor a
/// degenerate (zero-extent) input can make vanish.
pub open spec fn spec_div0(a: i64, b: i64) -> i64 {
    if b == 0 { 0 } else { spec_div(a, b) }
}

pub open spec fn spec_min(a: i64, b: i64) -> i64 {
    if a < b { a } else { b }
}

pub open spec fn spec_max(a: i64, b: i64) -> i64 {
    if a > b { a } else { b }
}

/// Largest `r` with `r * r <= n` (0 for negative arguments).
pub open spec fn sqrt_floor(n: int) -> int
    decreases n,
{
    if n <= 0 {
        0
    } else {
        let p = sqrt_floor(n - 1);
        if (p + 1) * (p + 1) <= n { p + 1 } else { p }
    }
}

/// Square root of a nonnegative fixed-point value: `sqrt(a / FX_ONE) * FX_ONE`,
/// rounded down, which is `floor(sqrt(a * FX_ONE))` on the raw representation.
pub open spec fn spec_sqrt(a: i64) -> i64 {
    if a <= 0 { 0 } else { sat64(sqrt_floor(a * FX_ONE)) }
}

pub proof fn lemma_sqrt_floor_bounds(n: int)
    requires
        n >= 0,
    ensures
        sqrt_floor(n) >= 0,
        sqrt_floor(n) * sqrt_floor(n) <= n,
        n < (sqrt_floor(n) + 1) * (sqrt_floor(n) + 1),
    decreases n,
{
    if n > 0 {
        lemma_sqrt_floor_bounds(n - 1);
        let p = sqrt_floor(n - 1);
        if (p + 1) * (p + 1) <= n {
            assert((p + 2) * (p + 2) > n) by (nonlinear_arith)
                requires
                    n - 1 < (p + 1) * (p + 1),
                    p >= 0,
            ;
        }
    }
}

pub proof fn lemma_sqrt_floor_unique(n: int, r: int)
    requires
        n >= 0,
        r >= 0,
        r * r <= n,
        n < (r + 1) * (r + 1),
    ensures
        r == sqrt_floor(n),
{
    lemma_sqrt_floor_bounds(n);
    let s = sqrt_floor(n);
    if r < s {
        assert(false) by (nonlinear_arith)
            requires
                0 <= r < s,
                s * s <= n,
                n < (r + 1) * (r + 1),
        ;
    }
    if s < r {
        assert(false) by (nonlinear_arith)
            requires
                0 <= s < r,
                r * r <= n,
                n < (s + 1) * (s + 1),
        ;
    }
}

/// Magnitude of an `i64` as a `u128`.
fn abs64(a: i64) -> (r: u128)
    ensures
        r == abs_int(a as int),
{
    if a >= 0 {
        a as u128
    } else if a == i64::MIN {
        9_223_372_036_854_775_808u128
    } else {
        (-a) as u128
    }
}

/// Saturate a nonnegative wide magnitude into `i64`, with the given sign.
fn sat_signed(neg: bool, q: u128) -> (r: i64)
    ensures
        r == if neg { sat64(-(q as int)) } else { sat64(q as int) },
{
    if neg {
        if q >= 9_223_372_036_854_775_808u128 {
            i64::MIN
        } else {
            -(q as i64)
        }
    } else {
        if q > i64::MAX as u128 {
            i64::MAX
        } else {
            q as i64
        }
    }
}

proof fn lemma_mul_abs_sign(a: int, b: int)
    ensures
        abs_int(a * b) == abs_int(a) * abs_int(b),
        a * b >= 0 <==> ((a >= 0) == (b >= 0)) || a == 0 || b == 0,
{
    assert(abs_int(a * b) == abs_int(a) * abs_int(b)
        && (a * b >= 0 <==> ((a >= 0) == (b >= 0)) || a == 0 || b == 0)) by (nonlinear_arith);
}

pub fn fx_add(a: i64, b: i64) -> (r: i64)
    ensures
        r == spec_add(a, b),
{
    let s: i128 = a as i128 + b as i128;
    if s > i64::MAX as i128 {
        i64::MAX
    } else if s < i64::MIN as i128 {
        i64::MIN
    } else {
        s as i64
    }
}

pub fn fx_sub(a: i64, b: i64) -> (r: i64)
    ensures
        r == spec_sub(a, b),
{
    let s: i128 = a as i128 - b as i128;
    if s > i64::MAX as i128 {
        i64::MAX
    } else if s < i64::MIN as i128 {
        i64::MIN
    } else {
        s as i64
    }
}

pub fn fx_neg(a: i64) -> (r: i64)
    ensures
        r == spec_neg(a),
{
    if a == i64::MIN {
        i64::MAX
    } else {
        -a
    }
}

pub fn fx_mul(a: i64, b: i64) -> (r: i64)
    ensures
        r == spec_mul(a, b),
{
    let neg = (a < 0) != (b < 0);
    let ma = abs64(a);
    let mb = abs64(b);
    proof {
        assert(ma * mb <= 0x4000_0000_0000_0000_0000_0000_0000_0000u128) by (nonlinear_arith)
            requires
                ma <= 9_223_372_036_854_775_808u128,
                mb <= 9_223_372_036_854_775_808u128,
        ;
    }
    let p: u128 = ma * mb;
    let q: u128 = p / 1_000_000u128;
    proof {
        lemma_mul_abs_sign(a as int, b as int);
        assert(q == abs_int(a * b) / (FX_ONE as int));
        if (a as int) * (b as int) >= 0 {
            assert(tdiv(a * b, FX_ONE as int) == q);
        } else {
            assert(tdiv(a * b, FX_ONE as int) == -(q as int));
        }
    }
    sat_signed(neg, q)
}

pub fn fx_div(a: i64, b: i64) -> (r: i64)
    requires
        b != 0,
    ensures
        r == spec_div(a, b),
{
    let neg = (a < 0) != (b < 0);
    let ma = abs64(a);
    let mb = abs64(b);
    let p: u128 = ma * 1_000_000u128;
    let q: u128 = p / mb;
    proof {
        lemma_mul_abs_sign(a as int, FX_ONE as int);
        assert(q == abs_int(a * FX_ONE) / abs_int(b as int));
        if ((a * FX_ONE >= 0) == (b >= 0)) {
            assert(tdiv(a * FX_ONE, b as int) == q);
        } else {
            assert(tdiv(a * FX_ONE, b as int) == -(q as int));
        }
        assert(a * FX_ONE >= 0 <==> a >= 0);
    }
    sat_signed(neg, q)
}

pub fn fx_abs(a: i64) -> (r: i64)
    ensures
        r == spec_abs(a),
{
    if a == i64::MIN {
        i64::MAX
    } else if a < 0 {
        -a
    } else {
        a
    }
}

pub fn fx_div0(a: i64, b: i64) -> (r: i64)
    ensures
        r == spec_div0(a, b),
{
    if b == 0 {
        0
    } else {
        fx_div(a, b)
    }
}

/// Euclidean remainder: the representative of `a` modulo `m` in `[0, m)`.
pub open spec fn spec_emod(a: i64, m: i64) -> i64 {
    ((a as int) % (m as int)) as i64
}

/// For a negative `a` with `s == (-a) % m`, the Euclidean remainder of `a`
/// is `0` when `s == 0` and `m - s` otherwise.
proof fn lemma_neg_mod(a: int, m: int, s: int)
    requires
        a < 0,
        m > 0,
        s == (-a) % m,
    ensures
        s == 0 ==> a % m == 0,
        s != 0 ==> a % m == m - s,
{
    let q = (-a) / m;
    vstd::arithmetic::div_mod::lemma_fundamental_div_mod(-a, m);
    assert(-a == m * q + s);
    if s == 0 {
        assert(a == (-q) * m + 0) by {
            assert((-q) * m == -(m * q)) by (nonlinear_arith);
        }
        vstd::arithmetic::div_mod::lemma_fundamental_div_mod_converse(a, m, -q, 0);
    } else {
        assert(a == (-q - 1) * m + (m - s)) by {
            assert(a == -(m * q) - s);
            assert((-q - 1) * m == -(m * q) - m) by (nonlinear_arith);
        }
        vstd::arithmetic::div_mod::lemma_fundamental_div_mod_converse(a, m, -q - 1, m - s);
    }
}

pub fn fx_emod(a: i64, m: i64) -> (r: i64)
    requires
        m > 0,
    ensures
        r == spec_emod(a, m),
        0 <= r < m,
{
    if a >= 0 {
        ((a as u64) % (m as u64)) as i64
    } else {
        let s: u64 = if a == i64::MIN {
            (9_223_372_036_854_775_808u128 % (m as u128)) as u64
        } else {
            ((-a) as u64) % (m as u64)
        };
        proof {
            lemma_neg_mod(a as int, m as int, s as int);
        }
        if s == 0 {
            0
        } else {
            m - (s as i64)
        }
    }
}

pub fn fx_clamp(x: i64, lo: i64, hi: i64) -> (r: i64)
    ensures
        r == spec_clamp(x, lo, hi),
{
    if x < lo {
        lo
    } else if x > hi {
        hi
    } else {
        x
    }
}

pub fn fx_min(a: i64, b: i64) -> (r: i64)
    ensures
        r == spec_min(a, b),
{
    if a < b { a } else { b }
}

pub fn fx_max(a: i64, b: i64) -> (r: i64)
    ensures
        r == spec_max(a, b),
{
    if a > b { a } else { b }
}

/// Floor square root of a wide unsigned integer, by bisection.
pub fn isqrt_u128(n: u128) -> (r: u128)
    ensures
        r * r <= n,
        n < (r + 1) * (r + 1),
        r <= u64::MAX,
{
    if n == 0 {
        return 0;
    }
    let mut lo: u128 = 0;
    let mut hi: u128 = 0x1_0000_0000_0000_0000u128;
    while hi - lo > 1
        invariant
            lo < hi,
            hi <= 0x1_0000_0000_0000_0000u128,
            lo * lo <= n,
            n < hi * hi,
        decreases hi - lo,
    {
        let mid: u128 = lo + (hi - lo) / 2;
        proof {
            assert(mid * mid <= u128::MAX) by (nonlinear_arith)
                requires
                    mid <= 0xFFFF_FFFF_FFFF_FFFFu128,
            ;
        }
        if mid * mid <= n {
            lo = mid;
        } else {
            hi = mid;
        }
    }
    lo
}

/// Square root of a nonnegative fixed-point value, rounded down.
pub fn fx_sqrt(a: i64) -> (r: i64)
    ensures
        r == spec_sqrt(a),
{
    if a <= 0 {
        return 0;
    }
    let wide: u128 = (a as u128) * 1_000_000u128;
    let s = isqrt_u128(wide);
    proof {
        lemma_sqrt_floor_unique(wide as int, s as int);
        assert(a * FX_ONE == wide as int);
    }
    if s > i64::MAX as u128 {
        i64::MAX
    } else {
        s as i64
    }
}

} // verus!
