//! Three-component fixed-point vectors, used for positions, directions and
//! linear colours in the `0..1` band.

use vstd::prelude::*;
use crate::fx;
use crate::fx::FX_ONE;

verus! {

#[derive(Clone, Copy, Debug, PartialEq, Eq, Structural)]
pub struct Vec3 {
    pub x: i64,
    pub y: i64,
    pub z: i64,
}

/// Componentwise saturating sum.
pub open spec fn spec_vadd(a: Vec3, b: Vec3) -> Vec3 {
    Vec3 { x: fx::spec_add(a.x, b.x), y: fx::spec_add(a.y, b.y), z: fx::spec_add(a.z, b.z) }
}

/// Componentwise saturating difference.
pub open spec fn spec_vsub(a: Vec3, b: Vec3) -> Vec3 {
    Vec3 { x: fx::spec_sub(a.x, b.x), y: fx::spec_sub(a.y, b.y), z: fx::spec_sub(a.z, b.z) }
}

/// Componentwise saturating negation.
pub open spec fn spec_vneg(a: Vec3) -> Vec3 {
    Vec3 { x: fx::spec_neg(a.x), y: fx::spec_neg(a.y), z: fx::spec_neg(a.z) }
}

/// Componentwise scaling by a fixed-point factor.
pub open spec fn spec_vscale(a: Vec3, k: i64) -> Vec3 {
    Vec3 { x: fx::spec_mul(a.x, k), y: fx::spec_mul(a.y, k), z: fx::spec_mul(a.z, k) }
}

/// Dot product: the three fixed-point per-axis products summed, then
/// saturated.
pub open spec fn spec_dot(a: Vec3, b: Vec3) -> i64 {
    fx::sat64(
        fx::spec_mul(a.x, b.x) + fx::spec_mul(a.y, b.y) + fx::spec_mul(a.z, b.z),
    )
}

/// Cross product, each component the saturated difference of two fixed-point
/// products.
pub open spec fn spec_cross(a: Vec3, b: Vec3) -> Vec3 {
    Vec3 {
        x: fx::sat64(fx::spec_mul(a.y, b.z) - fx::spec_mul(a.z, b.y)),
        y: fx::sat64(fx::spec_mul(a.z, b.x) - fx::spec_mul(a.x, b.z)),
        z: fx::sat64(fx::spec_mul(a.x, b.y) - fx::spec_mul(a.y, b.x)),
    }
}

/// Euclidean length: floor square root of the sum of raw squares, saturated.
/// On raw representations the scale works out so that the result carries the
/// same fixed-point scale as the components.
pub open spec fn spec_length(a: Vec3) -> i64 {
    fx::sat64(fx::sqrt_floor(a.x * a.x + a.y * a.y + a.z * a.z))
}

/// Unit vector in the direction of `a`, or the zero vector when `a` is zero
/// (the one input on which the mathematical operation is undefined).
pub open spec fn spec_normalized(a: Vec3) -> Vec3 {
    let l = spec_length(a);
    if l == 0 {
        Vec3 { x: 0, y: 0, z: 0 }
    } else {
        Vec3 { x: fx::spec_div(a.x, l), y: fx::spec_div(a.y, l), z: fx::spec_div(a.z, l) }
    }
}

impl Vec3 {
    pub fn new(x: i64, y: i64, z: i64) -> (r: Vec3)
        ensures
            r == (Vec3 { x, y, z }),
    {
        Vec3 { x, y, z }
    }

    pub fn zero() -> (r: Vec3)
        ensures
            r == (Vec3 { x: 0i64, y: 0i64, z: 0i64 }),
    {
        Vec3 { x: 0, y: 0, z: 0 }
    }

    pub fn add(self, o: Vec3) -> (r: Vec3)
        ensures
            r == spec_vadd(self, o),
    {
        Vec3 { x: fx::fx_add(self.x, o.x), y: fx::fx_add(self.y, o.y), z: fx::fx_add(self.z, o.z) }
    }

    pub fn sub(self, o: Vec3) -> (r: Vec3)
        ensures
            r == spec_vsub(self, o),
    {
        Vec3 { x: fx::fx_sub(self.x, o.x), y: fx::fx_sub(self.y, o.y), z: fx::fx_sub(self.z, o.z) }
    }

    pub fn neg(self) -> (r: Vec3)
        ensures
            r == spec_vneg(self),
    {
        Vec3 { x: fx::fx_neg(self.x), y: fx::fx_neg(self.y), z: fx::fx_neg(self.z) }
    }

    pub fn scale(self, k: i64) -> (r: Vec3)
        ensures
            r == spec_vscale(self, k),
    {
        Vec3 { x: fx::fx_mul(self.x, k), y: fx::fx_mul(self.y, k), z: fx::fx_mul(self.z, k) }
    }

    pub fn dot(self, o: Vec3) -> (r: i64)
        ensures
            r == spec_dot(self, o),
    {
        let tx: i64 = fx::fx_mul(self.x, o.x);
        let ty: i64 = fx::fx_mul(self.y, o.y);
        let tz: i64 = fx::fx_mul(self.z, o.z);
        let s: i128 = tx as i128 + ty as i128 + tz as i128;
        if s > i64::MAX as i128 {
            i64::MAX
        } else if s < i64::MIN as i128 {
            i64::MIN
        } else {
            s as i64
        }
    }

    pub fn cross(self, o: Vec3) -> (r: Vec3)
        ensures
            r == spec_cross(self, o),
    {
        let a = self;
        let b = o;
        let x = sat_diff(fx::fx_mul(a.y, b.z), fx::fx_mul(a.z, b.y));
        let y = sat_diff(fx::fx_mul(a.z, b.x), fx::fx_mul(a.x, b.z));
        let z = sat_diff(fx::fx_mul(a.x, b.y), fx::fx_mul(a.y, b.x));
        Vec3 { x, y, z }
    }

    pub fn length(self) -> (r: i64)
        ensures
            r == spec_length(self),
    {
        let sx: u128 = sq_u128(self.x);
        let sy: u128 = sq_u128(self.y);
        let sz: u128 = sq_u128(self.z);
        let n: u128 = sx + sy + sz;
        let s = fx::isqrt_u128(n);
        proof {
            fx::lemma_sqrt_floor_unique(n as int, s as int);
        }
        if s > i64::MAX as u128 {
            i64::MAX
        } else {
            s as i64
        }
    }

    pub fn normalized(self) -> (r: Vec3)
        ensures
            r == spec_normalized(self),
    {
        let l = self.length();
        if l == 0 {
            Vec3 { x: 0, y: 0, z: 0 }
        } else {
            Vec3 {
                x: fx::fx_div(self.x, l),
                y: fx::fx_div(self.y, l),
                z: fx::fx_div(self.z, l),
            }
        }
    }
}

/// An axis-aligned vector normalizes to the exact unit axis vector, with no
/// rounding: along the axes the fixed-point basis is exactly unit length.
pub proof fn lemma_normalized_axis(k: i64)
    requires
        k > 0,
    ensures
        spec_normalized(Vec3 { x: k, y: 0, z: 0 }) == (Vec3 { x: FX_ONE, y: 0, z: 0 }),
        spec_normalized(Vec3 { x: 0, y: k, z: 0 }) == (Vec3 { x: 0, y: FX_ONE, z: 0 }),
        spec_normalized(Vec3 { x: 0, y: 0, z: k }) == (Vec3 { x: 0, y: 0, z: FX_ONE }),
{
    assert(k * k < (k + 1) * (k + 1)) by (nonlinear_arith)
        requires
            k > 0,
    ;
    fx::lemma_sqrt_floor_unique((k as int) * (k as int), k as int);
    assert((k * FX_ONE) / (k as int) == FX_ONE) by {
        vstd::arithmetic::div_mod::lemma_div_multiples_vanish(FX_ONE as int, k as int);
        assert(k * FX_ONE == (k as int) * (FX_ONE as int));
    }
    assert(0int / (k as int) == 0) by {
        vstd::arithmetic::div_mod::lemma_div_of0(k as int);
    }
    assert((k as int) * (k as int) + 0 * 0 + 0 * 0 == (k as int) * (k as int));
    assert(spec_length(Vec3 { x: k, y: 0, z: 0 }) == k);
    assert(spec_length(Vec3 { x: 0, y: k, z: 0 }) == k);
    assert(spec_length(Vec3 { x: 0, y: 0, z: k }) == k);
    assert(fx::spec_div(k, k) == FX_ONE);
    assert(fx::spec_div(0, k) == 0);
}

/// A truncated quotient squared, scaled back by the divisor squared, never
/// exceeds the dividend squared.
proof fn lemma_tdiv_square_bound(a: int, l: int)
    requires
        l > 0,
    ensures
        fx::tdiv(a, l) * fx::tdiv(a, l) * (l * l) <= a * a,
{
    let m = fx::abs_int(a);
    let q = m / l;
    vstd::arithmetic::div_mod::lemma_fundamental_div_mod(m, l);
    vstd::arithmetic::div_mod::lemma_mod_bound(m, l);
    assert(q * l <= m) by (nonlinear_arith)
        requires
            m == l * q + m % l,
            m % l >= 0,
    ;
    assert(q >= 0) by (nonlinear_arith)
        requires
            q * l <= m,
            m >= 0,
            l > 0,
            m == l * q + m % l,
            m % l < l,
    ;
    assert(q * q * (l * l) <= m * m) by (nonlinear_arith)
        requires
            0 <= q * l <= m,
    ;
    assert(fx::tdiv(a, l) * fx::tdiv(a, l) == q * q) by (nonlinear_arith)
        requires
            fx::tdiv(a, l) == q || fx::tdiv(a, l) == -q,
    ;
    assert(m * m == a * a) by (nonlinear_arith)
        requires
            m == fx::abs_int(a),
    ;
}

/// Saturating an integer into the `i64` range never grows its square.
proof fn lemma_sat_square_bound(x: int)
    ensures
        fx::sat64(x) * fx::sat64(x) <= x * x,
{
    assert(fx::sat64(x) * fx::sat64(x) <= x * x) by (nonlinear_arith)
        requires
            fx::abs_int(fx::sat64(x) as int) <= fx::abs_int(x),
    ;
}

/// A vector at least one unit long normalizes to a vector of at most one
/// unit: the fixed-point normalization, which rounds each component toward
/// zero against a rounded-down length, can fall marginally short of the
/// unit sphere but never leaves it.
/// Scales a square bound by a nonnegative factor.
proof fn lemma_square_bound_scaled(n2: int, q2: int, ll: int, aa: int)
    requires
        n2 <= q2,
        q2 * ll <= aa,
        ll >= 0,
    ensures
        n2 * ll <= aa,
    // The chain `n2 * ll <= q2 * ll <= aa` only multiplies one inequality
    // by a nonnegative factor.
{
    assert(n2 * ll <= q2 * ll) by (nonlinear_arith)
        requires
            n2 <= q2,
            ll >= 0,
    ;
}

pub proof fn lemma_normalized_length_le_one(v: Vec3)
    requires
        FX_ONE <= spec_length(v),
        spec_length(v) < i64::MAX,
    ensures
        spec_length(spec_normalized(v)) <= FX_ONE,
{
    assert((v.x as int) * (v.x as int) >= 0) by (nonlinear_arith);
    assert((v.y as int) * (v.y as int) >= 0) by (nonlinear_arith);
    assert((v.z as int) * (v.z as int) >= 0) by (nonlinear_arith);
    let s = (v.x as int) * (v.x as int) + (v.y as int) * (v.y as int) + (v.z as int) * (v.z as int);
    fx::lemma_sqrt_floor_bounds(s);
    let l = fx::sqrt_floor(s);
    // The saturation is inactive: the length is the exact floor square root.
    assert(l == spec_length(v) as int);
    assert(FX_ONE <= l);

    let n = spec_normalized(v);
    let qx = fx::tdiv(v.x * FX_ONE, l);
    let qy = fx::tdiv(v.y * FX_ONE, l);
    let qz = fx::tdiv(v.z * FX_ONE, l);
    lemma_tdiv_square_bound(v.x * FX_ONE, l);
    lemma_tdiv_square_bound(v.y * FX_ONE, l);
    lemma_tdiv_square_bound(v.z * FX_ONE, l);
    lemma_sat_square_bound(qx);
    lemma_sat_square_bound(qy);
    lemma_sat_square_bound(qz);
    assert(n.x == fx::sat64(qx));
    assert(n.y == fx::sat64(qy));
    assert(n.z == fx::sat64(qz));
    assert(l * l >= FX_ONE * FX_ONE) by (nonlinear_arith)
        requires
            l >= FX_ONE,
    ;
    let ll = l * l;
    assert(ll > 0);
    assert((n.x as int) * (n.x as int) >= 0) by (nonlinear_arith);
    assert((n.y as int) * (n.y as int) >= 0) by (nonlinear_arith);
    assert((n.z as int) * (n.z as int) >= 0) by (nonlinear_arith);
    lemma_square_bound_scaled(
        (n.x as int) * (n.x as int),
        qx * qx,
        ll,
        (v.x * FX_ONE) * (v.x * FX_ONE),
    );
    lemma_square_bound_scaled(
        (n.y as int) * (n.y as int),
        qy * qy,
        ll,
        (v.y * FX_ONE) * (v.y * FX_ONE),
    );
    lemma_square_bound_scaled(
        (n.z as int) * (n.z as int),
        qz * qz,
        ll,
        (v.z * FX_ONE) * (v.z * FX_ONE),
    );
    let nsq = (n.x as int) * (n.x as int) + (n.y as int) * (n.y as int) + (n.z as int) * (
    n.z as int);
    assert((v.x * FX_ONE) * (v.x * FX_ONE) == (v.x * v.x) * (FX_ONE * FX_ONE)) by (nonlinear_arith);
    assert((v.y * FX_ONE) * (v.y * FX_ONE) == (v.y * v.y) * (FX_ONE * FX_ONE)) by (nonlinear_arith);
    assert((v.z * FX_ONE) * (v.z * FX_ONE) == (v.z * v.z) * (FX_ONE * FX_ONE)) by (nonlinear_arith);
    assert(nsq * ll == (n.x as int) * (n.x as int) * ll + (n.y as int) * (n.y as int) * ll + (
    n.z as int) * (n.z as int) * ll) by (nonlinear_arith)
        requires
            nsq == (n.x as int) * (n.x as int) + (n.y as int) * (n.y as int) + (n.z as int) * (
            n.z as int),
    ;
    assert(s * (FX_ONE * FX_ONE) == (v.x * v.x) * (FX_ONE * FX_ONE) + (v.y * v.y) * (FX_ONE
        * FX_ONE) + (v.z * v.z) * (FX_ONE * FX_ONE)) by (nonlinear_arith)
        requires
            s == v.x * v.x + v.y * v.y + v.z * v.z,
    ;
    assert(nsq * ll <= s * (FX_ONE * FX_ONE));
    // s < (l+1)^2 and FX_ONE <= l squeeze the scaled sum under the unit.
    assert(nsq < (FX_ONE + 1) * (FX_ONE + 1)) by (nonlinear_arith)
        requires
            nsq * (l * l) <= s * (FX_ONE * FX_ONE),
            s < (l + 1) * (l + 1),
            FX_ONE <= l,
            nsq >= 0,
    ;
    fx::lemma_sqrt_floor_bounds(nsq);
    assert(fx::sqrt_floor(nsq) <= FX_ONE) by (nonlinear_arith)
        requires
            fx::sqrt_floor(nsq) * fx::sqrt_floor(nsq) <= nsq,
            nsq < (FX_ONE + 1) * (FX_ONE + 1),
            fx::sqrt_floor(nsq) >= 0,
    ;
}

/// For one component: the truncated quotient against the rounded-down
/// length stays within the unit, is not saturated away, and one step above
/// it scales back to at least the scaled component.
proof fn lemma_component_quotient(a: int, l: int)
    requires
        l > 0,
        fx::abs_int(a) <= l * FX_ONE,
    ensures
        0 <= fx::abs_int(fx::tdiv(a, l) as int) <= FX_ONE,
        fx::sat64(fx::tdiv(a, l)) == fx::tdiv(a, l),
        (fx::abs_int(fx::tdiv(a, l) as int) + 1) * l > fx::abs_int(a),
{
    let m = fx::abs_int(a);
    let q = m / l;
    vstd::arithmetic::div_mod::lemma_fundamental_div_mod(m, l);
    vstd::arithmetic::div_mod::lemma_mod_bound(m, l);
    assert(q >= 0 && q * l <= m && (q + 1) * l > m) by (nonlinear_arith)
        requires
            m == l * q + m % l,
            0 <= m % l < l,
            m >= 0,
            l > 0,
    ;
    assert(q <= FX_ONE) by (nonlinear_arith)
        requires
            q * l <= m,
            m <= l * FX_ONE,
            l > 0,
            q >= 0,
    ;
    assert(fx::abs_int(fx::tdiv(a, l) as int) == q);
}

/// A vector at least one unit long normalizes to a vector of at least
/// one unit less four millionths: rounding each component toward zero
/// against a rounded-down length loses at most that much.
pub proof fn lemma_normalized_length_almost_one(v: Vec3)
    requires
        FX_ONE <= spec_length(v),
        spec_length(v) < i64::MAX,
    ensures
        spec_length(spec_normalized(v)) >= FX_ONE - 4,
{
    assert((v.x as int) * (v.x as int) >= 0) by (nonlinear_arith);
    assert((v.y as int) * (v.y as int) >= 0) by (nonlinear_arith);
    assert((v.z as int) * (v.z as int) >= 0) by (nonlinear_arith);
    let s = (v.x as int) * (v.x as int) + (v.y as int) * (v.y as int) + (v.z as int) * (v.z as int);
    fx::lemma_sqrt_floor_bounds(s);
    let l = fx::sqrt_floor(s);
    assert(l == spec_length(v) as int);
    assert(FX_ONE <= l);

    // Each component is bounded by the length, so each scaled component is
    // bounded by the scaled length.
    assert(fx::abs_int(v.x as int) <= l) by (nonlinear_arith)
        requires
            (v.x as int) * (v.x as int) <= s,
            s < (l + 1) * (l + 1),
            l >= 0,
    ;
    assert(fx::abs_int(v.y as int) <= l) by (nonlinear_arith)
        requires
            (v.y as int) * (v.y as int) <= s,
            s < (l + 1) * (l + 1),
            l >= 0,
    ;
    assert(fx::abs_int(v.z as int) <= l) by (nonlinear_arith)
        requires
            (v.z as int) * (v.z as int) <= s,
            s < (l + 1) * (l + 1),
            l >= 0,
    ;
    assert(fx::abs_int(v.x * FX_ONE) <= l * FX_ONE && fx::abs_int(v.y * FX_ONE) <= l * FX_ONE
        && fx::abs_int(v.z * FX_ONE) <= l * FX_ONE) by (nonlinear_arith)
        requires
            fx::abs_int(v.x as int) <= l,
            fx::abs_int(v.y as int) <= l,
            fx::abs_int(v.z as int) <= l,
    ;
    lemma_component_quotient(v.x * FX_ONE, l);
    lemma_component_quotient(v.y * FX_ONE, l);
    lemma_component_quotient(v.z * FX_ONE, l);

    let n = spec_normalized(v);
    let qx = fx::abs_int(fx::tdiv(v.x * FX_ONE, l) as int);
    let qy = fx::abs_int(fx::tdiv(v.y * FX_ONE, l) as int);
    let qz = fx::abs_int(fx::tdiv(v.z * FX_ONE, l) as int);
    assert(n.x == fx::tdiv(v.x * FX_ONE, l) as i64);
    assert(n.y == fx::tdiv(v.y * FX_ONE, l) as i64);
    assert(n.z == fx::tdiv(v.z * FX_ONE, l) as i64);
    assert((n.x as int) * (n.x as int) == qx * qx) by (nonlinear_arith)
        requires
            qx == fx::abs_int(n.x as int),
    ;
    assert((n.y as int) * (n.y as int) == qy * qy) by (nonlinear_arith)
        requires
            qy == fx::abs_int(n.y as int),
    ;
    assert((n.z as int) * (n.z as int) == qz * qz) by (nonlinear_arith)
        requires
            qz == fx::abs_int(n.z as int),
    ;

    // One step above each quotient dominates the scaled component, so the
    // enlarged squares dominate the scaled squared length.
    assert((qx + 1) * (qx + 1) * (l * l) >= (v.x * v.x) * (FX_ONE * FX_ONE)) by (nonlinear_arith)
        requires
            (qx + 1) * l > fx::abs_int(v.x * FX_ONE),
            qx >= 0,
            l > 0,
    ;
    assert((qy + 1) * (qy + 1) * (l * l) >= (v.y * v.y) * (FX_ONE * FX_ONE)) by (nonlinear_arith)
        requires
            (qy + 1) * l > fx::abs_int(v.y * FX_ONE),
            qy >= 0,
            l > 0,
    ;
    assert((qz + 1) * (qz + 1) * (l * l) >= (v.z * v.z) * (FX_ONE * FX_ONE)) by (nonlinear_arith)
        requires
            (qz + 1) * l > fx::abs_int(v.z * FX_ONE),
            qz >= 0,
            l > 0,
    ;
    let grown = (qx + 1) * (qx + 1) + (qy + 1) * (qy + 1) + (qz + 1) * (qz + 1);
    assert(grown * (l * l) >= s * (FX_ONE * FX_ONE)) by (nonlinear_arith)
        requires
            grown == (qx + 1) * (qx + 1) + (qy + 1) * (qy + 1) + (qz + 1) * (qz + 1),
            (qx + 1) * (qx + 1) * (l * l) >= (v.x * v.x) * (FX_ONE * FX_ONE),
            (qy + 1) * (qy + 1) * (l * l) >= (v.y * v.y) * (FX_ONE * FX_ONE),
            (qz + 1) * (qz + 1) * (l * l) >= (v.z * v.z) * (FX_ONE * FX_ONE),
            s == v.x * v.x + v.y * v.y + v.z * v.z,
    ;
    // The squared length itself dominates the scaled unit, leaving a floor
    // for the grown sum, and the three quotients cost at most two units and
    // one square each.
    assert(grown >= FX_ONE * FX_ONE) by (nonlinear_arith)
        requires
            grown * (l * l) >= s * (FX_ONE * FX_ONE),
            s >= l * l,
            l > 0,
            grown >= 0,
    ;
    let nsq = (n.x as int) * (n.x as int) + (n.y as int) * (n.y as int) + (n.z as int) * (
    n.z as int);
    assert(nsq >= FX_ONE * FX_ONE - 6 * FX_ONE - 3) by (nonlinear_arith)
        requires
            grown == (qx + 1) * (qx + 1) + (qy + 1) * (qy + 1) + (qz + 1) * (qz + 1),
            grown >= FX_ONE * FX_ONE,
            nsq == qx * qx + qy * qy + qz * qz,
            0 <= qx <= FX_ONE,
            0 <= qy <= FX_ONE,
            0 <= qz <= FX_ONE,
    ;
    fx::lemma_sqrt_floor_bounds(nsq);
    assert(fx::sqrt_floor(nsq) >= FX_ONE - 4) by (nonlinear_arith)
        requires
            nsq < (fx::sqrt_floor(nsq) + 1) * (fx::sqrt_floor(nsq) + 1),
            nsq >= FX_ONE * FX_ONE - 6 * FX_ONE - 3,
            fx::sqrt_floor(nsq) >= 0,
    ;
    assert(spec_length(n) == fx::sat64(fx::sqrt_floor(nsq)));
}

/// Saturating difference of two already-truncated products.
fn sat_diff(a: i64, b: i64) -> (r: i64)
    ensures
        r == fx::sat64(a - b),
{
    let s: i128 = a as i128 - b as i128;
    if s > i64::MAX as i128 {
        i64::MAX
    } else if s < i64::MIN as i128 {
        i64::MIN
    } else {
        s as i64
    }
}

/// Square of an `i64` as an exact `u128`.
fn sq_u128(a: i64) -> (r: u128)
    ensures
        r == (a as int) * (a as int),
        r <= 0x4000_0000_0000_0000_0000_0000_0000_0000u128,
{
    let m: u128 = if a >= 0 {
        a as u128
    } else if a == i64::MIN {
        9_223_372_036_854_775_808u128
    } else {
        (-a) as u128
    };
    proof {
        assert(m * m == (a as int) * (a as int)) by (nonlinear_arith)
            requires
                m == fx::abs_int(a as int),
        ;
        assert(m * m <= 0x4000_0000_0000_0000_0000_0000_0000_0000u128) by (nonlinear_arith)
            requires
                m <= 9_223_372_036_854_775_808u128,
        ;
    }
    m * m
}

} // verus!
