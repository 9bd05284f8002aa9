//! Three-component fixed-point vectors.
//!
//! Positions, view directions and the world-up axis are `Vec3I` values in
//! micro-units.  The cross product is exact; `normalize` rescales a non-zero
//! vector to (within rounding) unit length, `MICRO` micro-units, with an
//! exact contract over `tdiv` and `spec_isqrt`.

use crate::fixed::{
    abs_int, isqrt_u128, lemma_isqrt_bounds, lemma_mul_bound, lemma_tdiv_bound, lemma_tdiv_lower,
    spec_isqrt, tdiv, tdiv_i128, MICRO,
};
use vstd::prelude::*;

verus! {

#[derive(Clone, Copy, PartialEq, Eq, Structural, Debug)]
pub struct Vec3I {
    pub x: i64,
    pub y: i64,
    pub z: i64,
}

/// Largest component magnitude accepted by `normalize`.
pub const NORMALIZE_IN_MAX: i64 = 1_000_000_000_000_000;

/// Largest component magnitude of the first cross-product operand.
pub const CROSS_A_MAX: i64 = 2_100_000;

/// Largest component magnitude of the second cross-product operand.
pub const CROSS_B_MAX: i64 = 10_000_000;

/// `normalize` keeps at least one component at least this large in
/// magnitude, so its result is never zero.
pub const UNIT_MIN: i64 = 500_000;

/// A vector from mathematical components; exact whenever they fit in 64 bits.
pub open spec fn v3(x: int, y: int, z: int) -> Vec3I {
    Vec3I { x: x as i64, y: y as i64, z: z as i64 }
}

/// Component-wise negation.
pub open spec fn spec_vneg(v: Vec3I) -> Vec3I {
    v3(-v.x, -v.y, -v.z)
}

/// The exact cross product.
pub open spec fn spec_cross(a: Vec3I, b: Vec3I) -> Vec3I {
    v3(a.y * b.z - a.z * b.y, a.z * b.x - a.x * b.z, a.x * b.y - a.y * b.x)
}

/// Largest component magnitude of the input, as a mathematical integer.
pub open spec fn vmax_abs(v: Vec3I) -> int {
    let ax = abs_int(v.x as int);
    let ay = abs_int(v.y as int);
    let az = abs_int(v.z as int);
    if ax >= ay && ax >= az {
        ax
    } else if ay >= az {
        ay
    } else {
        az
    }
}

/// Squared Euclidean norm.
pub open spec fn spec_norm_sq(v: Vec3I) -> int {
    (v.x as int) * (v.x as int) + (v.y as int) * (v.y as int) + (v.z as int) * (v.z as int)
}

/// The fixed-point unit vector along `v`: each component is `v·MICRO`
/// divided (toward zero) by the integer square root of the squared norm.
pub open spec fn spec_normalize(v: Vec3I) -> Vec3I {
    let s = spec_isqrt(spec_norm_sq(v));
    v3(tdiv(v.x * MICRO, s), tdiv(v.y * MICRO, s), tdiv(v.z * MICRO, s))
}

impl Vec3I {
    /// All three components are zero.
    pub open spec fn is_zero(self) -> bool {
        self.x == 0 && self.y == 0 && self.z == 0
    }

    pub fn new(x: i64, y: i64, z: i64) -> (v: Vec3I)
        ensures
            v == (Vec3I { x, y, z }),
    {
        Vec3I { x, y, z }
    }

    /// Component-wise negation.
    pub fn negate(&self) -> (r: Vec3I)
        requires
            vmax_abs(*self) <= i64::MAX,
        ensures
            r == spec_vneg(*self),
            r.x == -self.x && r.y == -self.y && r.z == -self.z,
    {
        Vec3I { x: -self.x, y: -self.y, z: -self.z }
    }
}

/// What `spec_normalize` returns on any non-zero vector: components exactly
/// `tdiv(v·MICRO, s)`, none above `MICRO` in magnitude, the largest at least
/// `UNIT_MIN`, so the result is non-zero.
pub proof fn lemma_normalize_bounds(v: Vec3I)
    requires
        !v.is_zero(),
    ensures
        spec_isqrt(spec_norm_sq(v)) >= 1,
        spec_norm_sq(v) >= 1,
        spec_normalize(v).x as int == tdiv(v.x * MICRO, spec_isqrt(spec_norm_sq(v))),
        spec_normalize(v).y as int == tdiv(v.y * MICRO, spec_isqrt(spec_norm_sq(v))),
        spec_normalize(v).z as int == tdiv(v.z * MICRO, spec_isqrt(spec_norm_sq(v))),
        abs_int(spec_normalize(v).x as int) <= MICRO,
        abs_int(spec_normalize(v).y as int) <= MICRO,
        abs_int(spec_normalize(v).z as int) <= MICRO,
        vmax_abs(spec_normalize(v)) >= UNIT_MIN,
        !spec_normalize(v).is_zero(),
{
    let n2 = spec_norm_sq(v);
    assert(v.x != 0 ==> (v.x as int) * (v.x as int) >= 1) by (nonlinear_arith);
    assert(v.y != 0 ==> (v.y as int) * (v.y as int) >= 1) by (nonlinear_arith);
    assert(v.z != 0 ==> (v.z as int) * (v.z as int) >= 1) by (nonlinear_arith);
    assert((v.x as int) * (v.x as int) >= 0 && (v.y as int) * (v.y as int) >= 0 && (v.z as int) * (
    v.z as int) >= 0) by (nonlinear_arith);
    assert(n2 >= 1);
    lemma_isqrt_bounds(n2);
    let s = spec_isqrt(n2);
    assert(s >= 1) by {
        if s == 0 {
            assert((s + 1) * (s + 1) == 1) by (nonlinear_arith)
                requires
                    s == 0,
            ;
        }
    }
    assert(abs_int(v.x as int) <= s && abs_int(v.y as int) <= s && abs_int(v.z as int) <= s)
        by (nonlinear_arith)
        requires
            (v.x as int) * (v.x as int) <= n2,
            (v.y as int) * (v.y as int) <= n2,
            (v.z as int) * (v.z as int) <= n2,
            n2 < (s + 1) * (s + 1),
            s >= 0,
    ;
    lemma_mul_bound(abs_int(v.x as int), MICRO as int, s, MICRO as int);
    lemma_mul_bound(abs_int(v.y as int), MICRO as int, s, MICRO as int);
    lemma_mul_bound(abs_int(v.z as int), MICRO as int, s, MICRO as int);
    lemma_tdiv_bound(v.x * MICRO, s, MICRO as int);
    lemma_tdiv_bound(v.y * MICRO, s, MICRO as int);
    lemma_tdiv_bound(v.z * MICRO, s, MICRO as int);
    let m = vmax_abs(v);
    assert(m >= 1);
    assert(n2 <= 3 * (m * m)) by (nonlinear_arith)
        requires
            abs_int(v.x as int) <= m && abs_int(v.y as int) <= m && abs_int(v.z as int) <= m && n2
                == (v.x as int) * (v.x as int) + (v.y as int) * (v.y as int) + (v.z as int) * (
            v.z as int),
    ;
    assert(s < 2 * m) by (nonlinear_arith)
        requires
            s * s <= n2,
            n2 <= 3 * (m * m),
            m >= 1,
            s >= 0,
    ;
    assert(m * (MICRO as int) >= (UNIT_MIN as int) * s) by (nonlinear_arith)
        requires
            s < 2 * m && s >= 0,
    ;
    if abs_int(v.x as int) == m {
        lemma_unit_component(v.x as int, m, s);
    } else if abs_int(v.y as int) == m {
        lemma_unit_component(v.y as int, m, s);
    } else {
        lemma_unit_component(v.z as int, m, s);
    }
}

/// A component of the largest magnitude keeps magnitude `UNIT_MIN` after
/// the unit rescaling.
proof fn lemma_unit_component(vi: int, m: int, s: int)
    requires
        s >= 1,
        m >= 0,
        abs_int(vi) == m,
        m * (MICRO as int) >= (UNIT_MIN as int) * s,
    ensures
        abs_int(tdiv(vi * (MICRO as int), s)) >= UNIT_MIN as int,
{
    lemma_tdiv_lower(m * (MICRO as int), s, UNIT_MIN as int);
    if vi >= 0 {
        assert(vi * (MICRO as int) == m * (MICRO as int));
    } else {
        assert(-(vi * (MICRO as int)) == m * (MICRO as int)) by (nonlinear_arith)
            requires
                -vi == m,
        ;
    }
}

/// Exact cross product of two bounded vectors.
pub fn cross(a: &Vec3I, b: &Vec3I) -> (r: Vec3I)
    requires
        vmax_abs(*a) <= CROSS_A_MAX,
        vmax_abs(*b) <= CROSS_B_MAX,
    ensures
        r == spec_cross(*a, *b),
        r.x == a.y * b.z - a.z * b.y,
        r.y == a.z * b.x - a.x * b.z,
        r.z == a.x * b.y - a.y * b.x,
        vmax_abs(r) <= 2 * (CROSS_A_MAX as int) * (CROSS_B_MAX as int),
{
    proof {
        lemma_mul_bound(a.x as int, b.y as int, CROSS_A_MAX as int, CROSS_B_MAX as int);
        lemma_mul_bound(a.x as int, b.z as int, CROSS_A_MAX as int, CROSS_B_MAX as int);
        lemma_mul_bound(a.y as int, b.x as int, CROSS_A_MAX as int, CROSS_B_MAX as int);
        lemma_mul_bound(a.y as int, b.z as int, CROSS_A_MAX as int, CROSS_B_MAX as int);
        lemma_mul_bound(a.z as int, b.x as int, CROSS_A_MAX as int, CROSS_B_MAX as int);
        lemma_mul_bound(a.z as int, b.y as int, CROSS_A_MAX as int, CROSS_B_MAX as int);
    }
    Vec3I { x: a.y * b.z - a.z * b.y, y: a.z * b.x - a.x * b.z, z: a.x * b.y - a.y * b.x }
}

/// Rescale a non-zero vector to unit length in micro-units.
pub fn normalize(v: &Vec3I) -> (u: Vec3I)
    requires
        !v.is_zero(),
        vmax_abs(*v) <= NORMALIZE_IN_MAX,
    ensures
        u == spec_normalize(*v),
        abs_int(u.x as int) <= MICRO,
        abs_int(u.y as int) <= MICRO,
        abs_int(u.z as int) <= MICRO,
        vmax_abs(u) >= UNIT_MIN,
        !u.is_zero(),
{
    proof {
        let b = NORMALIZE_IN_MAX;
        lemma_mul_bound(v.x as int, v.x as int, b as int, b as int);
        lemma_mul_bound(v.y as int, v.y as int, b as int, b as int);
        lemma_mul_bound(v.z as int, v.z as int, b as int, b as int);
        lemma_normalize_bounds(*v);
    }
    let xx = (v.x as i128) * (v.x as i128);
    let yy = (v.y as i128) * (v.y as i128);
    let zz = (v.z as i128) * (v.z as i128);
    let n2 = (xx + yy + zz) as u128;
    let s = isqrt_u128(n2);
    let ux = tdiv_i128((v.x as i128) * (MICRO as i128), s as i128);
    let uy = tdiv_i128((v.y as i128) * (MICRO as i128), s as i128);
    let uz = tdiv_i128((v.z as i128) * (MICRO as i128), s as i128);
    Vec3I { x: ux as i64, y: uy as i64, z: uz as i64 }
}

} // verus!
