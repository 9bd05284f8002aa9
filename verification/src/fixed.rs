//! Fixed-point arithmetic.
//!
//! All world-space quantities are integers in micro-units: one world unit is
//! `MICRO` micro-units.  Division always rounds toward zero (`tdiv`), and the
//! square root is the exact integer square root, so every fixed-point result
//! is pinned down exactly by its contract.

use vstd::arithmetic::div_mod::{
    lemma_div_by_multiple, lemma_div_is_ordered, lemma_div_nonincreasing,
    lemma_div_pos_is_pos,
};
use vstd::prelude::*;

verus! {

/// One world unit, in micro-units.
pub const MICRO: i64 = 1_000_000;

/// Magnitude of an integer.
pub open spec fn abs_int(x: int) -> int {
    if x >= 0 {
        x
    } else {
        -x
    }
}

/// Division rounding toward zero, for a positive divisor: the rounding rule
/// of every fixed-point operation in this library.
pub open spec fn tdiv(x: int, d: int) -> int {
    if x >= 0 {
        x / d
    } else {
        -((-x) / d)
    }
}

/// The integer square root: the largest `r` with `r · r <= n`.
pub open spec fn spec_isqrt(n: int) -> int
    decreases n,
{
    if n <= 0 {
        0
    } else {
        let r = spec_isqrt(n - 1);
        if (r + 1) * (r + 1) <= n {
            r + 1
        } else {
            r
        }
    }
}

/// `|x·y| <= bx·by` whenever `|x| <= bx` and `|y| <= by`.
pub proof fn lemma_mul_bound(x: int, y: int, bx: int, by: int)
    by (nonlinear_arith)
    requires
        -bx <= x <= bx,
        -by <= y <= by,
    ensures
        -(bx * by) <= x * y <= bx * by,
{
}

/// The defining property of `spec_isqrt`.
pub proof fn lemma_isqrt_bounds(n: int)
    requires
        n >= 0,
    ensures
        0 <= spec_isqrt(n),
        spec_isqrt(n) * spec_isqrt(n) <= n,
        n < (spec_isqrt(n) + 1) * (spec_isqrt(n) + 1),
    decreases n,
{
    if n == 0 {
        assert(spec_isqrt(0) == 0);
    } else {
        lemma_isqrt_bounds(n - 1);
        let r = spec_isqrt(n - 1);
        if (r + 1) * (r + 1) <= n {
            assert(n - 1 < (r + 1) * (r + 1));
            assert(n < (r + 2) * (r + 2)) by (nonlinear_arith)
                requires
                    n <= (r + 1) * (r + 1) && r >= 0,
            ;
        }
    }
}

/// A value meeting the square-root bounds is `spec_isqrt`.
pub proof fn lemma_isqrt_unique(n: int, r: int)
    requires
        n >= 0,
        r >= 0,
        r * r <= n,
        n < (r + 1) * (r + 1),
    ensures
        r == spec_isqrt(n),
{
    lemma_isqrt_bounds(n);
    let s = spec_isqrt(n);
    assert(r == s) by (nonlinear_arith)
        requires
            r >= 0 && s >= 0 && r * r <= n && n < (r + 1) * (r + 1) && s * s <= n && n < (s + 1) * (
            s + 1),
    ;
}

/// Truncating division never grows the magnitude.
pub proof fn lemma_tdiv_abs_le(x: int, d: int)
    requires
        d >= 1,
    ensures
        abs_int(tdiv(x, d)) <= abs_int(x),
        x >= 0 ==> tdiv(x, d) >= 0,
        x < 0 ==> tdiv(x, d) <= 0,
{
    if x >= 0 {
        lemma_div_nonincreasing(x, d);
        lemma_div_pos_is_pos(x, d);
    } else {
        lemma_div_nonincreasing(-x, d);
        lemma_div_pos_is_pos(-x, d);
    }
}

/// `|x| <= m·d` gives `|tdiv(x, d)| <= m`.
pub proof fn lemma_tdiv_bound(x: int, d: int, m: int)
    requires
        d >= 1,
        m >= 0,
        abs_int(x) <= m * d,
    ensures
        abs_int(tdiv(x, d)) <= m,
{
    if x >= 0 {
        lemma_div_is_ordered(x, m * d, d);
        lemma_div_by_multiple(m, d);
        lemma_div_pos_is_pos(x, d);
    } else {
        lemma_div_is_ordered(-x, m * d, d);
        lemma_div_by_multiple(m, d);
        lemma_div_pos_is_pos(-x, d);
    }
}

/// `x >= m·d >= 0` gives `tdiv(x, d) >= m`.
pub proof fn lemma_tdiv_lower(x: int, d: int, m: int)
    requires
        d >= 1,
        m >= 0,
        x >= m * d,
    ensures
        tdiv(x, d) >= m,
{
    lemma_div_is_ordered(m * d, x, d);
    lemma_div_by_multiple(m, d);
}

/// Division rounding toward zero, for a positive divisor.
pub fn tdiv_i128(x: i128, d: i128) -> (q: i128)
    requires
        d > 0,
    ensures
        q == tdiv(x as int, d as int),
        abs_int(q as int) <= abs_int(x as int),
{
    proof {
        lemma_tdiv_abs_le(x as int, d as int);
    }
    match x.checked_div(d) {
        Some(q) => q,
        None => {
            proof {
                assert(false);
            }
            0
        },
    }
}

/// Division rounding toward zero on 64-bit values.
pub fn tdiv_i64(x: i64, d: i64) -> (q: i64)
    requires
        d > 0,
    ensures
        q == tdiv(x as int, d as int),
        abs_int(q as int) <= abs_int(x as int),
{
    let q = tdiv_i128(x as i128, d as i128);
    q as i64
}

/// The integer square root of a 128-bit value, by bisection.
pub fn isqrt_u128(n: u128) -> (r: u64)
    ensures
        r == spec_isqrt(n as int),
        r * r <= n,
        n < (r + 1) * (r + 1),
{
    let mut lo: u128 = 0;
    let mut hi: u128 = 0x1_0000_0000_0000_0000;
    proof {
        assert((0x1_0000_0000_0000_0000int) * (0x1_0000_0000_0000_0000int) > u128::MAX)
            by (nonlinear_arith);
    }
    while lo + 1 < hi
        invariant
            lo < hi <= 0x1_0000_0000_0000_0000,
            (lo as int) * (lo as int) <= n,
            (n as int) < (hi as int) * (hi as int),
        decreases hi - lo,
    {
        let mid = lo + (hi - lo) / 2;
        proof {
            assert((mid as int) * (mid as int) <= u128::MAX) by (nonlinear_arith)
                requires
                    0 <= mid < 0x1_0000_0000_0000_0000,
            ;
        }
        if mid * mid <= n {
            lo = mid;
        } else {
            hi = mid;
        }
    }
    proof {
        lemma_isqrt_unique(n as int, lo as int);
    }
    lo as u64
}

} // verus!
