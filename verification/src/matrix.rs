//! Fixed-point 4×4 matrices: the camera's look-at view transform and the
//! fixed perspective projection.
//!
//! Entries are micro-unit fixed point (`MICRO` is 1.0), stored as sixteen
//! named fields, `cXrY` for column X, row Y — the column-major order the
//! graphics API expects.  `to_flat` lists them in exactly that order, the
//! explicit, validated serialization step that replaces any reinterpretation
//! of matrix memory.

use crate::camera::{spec_right_raw, Camera, POS_CAP};
use crate::fixed::{abs_int, lemma_mul_bound, lemma_tdiv_bound, tdiv, tdiv_i128, tdiv_i64, MICRO};
use crate::vec3::{
    cross, normalize, spec_cross, spec_normalize, v3, vmax_abs, Vec3I, CROSS_A_MAX,
};
use vstd::prelude::*;

verus! {

#[derive(Clone, Copy, PartialEq, Eq, Structural, Debug)]
pub struct Mat4I {
    pub c0r0: i64,
    pub c0r1: i64,
    pub c0r2: i64,
    pub c0r3: i64,
    pub c1r0: i64,
    pub c1r1: i64,
    pub c1r2: i64,
    pub c1r3: i64,
    pub c2r0: i64,
    pub c2r1: i64,
    pub c2r2: i64,
    pub c2r3: i64,
    pub c3r0: i64,
    pub c3r1: i64,
    pub c3r2: i64,
    pub c3r3: i64,
}

/// The identity transform, returned when the view direction is parallel to
/// world-up and the look-at frame degenerates.
pub open spec fn spec_identity_mat() -> Mat4I {
    Mat4I {
        c0r0: MICRO,
        c0r1: 0,
        c0r2: 0,
        c0r3: 0,
        c1r0: 0,
        c1r1: MICRO,
        c1r2: 0,
        c1r3: 0,
        c2r0: 0,
        c2r1: 0,
        c2r2: MICRO,
        c2r3: 0,
        c3r0: 0,
        c3r1: 0,
        c3r2: 0,
        c3r3: MICRO,
    }
}

/// Dot product of a unit-scale vector with a position, brought back to
/// micro-units.
pub open spec fn spec_dot_micro(a: Vec3I, b: Vec3I) -> int {
    tdiv(a.x * b.x + a.y * b.y + a.z * b.z, MICRO as int)
}

/// The local up axis of the look-at frame: right × forward, brought back
/// to micro-units.
pub open spec fn spec_look_up(s: Vec3I, f: Vec3I) -> Vec3I {
    let w = spec_cross(s, f);
    v3(
        tdiv(w.x as int, MICRO as int),
        tdiv(w.y as int, MICRO as int),
        tdiv(w.z as int, MICRO as int),
    )
}

/// The look-at view transform of a camera state: the world-to-camera
/// change of basis built from the normalized forward direction `f`, the
/// right axis `s = normalize(f × up)` and the local up `u = s × f`, with
/// the eye translation in the last column.  A view direction parallel to
/// world-up has no such frame and yields the identity.
pub open spec fn spec_look_at(c: Camera) -> Mat4I {
    let f = spec_normalize(c.direction);
    let sraw = spec_right_raw(f);
    if sraw.is_zero() {
        spec_identity_mat()
    } else {
        let s = spec_normalize(sraw);
        let u = spec_look_up(s, f);
        let eye = c.position;
        Mat4I {
            c0r0: s.x,
            c0r1: u.x,
            c0r2: (-(f.x as int)) as i64,
            c0r3: 0,
            c1r0: s.y,
            c1r1: u.y,
            c1r2: (-(f.y as int)) as i64,
            c1r3: 0,
            c2r0: s.z,
            c2r1: u.z,
            c2r2: (-(f.z as int)) as i64,
            c2r3: 0,
            c3r0: (-spec_dot_micro(s, eye)) as i64,
            c3r1: (-spec_dot_micro(u, eye)) as i64,
            c3r2: spec_dot_micro(f, eye) as i64,
            c3r3: MICRO,
        }
    }
}

/// The fixed projection: micro-scaled entries of the standard perspective
/// transform with field-of-view 1.0 radian, aspect 1.0, near plane 0.1 and
/// far plane 1000.  The diagonal factor is the micro rounding of
/// 1 / tan(0.5); the third column holds -(far+near)/(far-near) and -1; the
/// last column holds -2·far·near/(far-near).
pub open spec fn spec_perspective() -> Mat4I {
    Mat4I {
        c0r0: 1_830_488,
        c0r1: 0,
        c0r2: 0,
        c0r3: 0,
        c1r0: 0,
        c1r1: 1_830_488,
        c1r2: 0,
        c1r3: 0,
        c2r0: 0,
        c2r1: 0,
        c2r2: (-1_000_200) as i64,
        c2r3: (-1_000_000) as i64,
        c3r0: 0,
        c3r1: 0,
        c3r2: (-200_020) as i64,
        c3r3: 0,
    }
}

impl Mat4I {
    /// The sixteen entries in column-major order, ready for upload.
    pub fn to_flat(&self) -> (r: Vec<i64>)
        ensures
            r@ =~= seq![
                self.c0r0,
                self.c0r1,
                self.c0r2,
                self.c0r3,
                self.c1r0,
                self.c1r1,
                self.c1r2,
                self.c1r3,
                self.c2r0,
                self.c2r1,
                self.c2r2,
                self.c2r3,
                self.c3r0,
                self.c3r1,
                self.c3r2,
                self.c3r3,
            ],
    {
        let mut r: Vec<i64> = Vec::new();
        r.push(self.c0r0);
        r.push(self.c0r1);
        r.push(self.c0r2);
        r.push(self.c0r3);
        r.push(self.c1r0);
        r.push(self.c1r1);
        r.push(self.c1r2);
        r.push(self.c1r3);
        r.push(self.c2r0);
        r.push(self.c2r1);
        r.push(self.c2r2);
        r.push(self.c2r3);
        r.push(self.c3r0);
        r.push(self.c3r1);
        r.push(self.c3r2);
        r.push(self.c3r3);
        r
    }
}

/// The fixed perspective projection matrix.
pub fn perspective() -> (m: Mat4I)
    ensures
        m == spec_perspective(),
{
    Mat4I {
        c0r0: 1_830_488,
        c0r1: 0,
        c0r2: 0,
        c0r3: 0,
        c1r0: 0,
        c1r1: 1_830_488,
        c1r2: 0,
        c1r3: 0,
        c2r0: 0,
        c2r1: 0,
        c2r2: -1_000_200,
        c2r3: -MICRO,
        c3r0: 0,
        c3r1: 0,
        c3r2: -200_020,
        c3r3: 0,
    }
}

/// Dot product of a unit-scale vector with an in-range position, brought
/// back to micro-units.
fn dot_micro(a: &Vec3I, b: &Vec3I) -> (q: i64)
    requires
        vmax_abs(*a) <= CROSS_A_MAX,
        vmax_abs(*b) <= POS_CAP,
    ensures
        q == spec_dot_micro(*a, *b),
        abs_int(q as int) <= 6_300_000_000_000,
{
    proof {
        lemma_mul_bound(a.x as int, b.x as int, CROSS_A_MAX as int, POS_CAP as int);
        lemma_mul_bound(a.y as int, b.y as int, CROSS_A_MAX as int, POS_CAP as int);
        lemma_mul_bound(a.z as int, b.z as int, CROSS_A_MAX as int, POS_CAP as int);
        assert((CROSS_A_MAX as int) * (POS_CAP as int) == 2_100_000_000_000_000_000)
            by (nonlinear_arith);
        assert(6_300_000_000_000int * (MICRO as int) == 6_300_000_000_000_000_000)
            by (nonlinear_arith);
        lemma_tdiv_bound(
            (a.x as int) * (b.x as int) + (a.y as int) * (b.y as int) + (a.z as int) * (b.z as int),
            MICRO as int,
            6_300_000_000_000,
        );
    }
    let sum = (a.x as i128) * (b.x as i128) + (a.y as i128) * (b.y as i128) + (a.z as i128) * (
    b.z as i128);
    let q = tdiv_i128(sum, MICRO as i128);
    q as i64
}

impl Camera {
    /// The view matrix: a pure function of the camera state alone — two
    /// calls on one state give the same matrix, with no dependence on
    /// prior frames.
    pub fn look_at(&self) -> (m: Mat4I)
        requires
            self.wf(),
        ensures
            m == spec_look_at(*self),
    {
        let f = normalize(&self.direction);
        let sraw = Vec3I { x: f.y, y: -f.x, z: 0 };
        if sraw.x == 0 && sraw.y == 0 && sraw.z == 0 {
            return Mat4I {
                c0r0: MICRO,
                c0r1: 0,
                c0r2: 0,
                c0r3: 0,
                c1r0: 0,
                c1r1: MICRO,
                c1r2: 0,
                c1r3: 0,
                c2r0: 0,
                c2r1: 0,
                c2r2: MICRO,
                c2r3: 0,
                c3r0: 0,
                c3r1: 0,
                c3r2: 0,
                c3r3: MICRO,
            };
        }
        let s = normalize(&sraw);
        let w = cross(&s, &f);
        proof {
            // right and forward are unit scale, so the raw up axis stays
            // within two square units and its micro rescaling within 2.0
            lemma_mul_bound(s.x as int, f.y as int, MICRO as int, MICRO as int);
            lemma_mul_bound(s.x as int, f.z as int, MICRO as int, MICRO as int);
            lemma_mul_bound(s.y as int, f.x as int, MICRO as int, MICRO as int);
            lemma_mul_bound(s.y as int, f.z as int, MICRO as int, MICRO as int);
            lemma_mul_bound(s.z as int, f.x as int, MICRO as int, MICRO as int);
            lemma_mul_bound(s.z as int, f.y as int, MICRO as int, MICRO as int);
            assert((MICRO as int) * (MICRO as int) == 1_000_000_000_000) by (nonlinear_arith);
            assert(2_000_000int * (MICRO as int) == 2_000_000_000_000) by (nonlinear_arith);
            lemma_tdiv_bound(w.x as int, MICRO as int, 2_000_000);
            lemma_tdiv_bound(w.y as int, MICRO as int, 2_000_000);
            lemma_tdiv_bound(w.z as int, MICRO as int, 2_000_000);
        }
        let ux = tdiv_i64(w.x, MICRO);
        let uy = tdiv_i64(w.y, MICRO);
        let uz = tdiv_i64(w.z, MICRO);
        let u = Vec3I { x: ux, y: uy, z: uz };
        let t0 = dot_micro(&s, &self.position);
        let t1 = dot_micro(&u, &self.position);
        let t2 = dot_micro(&f, &self.position);
        Mat4I {
            c0r0: s.x,
            c0r1: u.x,
            c0r2: -f.x,
            c0r3: 0,
            c1r0: s.y,
            c1r1: u.y,
            c1r2: -f.y,
            c1r3: 0,
            c2r0: s.z,
            c2r1: u.z,
            c2r2: -f.z,
            c2r3: 0,
            c3r0: -t0,
            c3r1: -t1,
            c3r2: t2,
            c3r3: MICRO,
        }
    }
}

/// Law: the view-matrix derivation is a pure function of the camera state —
/// equal states give identical matrices.
pub proof fn lemma_look_at_pure(a: Camera, b: Camera)
    requires
        a == b,
    ensures
        spec_look_at(a) == spec_look_at(b),
{
}

} // verus!
