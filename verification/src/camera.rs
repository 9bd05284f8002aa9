//! Camera orientation and navigation.
//!
//! The camera holds a position and a view direction, both fixed-point
//! vectors.  A key event moves the position along the direction, its
//! normalized right-hand cross product with the world-up axis `(0, 0, 1)`,
//! or the normalized local up (double cross product), each by one twentieth
//! of the motion vector (0.05 units per unit length); or it pivots the
//! direction around the world-up axis (yaw) or the local right axis (pitch)
//! by a fixed angle of 0.03 radians.  Unrecognized keys are a no-op.
//!
//! Quantization guards keep the state well formed: positions are clamped to
//! the representable coordinate range, and a rotation that would round the
//! direction to zero or past the direction cap leaves it unchanged — so no
//! finite key sequence can ever zero the view direction.

use crate::fixed::{abs_int, lemma_mul_bound, lemma_tdiv_bound, tdiv, tdiv_i64, MICRO};
use crate::vec3::{
    cross, normalize, spec_cross, spec_normalize, spec_vneg, v3, vmax_abs, Vec3I, NORMALIZE_IN_MAX,
};
use vstd::prelude::*;

verus! {

/// Divisor of the per-key translation: a key moves the position by one
/// twentieth (0.05) of the motion vector.
pub const STEP_DIV: i64 = 20;

/// Fixed-point sine of the per-key rotation angle of 0.03 radians.
pub const ROT_SIN: i64 = 29_996;

/// Fixed-point cosine of the per-key rotation angle of 0.03 radians.
pub const ROT_COS: i64 = 999_550;

/// View directions are kept within this component magnitude (10 units).
pub const DIR_CAP: i64 = 10_000_000;

/// Positions are kept within this component magnitude (a million units).
pub const POS_CAP: i64 = 1_000_000_000_000;

/// Largest component magnitude of a single translation step.
pub const STEP_MAX: i64 = 500_000;

/// The camera keys: six translations, four rotations, and anything else.
#[derive(Clone, Copy, PartialEq, Eq, Structural, Debug)]
pub enum Key {
    W,
    A,
    S,
    D,
    E,
    Q,
    Up,
    Down,
    Left,
    Right,
    Other,
}

/// Camera state: where the eye sits and where it looks.  The direction is
/// a look-at target offset and need not be unit length; it is non-zero by
/// construction.  Roll is not managed.
#[derive(Clone, Copy, PartialEq, Eq, Structural, Debug)]
pub struct Camera {
    pub position: Vec3I,
    pub direction: Vec3I,
}

impl Camera {
    /// Well-formed camera state: a non-zero, capped direction and an
    /// in-range position.  Established by `create_camera`, preserved by
    /// every key transition.
    pub open spec fn wf(self) -> bool {
        &&& !self.direction.is_zero()
        &&& vmax_abs(self.direction) <= DIR_CAP
        &&& vmax_abs(self.position) <= POS_CAP
    }
}

/// Clamp into `[-cap, cap]`.
pub open spec fn clamp(x: int, cap: int) -> int {
    if x > cap {
        cap
    } else if x < -cap {
        -cap
    } else {
        x
    }
}

/// Position after a translation step, clamped to the coordinate range.
pub open spec fn spec_clamped_plus(p: Vec3I, d: Vec3I) -> Vec3I {
    v3(
        clamp(p.x + d.x, POS_CAP as int),
        clamp(p.y + d.y, POS_CAP as int),
        clamp(p.z + d.z, POS_CAP as int),
    )
}

/// One twentieth of a motion vector, rounded toward zero.
pub open spec fn spec_scale_step(v: Vec3I) -> Vec3I {
    v3(tdiv(v.x as int, STEP_DIV as int), tdiv(v.y as int, STEP_DIV as int), tdiv(v.z as int, STEP_DIV as int))
}

/// The camera's right-hand axis before normalization: direction × world-up.
pub open spec fn spec_right_raw(d: Vec3I) -> Vec3I {
    v3(d.y as int, -(d.x as int), 0)
}

/// The pitch axis before normalization: world-up × direction.
pub open spec fn spec_pitch_axis(d: Vec3I) -> Vec3I {
    v3(-(d.y as int), d.x as int, 0)
}

/// The translation step a key asks for, given the current direction:
/// along the direction (W/S), the normalized right axis (D/A), or the
/// normalized local up (E/Q); zero when the axis degenerates or the key
/// is no translation.
pub open spec fn spec_move_delta(d: Vec3I, key: Key) -> Vec3I {
    match key {
        Key::W => spec_scale_step(d),
        Key::S => spec_vneg(spec_scale_step(d)),
        Key::D => spec_strafe_step(d),
        Key::A => spec_vneg(spec_strafe_step(d)),
        Key::E => spec_lift_step(d),
        Key::Q => spec_vneg(spec_lift_step(d)),
        _ => v3(0, 0, 0),
    }
}

/// The rightward translation step: one twentieth of the normalized right
/// axis, or zero when the direction is vertical.
pub open spec fn spec_strafe_step(d: Vec3I) -> Vec3I {
    let r = spec_right_raw(d);
    if r.is_zero() {
        v3(0, 0, 0)
    } else {
        spec_scale_step(spec_normalize(r))
    }
}

/// The upward translation step: one twentieth of the normalized local up
/// (right axis × direction direction-chain), or zero when it degenerates.
pub open spec fn spec_lift_step(d: Vec3I) -> Vec3I {
    let r = spec_right_raw(d);
    if r.is_zero() {
        v3(0, 0, 0)
    } else {
        let w = spec_cross(spec_normalize(r), d);
        if w.is_zero() {
            v3(0, 0, 0)
        } else {
            spec_scale_step(spec_normalize(w))
        }
    }
}

/// Candidate direction after a yaw around world-up with fixed-point sine
/// `s` (positive: yaw left) and cosine `ROT_COS`; the z component is exact.
pub open spec fn spec_yaw_cand(d: Vec3I, s: int) -> Vec3I {
    v3(
        tdiv(d.x * ROT_COS - d.y * s, MICRO as int),
        tdiv(d.y * ROT_COS + d.x * s, MICRO as int),
        d.z as int,
    )
}

/// Candidate direction after a pitch around the normalized right axis with
/// fixed-point sine `s` (positive: pitch down).  The axis is perpendicular
/// to the direction, so the axial Rodrigues term vanishes.
pub open spec fn spec_pitch_cand(d: Vec3I, s: int) -> Vec3I {
    let k = spec_normalize(spec_pitch_axis(d));
    let w = spec_cross(k, d);
    v3(
        tdiv(d.x * ROT_COS + tdiv(w.x * s, MICRO as int), MICRO as int),
        tdiv(d.y * ROT_COS + tdiv(w.y * s, MICRO as int), MICRO as int),
        tdiv(d.z * ROT_COS + tdiv(w.z * s, MICRO as int), MICRO as int),
    )
}

/// Quantization guard: a rotated direction that rounded to zero or past
/// the cap is discarded and the previous direction kept.
pub open spec fn spec_guard_dir(cand: Vec3I, prev: Vec3I) -> Vec3I {
    if cand.is_zero() || vmax_abs(cand) > DIR_CAP {
        prev
    } else {
        cand
    }
}

/// The direction after a key: pitched, yawed, or unchanged.  A pitch of a
/// vertical direction (degenerate right axis) is a no-op.
pub open spec fn spec_new_direction(d: Vec3I, key: Key) -> Vec3I {
    match key {
        Key::Up => if spec_pitch_axis(d).is_zero() {
            d
        } else {
            spec_guard_dir(spec_pitch_cand(d, ROT_SIN as int), d)
        },
        Key::Down => if spec_pitch_axis(d).is_zero() {
            d
        } else {
            spec_guard_dir(spec_pitch_cand(d, -(ROT_SIN as int)), d)
        },
        Key::Left => spec_guard_dir(spec_yaw_cand(d, ROT_SIN as int), d),
        Key::Right => spec_guard_dir(spec_yaw_cand(d, -(ROT_SIN as int)), d),
        _ => d,
    }
}

/// The complete key transition: translation applied to the position,
/// rotation applied to the direction.
pub open spec fn spec_camera_change(c: Camera, key: Key) -> Camera {
    Camera {
        position: spec_clamped_plus(c.position, spec_move_delta(c.direction, key)),
        direction: spec_new_direction(c.direction, key),
    }
}

/// Construct the initial camera.  The position is rescaled to unit length
/// at construction, as this renderer's camera has always done.
pub fn create_camera(position: Vec3I, direction: Vec3I) -> (c: Camera)
    requires
        !position.is_zero(),
        vmax_abs(position) <= NORMALIZE_IN_MAX,
        !direction.is_zero(),
        vmax_abs(direction) <= DIR_CAP,
    ensures
        c.position == spec_normalize(position),
        c.direction == direction,
        c.wf(),
{
    Camera { position: normalize(&position), direction }
}

impl Camera {
    /// The raw additive update: the historical alternate navigation mode
    /// that accumulates unscaled per-axis deltas on both vectors.  The
    /// caller supplies deltas that keep the state well formed.
    pub fn _update(&mut self, position_update: Vec3I, direction_update: Vec3I)
        requires
            abs_int(old(self).position.x + position_update.x) <= POS_CAP,
            abs_int(old(self).position.y + position_update.y) <= POS_CAP,
            abs_int(old(self).position.z + position_update.z) <= POS_CAP,
            abs_int(old(self).direction.x + direction_update.x) <= DIR_CAP,
            abs_int(old(self).direction.y + direction_update.y) <= DIR_CAP,
            abs_int(old(self).direction.z + direction_update.z) <= DIR_CAP,
            !(old(self).direction.x + direction_update.x == 0 && old(self).direction.y
                + direction_update.y == 0 && old(self).direction.z + direction_update.z == 0),
        ensures
            final(self).position.x == old(self).position.x + position_update.x,
            final(self).position.y == old(self).position.y + position_update.y,
            final(self).position.z == old(self).position.z + position_update.z,
            final(self).direction.x == old(self).direction.x + direction_update.x,
            final(self).direction.y == old(self).direction.y + direction_update.y,
            final(self).direction.z == old(self).direction.z + direction_update.z,
            final(self).wf(),
    {
        self.position = Vec3I {
            x: self.position.x + position_update.x,
            y: self.position.y + position_update.y,
            z: self.position.z + position_update.z,
        };
        self.direction = Vec3I {
            x: self.direction.x + direction_update.x,
            y: self.direction.y + direction_update.y,
            z: self.direction.z + direction_update.z,
        };
    }

    /// Apply one key event: exactly the transition `spec_camera_change`.
    pub fn camera_change(&mut self, keycode: Key)
        requires
            old(self).wf(),
        ensures
            *final(self) == spec_camera_change(*old(self), keycode),
            final(self).wf(),
    {
        let d = self.direction;
        let delta = move_delta(&d, keycode);
        self.position = clamped_plus(&self.position, &delta);
        self.direction = match keycode {
            Key::Up => pitch_step(&d, ROT_SIN),
            Key::Down => pitch_step(&d, -ROT_SIN),
            Key::Left => yaw_step(&d, ROT_SIN),
            Key::Right => yaw_step(&d, -ROT_SIN),
            _ => d,
        };
        proof {
            lemma_key_preserves_wf(*old(self), keycode);
        }
    }
}

/// The translation step for a key.
fn move_delta(d: &Vec3I, key: Key) -> (delta: Vec3I)
    requires
        !d.is_zero(),
        vmax_abs(*d) <= DIR_CAP,
    ensures
        delta == spec_move_delta(*d, key),
        abs_int(delta.x as int) <= STEP_MAX,
        abs_int(delta.y as int) <= STEP_MAX,
        abs_int(delta.z as int) <= STEP_MAX,
{
    proof {
        lemma_move_delta_bound(*d, key);
    }
    match key {
        Key::W => scale_step(&d),
        Key::S => scale_step(&d).negate(),
        Key::D => strafe_step(&d),
        Key::A => strafe_step(&d).negate(),
        Key::E => lift_step(&d),
        Key::Q => lift_step(&d).negate(),
        _ => Vec3I { x: 0, y: 0, z: 0 },
    }
}

/// One twentieth of a motion vector.
fn scale_step(v: &Vec3I) -> (r: Vec3I)
    ensures
        r == spec_scale_step(*v),
        abs_int(r.x as int) <= abs_int(v.x as int),
        abs_int(r.y as int) <= abs_int(v.y as int),
        abs_int(r.z as int) <= abs_int(v.z as int),
{
    Vec3I {
        x: tdiv_i64(v.x, STEP_DIV),
        y: tdiv_i64(v.y, STEP_DIV),
        z: tdiv_i64(v.z, STEP_DIV),
    }
}

/// The rightward translation step.
fn strafe_step(d: &Vec3I) -> (r: Vec3I)
    requires
        vmax_abs(*d) <= DIR_CAP,
    ensures
        r == spec_strafe_step(*d),
{
    let raw = Vec3I { x: d.y, y: -d.x, z: 0 };
    if raw.x == 0 && raw.y == 0 && raw.z == 0 {
        Vec3I { x: 0, y: 0, z: 0 }
    } else {
        scale_step(&normalize(&raw))
    }
}

/// The upward translation step.
fn lift_step(d: &Vec3I) -> (r: Vec3I)
    requires
        vmax_abs(*d) <= DIR_CAP,
    ensures
        r == spec_lift_step(*d),
{
    let raw = Vec3I { x: d.y, y: -d.x, z: 0 };
    if raw.x == 0 && raw.y == 0 && raw.z == 0 {
        return Vec3I { x: 0, y: 0, z: 0 };
    }
    let right_unit = normalize(&raw);
    let w = cross(&right_unit, d);
    if w.x == 0 && w.y == 0 && w.z == 0 {
        Vec3I { x: 0, y: 0, z: 0 }
    } else {
        proof {
            assert(vmax_abs(w) <= NORMALIZE_IN_MAX);
        }
        scale_step(&normalize(&w))
    }
}

/// Rotate the direction around world-up, under the quantization guard.
fn yaw_step(d: &Vec3I, s: i64) -> (r: Vec3I)
    requires
        vmax_abs(*d) <= DIR_CAP,
        abs_int(s as int) <= ROT_SIN,
    ensures
        r == spec_guard_dir(spec_yaw_cand(*d, s as int), *d),
{
    proof {
        lemma_mul_bound(d.x as int, ROT_COS as int, DIR_CAP as int, ROT_COS as int);
        lemma_mul_bound(d.y as int, ROT_COS as int, DIR_CAP as int, ROT_COS as int);
        lemma_mul_bound(d.x as int, s as int, DIR_CAP as int, ROT_SIN as int);
        lemma_mul_bound(d.y as int, s as int, DIR_CAP as int, ROT_SIN as int);
    }
    let cx = tdiv_i64(d.x * ROT_COS - d.y * s, MICRO);
    let cy = tdiv_i64(d.y * ROT_COS + d.x * s, MICRO);
    let cand = Vec3I { x: cx, y: cy, z: d.z };
    guard_dir(&cand, d)
}

/// Rotate the direction around the normalized right axis, under the
/// quantization guard; a vertical direction is left unchanged.
fn pitch_step(d: &Vec3I, s: i64) -> (r: Vec3I)
    requires
        vmax_abs(*d) <= DIR_CAP,
        abs_int(s as int) <= ROT_SIN,
    ensures
        r == (if spec_pitch_axis(*d).is_zero() {
            *d
        } else {
            spec_guard_dir(spec_pitch_cand(*d, s as int), *d)
        }),
{
    let axis = Vec3I { x: -d.y, y: d.x, z: 0 };
    if axis.x == 0 && axis.y == 0 && axis.z == 0 {
        return *d;
    }
    let k = normalize(&axis);
    let w = cross(&k, d);
    proof {
        let wb = 2 * (crate::vec3::CROSS_A_MAX as int) * (crate::vec3::CROSS_B_MAX as int);
        lemma_mul_bound(w.x as int, s as int, wb, ROT_SIN as int);
        lemma_mul_bound(w.y as int, s as int, wb, ROT_SIN as int);
        lemma_mul_bound(w.z as int, s as int, wb, ROT_SIN as int);
        lemma_mul_bound(d.x as int, ROT_COS as int, DIR_CAP as int, ROT_COS as int);
        lemma_mul_bound(d.y as int, ROT_COS as int, DIR_CAP as int, ROT_COS as int);
        lemma_mul_bound(d.z as int, ROT_COS as int, DIR_CAP as int, ROT_COS as int);
    }
    let ax = tdiv_i64(w.x * s, MICRO);
    let ay = tdiv_i64(w.y * s, MICRO);
    let az = tdiv_i64(w.z * s, MICRO);
    let cx = tdiv_i64(d.x * ROT_COS + ax, MICRO);
    let cy = tdiv_i64(d.y * ROT_COS + ay, MICRO);
    let cz = tdiv_i64(d.z * ROT_COS + az, MICRO);
    let cand = Vec3I { x: cx, y: cy, z: cz };
    guard_dir(&cand, d)
}

/// The quantization guard on a rotated direction.
fn guard_dir(cand: &Vec3I, prev: &Vec3I) -> (r: Vec3I)
    ensures
        r == spec_guard_dir(*cand, *prev),
{
    if cand.x == 0 && cand.y == 0 && cand.z == 0 {
        *prev
    } else if cand.x > DIR_CAP || cand.x < -DIR_CAP || cand.y > DIR_CAP || cand.y < -DIR_CAP
        || cand.z > DIR_CAP || cand.z < -DIR_CAP {
        *prev
    } else {
        *cand
    }
}

/// Clamped translation of the position.
fn clamped_plus(p: &Vec3I, d: &Vec3I) -> (r: Vec3I)
    requires
        vmax_abs(*p) <= POS_CAP,
        abs_int(d.x as int) <= MICRO,
        abs_int(d.y as int) <= MICRO,
        abs_int(d.z as int) <= MICRO,
    ensures
        r == spec_clamped_plus(*p, *d),
        vmax_abs(r) <= POS_CAP,
{
    Vec3I {
        x: clamp_coord(p.x + d.x),
        y: clamp_coord(p.y + d.y),
        z: clamp_coord(p.z + d.z),
    }
}

/// Clamp one coordinate into the representable range.
fn clamp_coord(x: i64) -> (r: i64)
    ensures
        r == clamp(x as int, POS_CAP as int),
{
    if x > POS_CAP {
        POS_CAP
    } else if x < -POS_CAP {
        -POS_CAP
    } else {
        x
    }
}

/// Every translation step is small: no component above `STEP_MAX`.
pub proof fn lemma_move_delta_bound(d: Vec3I, key: Key)
    requires
        !d.is_zero(),
        vmax_abs(d) <= DIR_CAP,
    ensures
        abs_int(spec_move_delta(d, key).x as int) <= STEP_MAX,
        abs_int(spec_move_delta(d, key).y as int) <= STEP_MAX,
        abs_int(spec_move_delta(d, key).z as int) <= STEP_MAX,
{
    lemma_scale_step_bound(d, DIR_CAP as int);
    let r = spec_right_raw(d);
    if !r.is_zero() {
        lemma_normalize_step(r);
        let w = spec_cross(spec_normalize(r), d);
        if !w.is_zero() {
            lemma_normalize_step(w);
        }
    }
}

/// A twentieth of a capped vector stays within `STEP_MAX`, and of a unit
/// vector within `MICRO / STEP_DIV`.
proof fn lemma_scale_step_bound(v: Vec3I, cap: int)
    requires
        0 <= cap <= DIR_CAP,
        vmax_abs(v) <= cap,
    ensures
        abs_int(spec_scale_step(v).x as int) <= STEP_MAX,
        abs_int(spec_scale_step(v).y as int) <= STEP_MAX,
        abs_int(spec_scale_step(v).z as int) <= STEP_MAX,
        spec_scale_step(v).x as int == tdiv(v.x as int, STEP_DIV as int),
        spec_scale_step(v).y as int == tdiv(v.y as int, STEP_DIV as int),
        spec_scale_step(v).z as int == tdiv(v.z as int, STEP_DIV as int),
{
    lemma_tdiv_bound(v.x as int, STEP_DIV as int, STEP_MAX as int);
    lemma_tdiv_bound(v.y as int, STEP_DIV as int, STEP_MAX as int);
    lemma_tdiv_bound(v.z as int, STEP_DIV as int, STEP_MAX as int);
}

/// The normalized-axis translation steps stay within `STEP_MAX`.
proof fn lemma_normalize_step(v: Vec3I)
    requires
        !v.is_zero(),
    ensures
        abs_int(spec_scale_step(spec_normalize(v)).x as int) <= STEP_MAX,
        abs_int(spec_scale_step(spec_normalize(v)).y as int) <= STEP_MAX,
        abs_int(spec_scale_step(spec_normalize(v)).z as int) <= STEP_MAX,
{
    crate::vec3::lemma_normalize_bounds(v);
    lemma_scale_step_bound(spec_normalize(v), MICRO as int);
}

/// Every key transition preserves well-formedness: the direction stays
/// non-zero and capped, the position in range.
pub proof fn lemma_key_preserves_wf(c: Camera, key: Key)
    requires
        c.wf(),
    ensures
        spec_camera_change(c, key).wf(),
{
    lemma_move_delta_bound(c.direction, key);
}

/// The six translation keys.
pub open spec fn is_translation_key(key: Key) -> bool {
    match key {
        Key::W | Key::S | Key::A | Key::D | Key::E | Key::Q => true,
        _ => false,
    }
}

/// The key that moves in the exact opposite direction.
pub open spec fn opposite_key(key: Key) -> Key {
    match key {
        Key::W => Key::S,
        Key::S => Key::W,
        Key::D => Key::A,
        Key::A => Key::D,
        Key::E => Key::Q,
        Key::Q => Key::E,
        k => k,
    }
}

/// Law: applying a translation key and then its exact opposite returns the
/// camera to its original position, and neither key touches the direction.
/// The position must sit far enough inside the coordinate range that
/// neither step is clamped; at the very edge of the range the clamp
/// absorbs part of the first step and the pair is no longer an involution.
pub proof fn lemma_translation_inverse(c: Camera, key: Key)
    requires
        c.wf(),
        is_translation_key(key),
        vmax_abs(c.position) <= POS_CAP - 2 * STEP_MAX,
    ensures
        spec_camera_change(spec_camera_change(c, key), opposite_key(key)) == c,
{
    lemma_move_delta_bound(c.direction, key);
    let delta = spec_move_delta(c.direction, key);
    let back = spec_move_delta(c.direction, opposite_key(key));
    assert(back.x == -delta.x && back.y == -delta.y && back.z == -delta.z);
}

/// The camera state after a whole sequence of key events.
pub open spec fn spec_apply_keys(c: Camera, keys: Seq<Key>) -> Camera
    decreases keys.len(),
{
    if keys.len() == 0 {
        c
    } else {
        spec_apply_keys(spec_camera_change(c, keys[0]), keys.drop_first())
    }
}

/// Law: no finite sequence of key events — rotations included — can zero
/// the view direction: rotation is norm-preserving up to quantization, and
/// the quantization guard discards a step that would collapse it.
pub proof fn lemma_keys_keep_direction_nonzero(c: Camera, keys: Seq<Key>)
    requires
        c.wf(),
    ensures
        spec_apply_keys(c, keys).wf(),
        !spec_apply_keys(c, keys).direction.is_zero(),
    decreases keys.len(),
{
    if keys.len() > 0 {
        lemma_key_preserves_wf(c, keys[0]);
        lemma_keys_keep_direction_nonzero(spec_camera_change(c, keys[0]), keys.drop_first());
    }
}

} // verus!
