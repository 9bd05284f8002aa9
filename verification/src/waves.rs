//! Deterministic procedural wave-parameter synthesis.
//!
//! The water surface is a superposition of traveling sine waves
//! `a·sin(b·x + c·y + d·t)`.  For each wave the synthesizer draws an
//! amplitude `a` uniformly below 0.1 and a direction angle below 2π from a
//! generator seeded with a fixed value, and couples the spatial frequency to
//! the amplitude: the `(b, c)` pair is the angle's unit direction scaled by
//! `1/(0.01 + 10·a)`, so flat waves ripple quickly and tall waves stretch
//! long — a deliberate design trade-off.  The per-wave speed `d` is fixed at
//! 1.0, a hook for future variation.
//!
//! Everything is exact fixed point: amplitudes and angles are micro-units
//! (`1_000_000` is 1.0), and the frequency scale is the exact rational
//! `100_000 / (1000 + amplitude_micro)`.  The caller turns an angle into its
//! sine and cosine when converting for upload; the angle itself names a unit
//! direction, which is where the `b² + c²` invariant comes from.

use vstd::prelude::*;

verus! {

#[verifier::external_type_specification]
#[verifier::external_body]
pub struct ExStdRng(rand::rngs::StdRng);

/// The word stream of the standard generator: the `index`-th 32-bit word
/// drawn after seeding with `seed`.  For the pinned generator (the ChaCha12
/// cipher seeded through `seed_from_u64`) this is a function of the seed
/// alone: rand's `SeedableRng` documents that a fixed seed produces the same
/// sequence on all runs and architectures.
pub uninterp spec fn rng_word(seed: u64, index: int) -> u32;

/// A seeded pseudo-random generator, with the ghost seed and the ghost
/// count of words already drawn.
pub struct WaveRng {
    rng: rand::rngs::StdRng,
    pub seed: Ghost<u64>,
    pub drawn: Ghost<int>,
}

/// Relies on rand's `StdRng::seed_from_u64` (`SeedableRng`): constructs the
/// generator deterministically from a 64-bit seed, no words drawn yet.
#[verifier::external_body]
fn rng_from_seed(seed: u64) -> (r: WaveRng)
    ensures
        r.seed@ == seed,
        r.drawn@ == 0,
{
    WaveRng { rng: rand::SeedableRng::seed_from_u64(seed), seed: Ghost(seed), drawn: Ghost(0) }
}

/// Relies on rand's `Rng::next_u32` on `StdRng`: returns the next word of
/// the seed-determined stream and advances the generator by one word.
#[verifier::external_body]
fn next_word(r: &mut WaveRng) -> (w: u32)
    ensures
        w == rng_word(old(r).seed@, old(r).drawn@),
        final(r).seed@ == old(r).seed@,
        final(r).drawn@ == old(r).drawn@ + 1,
{
    rand::Rng::next_u32(&mut r.rng)
}

/// Amplitudes are drawn below this bound: 0.1 in micro-units.
pub const AMP_RANGE: u32 = 100_000;

/// Direction angles are drawn below this bound: 2π in micro-radians
/// (the largest multiple of a micro-radian below 2π, plus one).
pub const ANGLE_RANGE: u32 = 6_283_186;

/// The speed every wave gets: 1.0 in micro-units.
pub const WAVE_SPEED: u32 = 1_000_000;

/// The amplitude of wave `i` for a seed: the wave's first drawn word,
/// reduced below `AMP_RANGE`.
pub open spec fn spec_amplitude(seed: u64, i: int) -> int {
    (rng_word(seed, 2 * i) as int) % (AMP_RANGE as int)
}

/// The direction angle of wave `i` for a seed: the wave's second drawn
/// word, reduced below `ANGLE_RANGE`.
pub open spec fn spec_angle(seed: u64, i: int) -> int {
    (rng_word(seed, 2 * i + 1) as int) % (ANGLE_RANGE as int)
}

/// The parameters of a superposition of traveling waves, in parallel
/// sequences of one entry per wave: amplitude and direction angle in
/// micro-units, and the fixed per-wave speed.  The spatial frequency pair
/// `(b, c)` is the angle's unit direction scaled by `frequency_micro` of
/// the amplitude; the caller derives it when converting for upload.
pub struct WaveParameterSet {
    pub amplitude_micro: Vec<u32>,
    pub angle_micro: Vec<u32>,
    pub speed_micro: Vec<u32>,
}

/// `w` is exactly what synthesis from `seed` produces for `n` waves.
pub open spec fn synthesized(w: WaveParameterSet, seed: u64, n: int) -> bool {
    &&& w.amplitude_micro@.len() == n
    &&& w.angle_micro@.len() == n
    &&& w.speed_micro@.len() == n
    &&& forall|i: int| 0 <= i < n ==> w.amplitude_micro@[i] == spec_amplitude(seed, i)
    &&& forall|i: int| 0 <= i < n ==> w.angle_micro@[i] == spec_angle(seed, i)
    &&& forall|i: int| 0 <= i < n ==> w.speed_micro@[i] == WAVE_SPEED
}

/// Draw the wave parameters for `num_params` waves from the given seed.
/// The result is a function of `(seed, num_params)` alone; zero waves give
/// empty sequences.
pub fn synthesize(seed: u64, num_params: u32) -> (w: WaveParameterSet)
    ensures
        synthesized(w, seed, num_params as int),
{
    let mut rng = rng_from_seed(seed);
    let mut amplitude_micro: Vec<u32> = Vec::new();
    let mut angle_micro: Vec<u32> = Vec::new();
    let mut speed_micro: Vec<u32> = Vec::new();
    let mut i: u32 = 0;
    while i < num_params
        invariant
            i <= num_params,
            rng.seed@ == seed,
            rng.drawn@ == 2 * (i as int),
            amplitude_micro@.len() == i as int,
            angle_micro@.len() == i as int,
            speed_micro@.len() == i as int,
            forall|k: int| 0 <= k < i ==> amplitude_micro@[k] == spec_amplitude(seed, k),
            forall|k: int| 0 <= k < i ==> angle_micro@[k] == spec_angle(seed, k),
            forall|k: int| 0 <= k < i ==> speed_micro@[k] == WAVE_SPEED,
        decreases num_params - i,
    {
        let wa = next_word(&mut rng);
        amplitude_micro.push(wa % AMP_RANGE);
        let wb = next_word(&mut rng);
        angle_micro.push(wb % ANGLE_RANGE);
        speed_micro.push(WAVE_SPEED);
        i = i + 1;
    }
    WaveParameterSet { amplitude_micro, angle_micro, speed_micro }
}

/// The wave parameters of this renderer: `num_params` waves drawn from the
/// fixed seed 42.
pub fn get_parameters(num_params: u32) -> (w: WaveParameterSet)
    ensures
        synthesized(w, 42, num_params as int),
{
    synthesize(42, num_params)
}

/// The exact frequency scale coupled to an amplitude, in micro-units:
/// `1/(0.01 + 10·a)` over micro-unit fixed point is exactly
/// `10¹¹ / (1000 + amplitude_micro)`, rounded toward zero.
pub fn frequency_micro(amplitude_micro: u32) -> (f: u64)
    requires
        amplitude_micro < AMP_RANGE,
    ensures
        f == 100_000_000_000u64 as int / (1000 + amplitude_micro as int),
{
    100_000_000_000u64 / (1000u64 + amplitude_micro as u64)
}

/// Law: synthesis is deterministic — two parameter sets synthesized from
/// the same seed and wave count are identical, sequence for sequence.
pub proof fn lemma_synthesize_deterministic(
    w1: WaveParameterSet,
    w2: WaveParameterSet,
    seed: u64,
    n: int,
)
    requires
        synthesized(w1, seed, n),
        synthesized(w2, seed, n),
    ensures
        w1.amplitude_micro@ == w2.amplitude_micro@,
        w1.angle_micro@ == w2.angle_micro@,
        w1.speed_micro@ == w2.speed_micro@,
{
    assert forall|i: int| 0 <= i < n implies w1.amplitude_micro@[i] == w2.amplitude_micro@[i] by {
        assert(w1.amplitude_micro@[i] == spec_amplitude(seed, i));
        assert(w2.amplitude_micro@[i] == spec_amplitude(seed, i));
    }
    assert forall|i: int| 0 <= i < n implies w1.angle_micro@[i] == w2.angle_micro@[i] by {
        assert(w1.angle_micro@[i] == spec_angle(seed, i));
        assert(w2.angle_micro@[i] == spec_angle(seed, i));
    }
    assert forall|i: int| 0 <= i < n implies w1.speed_micro@[i] == w2.speed_micro@[i] by {
        assert(w1.speed_micro@[i] == WAVE_SPEED);
        assert(w2.speed_micro@[i] == WAVE_SPEED);
    }
    assert(w1.amplitude_micro@ =~= w2.amplitude_micro@);
    assert(w1.angle_micro@ =~= w2.angle_micro@);
    assert(w1.speed_micro@ =~= w2.speed_micro@);
}

/// Law: every synthesized wave has its amplitude in `[0, 0.1)`, its
/// direction angle in `[0, 2π)` and its speed exactly 1.0, in micro-units.
pub proof fn lemma_wave_ranges(w: WaveParameterSet, seed: u64, n: int)
    requires
        synthesized(w, seed, n),
    ensures
        forall|i: int| 0 <= i < n ==> 0 <= #[trigger] w.amplitude_micro@[i] < AMP_RANGE,
        forall|i: int| 0 <= i < n ==> 0 <= #[trigger] w.angle_micro@[i] < ANGLE_RANGE,
        forall|i: int| 0 <= i < n ==> #[trigger] w.speed_micro@[i] == WAVE_SPEED,
{
    assert forall|i: int| 0 <= i < n implies 0 <= #[trigger] w.amplitude_micro@[i]
        < AMP_RANGE by {
        assert(w.amplitude_micro@[i] == spec_amplitude(seed, i));
        vstd::arithmetic::div_mod::lemma_mod_bound(rng_word(seed, 2 * i) as int, AMP_RANGE as int);
    }
    assert forall|i: int| 0 <= i < n implies 0 <= #[trigger] w.angle_micro@[i] < ANGLE_RANGE by {
        assert(w.angle_micro@[i] == spec_angle(seed, i));
        vstd::arithmetic::div_mod::lemma_mod_bound(
            rng_word(seed, 2 * i + 1) as int,
            ANGLE_RANGE as int,
        );
    }
}

} // verus!
