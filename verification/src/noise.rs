//! Coherent-noise sampling and fractal (fBm) layering.
//!
//! The primitive is a seeded lattice noise: each whole-unit lattice corner
//! is assigned a pseudo-random value in `[-1, 1]` by an integer hash of its
//! coordinates and the seed, and samples between corners are bilinearly
//! interpolated. It fills the role a 2-D simplex evaluation plays for a
//! floating-point sampler: a deterministic, seeded map from a plane position
//! to a bounded scalar.
//!
//! The fractal variant sums `octaves` layers, each layer's input frequency
//! scaled by `lacunarity` and its output amplitude scaled by `gain`,
//! starting from amplitude 1 and frequency 1. The sum is remapped to
//! `[0, 1]` using the per-configuration amplitude bound
//! `1 + |gain| + |gain|^2 + ...` (the geometric series
//! `(1 - gain^octaves) / (1 - gain)` when the gain is positive), never a
//! scan of the sampled values, so every sample is reproducible on its own.

use vstd::prelude::*;
use crate::curve::TerrainCurve;
use crate::fixed::{
    ONE, CAP, Fx2, fits, cap_i, abs_i, fp_mul_i, lerp_i, cap_add, fp_abs, fp_mul, lerp, remap,
    remap_i, floor_split, lemma_lerp_mag, lemma_fp_mul_unit_mag, mul_div_i, tdiv, PARAM_LIMIT,
};

verus! {

/// One 64-bit avalanche round: every input bit influences every output bit.
#[verifier::opaque]
pub open spec fn mix64(z: u64) -> u64 {
    let a: u64 = (z ^ (z >> 33)).wrapping_mul(0xff51afd7ed558ccd);
    let b: u64 = (a ^ (a >> 33)).wrapping_mul(0xc4ceb9fe1a85ec53);
    b ^ (b >> 33)
}

/// One 64-bit avalanche round (executable form of `mix64`).
fn mix64_x(z: u64) -> (r: u64)
    ensures
        r == mix64(z),
{
    proof {
        reveal(mix64);
    }
    let a: u64 = (z ^ (z >> 33)).wrapping_mul(0xff51afd7ed558ccd);
    let b: u64 = (a ^ (a >> 33)).wrapping_mul(0xc4ceb9fe1a85ec53);
    b ^ (b >> 33)
}

/// The pseudo-random corner value in `[-ONE, ONE]` assigned to the lattice
/// point `(ix, iy)` under `seed`.
#[verifier::opaque]
pub open spec fn corner_value(ix: int, iy: int, seed: u64) -> int
    recommends
        -0x8000_0000 <= ix <= 0x8000_0000,
        -0x8000_0000 <= iy <= 0x8000_0000,
{
    let ux: u64 = (ix + 0x100_0000_0000) as u64;
    let uy: u64 = (iy + 0x100_0000_0000) as u64;
    let h: u64 = mix64(mix64(ux.wrapping_add(seed)) ^ uy);
    (h % 131073) - 65536
}

/// The corner value, executably.
fn corner_value_x(ix: i64, iy: i64, seed: u64) -> (r: i64)
    requires
        -0x8000_0000 <= ix <= 0x8000_0000,
        -0x8000_0000 <= iy <= 0x8000_0000,
    ensures
        r == corner_value(ix as int, iy as int, seed),
        -(ONE as int) <= r <= ONE as int,
{
    proof {
        reveal(corner_value);
    }
    let ux: u64 = (ix + 0x100_0000_0000) as u64;
    let uy: u64 = (iy + 0x100_0000_0000) as u64;
    let h: u64 = mix64_x(mix64_x(ux.wrapping_add(seed)) ^ uy);
    (h % 131073) as i64 - ONE
}

/// A single seeded coherent-noise evaluation at a fixed-point plane
/// position: the bilinear blend of the four surrounding corner values.
#[verifier::opaque]
pub open spec fn noise_at(px: int, py: int, seed: u64) -> int {
    let x0: int = px / (ONE as int);
    let fx: int = px % (ONE as int);
    let y0: int = py / (ONE as int);
    let fy: int = py % (ONE as int);
    let v00: int = corner_value(x0, y0, seed);
    let v10: int = corner_value(x0 + 1, y0, seed);
    let v01: int = corner_value(x0, y0 + 1, seed);
    let v11: int = corner_value(x0 + 1, y0 + 1, seed);
    lerp_i(lerp_i(v00, v10, fx), lerp_i(v01, v11, fx), fy)
}

/// A single seeded coherent-noise evaluation; output in `[-1, 1]`.
pub fn simplex_noise_2d_seeded(pos: Fx2, seed: u64) -> (r: i64)
    requires
        fits(pos.x as int),
        fits(pos.y as int),
    ensures
        r == noise_at(pos.x as int, pos.y as int, seed),
        -(ONE as int) <= r <= ONE as int,
{
    proof {
        reveal(noise_at);
    }
    let (x0, fx) = floor_split(pos.x);
    let (y0, fy) = floor_split(pos.y);
    let v00: i64 = corner_value_x(x0, y0, seed);
    let v10: i64 = corner_value_x(x0 + 1, y0, seed);
    let v01: i64 = corner_value_x(x0, y0 + 1, seed);
    let v11: i64 = corner_value_x(x0 + 1, y0 + 1, seed);
    let a: i64 = lerp(v00, v10, fx);
    let b: i64 = lerp(v01, v11, fx);
    proof {
        lemma_lerp_mag(v00 as int, v10 as int, fx as int, ONE as int);
        lemma_lerp_mag(v01 as int, v11 as int, fx as int, ONE as int);
        lemma_lerp_mag(a as int, b as int, fy as int, ONE as int);
    }
    lerp(a, b, fy)
}

/// The fractal accumulation continued from a partial state: `o` octaves
/// remain; `sum` and `bound` are the running (saturating) layer sum and the
/// running sum of amplitude magnitudes; `amplitude` and `frequency` are what
/// the next layer would use. Yields the final `(sum, bound)`.
pub open spec fn fbm_from(
    px: int,
    py: int,
    o: nat,
    sum: int,
    bound: int,
    amplitude: int,
    frequency: int,
    lacunarity: int,
    gain: int,
    seed: u64,
) -> (int, int)
    decreases o,
{
    if o == 0 {
        (sum, bound)
    } else {
        let sx: int = fp_mul_i(px, frequency);
        let sy: int = fp_mul_i(py, frequency);
        let term: int = fp_mul_i(noise_at(sx, sy, seed), amplitude);
        fbm_from(
            px,
            py,
            (o - 1) as nat,
            cap_i(sum + term),
            cap_i(bound + abs_i(amplitude)),
            fp_mul_i(amplitude, gain),
            fp_mul_i(frequency, lacunarity),
            lacunarity,
            gain,
            seed,
        )
    }
}

/// The raw fractal sum over all octaves, and its analytic amplitude bound,
/// starting from amplitude 1 and frequency 1.
pub open spec fn fbm_sum_bound(
    px: int,
    py: int,
    octaves: nat,
    lacunarity: int,
    gain: int,
    seed: u64,
) -> (int, int) {
    fbm_from(px, py, octaves, 0, 0, ONE as int, ONE as int, lacunarity, gain, seed)
}

/// Computes the raw fractal sum together with its amplitude bound.
pub(crate) fn fbm_components(pos: Fx2, octaves: usize, lacunarity: i64, gain: i64, seed: u64) -> (r: (
    i64,
    i64,
))
    requires
        fits(pos.x as int),
        fits(pos.y as int),
        -(PARAM_LIMIT as int) <= lacunarity <= PARAM_LIMIT as int,
        -(PARAM_LIMIT as int) <= gain <= PARAM_LIMIT as int,
    ensures
        (r.0 as int, r.1 as int) == fbm_sum_bound(
            pos.x as int,
            pos.y as int,
            octaves as nat,
            lacunarity as int,
            gain as int,
            seed,
        ),
        abs_i(r.0 as int) <= r.1 <= CAP,
        octaves >= 1 ==> ONE as int <= r.1,
{
    let mut sum: i64 = 0;
    let mut bound: i64 = 0;
    let mut amplitude: i64 = ONE;
    let mut frequency: i64 = ONE;
    let mut k: usize = 0;
    let ghost full: (int, int) = fbm_sum_bound(
        pos.x as int,
        pos.y as int,
        octaves as nat,
        lacunarity as int,
        gain as int,
        seed,
    );
    while k < octaves
        invariant
            k <= octaves,
            fits(pos.x as int),
            fits(pos.y as int),
            fits(sum as int),
            fits(bound as int),
            fits(amplitude as int),
            fits(frequency as int),
            fits(lacunarity as int),
            fits(gain as int),
            abs_i(sum as int) <= bound as int,
            0 <= bound,
            k >= 1 ==> ONE as int <= bound,
            k == 0 ==> amplitude == ONE,
            full == fbm_from(
                pos.x as int,
                pos.y as int,
                (octaves - k) as nat,
                sum as int,
                bound as int,
                amplitude as int,
                frequency as int,
                lacunarity as int,
                gain as int,
                seed,
            ),
        decreases octaves - k,
    {
        let sx: i64 = fp_mul(pos.x, frequency);
        let sy: i64 = fp_mul(pos.y, frequency);
        let n: i64 = simplex_noise_2d_seeded(Fx2 { x: sx, y: sy }, seed);
        let term: i64 = fp_mul(n, amplitude);
        proof {
            assert((n as int) * (amplitude as int) == (amplitude as int) * (n as int));
            lemma_fp_mul_unit_mag(amplitude as int, n as int, abs_i(amplitude as int));
        }
        let new_sum: i64 = cap_add(sum, term);
        let new_bound: i64 = cap_add(bound, fp_abs(amplitude));
        let new_amplitude: i64 = fp_mul(amplitude, gain);
        let new_frequency: i64 = fp_mul(frequency, lacunarity);
        sum = new_sum;
        bound = new_bound;
        amplitude = new_amplitude;
        frequency = new_frequency;
        k = k + 1;
    }
    (sum, bound)
}

/// Remapping a sum that lies within `[-bound, bound]` to `[0, 1]` indeed
/// lands in `[0, 1]`, for any positive bound.
proof fn lemma_remap_unit(s: int, b: int)
    requires
        1 <= b <= CAP as int,
        -b <= s <= b,
    ensures
        0 <= remap_i(s, -b, b, 0, ONE as int) <= ONE as int,
{
    let num: int = cap_i(s + b);
    assert(0 <= num && num <= 2 * b);
    let q: int = tdiv(num * (ONE as int), 2 * b);
    assert(0 <= q <= ONE as int) by (nonlinear_arith)
        requires
            q == (num * (ONE as int)) / (2 * b),
            0 <= num <= 2 * b,
            1 <= b,
            (ONE as int) == 65536,
    ;
    assert(mul_div_i(num, cap_i(ONE - 0), 2 * b) == q);
    assert(remap_i(s, -b, b, 0, ONE as int) == cap_i(0 + q));
}

/// Fractal Brownian motion over the seeded noise primitive.
#[derive(Clone, Copy, PartialEq, Eq, Structural, Debug)]
pub struct FMBSimplex {
    /// How many noise layers are summed.
    pub octaves: usize,
    /// Frequency multiplier from one layer to the next.
    pub lacunarity: i64,
    /// Amplitude multiplier from one layer to the next.
    pub gain: i64,
}

impl FMBSimplex {
    /// At least one octave, and the multipliers within machine bounds.
    pub open spec fn wf(self) -> bool {
        &&& 1 <= self.octaves
        &&& -(PARAM_LIMIT as int) <= self.lacunarity <= PARAM_LIMIT as int
        &&& -(PARAM_LIMIT as int) <= self.gain <= PARAM_LIMIT as int
    }

    /// The fractal value at a position: the raw sum remapped from
    /// `[-bound, bound]` to `[0, 1]` by the analytic amplitude bound.
    pub open spec fn value_i(self, px: int, py: int, seed: u64) -> int {
        let (s, b) = fbm_sum_bound(
            px,
            py,
            self.octaves as nat,
            self.lacunarity as int,
            self.gain as int,
            seed,
        );
        remap_i(s, -b, b, 0, ONE as int)
    }

    /// Sample the fractal noise; the result always lies in `[0, 1]`.
    pub fn get(&self, pos: Fx2, seed: u64) -> (r: i64)
        requires
            self.wf(),
            fits(pos.x as int),
            fits(pos.y as int),
        ensures
            r == self.value_i(pos.x as int, pos.y as int, seed),
            0 <= r <= ONE as int,
    {
        let (s, b): (i64, i64) = fbm_components(pos, self.octaves, self.lacunarity, self.gain, seed);
        proof {
            lemma_remap_unit(s as int, b as int);
        }
        remap(s, -b, b, 0, ONE)
    }
}

/// The choice of noise sampler.
#[derive(Clone, Copy, PartialEq, Eq, Structural, Debug)]
pub enum TerrainNoiseMode {
    FMBSimplex(FMBSimplex),
    Simplex,
}

/// Noise configuration: sampler mode, input scale and offset, seed, and the
/// response curve applied to every sample.
#[derive(Clone, Copy, PartialEq, Eq, Structural, Debug)]
pub struct TerrainNoise {
    pub mode: TerrainNoiseMode,
    /// World-space scale of the noise features.
    pub scale: i64,
    /// World-space offset added to every sample position.
    pub offset: Fx2,
    pub seed: u64,
    /// Curve applied to the noise to allow for more control over the terrain.
    pub correction: TerrainCurve,
}

impl TerrainNoise {
    /// Every configured field within machine bounds.
    pub open spec fn wf(self) -> bool {
        &&& match self.mode {
            TerrainNoiseMode::FMBSimplex(f) => f.wf(),
            TerrainNoiseMode::Simplex => true,
        }
        &&& -(PARAM_LIMIT as int) <= self.scale <= PARAM_LIMIT as int
        &&& -(PARAM_LIMIT as int) <= self.offset.x <= PARAM_LIMIT as int
        &&& -(PARAM_LIMIT as int) <= self.offset.y <= PARAM_LIMIT as int
        &&& self.correction.wf()
    }

    /// The corrected noise value at a position: the mode's sample passed
    /// through the response curve.
    pub open spec fn value_i(self, px: int, py: int, seed: u64) -> int {
        let base: int = match self.mode {
            TerrainNoiseMode::FMBSimplex(f) => f.value_i(px, py, seed),
            TerrainNoiseMode::Simplex => noise_at(px, py, seed),
        };
        self.correction.apply_i(base)
    }

    /// Sample the configured noise at a position and apply the curve.
    pub fn get(&self, pos: Fx2, seed: u64) -> (r: i64)
        requires
            self.wf(),
            fits(pos.x as int),
            fits(pos.y as int),
        ensures
            r == self.value_i(pos.x as int, pos.y as int, seed),
            !self.correction.invert ==> self.correction.clamp_lo() <= r
                <= self.correction.clamp_hi(),
            self.correction.invert ==> ONE - self.correction.clamp_hi() <= r <= ONE
                - self.correction.clamp_lo(),
            self.correction.out_lo() <= r <= self.correction.out_hi(),
    {
        let base: i64 = match &self.mode {
            TerrainNoiseMode::FMBSimplex(f) => f.get(pos, seed),
            TerrainNoiseMode::Simplex => simplex_noise_2d_seeded(pos, seed),
        };
        self.correction.get(base)
    }
}

impl Default for FMBSimplex {
    /// Six octaves, lacunarity 4, gain 0.3 (19661/65536).
    fn default() -> (r: Self)
        ensures
            r == (FMBSimplex { octaves: 6, lacunarity: 262144, gain: 19661 }),
            r.wf(),
    {
        FMBSimplex { octaves: 6, lacunarity: 4 * ONE, gain: 19661 }
    }
}

impl Default for TerrainNoiseMode {
    fn default() -> (r: Self)
        ensures
            r == TerrainNoiseMode::FMBSimplex(FMBSimplex { octaves: 6, lacunarity: 262144, gain: 19661 }),
    {
        TerrainNoiseMode::FMBSimplex(FMBSimplex::default())
    }
}

impl TerrainNoise {
    /// The default noise configuration, as a specification value.
    pub open spec fn default_value() -> TerrainNoise {
        TerrainNoise {
            mode: TerrainNoiseMode::FMBSimplex(
                FMBSimplex { octaves: 6, lacunarity: 262144, gain: 19661 },
            ),
            scale: 45875,
            offset: Fx2 { x: 0, y: 0 },
            seed: 0,
            correction: TerrainCurve {
                mode: crate::curve::TerrainCurveMode::Linear,
                invert: false,
                clamp: Fx2 { x: 0, y: ONE },
                offset: 0,
            },
        }
    }
}

impl Default for TerrainNoise {
    /// Fractal mode, scale 0.7 (45875/65536), no offset, seed 0, default
    /// curve.
    fn default() -> (r: Self)
        ensures
            r == TerrainNoise::default_value(),
            r.wf(),
    {
        TerrainNoise {
            mode: TerrainNoiseMode::default(),
            scale: 45875,
            offset: Fx2 { x: 0, y: 0 },
            seed: 0,
            correction: TerrainCurve::default(),
        }
    }
}

} // verus!
