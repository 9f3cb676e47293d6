//! Response curves applied to sampled heights: a shaping function over the
//! offset input, a clamp to a configured band, and an optional inversion.
//!
//! The operation order is fixed: the offset is added to the input first, the
//! shape is applied to that sum, the result is clamped to
//! `[min(clamp.x, clamp.y), max(clamp.x, clamp.y)]`, and inversion
//! (`1 - x`) comes last.

use vstd::prelude::*;
use crate::fixed::{
    ONE, Fx2, fits, cap_i, clamp_i, fp_mul_i, cap_add, cap_sub, fp_mul, fp_clamp, PARAM_LIMIT,
};

verus! {

/// Curve types for terrain generation.
#[derive(Clone, Copy, PartialEq, Eq, Structural, Debug)]
pub enum TerrainCurveMode {
    Linear,
    SquareIn,
    SquareOut,
    CubicIn,
    CubicOut,
    CubicInOut,
}

/// A response curve: shaping mode, additive offset, clamp band, inversion.
#[derive(Clone, Copy, PartialEq, Eq, Structural, Debug)]
pub struct TerrainCurve {
    pub mode: TerrainCurveMode,
    pub invert: bool,
    pub clamp: Fx2,
    pub offset: i64,
}

/// The shaping function of one curve mode, on an offset input.
pub open spec fn shape_i(mode: TerrainCurveMode, x: int) -> int {
    match mode {
        TerrainCurveMode::Linear => x,
        TerrainCurveMode::SquareIn => fp_mul_i(x, x),
        TerrainCurveMode::SquareOut => cap_i(
            ONE - fp_mul_i(cap_i(ONE - x), cap_i(ONE - x)),
        ),
        TerrainCurveMode::CubicIn => fp_mul_i(fp_mul_i(x, x), x),
        TerrainCurveMode::CubicOut => cap_i(
            ONE - fp_mul_i(fp_mul_i(cap_i(ONE - x), cap_i(ONE - x)), cap_i(ONE - x)),
        ),
        TerrainCurveMode::CubicInOut => {
            if x < ONE / 2 {
                fp_mul_i(fp_mul_i(fp_mul_i(x, x), x), 4 * ONE)
            } else {
                let c: int = cap_i(2 * ONE - cap_i(x + x));
                cap_i(ONE - fp_mul_i(fp_mul_i(fp_mul_i(c, c), c), ONE / 2))
            }
        },
    }
}

impl TerrainCurve {
    /// The configured parameters stay within the machine bounds of the
    /// fixed-point arithmetic.
    pub open spec fn wf(self) -> bool {
        &&& -(PARAM_LIMIT as int) <= self.clamp.x <= PARAM_LIMIT as int
        &&& -(PARAM_LIMIT as int) <= self.clamp.y <= PARAM_LIMIT as int
        &&& -(PARAM_LIMIT as int) <= self.offset <= PARAM_LIMIT as int
    }

    /// The lower end of the clamp band.
    pub open spec fn clamp_lo(self) -> int {
        if self.clamp.x <= self.clamp.y {
            self.clamp.x as int
        } else {
            self.clamp.y as int
        }
    }

    /// The upper end of the clamp band.
    pub open spec fn clamp_hi(self) -> int {
        if self.clamp.x <= self.clamp.y {
            self.clamp.y as int
        } else {
            self.clamp.x as int
        }
    }

    /// The lowest value the curve can output: the clamp band's low end, or
    /// its reflection when the curve inverts.
    pub open spec fn out_lo(self) -> int {
        if self.invert {
            ONE - self.clamp_hi()
        } else {
            self.clamp_lo()
        }
    }

    /// The highest value the curve can output.
    pub open spec fn out_hi(self) -> int {
        if self.invert {
            ONE - self.clamp_lo()
        } else {
            self.clamp_hi()
        }
    }

    /// The full curve: shape the offset input, clamp, optionally invert.
    pub open spec fn apply_i(self, h: int) -> int {
        let shaped: int = shape_i(self.mode, cap_i(h + self.offset));
        let clamped: int = clamp_i(shaped, self.clamp_lo(), self.clamp_hi());
        if self.invert {
            cap_i(ONE - clamped)
        } else {
            clamped
        }
    }

    /// Apply the curve to a height value.
    pub fn get(&self, height: i64) -> (r: i64)
        requires
            self.wf(),
            fits(height as int),
        ensures
            r == self.apply_i(height as int),
            !self.invert ==> self.clamp_lo() <= r <= self.clamp_hi(),
            self.invert ==> ONE - self.clamp_hi() <= r <= ONE - self.clamp_lo(),
    {
        let x: i64 = cap_add(height, self.offset);
        let shaped: i64 = match self.mode {
            TerrainCurveMode::Linear => x,
            TerrainCurveMode::SquareIn => fp_mul(x, x),
            TerrainCurveMode::SquareOut => {
                let u: i64 = cap_sub(ONE, x);
                cap_sub(ONE, fp_mul(u, u))
            },
            TerrainCurveMode::CubicIn => fp_mul(fp_mul(x, x), x),
            TerrainCurveMode::CubicOut => {
                let u: i64 = cap_sub(ONE, x);
                cap_sub(ONE, fp_mul(fp_mul(u, u), u))
            },
            TerrainCurveMode::CubicInOut => {
                if x < ONE / 2 {
                    fp_mul(fp_mul(fp_mul(x, x), x), 4 * ONE)
                } else {
                    let c: i64 = cap_sub(2 * ONE, cap_add(x, x));
                    cap_sub(ONE, fp_mul(fp_mul(fp_mul(c, c), c), ONE / 2))
                }
            },
        };
        let lo: i64 = if self.clamp.x <= self.clamp.y {
            self.clamp.x
        } else {
            self.clamp.y
        };
        let hi: i64 = if self.clamp.x <= self.clamp.y {
            self.clamp.y
        } else {
            self.clamp.x
        };
        let clamped: i64 = fp_clamp(shaped, lo, hi);
        if self.invert {
            cap_sub(ONE, clamped)
        } else {
            clamped
        }
    }
}

impl Default for TerrainCurveMode {
    fn default() -> (r: Self)
        ensures
            r == TerrainCurveMode::Linear,
    {
        TerrainCurveMode::Linear
    }
}

impl Default for TerrainCurve {
    /// Linear shape, no offset, clamp to `[0, 1]`, no inversion.
    fn default() -> (r: Self)
        ensures
            r == (TerrainCurve {
                mode: TerrainCurveMode::Linear,
                invert: false,
                clamp: Fx2 { x: 0, y: ONE },
                offset: 0,
            }),
            r.wf(),
    {
        TerrainCurve {
            mode: TerrainCurveMode::default(),
            invert: false,
            clamp: Fx2 { x: 0, y: ONE },
            offset: 0,
        }
    }
}

/// The output of a non-inverting curve always lies in its clamp band,
/// whatever the input: the clamp is the last step before inversion.
pub proof fn lemma_curve_output_clamped(c: TerrainCurve, h: int)
    requires
        c.wf(),
        !c.invert,
    ensures
        c.clamp_lo() <= c.apply_i(h) <= c.clamp_hi(),
{
}

} // verus!
