//! Signed fixed-point scalars: `i64` values carrying 16 fractional bits.
//!
//! Every operation saturates its result to the symmetric range
//! `[-CAP, CAP]`, so each one is total and its exact outcome (including
//! saturation) is pinned by a spec-level mirror. In the terrain pipeline the
//! magnitudes stay far below `CAP`, where the saturating operations agree
//! with exact rational arithmetic truncated toward zero.

use vstd::prelude::*;

verus! {

/// One whole unit: the fixed-point encoding of 1.
pub const ONE: i64 = 65536;

/// Magnitude bound to which every arithmetic result is saturated.
pub const CAP: i64 = 0x4000_0000_0000;

/// Magnitude bound for user-configured parameters (scales, offsets, clamp
/// ends, erosion tunables): far below `CAP`, so derived quantities have
/// room before saturation.
pub const PARAM_LIMIT: i64 = 0x1_0000_0000;

/// Saturate a mathematical integer to `[-CAP, CAP]`.
pub open spec fn cap_i(x: int) -> int {
    if x > CAP as int {
        CAP as int
    } else if x < -(CAP as int) {
        -(CAP as int)
    } else {
        x
    }
}

/// Division truncated toward zero (the direction `i64` division rounds),
/// for a positive divisor.
pub open spec fn tdiv(a: int, b: int) -> int
    recommends
        b > 0,
{
    if a >= 0 {
        a / b
    } else {
        -((-a) / b)
    }
}

/// Multiply, divide by a positive divisor truncating toward zero, saturate.
pub open spec fn mul_div_i(a: int, b: int, d: int) -> int
    recommends
        d > 0,
{
    cap_i(tdiv(a * b, d))
}

/// Fixed-point product: `a * b` scaled back down by one unit.
pub open spec fn fp_mul_i(a: int, b: int) -> int {
    mul_div_i(a, b, ONE as int)
}

/// Fixed-point quotient: `a / b` scaled up by one unit, for positive `b`.
pub open spec fn fp_div_i(a: int, b: int) -> int
    recommends
        b > 0,
{
    mul_div_i(a, ONE as int, b)
}

/// A value the saturating operations accept: already within `[-CAP, CAP]`.
pub open spec fn fits(x: int) -> bool {
    -(CAP as int) <= x <= CAP as int
}

/// Saturating addition.
pub fn cap_add(a: i64, b: i64) -> (r: i64)
    requires
        fits(a as int),
        fits(b as int),
    ensures
        r == cap_i(a + b),
        fits(r as int),
{
    let s: i64 = a + b;
    if s > CAP {
        CAP
    } else if s < -CAP {
        -CAP
    } else {
        s
    }
}

/// Saturating subtraction.
pub fn cap_sub(a: i64, b: i64) -> (r: i64)
    requires
        fits(a as int),
        fits(b as int),
    ensures
        r == cap_i(a - b),
        fits(r as int),
{
    let s: i64 = a - b;
    if s > CAP {
        CAP
    } else if s < -CAP {
        -CAP
    } else {
        s
    }
}

/// Multiply two fixed-point values and divide by a positive one, truncating
/// toward zero and saturating to `[-CAP, CAP]`.
pub fn mul_div(a: i64, b: i64, d: i64) -> (r: i64)
    requires
        fits(a as int),
        fits(b as int),
        0 < d,
    ensures
        r == mul_div_i(a as int, b as int, d as int),
        fits(r as int),
{
    proof {
        assert(-((CAP as int) * (CAP as int)) <= (a as int) * (b as int)
            <= (CAP as int) * (CAP as int)) by (nonlinear_arith)
            requires
                -(CAP as int) <= a as int <= CAP as int,
                -(CAP as int) <= b as int <= CAP as int,
        ;
    }
    let p: i128 = (a as i128) * (b as i128);
    let neg: bool = p < 0;
    let m: u128 = if neg {
        (-p) as u128
    } else {
        p as u128
    };
    let q: u128 = m / (d as u128);
    let qc: u128 = if q > (CAP as u128) {
        CAP as u128
    } else {
        q
    };
    if neg {
        -(qc as i64)
    } else {
        qc as i64
    }
}

/// Fixed-point multiplication.
pub fn fp_mul(a: i64, b: i64) -> (r: i64)
    requires
        fits(a as int),
        fits(b as int),
    ensures
        r == fp_mul_i(a as int, b as int),
        fits(r as int),
{
    mul_div(a, b, ONE)
}

/// Fixed-point division by a positive value.
pub fn fp_div(a: i64, b: i64) -> (r: i64)
    requires
        fits(a as int),
        0 < b,
    ensures
        r == fp_div_i(a as int, b as int),
        fits(r as int),
{
    mul_div(a, ONE, b)
}

/// A pair of fixed-point scalars (a planar position, offset or extent).
#[derive(Clone, Copy, PartialEq, Eq, Structural, Debug)]
pub struct Fx2 {
    pub x: i64,
    pub y: i64,
}

/// A triple of fixed-point scalars (a spatial position or direction).
#[derive(Clone, Copy, PartialEq, Eq, Structural, Debug)]
pub struct Fx3 {
    pub x: i64,
    pub y: i64,
    pub z: i64,
}

/// Absolute value.
pub open spec fn abs_i(a: int) -> int {
    if a < 0 {
        -a
    } else {
        a
    }
}

/// Absolute value.
pub fn fp_abs(a: i64) -> (r: i64)
    requires
        fits(a as int),
    ensures
        r == abs_i(a as int),
{
    if a < 0 {
        -a
    } else {
        a
    }
}

/// Split a fixed-point value into the whole-unit lattice cell below it
/// (the floor) and the fractional offset inside that cell, in `[0, ONE)`.
pub fn floor_split(a: i64) -> (r: (i64, i64))
    requires
        fits(a as int),
    ensures
        r.0 == (a as int) / (ONE as int),
        r.1 == (a as int) % (ONE as int),
        a == r.0 * (ONE as int) + r.1,
        0 <= r.1 < ONE,
        -0x4000_0001 <= r.0 <= 0x4000_0000,
{
    let q: i64 = if a >= 0 {
        a / ONE
    } else {
        -((-a - 1) / ONE) - 1
    };
    proof {
        if a < 0 {
            let d: int = (-a - 1) as int / (ONE as int);
            assert((ONE as int) * d <= -a - 1 < (ONE as int) * (d + 1)) by (nonlinear_arith)
                requires
                    d == (-a - 1) as int / (ONE as int),
                    (ONE as int) == 65536,
                    -a - 1 >= 0,
            ;
            assert(q == -d - 1);
            assert((ONE as int) * (-d - 1) <= a < (ONE as int) * (-d - 1) + ONE);
            assert(a as int / (ONE as int) == -d - 1 && a as int % (ONE as int) == a - (ONE
                as int) * (-d - 1)) by (nonlinear_arith)
                requires
                    (ONE as int) == 65536,
                    (ONE as int) * (-d - 1) <= a < (ONE as int) * (-d - 1) + (ONE as int),
            ;
        } else {
            assert((ONE as int) * (a as int / (ONE as int)) + a as int % (ONE as int) == a as int
                && 0 <= a as int % (ONE as int) < ONE as int) by (nonlinear_arith)
                requires
                    (ONE as int) == 65536,
                    a >= 0,
            ;
        }
    }
    let rem: i64 = a - q * ONE;
    (q, rem)
}

/// Clamp `x` into the closed interval `[lo, hi]`.
pub open spec fn clamp_i(x: int, lo: int, hi: int) -> int
    recommends
        lo <= hi,
{
    if x < lo {
        lo
    } else if x > hi {
        hi
    } else {
        x
    }
}

/// `r` is the integer square root of `n`, rounded down.
pub open spec fn is_sqrt_floor(n: int, r: int) -> bool {
    0 <= r && r * r <= n && n < (r + 1) * (r + 1)
}

/// The integer square root, rounded down (meaningful for `n >= 0`).
pub closed spec fn sqrt_floor(n: int) -> int {
    choose|r: int| is_sqrt_floor(n, r)
}

/// Any witness of `is_sqrt_floor` is the `sqrt_floor`.
pub proof fn lemma_sqrt_floor_unique(n: int, r: int)
    requires
        is_sqrt_floor(n, r),
    ensures
        r == sqrt_floor(n),
        is_sqrt_floor(n, sqrt_floor(n)),
{
    let w: int = sqrt_floor(n);
    assert(is_sqrt_floor(n, w));
    assert(w == r) by (nonlinear_arith)
        requires
            0 <= r,
            r * r <= n,
            n < (r + 1) * (r + 1),
            0 <= w,
            w * w <= n,
            n < (w + 1) * (w + 1),
    ;
}

/// The square root of a fixed-point value, as a fixed-point value: the
/// integer square root of `x` rescaled by one unit.
pub open spec fn fp_sqrt_i(x: int) -> int {
    sqrt_floor(x * ONE)
}

/// Fixed-point square root, rounded down.
pub fn fp_sqrt(x: i64) -> (r: i64)
    requires
        0 <= x <= CAP,
    ensures
        r == fp_sqrt_i(x as int),
        is_sqrt_floor(x as int * (ONE as int), r as int),
        0 <= r <= 0x1_0000_0000,
        fits(r as int),
{
    proof {
        assert((x as int) * (ONE as int) <= 0x4000_0000_0000_0000) by (nonlinear_arith)
            requires
                0 <= x as int <= CAP as int,
                (ONE as int) == 65536,
                (CAP as int) == 0x4000_0000_0000,
        ;
    }
    let n: u128 = (x as u128) * (ONE as u128);
    let mut lo: u128 = 0;
    let mut hi: u128 = 0x2_0000_0000;
    while lo + 1 < hi
        invariant
            lo * lo <= n,
            n < hi * hi,
            lo < hi <= 0x2_0000_0000,
            n <= 0x4000_0000_0000_0000,
        decreases hi - lo,
    {
        let mid: u128 = (lo + hi) / 2;
        proof {
            assert(mid * mid < 0x2_0000_0000 * 0x2_0000_0000) by (nonlinear_arith)
                requires
                    0 <= mid < 0x2_0000_0000,
            ;
        }
        if mid * mid <= n {
            lo = mid;
        } else {
            hi = mid;
        }
    }
    proof {
        assert(hi == lo + 1);
        lemma_sqrt_floor_unique(n as int, lo as int);
        assert(lo <= 0x1_0000_0000) by (nonlinear_arith)
            requires
                lo * lo <= 0x4000_0000_0000_0000,
                0 <= lo,
        ;
    }
    lo as i64
}

/// Linear interpolation from `a` to `b` by the fixed-point fraction `t`:
/// `a * (1 - t) + b * t`.
pub open spec fn lerp_i(a: int, b: int, t: int) -> int {
    cap_i(fp_mul_i(a, cap_i(ONE - t)) + fp_mul_i(b, t))
}

/// Linear interpolation from `a` to `b` by the fraction `t`.
pub fn lerp(a: i64, b: i64, t: i64) -> (r: i64)
    requires
        fits(a as int),
        fits(b as int),
        fits(t as int),
    ensures
        r == lerp_i(a as int, b as int, t as int),
        fits(r as int),
{
    let u: i64 = cap_sub(ONE, t);
    cap_add(fp_mul(a, u), fp_mul(b, t))
}

/// Remap `v` from the range `[omin, omax]` to the range `[tmin, tmax]`.
pub open spec fn remap_i(v: int, omin: int, omax: int, tmin: int, tmax: int) -> int
    recommends
        omin < omax,
{
    cap_i(tmin + mul_div_i(cap_i(v - omin), cap_i(tmax - tmin), omax - omin))
}

/// Remaps a value from one range to another range.
pub fn remap(v: i64, omin: i64, omax: i64, tmin: i64, tmax: i64) -> (r: i64)
    requires
        fits(v as int),
        fits(omin as int),
        fits(omax as int),
        fits(tmin as int),
        fits(tmax as int),
        omin < omax,
    ensures
        r == remap_i(v as int, omin as int, omax as int, tmin as int, tmax as int),
        fits(r as int),
{
    let num: i64 = cap_sub(v, omin);
    let span: i64 = cap_sub(tmax, tmin);
    cap_add(tmin, mul_div(num, span, omax - omin))
}

/// A value within `m` whole units, divided by one unit truncating toward
/// zero, lies within `m`.
pub proof fn lemma_tdiv_unit_mag(a: int, m: int)
    requires
        -(m * (ONE as int)) <= a <= m * (ONE as int),
        0 <= m,
    ensures
        -m <= tdiv(a, ONE as int) <= m,
        a >= 0 ==> 0 <= tdiv(a, ONE as int),
        a <= 0 ==> tdiv(a, ONE as int) <= 0,
{
    let o: int = ONE as int;
    if a >= 0 {
        assert(0 <= a / o <= m) by (nonlinear_arith)
            requires
                o == 65536,
                0 <= a <= m * o,
                0 <= m,
        ;
    } else {
        assert(0 <= (-a) / o <= m) by (nonlinear_arith)
            requires
                o == 65536,
                0 <= -a <= m * o,
                0 <= m,
        ;
    }
}

/// Multiplying by a fraction in `[0, 1]` never grows a magnitude.
pub proof fn lemma_fp_mul_frac_mag(a: int, t: int, m: int)
    requires
        0 <= t <= ONE as int,
        -m <= a <= m,
        0 <= m <= CAP as int,
    ensures
        -m <= fp_mul_i(a, t) <= m,
        a >= 0 ==> 0 <= fp_mul_i(a, t),
{
    assert(-(m * (ONE as int)) <= a * t <= m * (ONE as int)) by (nonlinear_arith)
        requires
            0 <= t <= ONE as int,
            -m <= a <= m,
            0 <= m,
    ;
    assert(a >= 0 ==> a * t >= 0) by (nonlinear_arith)
        requires
            0 <= t,
    ;
    lemma_tdiv_unit_mag(a * t, m);
    assert(cap_i(tdiv(a * t, ONE as int)) == tdiv(a * t, ONE as int));
}

/// A fixed-point square is non-negative.
pub proof fn lemma_fp_square_nonneg(a: int)
    ensures
        0 <= fp_mul_i(a, a),
{
    assert(0 <= a * a) by (nonlinear_arith);
    assert(0 <= (a * a) / (ONE as int)) by (nonlinear_arith)
        requires
            0 <= a * a,
            (ONE as int) == 65536,
    ;
}

/// Multiplying by a factor of magnitude at most one unit never grows a
/// magnitude.
pub proof fn lemma_fp_mul_unit_mag(a: int, t: int, m: int)
    requires
        -(ONE as int) <= t <= ONE as int,
        -m <= a <= m,
        0 <= m <= CAP as int,
    ensures
        -m <= fp_mul_i(a, t) <= m,
{
    assert(-(m * (ONE as int)) <= a * t <= m * (ONE as int)) by (nonlinear_arith)
        requires
            -(ONE as int) <= t <= ONE as int,
            -m <= a <= m,
            0 <= m,
    ;
    lemma_tdiv_unit_mag(a * t, m);
    assert(cap_i(tdiv(a * t, ONE as int)) == tdiv(a * t, ONE as int));
}

/// Interpolating between two values bounded by `m` stays bounded by `m`.
pub proof fn lemma_lerp_mag(a: int, b: int, t: int, m: int)
    requires
        0 <= t <= ONE as int,
        -m <= a <= m,
        -m <= b <= m,
        0 <= m,
        2 * m <= CAP as int,
    ensures
        -m <= lerp_i(a, b, t) <= m,
{
    let u: int = ONE as int - t;
    assert(cap_i(u) == u);
    let x: int = a * u;
    let y: int = b * t;
    assert(-(m * (ONE as int)) <= x <= m * (ONE as int)) by (nonlinear_arith)
        requires
            x == a * u,
            0 <= u <= ONE as int,
            -m <= a <= m,
            0 <= m,
    ;
    assert(-(m * (ONE as int)) <= y <= m * (ONE as int)) by (nonlinear_arith)
        requires
            y == b * t,
            0 <= t <= ONE as int,
            -m <= b <= m,
            0 <= m,
    ;
    lemma_tdiv_unit_mag(x, m);
    lemma_tdiv_unit_mag(y, m);
    let px: int = tdiv(x, ONE as int);
    let py: int = tdiv(y, ONE as int);
    assert(x + y <= m * (ONE as int) && -(m * (ONE as int)) <= x + y) by (nonlinear_arith)
        requires
            x == a * u,
            y == b * t,
            0 <= t <= ONE as int,
            u == ONE as int - t,
            -m <= a <= m,
            -m <= b <= m,
            0 <= m,
    ;
    if x >= 0 && y >= 0 {
        assert(px + py <= m) by (nonlinear_arith)
            requires
                x >= 0,
                y >= 0,
                px == x / (ONE as int),
                py == y / (ONE as int),
                x + y <= m * (ONE as int),
                (ONE as int) == 65536,
                0 <= m,
        ;
    } else if x <= 0 && y <= 0 {
        assert(-m <= px + py) by (nonlinear_arith)
            requires
                x <= 0,
                y <= 0,
                px == -((-x) / (ONE as int)),
                py == -((-y) / (ONE as int)),
                -(m * (ONE as int)) <= x + y,
                (ONE as int) == 65536,
                0 <= m,
        ;
    } else {
        // Mixed signs: each truncated half is bounded by `m` on its own and
        // they pull in opposite directions.
        assert(-m <= px + py <= m);
    }
    assert(fp_mul_i(a, cap_i(ONE - t)) == cap_i(px) && fp_mul_i(b, t) == cap_i(py));
    assert(cap_i(px) == px && cap_i(py) == py);
    assert(cap_i(px + py) == px + py);
}

/// Clamp `x` into `[lo, hi]`.
pub fn fp_clamp(x: i64, lo: i64, hi: i64) -> (r: i64)
    requires
        lo <= hi,
    ensures
        r == clamp_i(x as int, lo as int, hi as int),
{
    if x < lo {
        lo
    } else if x > hi {
        hi
    } else {
        x
    }
}

} // verus!
