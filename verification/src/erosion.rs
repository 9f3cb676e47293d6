//! Hydraulic droplet erosion over a height field.
//!
//! Water droplets spawn at seeded pseudo-random positions, flow downhill
//! under inertia, pick up sediment where they accelerate and deposit it
//! where they slow or climb, and evaporate over a bounded lifetime. Erosion
//! spreads each removal over a precomputed radial brush, so material moves
//! rather than vanishes: over one run, the old total map height equals the
//! new total plus the sediment still carried by droplets at termination.

use vstd::prelude::*;
use crate::fixed::{
    ONE, CAP, Fx3, fits, cap_i, tdiv, fp_mul_i, fp_div_i, fp_sqrt_i, is_sqrt_floor, cap_add,
    cap_sub, fp_mul, fp_div, fp_sqrt, floor_split, mul_div, PARAM_LIMIT, lerp, lerp_i,
};
use crate::map::{NoiseMap, sum_seq, lemma_grid_index, MAX_GRID_SIZE, SAMPLE_LIMIT};
use crate::rng::{wy_value, wy_state, spawn_coord, next_spawn};

verus! {


/// The largest input height the erosion accepts, so that the total map
/// height (and hence any single cell it may be piled onto) stays far below
/// the saturation cap.
pub const HEIGHT_LIMIT: i64 = 0x100_0000;

/// Whether to erode at all, and how.
#[derive(Clone, Copy, PartialEq, Eq, Structural, Debug)]
pub enum TerrainErosion {
    Disabled,
    Hydraulic(HydraulicErosion),
}

/// Tunables of the droplet simulation. Fractions are fixed-point values in
/// `[0, 1]`; the rest are non-negative fixed-point scalars.
#[derive(Clone, Copy, PartialEq, Eq, Structural, Debug)]
pub struct HydraulicErosion {
    /// How many droplets are simulated.
    pub iterations: usize,
    /// Radius of the brush that spreads each erosion step.
    pub erosion_radius: usize,
    /// How much of its previous direction a droplet keeps, in `[0, 1]`.
    pub inertia: i64,
    /// Scales how much sediment a fast, wet droplet can carry.
    pub sediment_capacity_factor: i64,
    /// Capacity floor, so slow droplets still carry a little.
    pub min_sediment_capacity: i64,
    /// Fraction of spare capacity eroded per step, in `[0, 1]`.
    pub erode_speed: i64,
    /// Fraction of excess sediment deposited per step, in `[0, 1]`.
    pub deposit_speed: i64,
    /// Fraction of water lost per step, in `[0, 1]`.
    pub evaporate_speed: i64,
    /// Downhill acceleration per unit height drop.
    pub gravity: i64,
    /// Steps before a droplet is abandoned.
    pub max_droplet_lifetime: u32,
    /// Water volume at spawn.
    pub initial_water_volume: i64,
    /// Speed at spawn.
    pub initial_speed: i64,
    /// Seed of the droplet-spawning generator, set once per run.
    pub seed: u64,
}

impl HydraulicErosion {
    /// Fractions in `[0, 1]`, scalars in `[0, PARAM_LIMIT]`, radius bounded
    /// by the grid limit.
    pub open spec fn wf(self) -> bool {
        &&& 0 <= self.inertia <= ONE
        &&& 0 <= self.erode_speed <= ONE
        &&& 0 <= self.deposit_speed <= ONE
        &&& 0 <= self.evaporate_speed <= ONE
        &&& 0 <= self.sediment_capacity_factor <= PARAM_LIMIT
        &&& 0 <= self.min_sediment_capacity <= PARAM_LIMIT
        &&& 0 <= self.gravity <= PARAM_LIMIT
        &&& 0 <= self.initial_water_volume <= PARAM_LIMIT
        &&& 0 <= self.initial_speed <= PARAM_LIMIT
        &&& self.erosion_radius <= MAX_GRID_SIZE
    }
}

/// The default droplet tunables: 100 droplets, radius 3, inertia 0.05,
/// capacity factor 4, capacity floor 0.01, erode and deposit speed 0.3,
/// evaporation 0.01, gravity 4, lifetime 10, initial water and speed 1,
/// seed 0.
pub open spec fn default_hydraulic() -> HydraulicErosion {
    HydraulicErosion {
        iterations: 100,
        erosion_radius: 3,
        inertia: 3277,
        sediment_capacity_factor: 262144,
        min_sediment_capacity: 655,
        erode_speed: 19661,
        deposit_speed: 19661,
        evaporate_speed: 655,
        gravity: 262144,
        max_droplet_lifetime: 10,
        initial_water_volume: 65536,
        initial_speed: 65536,
        seed: 0,
    }
}

impl Default for HydraulicErosion {
    fn default() -> (r: Self)
        ensures
            r == default_hydraulic(),
            r.wf(),
    {
        HydraulicErosion {
            iterations: 100,
            erosion_radius: 3,
            inertia: 3277,
            sediment_capacity_factor: 262144,
            min_sediment_capacity: 655,
            erode_speed: 19661,
            deposit_speed: 19661,
            evaporate_speed: 655,
            gravity: 262144,
            max_droplet_lifetime: 10,
            initial_water_volume: 65536,
            initial_speed: 65536,
            seed: 0,
        }
    }
}

impl Default for TerrainErosion {
    fn default() -> (r: Self)
        ensures
            r == TerrainErosion::Hydraulic(default_hydraulic()),
    {
        TerrainErosion::Hydraulic(HydraulicErosion::default())
    }
}

/// One weighted cell of an erosion brush: an absolute grid cell and the
/// share of each erosion amount it gives up.
#[derive(Clone, Copy, PartialEq, Eq, Structural, Debug)]
pub struct Brush {
    pub x: usize,
    pub y: usize,
    pub weight: i64,
}

/// The raw (unnormalized) weight of the brush offset `(bx, by)`: the radial
/// falloff `1 - sqrt(bx^2 + by^2) / radius`.
pub open spec fn raw_weight_i(bx: int, by: int, radius: int) -> int {
    cap_i(ONE - fp_div_i(sqrt_floor_sq(bx, by), radius * ONE))
}

/// The fixed-point distance of the offset `(bx, by)` from the brush center.
pub open spec fn sqrt_floor_sq(bx: int, by: int) -> int {
    crate::fixed::sqrt_floor((bx * bx + by * by) * (ONE as int) * (ONE as int))
}

/// The brush offsets with squared distance below `radius^2`, enumerated
/// row-major over the `(2 radius + 1)^2` square from linear index `k` on,
/// each with its raw weight.
pub open spec fn raw_pattern_from(radius: int, k: int) -> Seq<(i64, i64, i64)>
    decreases (2 * radius + 1) * (2 * radius + 1) - k,
    when 0 <= radius <= MAX_GRID_SIZE && 0 <= k
{
    let w: int = 2 * radius + 1;
    if k >= w * w {
        Seq::empty()
    } else {
        let by: int = k / w - radius;
        let bx: int = k % w - radius;
        let rest: Seq<(i64, i64, i64)> = raw_pattern_from(radius, k + 1);
        if bx * bx + by * by < radius * radius {
            seq![(bx as i64, by as i64, raw_weight_i(bx, by, radius) as i64)] + rest
        } else {
            rest
        }
    }
}

/// The sum of the weights of a pattern.
pub open spec fn pattern_weight_sum(s: Seq<(i64, i64, i64)>) -> int
    decreases s.len(),
{
    if s.len() == 0 {
        0
    } else {
        pattern_weight_sum(s.drop_last()) + s.last().2
    }
}

/// The sum of the weights of a brush.
pub open spec fn brush_weight_sum(s: Seq<Brush>) -> int
    decreases s.len(),
{
    if s.len() == 0 {
        0
    } else {
        brush_weight_sum(s.drop_last()) + s.last().weight
    }
}

/// The normalized brush pattern of a radius: the raw weights scaled so they
/// sum to one, with the rounding remainder folded into the last entry.
pub open spec fn brush_pattern(radius: int) -> Seq<(i64, i64, i64)> {
    let raws: Seq<(i64, i64, i64)> = raw_pattern_from(radius, 0);
    let ws: int = pattern_weight_sum(raws);
    if ws <= 0 {
        Seq::empty()
    } else {
        let norm: Seq<(i64, i64, i64)> = raws.map_values(
            |e: (i64, i64, i64)| (e.0, e.1, fp_div_i(e.2 as int, ws) as i64),
        );
        let others: int = pattern_weight_sum(norm) - norm.last().2;
        norm.update(norm.len() - 1, (norm.last().0, norm.last().1, (ONE - others) as i64))
    }
}

/// A cell is eligible for erosion when its whole brush fits inside the grid.
pub open spec fn eligible_cell(size: int, radius: int, cx: int, cy: int) -> bool {
    radius <= cx && cx + radius < size && radius <= cy && cy + radius < size
}

/// The brush of one cell: the pattern translated to absolute cells for an
/// eligible cell, and empty for an edge cell (excluded from erosion).
pub open spec fn cell_brush(size: int, radius: int, cx: int, cy: int) -> Seq<Brush> {
    if eligible_cell(size, radius, cx, cy) {
        brush_pattern(radius).map_values(
            |e: (i64, i64, i64)| Brush {
                x: (cx + e.0) as usize,
                y: (cy + e.1) as usize,
                weight: e.2,
            },
        )
    } else {
        Seq::empty()
    }
}

/// The precomputed erosion brushes of every cell of one grid, row-major.
pub struct BrushTable {
    pub size: usize,
    pub cells: Vec<Vec<Brush>>,
}

/// Offsets and weights of one pattern entry stay inside the radius and the
/// unit weight range.
pub open spec fn pattern_entry_bounded(e: (i64, i64, i64), radius: int, wmax: int) -> bool {
    &&& -radius < e.0 < radius
    &&& -radius < e.1 < radius
    &&& 0 <= e.2 <= wmax
}

/// Enumerate the in-radius offsets with their raw falloff weights.
fn build_raw_pattern(radius: usize) -> (r: (Vec<(i64, i64, i64)>, i64))
    requires
        radius <= MAX_GRID_SIZE,
    ensures
        r.0@ == raw_pattern_from(radius as int, 0),
        r.1 == pattern_weight_sum(r.0@),
        forall|j: int|
            0 <= j < r.0@.len() ==> pattern_entry_bounded(
                #[trigger] r.0@[j],
                radius as int,
                ONE as int,
            ) && 1 <= r.0@[j].2 && r.0@[j].2 <= r.1,
        radius >= 1 ==> r.0@.len() >= 1,
        0 <= r.1 <= r.0@.len() * (ONE as int),
        r.0@.len() <= r.1,
        r.0@.len() <= 2051 * 2051,
{
    let w: usize = 2 * radius + 1;
    let ghost kc: int = (radius as int) * (w as int) + radius as int;
    proof {
        assert((w as int) * (w as int) <= 2051 * 2051) by (nonlinear_arith)
            requires
                0 < w as int <= 2051,
        ;
        assert(kc < (w as int) * (w as int)) by (nonlinear_arith)
            requires
                w == 2 * radius + 1,
                kc == (radius as int) * (w as int) + radius as int,
                0 <= radius as int,
        ;
    }
    let n: usize = w * w;
    let mut out: Vec<(i64, i64, i64)> = Vec::new();
    let mut wsum: i64 = 0;
    let mut k: usize = 0;
    while k < n
        invariant
            k <= n,
            n == w * w,
            w == 2 * radius + 1,
            radius <= MAX_GRID_SIZE,
            w * w <= 2051 * 2051,
            kc == (radius as int) * (w as int) + radius as int,
            raw_pattern_from(radius as int, 0) == out@ + raw_pattern_from(radius as int, k as int),
            wsum == pattern_weight_sum(out@),
            forall|j: int|
                0 <= j < out@.len() ==> pattern_entry_bounded(
                    #[trigger] out@[j],
                    radius as int,
                    ONE as int,
                ) && 1 <= out@[j].2,
            radius >= 1 && k > kc ==> out@.len() >= 1,
            0 <= wsum <= out@.len() * (ONE as int),
            out@.len() <= wsum,
            forall|j: int| 0 <= j < out@.len() ==> #[trigger] out@[j].2 <= wsum,
            out@.len() <= k,
        decreases n - k,
    {
        let by: i64 = (k / w) as i64 - radius as i64;
        let bx: i64 = (k % w) as i64 - radius as i64;
        proof {
            let kq: int = k as int / w as int;
            let kr: int = k as int % w as int;
            assert(0 <= kq <= 2 * radius as int && 0 <= kr <= 2 * radius as int)
                by (nonlinear_arith)
                requires
                    kq == k as int / w as int,
                    kr == k as int % w as int,
                    0 <= k as int,
                    (k as int) < (w as int) * (w as int),
                    w == 2 * radius + 1,
                    0 <= radius,
            ;
        }
        proof {
            assert((bx as int) * (bx as int) + (by as int) * (by as int) <= 2 * 1025 * 1025
                && 0 <= (bx as int) * (bx as int) && 0 <= (by as int) * (by as int)
                && (radius as int) * (radius as int) <= 1025 * 1025) by (nonlinear_arith)
                requires
                    -(radius as int) <= bx as int <= radius as int,
                    -(radius as int) <= by as int <= radius as int,
                    0 <= radius as int <= 1025,
            ;
        }
        let d2: i64 = bx * bx + by * by;
        let r2: i64 = (radius as i64) * (radius as i64);
        let ghost prev: Seq<(i64, i64, i64)> = out@;
        if d2 < r2 {
            // The falloff weight 1 - dist/radius, where dist < radius, so
            // the weight lies in [1, ONE].
            let d2f: i64 = d2 * ONE;
            let dist: i64 = fp_sqrt(d2f);
            let rone: i64 = (radius as i64) * ONE;
            proof {
                assert(radius >= 1) by (nonlinear_arith)
                    requires
                        0 <= d2 < (radius as int) * (radius as int),
                        0 <= radius,
                ;
                assert(dist < rone) by (nonlinear_arith)
                    requires
                        is_sqrt_floor((d2 as int) * (ONE as int) * (ONE as int), dist as int),
                        d2 < (radius as int) * (radius as int),
                        rone == (radius as int) * (ONE as int),
                        (ONE as int) == 65536,
                        0 <= dist,
                        d2f == d2 * (ONE as int),
                        (d2 as int) * (ONE as int) * (ONE as int) == (d2f as int) * (ONE as int),
                        1 <= radius as int,
                ;
            }
            let wdiv: i64 = fp_div(dist, rone);
            proof {
                assert(tdiv((dist as int) * (ONE as int), rone as int) < ONE as int && 0 <= tdiv(
                    dist as int * (ONE as int),
                    rone as int,
                )) by (nonlinear_arith)
                    requires
                        0 <= dist < rone,
                        (ONE as int) == 65536,
                        tdiv((dist as int) * (ONE as int), rone as int) == ((dist as int) * (ONE as int)) / (rone as int),
                        rone >= 65536,
                ;
            }
            proof {
                assert(-(radius as int) < bx as int && (bx as int) < radius as int && -(radius
                    as int) < by as int && (by as int) < radius as int) by (nonlinear_arith)
                    requires
                        (bx as int) * (bx as int) + (by as int) * (by as int) < (radius as int)
                            * (radius as int),
                        -(radius as int) <= bx as int <= radius as int,
                        -(radius as int) <= by as int <= radius as int,
                        0 <= radius as int,
                ;
            }
            let raw: i64 = cap_sub(ONE, wdiv);
            out.push((bx, by, raw));
            wsum = wsum + raw;
            proof {
                assert(out@.drop_last() =~= prev);
                assert(raw_pattern_from(radius as int, k as int) == seq![
                    (bx, by, raw_weight_i(bx as int, by as int, radius as int) as i64),
                ] + raw_pattern_from(radius as int, k as int + 1));
                assert(raw == raw_weight_i(bx as int, by as int, radius as int));
                assert(prev + raw_pattern_from(radius as int, k as int) =~= out@
                    + raw_pattern_from(radius as int, k as int + 1));
            }
        } else {
            proof {
                assert(raw_pattern_from(radius as int, k as int) == raw_pattern_from(
                    radius as int,
                    k as int + 1,
                ));
            }
        }
        proof {
            if k == kc && radius >= 1 {
                assert(kc as int / w as int == radius as int && kc as int % w as int == radius
                    as int) by (nonlinear_arith)
                    requires
                        kc == (radius as int) * (w as int) + radius as int,
                        0 <= radius as int && (radius as int) < w as int,
                ;
                assert(bx == 0 && by == 0);
                assert(d2 == 0);
                assert((radius as int) * (radius as int) > 0) by (nonlinear_arith)
                    requires
                        1 <= radius as int,
                ;
            }
        }
        k = k + 1;
    }
    proof {
        assert(out@ + raw_pattern_from(radius as int, n as int) =~= out@);
        if radius >= 1 {
            assert(kc < n);
        }
    }
    (out, wsum)
}


/// Updating one entry changes the pattern weight sum by the difference.
proof fn lemma_pattern_sum_update(s: Seq<(i64, i64, i64)>, i: int, e: (i64, i64, i64))
    requires
        0 <= i < s.len(),
    ensures
        pattern_weight_sum(s.update(i, e)) == pattern_weight_sum(s) - s[i].2 + e.2,
    decreases s.len(),
{
    if i == s.len() - 1 {
        assert(s.update(i, e).drop_last() =~= s.drop_last());
        assert(s.update(i, e).last() == e);
    } else {
        lemma_pattern_sum_update(s.drop_last(), i, e);
        assert(s.update(i, e).drop_last() =~= s.drop_last().update(i, e));
        assert(s.update(i, e).last() == s.last());
    }
}

/// Build the normalized brush pattern of a radius: raw falloff weights
/// scaled by their sum, the rounding remainder folded into the last entry.
fn build_pattern(radius: usize) -> (r: Vec<(i64, i64, i64)>)
    requires
        radius <= MAX_GRID_SIZE,
    ensures
        r@ == brush_pattern(radius as int),
        forall|j: int|
            0 <= j < r@.len() ==> pattern_entry_bounded(#[trigger] r@[j], radius as int, ONE as int),
        radius >= 1 ==> r@.len() >= 1 && pattern_weight_sum(r@) == ONE,
{
    let (raws, wsum): (Vec<(i64, i64, i64)>, i64) = build_raw_pattern(radius);
    let n: usize = raws.len();
    if wsum <= 0 {
        proof {
            assert(raws@.len() == 0);
            assert(radius == 0);
        }
        return Vec::new();
    }
    let ghost norm_spec: Seq<(i64, i64, i64)> = raws@.map_values(
        |e: (i64, i64, i64)| (e.0, e.1, fp_div_i(e.2 as int, wsum as int) as i64),
    );
    let mut norm: Vec<(i64, i64, i64)> = Vec::new();
    let mut nsum: i64 = 0;
    let mut j: usize = 0;
    while j < n
        invariant
            j <= n,
            n == raws@.len(),
            norm@.len() == j,
            0 < wsum,
            n <= 2051 * 2051,
            wsum == pattern_weight_sum(raws@),
            0 <= wsum <= n * (ONE as int),
            norm_spec == raws@.map_values(
                |e: (i64, i64, i64)| (e.0, e.1, fp_div_i(e.2 as int, wsum as int) as i64),
            ),
            forall|t: int|
                0 <= t < n ==> pattern_entry_bounded(#[trigger] raws@[t], radius as int, ONE as int)
                    && 1 <= raws@[t].2 && raws@[t].2 <= wsum,
            forall|t: int| 0 <= t < j ==> #[trigger] norm@[t] == norm_spec[t],
            forall|t: int|
                0 <= t < j ==> pattern_entry_bounded(#[trigger] norm@[t], radius as int, ONE as int),
            nsum == pattern_weight_sum(norm@),
            0 <= nsum <= j * (ONE as int),
            (nsum as int) * (wsum as int) <= pattern_weight_sum(raws@.subrange(0, j as int)) * (
            ONE as int),
            pattern_weight_sum(raws@.subrange(0, j as int)) <= wsum,
        decreases n - j,
    {
        let e: (i64, i64, i64) = raws[j];
        let wq: i64 = fp_div(e.2, wsum);
        let ghost prev: Seq<(i64, i64, i64)> = norm@;
        let ghost psum_old: int = pattern_weight_sum(raws@.subrange(0, j as int));
        proof {
            assert(0 <= tdiv((e.2 as int) * (ONE as int), wsum as int) && tdiv(
                (e.2 as int) * (ONE as int),
                wsum as int,
            ) <= ONE as int && tdiv((e.2 as int) * (ONE as int), wsum as int) * (wsum as int) <= (
            e.2 as int) * (ONE as int)) by (nonlinear_arith)
                requires
                    1 <= e.2 <= wsum,
                    0 < wsum,
                    (ONE as int) == 65536,
                    tdiv((e.2 as int) * (ONE as int), wsum as int) == ((e.2 as int) * (ONE
                        as int)) / (wsum as int),
            ;
        }
        norm.push((e.0, e.1, wq));
        nsum = nsum + wq;
        proof {
            assert(norm@.drop_last() =~= prev);
            assert(raws@.subrange(0, j as int + 1).drop_last() =~= raws@.subrange(0, j as int));
            assert(raws@.subrange(0, j as int + 1).last() == raws@[j as int]);
            assert((nsum as int) * (wsum as int) == (nsum - wq) * (wsum as int) + (wq as int) * (
            wsum as int)) by (nonlinear_arith)
                requires
                    true,
            ;
            // The remaining raw entries keep the running prefix sum below the
            // full sum.
            lemma_pattern_prefix_le(raws@, j as int + 1, wsum as int);
        }
        j = j + 1;
    }
    proof {
        assert(raws@.subrange(0, n as int) =~= raws@);
        assert((nsum as int) <= ONE as int) by (nonlinear_arith)
            requires
                (nsum as int) * (wsum as int) <= (wsum as int) * (ONE as int),
                0 < wsum,
        ;
        assert(norm@ =~= norm_spec);
    }
    // Fold the rounding remainder into the last entry so the weights sum to
    // exactly one.
    let last: (i64, i64, i64) = norm[n - 1];
    let others: i64 = nsum - last.2;
    let fixedw: i64 = ONE - others;
    let ghost before_fix: Seq<(i64, i64, i64)> = norm@;
    proof {
        lemma_pattern_last_le(norm@);
        lemma_pattern_sum_update(norm@, n as int - 1, (last.0, last.1, fixedw));
    }
    norm.set(n - 1, (last.0, last.1, fixedw));
    proof {
        assert(pattern_weight_sum(norm@) == nsum - last.2 + fixedw);
        assert(norm@ == brush_pattern(radius as int));
    }
    norm
}

/// A prefix sum of non-negative pattern weights never exceeds the full sum.
proof fn lemma_pattern_prefix_le(s: Seq<(i64, i64, i64)>, j: int, full: int)
    requires
        0 <= j <= s.len(),
        full == pattern_weight_sum(s),
        forall|t: int| 0 <= t < s.len() ==> 0 <= #[trigger] s[t].2,
    ensures
        pattern_weight_sum(s.subrange(0, j)) <= full,
    decreases s.len() - j,
{
    if j == s.len() {
        assert(s.subrange(0, j) =~= s);
    } else {
        lemma_pattern_prefix_le(s, j + 1, full);
        assert(s.subrange(0, j + 1).drop_last() =~= s.subrange(0, j));
        assert(s.subrange(0, j + 1).last() == s[j]);
    }
}

/// The last weight of a pattern of non-negative weights is at most the sum.
proof fn lemma_pattern_last_le(s: Seq<(i64, i64, i64)>)
    requires
        s.len() >= 1,
        forall|t: int| 0 <= t < s.len() ==> 0 <= #[trigger] s[t].2,
    ensures
        s.last().2 <= pattern_weight_sum(s),
        0 <= pattern_weight_sum(s) - s.last().2,
{
    lemma_pattern_sum_nonneg(s.drop_last());
}

/// A pattern of non-negative weights has a non-negative sum.
proof fn lemma_pattern_sum_nonneg(s: Seq<(i64, i64, i64)>)
    requires
        forall|t: int| 0 <= t < s.len() ==> 0 <= #[trigger] s[t].2,
    ensures
        0 <= pattern_weight_sum(s),
    decreases s.len(),
{
    if s.len() > 0 {
        assert(forall|t: int|
            0 <= t < s.drop_last().len() ==> 0 <= #[trigger] s.drop_last()[t].2);
        lemma_pattern_sum_nonneg(s.drop_last());
    }
}

/// A brush entry stays inside the grid with a weight in `[0, 1]`.
pub open spec fn brush_entry_ok(b: Brush, size: int) -> bool {
    &&& b.x < size
    &&& b.y < size
    &&& 0 <= b.weight <= ONE
}

/// Precompute the erosion brush of every cell of a `map_size` grid for one
/// radius: eligible cells carry the translated pattern, edge cells carry
/// nothing and are excluded from erosion.
pub fn initialize_brushes(map_size: usize, radius: usize) -> (r: BrushTable)
    requires
        map_size <= MAX_GRID_SIZE,
        radius <= MAX_GRID_SIZE,
    ensures
        r.size == map_size,
        r.cells@.len() == map_size * map_size,
        forall|i: int|
            0 <= i < r.cells@.len() ==> #[trigger] r.cells@[i]@ == cell_brush(
                map_size as int,
                radius as int,
                i / (map_size as int),
                i % (map_size as int),
            ),
        forall|i: int, j: int|
            0 <= i < r.cells@.len() && 0 <= j < r.cells@[i]@.len() ==> brush_entry_ok(
                #[trigger] r.cells@[i]@[j],
                map_size as int,
            ),
        forall|i: int|
            0 <= i < r.cells@.len() && #[trigger] r.cells@[i]@.len() > 0 ==> brush_weight_sum(
                r.cells@[i]@,
            ) == ONE,
{
    let pattern: Vec<(i64, i64, i64)> = build_pattern(radius);
    let plen: usize = pattern.len();
    proof {
        assert((map_size as int) * (map_size as int) <= 1025 * 1025) by (nonlinear_arith)
            requires
                0 <= map_size as int <= 1025,
        ;
    }
    let n: usize = map_size * map_size;
    let mut cells: Vec<Vec<Brush>> = Vec::new();
    let mut idx: usize = 0;
    while idx < n
        invariant
            idx <= n,
            n == map_size * map_size,
            map_size <= MAX_GRID_SIZE,
            radius <= MAX_GRID_SIZE,
            plen == pattern@.len(),
            pattern@ == brush_pattern(radius as int),
            forall|j: int|
                0 <= j < pattern@.len() ==> pattern_entry_bounded(
                    #[trigger] pattern@[j],
                    radius as int,
                    ONE as int,
                ),
            radius >= 1 ==> pattern@.len() >= 1 && pattern_weight_sum(pattern@) == ONE,
            cells@.len() == idx,
            forall|i: int|
                0 <= i < idx ==> #[trigger] cells@[i]@ == cell_brush(
                    map_size as int,
                    radius as int,
                    i / (map_size as int),
                    i % (map_size as int),
                ),
            forall|i: int, j: int|
                0 <= i < idx && 0 <= j < cells@[i]@.len() ==> brush_entry_ok(
                    #[trigger] cells@[i]@[j],
                    map_size as int,
                ),
            forall|i: int|
                0 <= i < idx && #[trigger] cells@[i]@.len() > 0 ==> brush_weight_sum(cells@[i]@)
                    == ONE,
        decreases n - idx,
    {
        let cx: usize = idx / map_size;
        let cy: usize = idx % map_size;
        proof {
            assert(0 <= idx as int / (map_size as int) && idx as int / (map_size as int) <
                map_size as int && 0 <= idx as int % (map_size as int)) by (nonlinear_arith)
                requires
                    0 <= idx as int,
                    (idx as int) < (map_size as int) * (map_size as int),
                    0 < map_size as int,
            ;
        }
        let mut cell: Vec<Brush> = Vec::new();
        if cx >= radius && cx + radius < map_size && cy >= radius && cy + radius < map_size {
            let ghost target: Seq<Brush> = cell_brush(map_size as int, radius as int, cx as int, cy as int);
            let mut j: usize = 0;
            while j < plen
                invariant
                    j <= plen,
                    plen == pattern@.len(),
                    pattern@ == brush_pattern(radius as int),
                    forall|t: int|
                        0 <= t < pattern@.len() ==> pattern_entry_bounded(
                            #[trigger] pattern@[t],
                            radius as int,
                            ONE as int,
                        ),
                    radius <= cx && cx + radius < map_size,
                    radius <= cy && cy + radius < map_size,
                    map_size <= MAX_GRID_SIZE,
                    radius <= MAX_GRID_SIZE,
                    target == cell_brush(map_size as int, radius as int, cx as int, cy as int),
                    target.len() == pattern@.len(),
                    cell@.len() == j,
                    forall|t: int| 0 <= t < j ==> #[trigger] cell@[t] == target[t],
                    forall|t: int|
                        0 <= t < j ==> brush_entry_ok(#[trigger] cell@[t], map_size as int),
                    brush_weight_sum(cell@) == pattern_weight_sum(pattern@.subrange(0, j as int)),
                decreases plen - j,
            {
                let e: (i64, i64, i64) = pattern[j];
                let ghost prev: Seq<Brush> = cell@;
                let bxa: usize = (cx as i64 + e.0) as usize;
                let bya: usize = (cy as i64 + e.1) as usize;
                cell.push(Brush { x: bxa, y: bya, weight: e.2 });
                proof {
                    assert(cell@.drop_last() =~= prev);
                    assert(pattern@.subrange(0, j as int + 1).drop_last() =~= pattern@.subrange(
                        0,
                        j as int,
                    ));
                    assert(pattern@.subrange(0, j as int + 1).last() == pattern@[j as int]);
                }
                j = j + 1;
            }
            proof {
                assert(pattern@.subrange(0, plen as int) =~= pattern@);
                assert(cell@ =~= target);
            }
        } else {
            proof {
                assert(!eligible_cell(map_size as int, radius as int, cx as int, cy as int));
                assert(cell@ =~= cell_brush(map_size as int, radius as int, cx as int, cy as int));
            }
        }
        cells.push(cell);
        proof {
            assert(cells@[idx as int]@ == cell_brush(
                map_size as int,
                radius as int,
                idx as int / (map_size as int),
                idx as int % (map_size as int),
            ));
        }
        idx = idx + 1;
    }
    BrushTable { size: map_size, cells }
}



/// The brush table matches what `initialize_brushes` builds for this grid
/// size and radius.
pub open spec fn table_ok(t: BrushTable, size: int, radius: int) -> bool {
    &&& t.size == size
    &&& t.cells@.len() == size * size
    &&& forall|i: int|
        0 <= i < t.cells@.len() ==> #[trigger] t.cells@[i]@ == cell_brush(
            size,
            radius,
            i / size,
            i % size,
        )
    &&& forall|i: int, j: int|
        0 <= i < t.cells@.len() && 0 <= j < t.cells@[i]@.len() ==> brush_entry_ok(
            #[trigger] t.cells@[i]@[j],
            size,
        )
}

/// Bilinear height and gradient at a continuous position inside the grid,
/// from the four corners of the containing cell: `(height, gx, gy)`.
pub open spec fn height_gradient_i(m: Seq<i64>, size: int, px: int, py: int) -> (int, int, int) {
    let cx: int = px / (ONE as int);
    let ox: int = px % (ONE as int);
    let cy: int = py / (ONE as int);
    let oy: int = py % (ONE as int);
    let h00: int = m[cx * size + cy] as int;
    let h10: int = m[(cx + 1) * size + cy] as int;
    let h01: int = m[cx * size + cy + 1] as int;
    let h11: int = m[(cx + 1) * size + cy + 1] as int;
    let gx: int = cap_i(
        fp_mul_i(cap_i(h10 - h00), cap_i(ONE - oy)) + fp_mul_i(cap_i(h11 - h01), oy),
    );
    let gy: int = cap_i(
        fp_mul_i(cap_i(h01 - h00), cap_i(ONE - ox)) + fp_mul_i(cap_i(h11 - h10), ox),
    );
    let h: int = lerp_i(lerp_i(h00, h10, ox), lerp_i(h01, h11, ox), oy);
    (h, gx, gy)
}

/// Bilinear height and gradient of the droplet's cell.
///
/// A position at or beyond the last row or column would read outside the
/// grid; the caller's bounds checks must exclude it, so it is excluded here.
pub fn calculate_height_and_gradient(map: &NoiseMap, pos_x: i64, pos_y: i64) -> (r: (i64, i64, i64))
    requires
        map.wf(),
        2 <= map.size <= MAX_GRID_SIZE,
        map.in_range(0, SAMPLE_LIMIT as int),
        0 <= pos_x < (map.size - 1) * (ONE as int),
        0 <= pos_y < (map.size - 1) * (ONE as int),
    ensures
        (r.0 as int, r.1 as int, r.2 as int) == height_gradient_i(
            map.data@,
            map.size as int,
            pos_x as int,
            pos_y as int,
        ),
        0 <= r.0 <= SAMPLE_LIMIT,
        -(SAMPLE_LIMIT as int) <= r.1 <= SAMPLE_LIMIT as int,
        -(SAMPLE_LIMIT as int) <= r.2 <= SAMPLE_LIMIT as int,
{
    let size: usize = map.size;
    let (cxl, ox): (i64, i64) = floor_split(pos_x);
    let (cyl, oy): (i64, i64) = floor_split(pos_y);
    proof {
        lemma_cell_of_pos(pos_x as int, size as int);
        lemma_cell_of_pos(pos_y as int, size as int);
    }
    let cx: usize = cxl as usize;
    let cy: usize = cyl as usize;
    proof {
        lemma_grid_index(map.size as int, cx as int, cy as int);
        lemma_grid_index(map.size as int, cx as int + 1, cy as int);
        lemma_grid_index(map.size as int, cx as int, cy as int + 1);
        lemma_grid_index(map.size as int, cx as int + 1, cy as int + 1);
    }
    let h00: i64 = map.get(cx, cy);
    let h10: i64 = map.get(cx + 1, cy);
    let h01: i64 = map.get(cx, cy + 1);
    let h11: i64 = map.get(cx + 1, cy + 1);
    let d1: i64 = cap_sub(h10, h00);
    let d2: i64 = cap_sub(h11, h01);
    let d3: i64 = cap_sub(h01, h00);
    let d4: i64 = cap_sub(h11, h10);
    // Each gradient is a convex blend of two corner differences, so it stays
    // within the differences' magnitude.
    proof {
        crate::fixed::lemma_lerp_mag(d1 as int, d2 as int, oy as int, SAMPLE_LIMIT as int);
        crate::fixed::lemma_lerp_mag(d3 as int, d4 as int, ox as int, SAMPLE_LIMIT as int);
    }
    let gx: i64 = cap_add(fp_mul(d1, cap_sub(ONE, oy)), fp_mul(d2, oy));
    let gy: i64 = cap_add(fp_mul(d3, cap_sub(ONE, ox)), fp_mul(d4, ox));
    proof {
        assert(gx as int == lerp_i(d1 as int, d2 as int, oy as int));
        assert(gy as int == lerp_i(d3 as int, d4 as int, ox as int));
    }
    let a: i64 = lerp(h00, h10, ox);
    let b: i64 = lerp(h01, h11, ox);
    proof {
        crate::fixed::lemma_lerp_mag(h00 as int, h10 as int, ox as int, SAMPLE_LIMIT as int);
        crate::fixed::lemma_lerp_mag(h01 as int, h11 as int, ox as int, SAMPLE_LIMIT as int);
        crate::fixed::lemma_lerp_mag(a as int, b as int, oy as int, SAMPLE_LIMIT as int);
        lemma_bilinear_nonneg(h00 as int, h10 as int, h01 as int, h11 as int, ox as int, oy as int);
    }
    let h: i64 = lerp(a, b, oy);
    (h, gx, gy)
}

/// A position strictly below the last grid line sits in a cell whose far
/// corner is still inside the grid.
proof fn lemma_cell_of_pos(p: int, size: int)
    requires
        0 <= p,
        p < (size - 1) * (ONE as int),
        2 <= size,
    ensures
        0 <= p / (ONE as int),
        p / (ONE as int) <= size - 2,
{
    assert(0 <= p / (ONE as int) && p / (ONE as int) <= size - 2) by (nonlinear_arith)
        requires
            0 <= p,
            p < (size - 1) * 65536,
            (ONE as int) == 65536,
            2 <= size,
    ;
}

/// The bilinear blend of non-negative corners is non-negative.
proof fn lemma_bilinear_nonneg(h00: int, h10: int, h01: int, h11: int, ox: int, oy: int)
    requires
        0 <= h00 <= SAMPLE_LIMIT as int,
        0 <= h10 <= SAMPLE_LIMIT as int,
        0 <= h01 <= SAMPLE_LIMIT as int,
        0 <= h11 <= SAMPLE_LIMIT as int,
        0 <= ox < ONE as int,
        0 <= oy < ONE as int,
    ensures
        0 <= lerp_i(lerp_i(h00, h10, ox), lerp_i(h01, h11, ox), oy),
        0 <= lerp_i(h00, h10, ox),
        0 <= lerp_i(h01, h11, ox),
{
    lemma_lerp_nonneg_bounded(h00, h10, ox);
    lemma_lerp_nonneg_bounded(h01, h11, ox);
    crate::fixed::lemma_lerp_mag(h00, h10, ox, SAMPLE_LIMIT as int);
    crate::fixed::lemma_lerp_mag(h01, h11, ox, SAMPLE_LIMIT as int);
    lemma_lerp_nonneg_bounded(lerp_i(h00, h10, ox), lerp_i(h01, h11, ox), oy);
}

/// Interpolating between non-negative values within the sum limit is
/// non-negative.
proof fn lemma_lerp_nonneg_bounded(a: int, b: int, t: int)
    requires
        0 <= a <= SAMPLE_LIMIT as int,
        0 <= b <= SAMPLE_LIMIT as int,
        0 <= t <= ONE as int,
    ensures
        0 <= lerp_i(a, b, t),
{
    crate::fixed::lemma_fp_mul_frac_mag(a, ONE as int - t, SAMPLE_LIMIT as int);
    crate::fixed::lemma_fp_mul_frac_mag(b, t, SAMPLE_LIMIT as int);
}

/// The mutable state of one droplet between steps.
#[derive(Clone, Copy, PartialEq, Eq, Structural, Debug)]
pub struct Droplet {
    pub pos_x: i64,
    pub pos_y: i64,
    pub dir_x: i64,
    pub dir_y: i64,
    pub speed: i64,
    pub water: i64,
    pub sediment: i64,
}

/// The four bilinear deposit shares of an amount are non-negative and sum to
/// at most the amount.
proof fn lemma_deposit_shares(amount: int, ox: int, oy: int)
    requires
        0 <= amount <= SAMPLE_LIMIT as int,
        0 <= ox < ONE as int,
        0 <= oy < ONE as int,
    ensures
        0 <= fp_mul_i(amount, fp_mul_i(cap_i(ONE - ox), cap_i(ONE - oy))),
        0 <= fp_mul_i(amount, fp_mul_i(cap_i(ONE - ox), oy)),
        0 <= fp_mul_i(amount, fp_mul_i(ox, cap_i(ONE - oy))),
        0 <= fp_mul_i(amount, fp_mul_i(ox, oy)),
        fp_mul_i(amount, fp_mul_i(cap_i(ONE - ox), cap_i(ONE - oy))) + fp_mul_i(
            amount,
            fp_mul_i(cap_i(ONE - ox), oy),
        ) + fp_mul_i(amount, fp_mul_i(ox, cap_i(ONE - oy))) + fp_mul_i(amount, fp_mul_i(ox, oy))
            <= amount,
        fp_mul_i(amount, fp_mul_i(cap_i(ONE - ox), cap_i(ONE - oy))) <= amount,
        fp_mul_i(amount, fp_mul_i(cap_i(ONE - ox), oy)) <= amount,
        fp_mul_i(amount, fp_mul_i(ox, cap_i(ONE - oy))) <= amount,
        fp_mul_i(amount, fp_mul_i(ox, oy)) <= amount,
{
    let o: int = ONE as int;
    let ux: int = o - ox;
    let uy: int = o - oy;
    assert(cap_i(ux) == ux && cap_i(uy) == uy);
    // Each truncated corner weight lies in [0, ONE].
    crate::fixed::lemma_fp_mul_frac_mag(ux, uy, o);
    crate::fixed::lemma_fp_mul_frac_mag(ux, oy, o);
    crate::fixed::lemma_fp_mul_frac_mag(ox, uy, o);
    crate::fixed::lemma_fp_mul_frac_mag(ox, oy, o);
    let w00: int = fp_mul_i(ux, uy);
    let w01: int = fp_mul_i(ux, oy);
    let w10: int = fp_mul_i(ox, uy);
    let w11: int = fp_mul_i(ox, oy);
    // The weights sum to at most one: each is its product truncated down,
    // and the four products sum to exactly ONE * ONE.
    assert(o * w00 <= ux * uy && o * w01 <= ux * oy && o * w10 <= ox * uy && o * w11 <= ox * oy
        && ux * uy + ux * oy + ox * uy + ox * oy == o * o) by (nonlinear_arith)
        requires
            0 <= ox < o,
            0 <= oy < o,
            ux == o - ox,
            uy == o - oy,
            o == 65536,
            w00 == tdiv(ux * uy, o),
            w01 == tdiv(ux * oy, o),
            w10 == tdiv(ox * uy, o),
            w11 == tdiv(ox * oy, o),
            fp_mul_i(ux, uy) == cap_i(tdiv(ux * uy, o)),
            cap_i(tdiv(ux * uy, o)) == tdiv(ux * uy, o),
    ;
    assert(w00 + w01 + w10 + w11 <= o) by (nonlinear_arith)
        requires
            o == 65536,
            o * w00 <= ux * uy,
            o * w01 <= ux * oy,
            o * w10 <= ox * uy,
            o * w11 <= ox * oy,
            ux * uy + ux * oy + ox * uy + ox * oy == o * o,
    ;
    // Each share is its product truncated down, so the shares sum to at most
    // amount * (sum of weights) / ONE <= amount.
    crate::fixed::lemma_fp_mul_frac_mag(amount, w00, SAMPLE_LIMIT as int);
    crate::fixed::lemma_fp_mul_frac_mag(amount, w01, SAMPLE_LIMIT as int);
    crate::fixed::lemma_fp_mul_frac_mag(amount, w10, SAMPLE_LIMIT as int);
    crate::fixed::lemma_fp_mul_frac_mag(amount, w11, SAMPLE_LIMIT as int);
    let s00: int = fp_mul_i(amount, w00);
    let s01: int = fp_mul_i(amount, w01);
    let s10: int = fp_mul_i(amount, w10);
    let s11: int = fp_mul_i(amount, w11);
    assert(o * s00 <= amount * w00 && o * s01 <= amount * w01 && o * s10 <= amount * w10 && o * s11
        <= amount * w11 && s00 + s01 + s10 + s11 <= amount) by (nonlinear_arith)
        requires
            o == 65536,
            0 <= amount,
            0 <= w00 && 0 <= w01 && 0 <= w10 && 0 <= w11,
            w00 + w01 + w10 + w11 <= o,
            s00 == tdiv(amount * w00, o) && cap_i(tdiv(amount * w00, o)) == tdiv(amount * w00, o)
                && s00 == fp_mul_i(amount, w00),
            s01 == tdiv(amount * w01, o) && cap_i(tdiv(amount * w01, o)) == tdiv(amount * w01, o)
                && s01 == fp_mul_i(amount, w01),
            s10 == tdiv(amount * w10, o) && cap_i(tdiv(amount * w10, o)) == tdiv(amount * w10, o)
                && s10 == fp_mul_i(amount, w10),
            s11 == tdiv(amount * w11, o) && cap_i(tdiv(amount * w11, o)) == tdiv(amount * w11, o)
                && s11 == fp_mul_i(amount, w11),
    ;
}


/// Erode brush entries from index `j` on: each takes its weighted share of
/// `amount`, clamped to the cell's current height, and the removed material
/// joins the droplet's sediment.
pub open spec fn erode_brush_from(
    entries: Seq<Brush>,
    j: int,
    size: int,
    amount: int,
    m: Seq<i64>,
    sed: int,
) -> (Seq<i64>, int)
    decreases entries.len() - j,
    when 0 <= j
{
    if j >= entries.len() {
        (m, sed)
    } else {
        let e: Brush = entries[j];
        let wamount: int = fp_mul_i(amount, e.weight as int);
        let idx: int = e.x * size + e.y;
        let cell: int = m[idx] as int;
        let ds: int = if cell < wamount {
            cell
        } else {
            wamount
        };
        erode_brush_from(entries, j + 1, size, amount, m.update(idx, (cell - ds) as i64), sed + ds)
    }
}

/// One droplet step: flow downhill one unit, then deposit or erode, then
/// update speed and water. Yields the stepped droplet, the changed map, and
/// whether the droplet stopped (died) this step.
#[verifier::opaque]
pub open spec fn droplet_step_i(cfg: HydraulicErosion, size: int, m: Seq<i64>, d: Droplet) -> (
    Droplet,
    Seq<i64>,
    bool,
) {
    let px: int = d.pos_x as int;
    let py: int = d.pos_y as int;
    let nx: int = px / (ONE as int);
    let ox: int = px % (ONE as int);
    let ny: int = py / (ONE as int);
    let oy: int = py % (ONE as int);
    let hg: (int, int, int) = height_gradient_i(m, size, px, py);
    let dx1: int = cap_i(
        fp_mul_i(d.dir_x as int, cfg.inertia as int) - fp_mul_i(hg.1, cap_i(ONE - cfg.inertia)),
    );
    let dy1: int = cap_i(
        fp_mul_i(d.dir_y as int, cfg.inertia as int) - fp_mul_i(hg.2, cap_i(ONE - cfg.inertia)),
    );
    let lensq: int = cap_i(fp_mul_i(dx1, dx1) + fp_mul_i(dy1, dy1));
    let len: int = fp_sqrt_i(lensq);
    let dx: int = if len != 0 {
        fp_div_i(dx1, len)
    } else {
        dx1
    };
    let dy: int = if len != 0 {
        fp_div_i(dy1, len)
    } else {
        dy1
    };
    let npx: int = cap_i(px + dx);
    let npy: int = cap_i(py + dy);
    let moved: Droplet = Droplet {
        pos_x: npx as i64,
        pos_y: npy as i64,
        dir_x: dx as i64,
        dir_y: dy as i64,
        speed: d.speed,
        water: d.water,
        sediment: d.sediment,
    };
    if (dx == 0 && dy == 0) || npx < 0 || npx >= (size - 1) * (ONE as int) || npy < 0 || npy >= (
    size - 1) * (ONE as int) {
        (moved, m, true)
    } else {
        let nh: int = height_gradient_i(m, size, npx, npy).0;
        let delta: int = cap_i(nh - hg.0);
        let c1: int = fp_mul_i(cap_i(0 - delta), d.speed as int);
        let c2: int = fp_mul_i(c1, d.water as int);
        let c3: int = fp_mul_i(c2, cfg.sediment_capacity_factor as int);
        let capacity: int = if c3 < cfg.min_sediment_capacity as int {
            cfg.min_sediment_capacity as int
        } else {
            c3
        };
        let sed: int = d.sediment as int;
        let after: (Seq<i64>, int) = if sed > capacity || delta > 0 {
            let amount: int = if delta > 0 {
                if delta < sed {
                    delta
                } else {
                    sed
                }
            } else {
                fp_mul_i(cap_i(sed - capacity), cfg.deposit_speed as int)
            };
            let s00: int = fp_mul_i(amount, fp_mul_i(cap_i(ONE - ox), cap_i(ONE - oy)));
            let s01: int = fp_mul_i(amount, fp_mul_i(cap_i(ONE - ox), oy));
            let s10: int = fp_mul_i(amount, fp_mul_i(ox, cap_i(ONE - oy)));
            let s11: int = fp_mul_i(amount, fp_mul_i(ox, oy));
            let i00: int = nx * size + ny;
            let i01: int = nx * size + ny + 1;
            let i10: int = (nx + 1) * size + ny;
            let i11: int = (nx + 1) * size + ny + 1;
            let m1: Seq<i64> = m.update(i00, (m[i00] + s00) as i64);
            let m2: Seq<i64> = m1.update(i01, (m1[i01] + s01) as i64);
            let m3: Seq<i64> = m2.update(i10, (m2[i10] + s10) as i64);
            let m4: Seq<i64> = m3.update(i11, (m3[i11] + s11) as i64);
            (m4, sed - (s00 + s01 + s10 + s11))
        } else {
            let e1: int = fp_mul_i(cap_i(capacity - sed), cfg.erode_speed as int);
            let negd: int = cap_i(0 - delta);
            let amount: int = if e1 < negd {
                e1
            } else {
                negd
            };
            erode_brush_from(cell_brush(size, cfg.erosion_radius as int, nx, ny), 0, size, amount, m, sed)
        };
        let rad: int = cap_i(fp_mul_i(d.speed as int, d.speed as int) + fp_mul_i(delta, cfg.gravity as int));
        let nspeed: int = if rad < 0 {
            0
        } else {
            fp_sqrt_i(rad)
        };
        let nwater: int = fp_mul_i(d.water as int, cap_i(ONE - cfg.evaporate_speed));
        (
            Droplet {
                pos_x: npx as i64,
                pos_y: npy as i64,
                dir_x: dx as i64,
                dir_y: dy as i64,
                speed: nspeed as i64,
                water: nwater as i64,
                sediment: after.1 as i64,
            },
            after.0,
            false,
        )
    }
}

/// A flattened row-major index decomposes back into its grid coordinates.
proof fn lemma_flat_cell(size: int, x: int, y: int)
    requires
        0 <= x < size,
        0 <= y < size,
    ensures
        (x * size + y) / size == x,
        (x * size + y) % size == y,
{
    assert((x * size + y) / size == x && (x * size + y) % size == y) by (nonlinear_arith)
        requires
            0 <= x < size,
            0 <= y < size,
    ;
}

/// Run one droplet step against the map.
#[verifier::rlimit(100)]
fn droplet_step(cfg: &HydraulicErosion, table: &BrushTable, map: &mut NoiseMap, d: Droplet) -> (r:
    (Droplet, bool))
    requires
        cfg.wf(),
        old(map).wf(),
        2 <= old(map).size <= MAX_GRID_SIZE,
        table_ok(*table, old(map).size as int, cfg.erosion_radius as int),
        0 <= d.pos_x < (old(map).size - 1) * (ONE as int),
        0 <= d.pos_y < (old(map).size - 1) * (ONE as int),
        fits(d.dir_x as int),
        fits(d.dir_y as int),
        0 <= d.speed <= CAP,
        0 <= d.water <= PARAM_LIMIT,
        0 <= d.sediment,
        old(map).in_range(0, SAMPLE_LIMIT as int),
        sum_seq(old(map).data@) + d.sediment <= SAMPLE_LIMIT as int,
    ensures
        final(map).wf(),
        final(map).size == old(map).size,
        (r.0, final(map).data@, r.1) == droplet_step_i(
            *cfg,
            old(map).size as int,
            old(map).data@,
            d,
        ),
        sum_seq(final(map).data@) + r.0.sediment == sum_seq(old(map).data@) + d.sediment,
        final(map).in_range(0, SAMPLE_LIMIT as int),
        0 <= r.0.sediment,
        !r.1 ==> 0 <= r.0.pos_x < (old(map).size - 1) * (ONE as int),
        !r.1 ==> 0 <= r.0.pos_y < (old(map).size - 1) * (ONE as int),
        fits(r.0.dir_x as int),
        fits(r.0.dir_y as int),
        0 <= r.0.speed <= CAP,
        0 <= r.0.water <= PARAM_LIMIT,
        r.1 ==> final(map).data@ == old(map).data@ && r.0.sediment == d.sediment,
{
    proof {
        reveal(droplet_step_i);
    }
    let size: usize = map.size;
    let limit: i64 = (size as i64 - 1) * ONE;
    let (nxl, ox): (i64, i64) = floor_split(d.pos_x);
    let (nyl, oy): (i64, i64) = floor_split(d.pos_y);
    proof {
        lemma_cell_of_pos(d.pos_x as int, size as int);
        lemma_cell_of_pos(d.pos_y as int, size as int);
    }
    let nx: usize = nxl as usize;
    let ny: usize = nyl as usize;
    let (h, gx, gy): (i64, i64, i64) = calculate_height_and_gradient(map, d.pos_x, d.pos_y);
    // Blend the old direction with the downhill gradient by inertia and
    // normalize to (roughly) unit length.
    let keep: i64 = cap_sub(ONE, cfg.inertia);
    let dx1: i64 = cap_sub(fp_mul(d.dir_x, cfg.inertia), fp_mul(gx, keep));
    let dy1: i64 = cap_sub(fp_mul(d.dir_y, cfg.inertia), fp_mul(gy, keep));
    proof {
        crate::fixed::lemma_fp_square_nonneg(dx1 as int);
        crate::fixed::lemma_fp_square_nonneg(dy1 as int);
    }
    let lensq: i64 = cap_add(fp_mul(dx1, dx1), fp_mul(dy1, dy1));
    let len: i64 = fp_sqrt(lensq);
    let dx: i64 = if len != 0 {
        fp_div(dx1, len)
    } else {
        dx1
    };
    let dy: i64 = if len != 0 {
        fp_div(dy1, len)
    } else {
        dy1
    };
    let npx: i64 = cap_add(d.pos_x, dx);
    let npy: i64 = cap_add(d.pos_y, dy);
    let moved: Droplet = Droplet {
        pos_x: npx,
        pos_y: npy,
        dir_x: dx,
        dir_y: dy,
        speed: d.speed,
        water: d.water,
        sediment: d.sediment,
    };
    // Stop when the droplet is still or has flowed over the edge of the map.
    if (dx == 0 && dy == 0) || npx < 0 || npx >= limit || npy < 0 || npy >= limit {
        return (moved, true);
    }
    let nh: i64 = calculate_height_and_gradient(map, npx, npy).0;
    let delta: i64 = cap_sub(nh, h);
    // Sediment capacity grows with slope, speed and water, with a floor.
    let c1: i64 = fp_mul(cap_sub(0, delta), d.speed);
    let c2: i64 = fp_mul(c1, d.water);
    let c3: i64 = fp_mul(c2, cfg.sediment_capacity_factor);
    let capacity: i64 = if c3 < cfg.min_sediment_capacity {
        cfg.min_sediment_capacity
    } else {
        c3
    };
    let mut sediment: i64 = d.sediment;
    let ghost m0: Seq<i64> = map.data@;
    let ghost sum0: int = sum_seq(m0);
    proof {
        lemma_sum_nonneg_all(m0);
        assert(sediment <= SAMPLE_LIMIT);
    }
    if sediment > capacity || delta > 0 {
        // Deposit: fill toward the new height when climbing, else drop a
        // fraction of the excess, spread bilinearly over the cell corners.
        let amount: i64 = if delta > 0 {
            if delta < sediment {
                delta
            } else {
                sediment
            }
        } else {
            fp_mul(cap_sub(sediment, capacity), cfg.deposit_speed)
        };
        proof {
            if !(delta > 0) {
                // The deposited fraction of the excess never exceeds the
                // excess itself, hence never the carried sediment.
                crate::fixed::lemma_fp_mul_frac_mag(
                    cap_i(sediment - capacity),
                    cfg.deposit_speed as int,
                    cap_i(sediment - capacity),
                );
            }
            lemma_deposit_shares(amount as int, ox as int, oy as int);
        }
        let w00: i64 = fp_mul(cap_sub(ONE, ox), cap_sub(ONE, oy));
        let w01: i64 = fp_mul(cap_sub(ONE, ox), oy);
        let w10: i64 = fp_mul(ox, cap_sub(ONE, oy));
        let w11: i64 = fp_mul(ox, oy);
        let s00: i64 = fp_mul(amount, w00);
        let s01: i64 = fp_mul(amount, w01);
        let s10: i64 = fp_mul(amount, w10);
        let s11: i64 = fp_mul(amount, w11);
        proof {
            lemma_grid_index(size as int, nx as int, ny as int);
            lemma_grid_index(size as int, nx as int, ny as int + 1);
            lemma_grid_index(size as int, nx as int + 1, ny as int);
            lemma_grid_index(size as int, nx as int + 1, ny as int + 1);
            lemma_sum_element_at(m0, (nx as int) * (size as int) + ny as int);
            lemma_sum_element_at(m0, (nx as int) * (size as int) + ny as int + 1);
            lemma_sum_element_at(m0, (nx as int + 1) * (size as int) + ny as int);
            lemma_sum_element_at(m0, (nx as int + 1) * (size as int) + ny as int + 1);
            // The four corner indices are pairwise distinct.
            assert((nx as int) * (size as int) + size as int == (nx as int + 1) * (size as int))
                by (nonlinear_arith);
        }
        let c00: i64 = map.get(nx, ny);
        map.set(nx, ny, c00 + s00);
        let c01: i64 = map.get(nx, ny + 1);
        map.set(nx, ny + 1, c01 + s01);
        let c10: i64 = map.get(nx + 1, ny);
        map.set(nx + 1, ny, c10 + s10);
        let c11: i64 = map.get(nx + 1, ny + 1);
        map.set(nx + 1, ny + 1, c11 + s11);
        sediment = sediment - (s00 + (s01 + (s10 + s11)));
        proof {
            assert(forall|t: int|
                0 <= t < map.data@.len() ==> 0 <= #[trigger] map.data@[t] <= SAMPLE_LIMIT as int);
        }
    } else {
        // Erode: take a brush-weighted share from every cell of the
        // droplet's brush, clamped to what each cell still has.
        let e1: i64 = fp_mul(cap_sub(capacity, sediment), cfg.erode_speed);
        let negd: i64 = cap_sub(0, delta);
        let amount: i64 = if e1 < negd {
            e1
        } else {
            negd
        };
        let n2: usize = map.data.len();
        proof {
            lemma_grid_index(size as int, nx as int, ny as int);
            lemma_flat_cell(size as int, nx as int, ny as int);
        }
        let idx: usize = nx * size + ny;
        let blen: usize = table.cells[idx].len();
        let ghost entries: Seq<Brush> = table.cells@[idx as int]@;
        let ghost sed0: int = sediment as int;
        let mut j: usize = 0;
        while j < blen
            invariant
                j <= blen,
                cfg.wf(),
                map.wf(),
                map.size == size,
                2 <= size <= MAX_GRID_SIZE,
                blen == entries.len(),
                entries == table.cells@[idx as int]@,
                0 <= idx < table.cells@.len(),
                forall|t: int|
                    0 <= t < entries.len() ==> brush_entry_ok(#[trigger] entries[t], size as int),
                fits(amount as int),
                0 <= amount <= SAMPLE_LIMIT,
                map.in_range(0, SAMPLE_LIMIT as int),
                0 <= sediment,
                sum_seq(map.data@) + sediment == sum0 + sed0,
                sum0 + sed0 <= SAMPLE_LIMIT as int,
                erode_brush_from(entries, j as int, size as int, amount as int, map.data@, sediment as int)
                    == erode_brush_from(entries, 0, size as int, amount as int, m0, sed0),
            decreases blen - j,
        {
            let e: Brush = table.cells[idx][j];
            let wamount: i64 = fp_mul(amount, e.weight);
            proof {
                crate::fixed::lemma_fp_mul_frac_mag(amount as int, e.weight as int, SAMPLE_LIMIT as int);
                lemma_grid_index(size as int, e.x as int, e.y as int);
                lemma_sum_element_at(map.data@, e.x as int * size as int + e.y as int);
                lemma_sum_nonneg_all(map.data@);
            }
            let cell: i64 = map.get(e.x, e.y);
            let ds: i64 = if cell < wamount {
                cell
            } else {
                wamount
            };
            map.set(e.x, e.y, cell - ds);
            sediment = sediment + ds;
            j = j + 1;
        }
        proof {
            lemma_sum_nonneg_all(map.data@);
        }
    }
    // Gravity feeds height drops into speed; evaporation sheds water. A
    // steep climb can push the squared-speed term negative, so the radicand
    // is floored at zero (the droplet stalls) instead of feeding the square
    // root an undefined input.
    let rad: i64 = cap_add(fp_mul(d.speed, d.speed), fp_mul(delta, cfg.gravity));
    let nspeed: i64 = if rad < 0 {
        0
    } else {
        fp_sqrt(rad)
    };
    proof {
        crate::fixed::lemma_fp_mul_frac_mag(d.water as int, cap_i(ONE - cfg.evaporate_speed), PARAM_LIMIT as int);
    }
    let nwater: i64 = fp_mul(d.water, cap_sub(ONE, cfg.evaporate_speed));
    proof {
        lemma_sum_nonneg_all(map.data@);
    }
    (
        Droplet {
            pos_x: npx,
            pos_y: npy,
            dir_x: dx,
            dir_y: dy,
            speed: nspeed,
            water: nwater,
            sediment,
        },
        false,
    )
}

/// In a non-negative map, each sample is at most the total.
proof fn lemma_sum_element_at(s: Seq<i64>, i: int)
    requires
        forall|t: int| 0 <= t < s.len() ==> 0 <= #[trigger] s[t] <= SAMPLE_LIMIT as int,
        0 <= i < s.len(),
    ensures
        s[i] <= sum_seq(s),
{
    assert(forall|t: int| 0 <= t < s.len() ==> 0 <= #[trigger] s[t]);
    crate::map::lemma_sum_element(s, i);
}

/// A non-negative map has a non-negative total.
proof fn lemma_sum_nonneg_all(s: Seq<i64>)
    requires
        forall|t: int| 0 <= t < s.len() ==> 0 <= #[trigger] s[t] <= SAMPLE_LIMIT as int,
    ensures
        0 <= sum_seq(s),
{
    assert(forall|t: int| 0 <= t < s.len() ==> 0 <= #[trigger] s[t]);
    crate::map::lemma_sum_nonneg(s);
}


/// Run one droplet for up to `steps` more steps; yields the final map and
/// the sediment the droplet still carries when it dies or expires.
pub open spec fn droplet_run_i(
    cfg: HydraulicErosion,
    size: int,
    m: Seq<i64>,
    d: Droplet,
    steps: nat,
) -> (Seq<i64>, int)
    decreases steps,
{
    if steps == 0 {
        (m, d.sediment as int)
    } else {
        let stepped: (Droplet, Seq<i64>, bool) = droplet_step_i(cfg, size, m, d);
        if stepped.2 {
            (stepped.1, stepped.0.sediment as int)
        } else {
            droplet_run_i(cfg, size, stepped.1, stepped.0, (steps - 1) as nat)
        }
    }
}

/// Simulate one droplet's whole lifetime; returns the sediment it still
/// carried when it stopped. When `record` is set, the droplet's positions
/// (grid coordinates with the sampled height) are appended to `path`.
#[verifier::rlimit(50)]
fn droplet_run(
    cfg: &HydraulicErosion,
    table: &BrushTable,
    map: &mut NoiseMap,
    d: Droplet,
    path: &mut Vec<Fx3>,
    record: bool,
) -> (r: i64)
    requires
        cfg.wf(),
        old(map).wf(),
        2 <= old(map).size <= MAX_GRID_SIZE,
        table_ok(*table, old(map).size as int, cfg.erosion_radius as int),
        0 <= d.pos_x < (old(map).size - 1) * (ONE as int),
        0 <= d.pos_y < (old(map).size - 1) * (ONE as int),
        fits(d.dir_x as int),
        fits(d.dir_y as int),
        0 <= d.speed <= CAP,
        0 <= d.water <= PARAM_LIMIT,
        0 <= d.sediment,
        old(map).in_range(0, SAMPLE_LIMIT as int),
        sum_seq(old(map).data@) + d.sediment <= SAMPLE_LIMIT as int,
    ensures
        final(map).wf(),
        final(map).size == old(map).size,
        (final(map).data@, r as int) == droplet_run_i(
            *cfg,
            old(map).size as int,
            old(map).data@,
            d,
            cfg.max_droplet_lifetime as nat,
        ),
        sum_seq(final(map).data@) + r == sum_seq(old(map).data@) + d.sediment,
        0 <= r,
        final(map).in_range(0, SAMPLE_LIMIT as int),
        !record ==> final(path)@ == old(path)@,
{
    let ghost m0: Seq<i64> = map.data@;
    let ghost size: int = map.size as int;
    let ghost sum0: int = sum_seq(m0);
    let lifetime: u32 = cfg.max_droplet_lifetime;
    let mut cur: Droplet = d;
    let mut k: u32 = 0;
    while k < lifetime
        invariant
            k <= lifetime,
            m0 == old(map).data@,
            size == old(map).size as int,
            sum0 == sum_seq(m0),
            lifetime == cfg.max_droplet_lifetime,
            cfg.wf(),
            map.wf(),
            map.size as int == size,
            2 <= map.size <= MAX_GRID_SIZE,
            table_ok(*table, size, cfg.erosion_radius as int),
            0 <= cur.pos_x < (size - 1) * (ONE as int),
            0 <= cur.pos_y < (size - 1) * (ONE as int),
            fits(cur.dir_x as int),
            fits(cur.dir_y as int),
            0 <= cur.speed <= CAP,
            0 <= cur.water <= PARAM_LIMIT,
            0 <= cur.sediment,
            map.in_range(0, SAMPLE_LIMIT as int),
            sum_seq(map.data@) + cur.sediment == sum0 + d.sediment,
            sum0 + d.sediment <= SAMPLE_LIMIT as int,
            droplet_run_i(*cfg, size, map.data@, cur, (lifetime - k) as nat) == droplet_run_i(
                *cfg,
                size,
                m0,
                d,
                lifetime as nat,
            ),
            !record ==> path@ == old(path)@,
        decreases lifetime - k,
    {
        if record {
            let (cnx, _): (i64, i64) = floor_split(cur.pos_x);
            let (cny, _): (i64, i64) = floor_split(cur.pos_y);
            proof {
                lemma_cell_of_pos(cur.pos_x as int, size);
                lemma_cell_of_pos(cur.pos_y as int, size);
            }
            let hh: i64 = map.get(cnx as usize, cny as usize);
            path.push(Fx3 { x: cur.pos_x, y: hh, z: cur.pos_y });
        }
        let (next, stopped): (Droplet, bool) = droplet_step(cfg, table, map, cur);
        if stopped {
            return next.sediment;
        }
        cur = next;
        k = k + 1;
    }
    cur.sediment
}

/// Run `iters` more droplets from the given generator state, accumulating
/// the sediment left in droplets when they stop; yields the final map, the
/// total residual sediment, and the final generator state.
pub open spec fn erosion_run_i(
    cfg: HydraulicErosion,
    size: int,
    m: Seq<i64>,
    iters: nat,
    state: u64,
    residual: int,
) -> (Seq<i64>, int, u64)
    decreases iters,
{
    if iters == 0 {
        (m, residual, state)
    } else {
        let vx: u64 = wy_value(state);
        let s1: u64 = wy_state(state);
        let vy: u64 = wy_value(s1);
        let s2: u64 = wy_state(s1);
        let span: int = (size - 1) * (ONE as int);
        let d: Droplet = Droplet {
            pos_x: spawn_coord(vx, span) as i64,
            pos_y: spawn_coord(vy, span) as i64,
            dir_x: 0,
            dir_y: 0,
            speed: cfg.initial_speed,
            water: cfg.initial_water_volume,
            sediment: 0,
        };
        let run: (Seq<i64>, int) = droplet_run_i(cfg, size, m, d, cfg.max_droplet_lifetime as nat);
        erosion_run_i(cfg, size, run.0, (iters - 1) as nat, s2, residual + run.1)
    }
}

/// How many droplet trajectories are kept when recording is on.
pub const MAX_RECORDED_PATHS: usize = 10;

impl HydraulicErosion {
    /// Erode the height field in place with `iterations` seeded droplets.
    ///
    /// Returns the recorded droplet trajectories (world-space polylines,
    /// only for the first few droplets, and only when `record_paths` is set)
    /// and the total sediment still carried by droplets at termination.
    /// Material is conserved exactly: the old total height equals the new
    /// total plus that residual, and with zero iterations the field is
    /// untouched.
    pub fn erode(
        &self,
        map: &mut NoiseMap,
        world_scale: i64,
        height_multiplier: i64,
        record_paths: bool,
    ) -> (r: (Vec<Vec<Fx3>>, i64))
        requires
            self.wf(),
            old(map).wf(),
            2 <= old(map).size <= MAX_GRID_SIZE,
            old(map).in_range(0, HEIGHT_LIMIT as int),
            0 <= world_scale <= PARAM_LIMIT,
            -(PARAM_LIMIT as int) <= height_multiplier as int <= PARAM_LIMIT as int,
        ensures
            final(map).wf(),
            final(map).size == old(map).size,
            ({
                let run = erosion_run_i(
                    *self,
                    old(map).size as int,
                    old(map).data@,
                    self.iterations as nat,
                    self.seed,
                    0,
                );
                final(map).data@ == run.0 && r.1 as int == run.1
            }),
            sum_seq(final(map).data@) + r.1 == sum_seq(old(map).data@),
            0 <= r.1,
            final(map).in_range(0, SAMPLE_LIMIT as int),
            self.iterations == 0 ==> final(map).data@ == old(map).data@ && r.1 == 0,
            !record_paths ==> r.0@.len() == 0,
            r.0@.len() <= MAX_RECORDED_PATHS,
    {
        let size: usize = map.size;
        let table: BrushTable = initialize_brushes(size, self.erosion_radius);
        let span: i64 = (size as i64 - 1) * ONE;
        let ghost m0: Seq<i64> = map.data@;
        let ghost sum0: int = sum_seq(m0);
        proof {
            crate::map::lemma_sum_range(m0, 0, HEIGHT_LIMIT as int);
            assert((size as int) * (size as int) <= 1025 * 1025) by (nonlinear_arith)
                requires
                    0 <= size as int <= 1025,
            ;
            assert(m0.len() * (HEIGHT_LIMIT as int) <= 1025 * 1025 * (HEIGHT_LIMIT as int))
                by (nonlinear_arith)
                requires
                    m0.len() <= 1025 * 1025,
            ;
        }
        let mut paths: Vec<Vec<Fx3>> = Vec::new();
        let mut residual: i64 = 0;
        let mut state: u64 = self.seed;
        let iterations: usize = self.iterations;
        let mut i: usize = 0;
        while i < iterations
            invariant
                i <= iterations,
                self.wf(),
                map.wf(),
                map.size == size,
                2 <= size <= MAX_GRID_SIZE,
                span == (size - 1) * (ONE as int),
                table_ok(table, size as int, self.erosion_radius as int),
                map.in_range(0, SAMPLE_LIMIT as int),
                0 <= residual,
                sum_seq(map.data@) + residual == sum0,
                sum0 <= SAMPLE_LIMIT as int,
                erosion_run_i(
                    *self,
                    size as int,
                    map.data@,
                    (iterations - i) as nat,
                    state,
                    residual as int,
                ) == erosion_run_i(*self, size as int, m0, iterations as nat, self.seed, 0),
                m0 == old(map).data@,
                sum0 == sum_seq(m0),
                iterations == self.iterations,
                0 <= world_scale <= PARAM_LIMIT,
                -(PARAM_LIMIT as int) <= height_multiplier as int <= PARAM_LIMIT as int,
                !record_paths ==> paths@.len() == 0,
                paths@.len() <= MAX_RECORDED_PATHS,
                paths@.len() <= i,
                i == 0 ==> map.data@ == m0 && residual == 0,
            decreases iterations - i,
        {
            let (px, s1): (i64, u64) = next_spawn(state, span);
            let (py, s2): (i64, u64) = next_spawn(s1, span);
            let droplet: Droplet = Droplet {
                pos_x: px,
                pos_y: py,
                dir_x: 0,
                dir_y: 0,
                speed: self.initial_speed,
                water: self.initial_water_volume,
                sediment: 0,
            };
            let record: bool = record_paths && i < MAX_RECORDED_PATHS;
            let mut path: Vec<Fx3> = Vec::new();
            let sed: i64 = droplet_run(self, &table, map, droplet, &mut path, record);
            proof {
                lemma_sum_nonneg_all(map.data@);
            }
            residual = residual + sed;
            state = s2;
            if record {
                // Transform the recorded grid-space points to world space.
                let half: i64 = (size as i64) * (ONE / 2);
                let size_fp: i64 = (size as i64) * ONE;
                let mut world: Vec<Fx3> = Vec::new();
                let mut t: usize = 0;
                let plen: usize = path.len();
                while t < plen
                    invariant
                        t <= plen,
                        plen == path@.len(),
                        world@.len() == t,
                        fits(half as int),
                        0 < size_fp <= CAP,
                        0 <= world_scale <= PARAM_LIMIT,
                        -(PARAM_LIMIT as int) <= height_multiplier as int <= PARAM_LIMIT as int,
                    decreases plen - t,
                {
                    let p: Fx3 = path[t];
                    let wx: i64 = if fits_check(p.x) {
                        mul_div(cap_sub(p.x, half), world_scale, size_fp)
                    } else {
                        0
                    };
                    let wy: i64 = if fits_check(p.y) {
                        fp_mul(fp_mul(p.y, height_multiplier), world_scale)
                    } else {
                        0
                    };
                    let wz: i64 = if fits_check(p.z) {
                        mul_div(cap_sub(p.z, half), world_scale, size_fp)
                    } else {
                        0
                    };
                    world.push(Fx3 { x: wx, y: wy, z: wz });
                    t = t + 1;
                }
                paths.push(world);
            }
            i = i + 1;
        }
        (paths, residual)
    }
}

/// Whether a value is within the saturation range.
fn fits_check(x: i64) -> (r: bool)
    ensures
        r == fits(x as int),
{
    -CAP <= x && x <= CAP
}

} // verus!
