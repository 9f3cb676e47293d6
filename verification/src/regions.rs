//! Height classification: an ordered list of named color bands, where the
//! first band whose threshold is at least the sample height wins.

use vstd::prelude::*;
use crate::fixed::{ONE, lerp_i, lerp};

verus! {

/// An 8-bit-per-channel color (alpha is always opaque downstream).
#[derive(Clone, Copy, PartialEq, Eq, Structural, Debug)]
pub struct TerrainColor {
    pub red: u8,
    pub green: u8,
    pub blue: u8,
}

/// The fallback color when no band matches: black.
pub open spec fn fallback_color() -> TerrainColor {
    TerrainColor { red: 0, green: 0, blue: 0 }
}

/// One classification band: everything at or below `height` that no earlier
/// band claimed is drawn in `color`.
#[derive(Clone, Debug)]
pub struct TerrainType {
    pub name: String,
    pub color: TerrainColor,
    pub height: i64,
}

/// The color of the first band, at or after position `i`, whose threshold is
/// at least `h`; black if none matches.
pub open spec fn color_from(regions: Seq<TerrainType>, i: int, h: int) -> TerrainColor
    recommends
        0 <= i,
    decreases regions.len() - i,
{
    if i < 0 || i >= regions.len() {
        fallback_color()
    } else if h <= regions[i].height {
        regions[i].color
    } else {
        color_from(regions, i + 1, h)
    }
}

/// An ordered list of classification bands. Thresholds are expected to be
/// non-decreasing for band semantics to be meaningful, but the first-match
/// rule below is well-defined regardless.
#[derive(Clone, Debug)]
pub struct TerrainRegions(pub Vec<TerrainType>);

impl TerrainRegions {
    /// The color `get_color` returns for a height.
    pub open spec fn color_for(self, h: int) -> TerrainColor {
        color_from(self.0@, 0, h)
    }

    /// The color of the first region whose threshold is at least `height`,
    /// or black if the height exceeds every threshold.
    pub fn get_color(&self, height: i64) -> (r: TerrainColor)
        ensures
            r == self.color_for(height as int),
    {
        let n: usize = self.0.len();
        let mut i: usize = 0;
        while i < n
            invariant
                i <= n,
                n == self.0@.len(),
                self.color_for(height as int) == color_from(self.0@, i as int, height as int),
            decreases n - i,
        {
            if height <= self.0[i].height {
                return self.0[i].color;
            }
            i = i + 1;
        }
        TerrainColor { red: 0, green: 0, blue: 0 }
    }
}

/// Blend two colors channel-wise by the fixed-point fraction `t`.
pub open spec fn lerp_color_i(a: TerrainColor, b: TerrainColor, t: int) -> TerrainColor {
    TerrainColor {
        red: lerp_i(a.red as int, b.red as int, t) as u8,
        green: lerp_i(a.green as int, b.green as int, t) as u8,
        blue: lerp_i(a.blue as int, b.blue as int, t) as u8,
    }
}

/// Blend two colors channel-wise by the fraction `t`.
pub fn lerp_color(a: TerrainColor, b: TerrainColor, t: i64) -> (r: TerrainColor)
    requires
        0 <= t <= ONE,
    ensures
        r == lerp_color_i(a, b, t as int),
{
    proof {
        crate::fixed::lemma_lerp_mag(a.red as int, b.red as int, t as int, 255);
        crate::fixed::lemma_lerp_mag(a.green as int, b.green as int, t as int, 255);
        crate::fixed::lemma_lerp_mag(a.blue as int, b.blue as int, t as int, 255);
        lemma_lerp_nonneg(a.red as int, b.red as int, t as int);
        lemma_lerp_nonneg(a.green as int, b.green as int, t as int);
        lemma_lerp_nonneg(a.blue as int, b.blue as int, t as int);
    }
    TerrainColor {
        red: lerp(a.red as i64, b.red as i64, t) as u8,
        green: lerp(a.green as i64, b.green as i64, t) as u8,
        blue: lerp(a.blue as i64, b.blue as i64, t) as u8,
    }
}

/// Interpolating between non-negative values is non-negative.
proof fn lemma_lerp_nonneg(a: int, b: int, t: int)
    requires
        0 <= t <= ONE as int,
        0 <= a <= 255,
        0 <= b <= 255,
    ensures
        0 <= lerp_i(a, b, t),
{
    crate::fixed::lemma_fp_mul_frac_mag(a, ONE as int - t, 255);
    crate::fixed::lemma_fp_mul_frac_mag(b, t, 255);
}


/// From position `k` on, bands below the height are skipped: the scan lands
/// on the first band at or after `k` whose threshold reaches `h`.
proof fn lemma_first_match_from(regions: Seq<TerrainType>, h: int, k: int, i: int)
    requires
        0 <= k <= i < regions.len(),
        h <= regions[i].height,
        forall|j: int| k <= j < i ==> #[trigger] regions[j].height < h,
    ensures
        color_from(regions, k, h) == regions[i].color,
    decreases i - k,
{
    if k < i {
        lemma_first_match_from(regions, h, k + 1, i);
    }
}

/// The first matching band wins: if every band before `i` lies below the
/// height and band `i` reaches it, the lookup returns band `i`'s color.
pub proof fn lemma_first_matching_band(regions: TerrainRegions, h: int, i: int)
    requires
        0 <= i < regions.0@.len(),
        h <= regions.0@[i].height,
        forall|j: int| 0 <= j < i ==> #[trigger] regions.0@[j].height < h,
    ensures
        regions.color_for(h) == regions.0@[i].color,
{
    lemma_first_match_from(regions.0@, h, 0, i);
}

/// When the height exceeds every threshold, the lookup falls back to black.
pub proof fn lemma_no_matching_band(regions: TerrainRegions, h: int)
    requires
        forall|j: int| 0 <= j < regions.0@.len() ==> #[trigger] regions.0@[j].height < h,
    ensures
        regions.color_for(h) == fallback_color(),
{
    lemma_no_match_from(regions.0@, h, 0);
}

/// From position `k` on, a height above every threshold finds no band.
proof fn lemma_no_match_from(regions: Seq<TerrainType>, h: int, k: int)
    requires
        0 <= k,
        forall|j: int| 0 <= j < regions.len() ==> #[trigger] regions[j].height < h,
    ensures
        color_from(regions, k, h) == fallback_color(),
    decreases regions.len() - k,
{
    if k < regions.len() {
        lemma_no_match_from(regions, h, k + 1);
    }
}

impl Default for TerrainRegions {
    /// Six bands: water, sand, grass, forest, rock, snow, with thresholds
    /// 0.1, 0.2, 0.4, 0.6, 0.8 and 1.0 of the unit height range.
    fn default() -> (r: Self)
        ensures
            r.0@.len() == 6,
            r.0@[0].name@ == "Water"@ && r.0@[0].color == (TerrainColor {
                red: 0,
                green: 0,
                blue: 127,
            }) && r.0@[0].height == 6554,
            r.0@[1].name@ == "Sand"@ && r.0@[1].color == (TerrainColor {
                red: 229,
                green: 229,
                blue: 127,
            }) && r.0@[1].height == 13107,
            r.0@[2].name@ == "Grass"@ && r.0@[2].color == (TerrainColor {
                red: 0,
                green: 127,
                blue: 0,
            }) && r.0@[2].height == 26214,
            r.0@[3].name@ == "Forest"@ && r.0@[3].color == (TerrainColor {
                red: 0,
                green: 63,
                blue: 0,
            }) && r.0@[3].height == 39322,
            r.0@[4].name@ == "Rock"@ && r.0@[4].color == (TerrainColor {
                red: 127,
                green: 127,
                blue: 127,
            }) && r.0@[4].height == 52429,
            r.0@[5].name@ == "Snow"@ && r.0@[5].color == (TerrainColor {
                red: 255,
                green: 255,
                blue: 255,
            }) && r.0@[5].height == 65536,
    {
        let mut v: Vec<TerrainType> = Vec::new();
        v.push(
            TerrainType {
                name: "Water".to_owned(),
                color: TerrainColor { red: 0, green: 0, blue: 127 },
                height: 6554,
            },
        );
        v.push(
            TerrainType {
                name: "Sand".to_owned(),
                color: TerrainColor { red: 229, green: 229, blue: 127 },
                height: 13107,
            },
        );
        v.push(
            TerrainType {
                name: "Grass".to_owned(),
                color: TerrainColor { red: 0, green: 127, blue: 0 },
                height: 26214,
            },
        );
        v.push(
            TerrainType {
                name: "Forest".to_owned(),
                color: TerrainColor { red: 0, green: 63, blue: 0 },
                height: 39322,
            },
        );
        v.push(
            TerrainType {
                name: "Rock".to_owned(),
                color: TerrainColor { red: 127, green: 127, blue: 127 },
                height: 52429,
            },
        );
        v.push(
            TerrainType {
                name: "Snow".to_owned(),
                color: TerrainColor { red: 255, green: 255, blue: 255 },
                height: 65536,
            },
        );
        TerrainRegions(v)
    }
}

} // verus!
