//! Component-level checks: fixed-point utilities, curves, noise, regions,
//! brushes and the seeded generator.

use procedural_landmass::curve::{TerrainCurve, TerrainCurveMode};
use procedural_landmass::erosion::{initialize_brushes, HydraulicErosion, TerrainErosion};
use procedural_landmass::fixed::{fp_clamp, fp_mul, fp_sqrt, lerp, remap, Fx2, ONE};
use procedural_landmass::noise::{simplex_noise_2d_seeded, FMBSimplex, TerrainNoise};
use procedural_landmass::regions::{lerp_color, TerrainColor, TerrainRegions, TerrainType};
use procedural_landmass::rng::next_spawn;

fn curve(mode: TerrainCurveMode) -> TerrainCurve {
    TerrainCurve { mode, invert: false, clamp: Fx2 { x: 0, y: ONE }, offset: 0 }
}

#[test]
fn fixed_point_utilities() {
    assert_eq!(fp_mul(ONE / 2, ONE / 2), ONE / 4);
    assert_eq!(fp_mul(-ONE, 3 * ONE), -3 * ONE);
    assert_eq!(fp_sqrt(4 * ONE), 2 * ONE);
    assert_eq!(fp_sqrt(0), 0);
    assert_eq!(fp_clamp(5 * ONE, 0, ONE), ONE);
    assert_eq!(fp_clamp(-ONE, 0, ONE), 0);
    assert_eq!(lerp(0, ONE, ONE / 2), ONE / 2);
    assert_eq!(lerp(2 * ONE, 4 * ONE, ONE / 4), 2 * ONE + ONE / 2);
    assert_eq!(remap(ONE / 2, 0, ONE, 0, 2 * ONE), ONE);
    assert_eq!(remap(0, -ONE, ONE, 0, ONE), ONE / 2);
}

#[test]
fn curve_linear_identity_inside_clamp() {
    let c = curve(TerrainCurveMode::Linear);
    assert_eq!(c.get(ONE / 2), ONE / 2);
    assert_eq!(c.get(-5), 0);
    assert_eq!(c.get(2 * ONE), ONE);
}

#[test]
fn curve_shapes_exact_values() {
    // 0.5 squared is 0.25; cubed is 0.125.
    assert_eq!(curve(TerrainCurveMode::SquareIn).get(ONE / 2), ONE / 4);
    assert_eq!(curve(TerrainCurveMode::CubicIn).get(ONE / 2), ONE / 8);
    // Ease-out of 0.5: 1 - 0.25 = 0.75 and 1 - 0.125 = 0.875.
    assert_eq!(curve(TerrainCurveMode::SquareOut).get(ONE / 2), 3 * ONE / 4);
    assert_eq!(curve(TerrainCurveMode::CubicOut).get(ONE / 2), 7 * ONE / 8);
    // Ease-in-out at the seam: 4 * 0.5^3 = 0.5.
    assert_eq!(curve(TerrainCurveMode::CubicInOut).get(ONE / 2 - 1), 32764);
    // Offset applies before the shape.
    let mut c = curve(TerrainCurveMode::SquareIn);
    c.offset = ONE / 2;
    assert_eq!(c.get(0), ONE / 4);
}

#[test]
fn curve_output_always_in_clamp_band() {
    let lo: i64 = 13107; // 0.2
    let hi: i64 = 52429; // 0.8
    let modes = [
        TerrainCurveMode::Linear,
        TerrainCurveMode::SquareIn,
        TerrainCurveMode::SquareOut,
        TerrainCurveMode::CubicIn,
        TerrainCurveMode::CubicOut,
        TerrainCurveMode::CubicInOut,
    ];
    for mode in modes {
        let c = TerrainCurve { mode, invert: false, clamp: Fx2 { x: hi, y: lo }, offset: 327 };
        let mut h: i64 = -3 * ONE;
        while h <= 3 * ONE {
            let r = c.get(h);
            assert!(lo <= r && r <= hi, "mode {:?} height {} gave {}", mode, h, r);
            h += 4099;
        }
    }
}

#[test]
fn curve_inverted_reflects_band() {
    let c = TerrainCurve {
        mode: TerrainCurveMode::Linear,
        invert: true,
        clamp: Fx2 { x: 0, y: ONE },
        offset: 0,
    };
    assert_eq!(c.get(ONE / 4), 3 * ONE / 4);
}

#[test]
fn noise_primitive_bounded_and_deterministic() {
    let mut p: i64 = -300000;
    while p < 300000 {
        let v = simplex_noise_2d_seeded(Fx2 { x: p, y: -2 * p + 17 }, 42);
        assert!(-ONE <= v && v <= ONE);
        let again = simplex_noise_2d_seeded(Fx2 { x: p, y: -2 * p + 17 }, 42);
        assert_eq!(v, again);
        p += 23456;
    }
}

#[test]
fn noise_seeds_differ() {
    let pos = Fx2 { x: 12345, y: 67890 };
    let a = simplex_noise_2d_seeded(pos, 1);
    let b = simplex_noise_2d_seeded(pos, 2);
    assert_ne!(a, b);
}

#[test]
fn fractal_output_in_unit_range() {
    // All sorts of octave/gain/lacunarity combinations, gain != 1.
    let gains: [i64; 5] = [0, 19661, 65535, 2 * ONE, -ONE / 2];
    let lacs: [i64; 3] = [ONE / 2, 2 * ONE, 4 * ONE];
    for &gain in &gains {
        for &lac in &lacs {
            for octaves in 1..7usize {
                let f = FMBSimplex { octaves, lacunarity: lac, gain };
                let mut p: i64 = -200000;
                while p < 200000 {
                    let v = f.get(Fx2 { x: p, y: p / 3 }, 7);
                    assert!(
                        0 <= v && v <= ONE,
                        "octaves {} gain {} lac {} at {} gave {}",
                        octaves,
                        gain,
                        lac,
                        p,
                        v
                    );
                    p += 77777;
                }
            }
        }
    }
}

#[test]
fn terrain_noise_applies_correction() {
    let mut n = TerrainNoise::default();
    n.correction.clamp = Fx2 { x: ONE / 2, y: ONE / 2 };
    let v = n.get(Fx2 { x: 999, y: -999 }, n.seed);
    assert_eq!(v, ONE / 2);
}

#[test]
fn regions_first_matching_band_wins() {
    // Bands at 0.1 (blue), 0.4 (green), 1.0 (white).
    let blue = TerrainColor { red: 0, green: 0, blue: 255 };
    let green = TerrainColor { red: 0, green: 255, blue: 0 };
    let white = TerrainColor { red: 255, green: 255, blue: 255 };
    let regions = TerrainRegions(vec![
        TerrainType { name: "blue".to_owned(), color: blue, height: 6554 },
        TerrainType { name: "green".to_owned(), color: green, height: 26214 },
        TerrainType { name: "white".to_owned(), color: white, height: 65536 },
    ]);
    assert_eq!(regions.get_color(3277), blue); // 0.05
    assert_eq!(regions.get_color(16384), green); // 0.25
    assert_eq!(regions.get_color(64881), white); // 0.99
    // Beyond every threshold: black fallback.
    assert_eq!(regions.get_color(2 * ONE), TerrainColor { red: 0, green: 0, blue: 0 });
}

#[test]
fn regions_default_bands() {
    let regions = TerrainRegions::default();
    assert_eq!(regions.0.len(), 6);
    assert_eq!(regions.0[0].name, "Water");
    assert_eq!(regions.0[0].height, 6554);
    assert_eq!(regions.0[5].name, "Snow");
    assert_eq!(regions.0[5].color, TerrainColor { red: 255, green: 255, blue: 255 });
}

#[test]
fn color_blending_midpoint() {
    let a = TerrainColor { red: 0, green: 100, blue: 200 };
    let b = TerrainColor { red: 100, green: 200, blue: 0 };
    let mid = lerp_color(a, b, ONE / 2);
    assert_eq!(mid, TerrainColor { red: 50, green: 150, blue: 100 });
}

#[test]
fn brush_weights_sum_to_one_inside_grid() {
    let table = initialize_brushes(16, 3);
    assert_eq!(table.cells.len(), 256);
    // An interior cell: full brush, weights summing to exactly one.
    let cell = &table.cells[8 * 16 + 8];
    assert!(!cell.is_empty());
    let total: i64 = cell.iter().map(|b| b.weight).sum();
    assert_eq!(total, ONE);
    for b in cell {
        assert!(b.x < 16 && b.y < 16);
        assert!(0 <= b.weight && b.weight <= ONE);
    }
    // An edge cell is excluded from erosion.
    assert!(table.cells[0].is_empty());
}

#[test]
fn spawn_generator_matches_wyrand() {
    // The trusted wrapper threads fastrand's WyRand state explicitly; the
    // draws must match driving fastrand directly.
    let seed: u64 = 0xdead_beef;
    let mut reference = fastrand::Rng::with_seed(seed);
    let expected0 = reference.u64(..) % 1000;
    let state1 = reference.get_seed();
    let expected1 = reference.u64(..) % 1000;

    let (v0, s1) = next_spawn(seed, 1000);
    assert_eq!(v0 as u64, expected0);
    assert_eq!(s1, state1);
    let (v1, _s2) = next_spawn(s1, 1000);
    assert_eq!(v1 as u64, expected1);
    // The state moves.
    assert_ne!(s1, seed);
}

#[test]
fn empty_region_list_yields_black() {
    let regions = TerrainRegions(Vec::new());
    assert_eq!(regions.get_color(0), TerrainColor { red: 0, green: 0, blue: 0 });
}

#[test]
fn square_root_rounds_down() {
    // sqrt(2) in Q16 is 92681.9...; the result rounds down.
    assert_eq!(fp_sqrt(2 * ONE), 92681);
    assert_eq!(fp_sqrt(1), 256); // sqrt(2^-16) = 2^-8
}

#[test]
fn default_erosion_settings() {
    let e = HydraulicErosion::default();
    assert_eq!(e.iterations, 100);
    assert_eq!(e.erosion_radius, 3);
    assert_eq!(e.inertia, 3277);
    assert_eq!(e.max_droplet_lifetime, 10);
    match TerrainErosion::default() {
        TerrainErosion::Hydraulic(h) => assert_eq!(h, e),
        TerrainErosion::Disabled => panic!("default erosion should be hydraulic"),
    }
}
