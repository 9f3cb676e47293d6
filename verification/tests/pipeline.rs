//! End-to-end checks of the chunk generation pipeline: determinism, the
//! conservation balance of erosion, mesh shape, texture encoding and the
//! validation errors.

use procedural_landmass::curve::TerrainCurveMode;
use procedural_landmass::erosion::{HydraulicErosion, TerrainErosion};
use procedural_landmass::fixed::{Fx2, ONE};
use procedural_landmass::generator::{
    ChunkPosition, GenerationError, TerrainGenerator, TerrainTextureMode,
};
use procedural_landmass::map::NoiseMap;
use procedural_landmass::mesh::TerrainMeshMode;

fn small_generator() -> TerrainGenerator {
    let mut g = TerrainGenerator::default();
    g.chunk_size = 8;
    match &mut g.erosion {
        TerrainErosion::Hydraulic(h) => {
            h.iterations = 40;
            h.erosion_radius = 2;
        }
        TerrainErosion::Disabled => {}
    }
    g
}

fn total(map: &NoiseMap) -> i64 {
    map.data.iter().sum()
}

#[test]
fn generation_is_deterministic() {
    let g = small_generator();
    let pos = ChunkPosition { x: 3, y: -2 };
    let a = g.generate(pos).expect("valid settings");
    let b = g.generate(pos).expect("valid settings");
    assert_eq!(a.noise_map.data, b.noise_map.data);
    assert_eq!(a.image_data, b.image_data);
    assert_eq!(a.mesh.positions, b.mesh.positions);
    assert_eq!(a.mesh.uvs, b.mesh.uvs);
    assert_eq!(a.mesh.normals, b.mesh.normals);
    assert_eq!(a.mesh.indices, b.mesh.indices);
    assert_eq!(a.residual_sediment, b.residual_sediment);
}

#[test]
fn erosion_conserves_material_exactly() {
    let g = small_generator();
    let pos = ChunkPosition { x: 0, y: 0 };
    let base = g.generate_noise_map(pos);
    let before = total(&base);
    let mut eroded = base.clone();
    let (_paths, residual) = g.generate_erosion(&mut eroded);
    let after = total(&eroded);
    assert!(residual >= 0);
    assert_eq!(after + residual, before);
    // The droplets actually moved material.
    assert_ne!(base.data, eroded.data);
}

#[test]
fn erosion_with_zero_iterations_is_identity() {
    let mut g = small_generator();
    match &mut g.erosion {
        TerrainErosion::Hydraulic(h) => h.iterations = 0,
        TerrainErosion::Disabled => {}
    }
    let pos = ChunkPosition { x: 1, y: 1 };
    let base = g.generate_noise_map(pos);
    let mut map = base.clone();
    let (_paths, residual) = g.generate_erosion(&mut map);
    assert_eq!(residual, 0);
    assert_eq!(map.data, base.data);
}

#[test]
fn erosion_seed_changes_the_outcome() {
    // Runs the seeded generator through the trusted wrapper twice with
    // different seeds; if the wrapper ignored its state word, both runs
    // would carve the same cells.
    let g1 = small_generator();
    let mut g2 = small_generator();
    match &mut g2.erosion {
        TerrainErosion::Hydraulic(h) => h.seed = 12345,
        TerrainErosion::Disabled => {}
    }
    let pos = ChunkPosition { x: 0, y: 0 };
    let a = g1.generate(pos).expect("valid settings");
    let b = g2.generate(pos).expect("valid settings");
    assert_ne!(a.noise_map.data, b.noise_map.data);
}

#[test]
fn mesh_has_grid_vertices_and_interior_cell_indices() {
    let mut g = small_generator();
    g.erosion = TerrainErosion::Disabled;
    let out = g.generate(ChunkPosition { x: 0, y: 0 }).expect("valid settings");
    let size = g.chunk_size + 1;
    assert_eq!(out.mesh.positions.len(), size * size);
    assert_eq!(out.mesh.uvs.len(), size * size);
    assert_eq!(out.mesh.normals.len(), size * size);
    assert_eq!(out.mesh.indices.len(), 6 * (size - 1) * (size - 1));
    for &i in &out.mesh.indices {
        assert!((i as usize) < size * size);
    }
}

#[test]
fn flat_mesh_duplicates_vertices() {
    let mut g = small_generator();
    g.erosion = TerrainErosion::Disabled;
    g.mesh_mode = TerrainMeshMode::Flat;
    let out = g.generate(ChunkPosition { x: 0, y: 0 }).expect("valid settings");
    let size = g.chunk_size + 1;
    let slots = 6 * (size - 1) * (size - 1);
    assert_eq!(out.mesh.positions.len(), slots);
    assert_eq!(out.mesh.normals.len(), slots);
    for (k, &i) in out.mesh.indices.iter().enumerate() {
        assert_eq!(i as usize, k);
    }
    // The three slots of a triangle share one face normal.
    assert_eq!(out.mesh.normals[0], out.mesh.normals[1]);
    assert_eq!(out.mesh.normals[0], out.mesh.normals[2]);
}

#[test]
fn flat_chunk_scenario() {
    // chunk_size 4, a curve clamped to exactly 0.5 (so the field is flat at
    // height 0.5), no erosion, height multiplier 1, world scale 4.
    let mut g = TerrainGenerator::default();
    g.chunk_size = 4;
    g.world_scale = 4 * ONE;
    g.height_multiplier = ONE;
    g.erosion = TerrainErosion::Disabled;
    g.noise.correction.mode = TerrainCurveMode::Linear;
    g.noise.correction.offset = 0;
    g.noise.correction.invert = false;
    g.noise.correction.clamp = Fx2 { x: ONE / 2, y: ONE / 2 };
    let out = g.generate(ChunkPosition { x: 0, y: 0 }).expect("valid settings");
    // The height field is uniformly 0.5.
    for &h in &out.noise_map.data {
        assert_eq!(h, ONE / 2);
    }
    // The grid has one extra row and column: 25 vertices, 96 indices.
    assert_eq!(out.mesh.positions.len(), 25);
    assert_eq!(out.mesh.indices.len(), 96);
    // Vertex (2, 2): its height in world space is 0.5 * 1 * 4 = 2.
    let size = 5;
    let v = out.mesh.positions[2 * size + 2];
    assert_eq!(v.y, 2 * ONE);
}

#[test]
fn different_chunks_have_different_height_fields() {
    let mut g = small_generator();
    g.erosion = TerrainErosion::Disabled;
    let a = g.generate(ChunkPosition { x: 0, y: 0 }).expect("valid settings");
    let b = g.generate(ChunkPosition { x: 1, y: 0 }).expect("valid settings");
    assert_ne!(a.noise_map.data, b.noise_map.data);
}

#[test]
fn color_texture_encodes_regions() {
    let mut g = small_generator();
    g.erosion = TerrainErosion::Disabled;
    g.texture_mode = TerrainTextureMode::Color;
    let out = g.generate(ChunkPosition { x: 0, y: 0 }).expect("valid settings");
    let cs = g.chunk_size;
    assert_eq!(out.image_data.len(), cs * cs * 4);
    let size = cs + 1;
    for y in 0..cs {
        for x in 0..cs {
            let h = out.noise_map.data[x * size + y];
            let c = g.regions.get_color(h);
            let j = (y * cs + x) * 4;
            assert_eq!(out.image_data[j], c.red);
            assert_eq!(out.image_data[j + 1], c.green);
            assert_eq!(out.image_data[j + 2], c.blue);
            assert_eq!(out.image_data[j + 3], 255);
        }
    }
}

#[test]
fn height_texture_encodes_grayscale() {
    let mut g = small_generator();
    g.erosion = TerrainErosion::Disabled;
    g.texture_mode = TerrainTextureMode::HeightMap;
    let out = g.generate(ChunkPosition { x: 0, y: 0 }).expect("valid settings");
    let cs = g.chunk_size;
    let size = cs + 1;
    for y in 0..cs {
        for x in 0..cs {
            let h = out.noise_map.data[x * size + y].clamp(0, ONE);
            let v = (h * 255 / ONE) as u8;
            let j = (y * cs + x) * 4;
            assert_eq!(out.image_data[j], v);
            assert_eq!(out.image_data[j + 1], v);
            assert_eq!(out.image_data[j + 2], v);
            assert_eq!(out.image_data[j + 3], 255);
        }
    }
}

#[test]
fn rain_paths_recorded_when_enabled() {
    let mut g = small_generator();
    g.record_rain_paths = true;
    let out = g.generate(ChunkPosition { x: 0, y: 0 }).expect("valid settings");
    assert!(!out.rain_paths.is_empty());
    assert!(out.rain_paths.len() <= 10);
    let silent = small_generator();
    let out2 = silent.generate(ChunkPosition { x: 0, y: 0 }).expect("valid settings");
    assert!(out2.rain_paths.is_empty());
}

#[test]
fn validation_rejects_small_chunk() {
    let mut g = TerrainGenerator::default();
    g.chunk_size = 1;
    assert!(matches!(
        g.generate(ChunkPosition { x: 0, y: 0 }),
        Err(GenerationError::ChunkSizeTooSmall)
    ));
}

#[test]
fn validation_rejects_nonpositive_scale() {
    let mut g = TerrainGenerator::default();
    g.noise.scale = 0;
    assert_eq!(g.validate(), Err(GenerationError::NoiseScaleNotPositive));
}

#[test]
fn validation_rejects_singular_gain() {
    let mut g = TerrainGenerator::default();
    match &mut g.noise.mode {
        procedural_landmass::noise::TerrainNoiseMode::FMBSimplex(f) => f.gain = ONE,
        procedural_landmass::noise::TerrainNoiseMode::Simplex => {}
    }
    assert_eq!(g.validate(), Err(GenerationError::FractalGainSingular));
}

#[test]
fn validation_rejects_oversized_radius() {
    let mut g = TerrainGenerator::default();
    g.chunk_size = 4;
    match &mut g.erosion {
        TerrainErosion::Hydraulic(h) => h.erosion_radius = 4,
        TerrainErosion::Disabled => {}
    }
    assert_eq!(g.validate(), Err(GenerationError::ErosionRadiusTooLarge));
}

#[test]
fn validation_rejects_negative_band_with_erosion() {
    let mut g = TerrainGenerator::default();
    g.noise.correction.clamp = Fx2 { x: -ONE, y: ONE };
    assert_eq!(g.validate(), Err(GenerationError::CurveBandOutsideErosionRange));
    // Without erosion a negative band is acceptable.
    g.erosion = TerrainErosion::Disabled;
    assert_eq!(g.validate(), Ok(()));
}

#[test]
fn error_messages_describe_the_fault() {
    assert!(GenerationError::ChunkSizeTooSmall.message().contains("chunk size"));
    assert!(GenerationError::NoiseScaleNotPositive.message().contains("scale"));
}

#[test]
fn erosion_direct_call_balances() {
    // Drive the simulator directly on a hand-built field.
    let size = 12usize;
    let mut map = NoiseMap::new(size, 0);
    for x in 0..size {
        for y in 0..size {
            let h = ((x * 7919 + y * 104729) % 1000) as i64 * 50;
            map.set(x, y, h);
        }
    }
    let before: i64 = map.data.iter().sum();
    let cfg = HydraulicErosion { iterations: 200, seed: 99, ..HydraulicErosion::default() };
    let mut eroded = map.clone();
    let (paths, residual) = cfg.erode(&mut eroded, 10 * ONE, ONE, false);
    let after: i64 = eroded.data.iter().sum();
    assert_eq!(after + residual, before);
    assert!(residual >= 0);
    assert!(paths.is_empty());
    for &h in &eroded.data {
        assert!(h >= 0);
    }
}
