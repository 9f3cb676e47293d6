//! Procedural terrain synthesis: given a chunk coordinate and a parameter
//! snapshot, produce a height field, optionally erode it with a
//! water-droplet simulation, derive a color or height texture, and
//! tessellate the result into a triangle mesh.
//!
//! All arithmetic is fixed point (`i64` values with 16 fractional bits), so
//! the whole pipeline is a function of its inputs: a chunk generated twice
//! from the same snapshot is bit-identical. The only randomness is the
//! droplet-spawning generator, seeded explicitly by the snapshot and
//! threaded as a plain state word.
//!
//! The modules, leaves first: [`fixed`] holds the saturating fixed-point
//! scalar operations; [`map`] the square height-field grid; [`noise`] the
//! seeded coherent-noise primitive and its fractal layering; [`curve`] the
//! response curve applied to samples; [`regions`] the height-to-color
//! classification bands; [`rng`] the seeded droplet-spawn source; [`erosion`]
//! the droplet simulation and its precomputed brushes; [`mesh`] the grid
//! tessellation; and [`generator`] the per-chunk pipeline that composes
//! them, validates parameter snapshots, and carries the determinism and
//! conservation laws.

pub mod curve;
pub mod erosion;
pub mod fixed;
pub mod generator;
pub mod map;
pub mod mesh;
pub mod noise;
pub mod regions;
pub mod rng;

