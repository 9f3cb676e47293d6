//! The per-chunk generation pipeline: a height field sampled from the
//! configured noise, optionally eroded, then turned into a pixel buffer and
//! a mesh. The whole result is a function of the chunk coordinate and the
//! parameter snapshot alone, so two calls with equal inputs give
//! bit-identical height fields, textures and meshes.

use vstd::prelude::*;
use crate::fixed::{
    ONE, CAP, Fx2, Fx3, fits, cap_i, clamp_i, tdiv, mul_div_i, fp_mul_i, fp_div_i, cap_add,
    cap_sub, fp_mul, fp_div, fp_clamp, mul_div, PARAM_LIMIT,
};
use crate::map::{NoiseMap, sum_seq, lemma_grid_index, MAX_GRID_SIZE, SAMPLE_LIMIT};
use crate::noise::{TerrainNoise, fbm_sum_bound, fbm_components};
use crate::curve::TerrainCurve;
use crate::mesh::{
    TerrainMeshMode, ChunkMeshData, build_mesh, smooth_mesh_ok, flat_mesh_ok,
};
use crate::erosion::{TerrainErosion, erosion_run_i, HEIGHT_LIMIT};
use crate::regions::{TerrainRegions, TerrainColor, color_from};

verus! {

/// The largest chunk coordinate magnitude the pipeline accepts; keeps the
/// world-space sample positions within the fixed-point range.
pub const CHUNK_COORD_LIMIT: i32 = 0x8_0000;

/// What the pixel buffer encodes.
#[derive(Clone, Copy, PartialEq, Eq, Structural, Debug)]
pub enum TerrainTextureMode {
    HeightMap,
    Color,
}

/// How the engine should sample the chunk texture (carried through to the
/// caller; the pipeline itself does not sample).
#[derive(Clone, Copy, PartialEq, Eq, Structural, Debug)]
pub enum TerrainSampler {
    Linear,
    Nearest,
}

/// A chunk's coordinate in the grid of chunks.
#[derive(Clone, Copy, PartialEq, Eq, Structural, Debug)]
pub struct ChunkPosition {
    pub x: i32,
    pub y: i32,
}

/// One terrain chunk: its coordinate in the chunk grid.
#[derive(Clone, Copy, PartialEq, Eq, Structural, Debug)]
pub struct TerrainChunk {
    pub position: ChunkPosition,
}

impl TerrainChunk {
    pub fn new(position: ChunkPosition) -> (r: Self)
        ensures
            r.position == position,
    {
        TerrainChunk { position }
    }

    /// The raw fractal noise sum at a position (unremapped), as the fractal
    /// sampler accumulates it.
    pub fn fbm_simplex_2d_seeded(
        pos: Fx2,
        octaves: usize,
        lacunarity: i64,
        gain: i64,
        seed: u64,
    ) -> (r: i64)
        requires
            fits(pos.x as int),
            fits(pos.y as int),
            -(PARAM_LIMIT as int) <= lacunarity as int <= PARAM_LIMIT as int,
            -(PARAM_LIMIT as int) <= gain as int <= PARAM_LIMIT as int,
        ensures
            r == fbm_sum_bound(
                pos.x as int,
                pos.y as int,
                octaves as nat,
                lacunarity as int,
                gain as int,
                seed,
            ).0,
    {
        let (s, _b): (i64, i64) = fbm_components(pos, octaves, lacunarity, gain, seed);
        s
    }
}

/// Why a parameter snapshot was rejected before any generation work.
#[derive(Clone, Copy, PartialEq, Eq, Structural, Debug)]
pub enum GenerationError {
    /// The chunk grid cannot form a single triangle.
    ChunkSizeTooSmall,
    /// The noise scale must be positive (it divides sample positions).
    NoiseScaleNotPositive,
    /// A fractal gain of exactly one makes the analytic amplitude bound
    /// singular.
    FractalGainSingular,
    /// The erosion brush radius must be smaller than the chunk size.
    ErosionRadiusTooLarge,
    /// Hydraulic erosion models non-negative, bounded heights; the response
    /// curve's output band must lie within that range.
    CurveBandOutsideErosionRange,
}

impl GenerationError {
    /// A short description of the rejection.
    pub fn message(&self) -> &'static str {
        match self {
            GenerationError::ChunkSizeTooSmall => "chunk size must be at least 2",
            GenerationError::NoiseScaleNotPositive => "noise scale must be positive",
            GenerationError::FractalGainSingular => "fractal gain must not be exactly 1",
            GenerationError::ErosionRadiusTooLarge => "erosion radius must be below the chunk size",
            GenerationError::CurveBandOutsideErosionRange => "curve output band must lie in the erodible height range",
        }
    }
}

/// Everything one chunk generation produces: the (possibly eroded) height
/// field, the RGBA pixel buffer, the mesh, the recorded droplet
/// trajectories, and the sediment still carried by droplets at termination.
#[derive(Clone, Debug)]
pub struct ChunkResult {
    pub noise_map: NoiseMap,
    pub image_data: Vec<u8>,
    pub mesh: ChunkMeshData,
    pub rain_paths: Vec<Vec<Fx3>>,
    pub residual_sediment: i64,
}

/// The generation parameter snapshot: one immutable value carries every
/// setting a generation run reads.
#[derive(Clone, Debug)]
pub struct TerrainGenerator {
    /// Grid resolution of one chunk; the height field has one extra row and
    /// column so adjacent chunks share an edge.
    pub chunk_size: usize,
    /// World-space size of one chunk edge.
    pub world_scale: i64,
    /// Vertical scale applied to normalized heights.
    pub height_multiplier: i64,
    pub texture_mode: TerrainTextureMode,
    pub mesh_mode: TerrainMeshMode,
    pub sampler: TerrainSampler,
    pub noise: TerrainNoise,
    pub erosion: TerrainErosion,
    pub regions: TerrainRegions,
    /// Record droplet trajectories during erosion (a debug output channel).
    pub record_rain_paths: bool,
}

impl TerrainGenerator {
    /// Machine bounds: every numeric parameter within the fixed-point
    /// parameter range, and the grid within the supported size.
    pub open spec fn wf(self) -> bool {
        &&& self.chunk_size < MAX_GRID_SIZE
        &&& 0 <= self.world_scale <= PARAM_LIMIT
        &&& -(PARAM_LIMIT as int) <= self.height_multiplier as int <= PARAM_LIMIT as int
        &&& self.noise.wf()
        &&& match self.erosion {
            TerrainErosion::Disabled => true,
            TerrainErosion::Hydraulic(h) => h.wf(),
        }
    }

    /// The first configuration fault, in a fixed checking order; `None`
    /// when the snapshot is acceptable.
    pub open spec fn validation_error(self) -> Option<GenerationError> {
        if self.chunk_size < 2 {
            Some(GenerationError::ChunkSizeTooSmall)
        } else if self.noise.scale <= 0 {
            Some(GenerationError::NoiseScaleNotPositive)
        } else if (match self.noise.mode {
            crate::noise::TerrainNoiseMode::FMBSimplex(f) => f.gain == ONE,
            crate::noise::TerrainNoiseMode::Simplex => false,
        }) {
            Some(GenerationError::FractalGainSingular)
        } else if (match self.erosion {
            TerrainErosion::Disabled => false,
            TerrainErosion::Hydraulic(h) => h.erosion_radius >= self.chunk_size,
        }) {
            Some(GenerationError::ErosionRadiusTooLarge)
        } else if (match self.erosion {
            TerrainErosion::Disabled => false,
            TerrainErosion::Hydraulic(h) => !(0 <= self.noise.correction.out_lo()
                && self.noise.correction.out_hi() <= HEIGHT_LIMIT),
        }) {
            Some(GenerationError::CurveBandOutsideErosionRange)
        } else {
            None
        }
    }

    /// The snapshot passes validation.
    pub open spec fn valid(self) -> bool {
        self.validation_error() is None
    }

    /// Check the snapshot, failing fast with the first fault found, before
    /// any generation work starts.
    pub fn validate(&self) -> (r: Result<(), GenerationError>)
        requires
            self.wf(),
        ensures
            r is Ok <==> self.valid(),
            r matches Err(e) ==> Some(e) == self.validation_error(),
    {
        if self.chunk_size < 2 {
            return Err(GenerationError::ChunkSizeTooSmall);
        }
        if self.noise.scale <= 0 {
            return Err(GenerationError::NoiseScaleNotPositive);
        }
        match &self.noise.mode {
            crate::noise::TerrainNoiseMode::FMBSimplex(f) => {
                if f.gain == ONE {
                    return Err(GenerationError::FractalGainSingular);
                }
            },
            crate::noise::TerrainNoiseMode::Simplex => {},
        }
        match &self.erosion {
            TerrainErosion::Disabled => {},
            TerrainErosion::Hydraulic(h) => {
                if h.erosion_radius >= self.chunk_size {
                    return Err(GenerationError::ErosionRadiusTooLarge);
                }
                let lo: i64 = if self.noise.correction.invert {
                    ONE - (if self.noise.correction.clamp.x <= self.noise.correction.clamp.y {
                        self.noise.correction.clamp.y
                    } else {
                        self.noise.correction.clamp.x
                    })
                } else {
                    if self.noise.correction.clamp.x <= self.noise.correction.clamp.y {
                        self.noise.correction.clamp.x
                    } else {
                        self.noise.correction.clamp.y
                    }
                };
                let hi: i64 = if self.noise.correction.invert {
                    ONE - (if self.noise.correction.clamp.x <= self.noise.correction.clamp.y {
                        self.noise.correction.clamp.x
                    } else {
                        self.noise.correction.clamp.y
                    })
                } else {
                    if self.noise.correction.clamp.x <= self.noise.correction.clamp.y {
                        self.noise.correction.clamp.y
                    } else {
                        self.noise.correction.clamp.x
                    }
                };
                if !(0 <= lo && hi <= HEIGHT_LIMIT) {
                    return Err(GenerationError::CurveBandOutsideErosionRange);
                }
            },
        }
        Ok(())
    }
}


/// A flattened grid index decomposes back into its coordinates.
proof fn lemma_cell_decompose(size: int, x: int, y: int)
    requires
        0 <= x < size,
        0 <= y < size,
    ensures
        (x * size + y) / size == x,
        (x * size + y) % size == y,
{
    assert((x * size + y) / size == x && (x * size + y) % size == y) by (nonlinear_arith)
        requires
            0 <= x < size,
            0 <= y < size,
    ;
}

/// Quotient and remainder of the four bytes of one pixel.
proof fn lemma_four(p: int, ch: int)
    requires
        0 <= p,
        0 <= ch < 4,
    ensures
        (4 * p + ch) / 4 == p,
        (4 * p + ch) % 4 == ch,
{
    assert((4 * p + ch) / 4 == p && (4 * p + ch) % 4 == ch) by (nonlinear_arith)
        requires
            0 <= p,
            0 <= ch < 4,
    ;
}

impl TerrainGenerator {
    /// The fixed-point noise-space coordinate sampled along one axis: the
    /// cell offset from the chunk center, shifted by the chunk coordinate
    /// and the configured offset, before the scale division.
    pub open spec fn sample_num_i(self, coord: int, cell: int) -> int {
        let size: int = self.chunk_size + 1;
        let half: int = size * ((ONE as int) / 2);
        cap_i(cap_i(cap_i(cell * (ONE as int) - half) + coord * (size * (ONE as int))))
    }

    /// The noise-space position sampled for grid cell `(x, y)` of a chunk:
    /// the shifted cell position divided by the scale times the grid size.
    pub open spec fn sample_pos_i(self, position: ChunkPosition, x: int, y: int) -> (int, int) {
        let size: int = self.chunk_size + 1;
        let den: int = fp_mul_i(self.noise.scale as int, size * (ONE as int));
        let nx: int = cap_i(self.sample_num_i(position.x as int, x) + self.noise.offset.x);
        let ny: int = cap_i(self.sample_num_i(position.y as int, y) + self.noise.offset.y);
        (fp_div_i(nx, den), fp_div_i(ny, den))
    }

    /// The corrected noise height of grid cell `(x, y)` of a chunk.
    pub open spec fn noise_height_i(self, position: ChunkPosition, x: int, y: int) -> int {
        let p: (int, int) = self.sample_pos_i(position, x, y);
        self.noise.value_i(p.0, p.1, self.noise.seed)
    }

    /// The whole pre-erosion height field of a chunk, as the backing
    /// sequence of a row-major grid.
    pub open spec fn base_map(self, position: ChunkPosition) -> Seq<i64> {
        let size: int = self.chunk_size + 1;
        Seq::new(
            (size * size) as nat,
            |i: int| self.noise_height_i(position, i / size, i % size) as i64,
        )
    }

    /// Sample the height field of one chunk: for every grid cell, the noise
    /// is evaluated at the cell's world position and passed through the
    /// response curve. The grid has one extra row and column so adjacent
    /// chunks share an edge.
    pub fn generate_noise_map(&self, position: ChunkPosition) -> (r: NoiseMap)
        requires
            self.wf(),
            self.valid(),
            -CHUNK_COORD_LIMIT <= position.x <= CHUNK_COORD_LIMIT,
            -CHUNK_COORD_LIMIT <= position.y <= CHUNK_COORD_LIMIT,
        ensures
            r.wf(),
            r.size == self.chunk_size + 1,
            r.data@ == self.base_map(position),
            r.in_range(self.noise.correction.out_lo(), self.noise.correction.out_hi()),
    {
        let size: usize = self.chunk_size + 1;
        let size_fp: i64 = (size as i64) * ONE;
        let half: i64 = (size as i64) * (ONE / 2);
        proof {
            assert((self.noise.scale as int) * (size_fp as int) >= size_fp as int) by (nonlinear_arith)
                requires
                    1 <= self.noise.scale as int <= 0x1_0000_0000,
                    0 < size_fp as int <= 0x401_0000,
            ;
            assert(tdiv((self.noise.scale as int) * (size_fp as int), ONE as int) >= 1) by (nonlinear_arith)
                requires
                    (ONE as int) == 65536,
                    65536 <= (self.noise.scale as int) * (size_fp as int),
            ;
        }
        let den: i64 = fp_mul(self.noise.scale, size_fp);
        proof {
            assert((position.x as int) * (size_fp as int) <= 0x8_0000 * 0x401_0000 && -(0x8_0000
                * 0x401_0000) <= (position.x as int) * (size_fp as int)) by (nonlinear_arith)
                requires
                    -0x8_0000 <= position.x as int <= 0x8_0000,
                    0 < size_fp as int <= 0x401_0000,
            ;
            assert((position.y as int) * (size_fp as int) <= 0x8_0000 * 0x401_0000 && -(0x8_0000
                * 0x401_0000) <= (position.y as int) * (size_fp as int)) by (nonlinear_arith)
                requires
                    -0x8_0000 <= position.y as int <= 0x8_0000,
                    0 < size_fp as int <= 0x401_0000,
            ;
        }
        let pxs: i64 = (position.x as i64) * size_fp;
        let pys: i64 = (position.y as i64) * size_fp;
        let mut map: NoiseMap = NoiseMap::new(size, 0);
        let ghost target: Seq<i64> = self.base_map(position);
        let mut x: usize = 0;
        while x < size
            invariant
                x <= size,
                self.wf(),
                self.valid(),
                map.wf(),
                map.size == size,
                size == self.chunk_size + 1,
                2 < size <= MAX_GRID_SIZE,
                size_fp == (size as int) * (ONE as int),
                half == (size as int) * ((ONE as int) / 2),
                0 < size_fp <= 0x401_0000,
                0 <= half <= CAP,
                pxs == (position.x as int) * (size_fp as int),
                pys == (position.y as int) * (size_fp as int),
                fits(pxs as int),
                fits(pys as int),
                den as int == fp_mul_i(self.noise.scale as int, (size as int) * (ONE as int)),
                1 <= den <= CAP,
                target == self.base_map(position),
                target.len() == size * size,
                map.data@.len() == size * size,
                forall|i: int| 0 <= i < x * size ==> map.data@[i] == target[i],
                forall|i: int|
                    0 <= i < x * size ==> self.noise.correction.out_lo() <= #[trigger] map.data@[i]
                        <= self.noise.correction.out_hi(),
                forall|i: int| x * size <= i < map.data@.len() ==> #[trigger] map.data@[i] == 0,
            decreases size - x,
        {
            let mut y: usize = 0;
            while y < size
                invariant
                    y <= size,
                    x < size,
                    self.wf(),
                    self.valid(),
                    map.wf(),
                    map.size == size,
                    size == self.chunk_size + 1,
                    2 < size <= MAX_GRID_SIZE,
                    size_fp == (size as int) * (ONE as int),
                    half == (size as int) * ((ONE as int) / 2),
                    0 < size_fp <= 0x401_0000,
                    0 <= half <= CAP,
                    pxs == (position.x as int) * (size_fp as int),
                    pys == (position.y as int) * (size_fp as int),
                    fits(pxs as int),
                    fits(pys as int),
                    den as int == fp_mul_i(self.noise.scale as int, (size as int) * (ONE as int)),
                    1 <= den <= CAP,
                    target == self.base_map(position),
                    target.len() == size * size,
                    map.data@.len() == size * size,
                    forall|i: int| 0 <= i < x * size + y ==> map.data@[i] == target[i],
                    forall|i: int|
                        0 <= i < x * size + y ==> self.noise.correction.out_lo()
                            <= #[trigger] map.data@[i] <= self.noise.correction.out_hi(),
                    forall|i: int| x * size + y <= i < map.data@.len() ==> #[trigger] map.data@[i]
                        == 0,
                decreases size - y,
            {
                proof {
                    lemma_grid_index(size as int, x as int, y as int);
                    lemma_cell_decompose(size as int, x as int, y as int);
                }
                let xf: i64 = (x as i64) * ONE;
                let yf: i64 = (y as i64) * ONE;
                let nx: i64 = cap_add(cap_add(cap_sub(xf, half), pxs), self.noise.offset.x);
                let ny: i64 = cap_add(cap_add(cap_sub(yf, half), pys), self.noise.offset.y);
                let sx: i64 = fp_div(nx, den);
                let sy: i64 = fp_div(ny, den);
                let v: i64 = self.noise.get(Fx2 { x: sx, y: sy }, self.noise.seed);
                map.set(x, y, v);
                proof {
                    assert(target[x as int * (size as int) + y as int] == v);
                }
                y = y + 1;
            }
            proof {
                assert(x as int * (size as int) + size as int == (x as int + 1) * (size as int))
                    by (nonlinear_arith);
            }
            x = x + 1;
        }
        proof {
            assert((size as int) * (size as int) <= x as int * (size as int)) by (nonlinear_arith)
                requires
                    x as int == size as int,
            ;
            assert(map.data@ =~= target);
        }
        map
    }
}


/// One byte of the classification pixel buffer: pixels row-major by grid
/// `y`, four bytes per pixel, alpha always opaque.
pub open spec fn color_image_at(regions: Seq<crate::regions::TerrainType>, m: Seq<i64>, cs: int, j: int) -> u8 {
    let size: int = cs + 1;
    let p: int = j / 4;
    let ch: int = j % 4;
    let x: int = p % cs;
    let y: int = p / cs;
    let c: TerrainColor = color_from(regions, 0, m[x * size + y] as int);
    if ch == 0 {
        c.red
    } else if ch == 1 {
        c.green
    } else if ch == 2 {
        c.blue
    } else {
        255
    }
}

/// The grayscale encoding of a height: clamped to the unit range and scaled
/// to a byte.
pub open spec fn gray_of(h: int) -> u8 {
    mul_div_i(clamp_i(h, 0, ONE as int), 255, ONE as int) as u8
}

/// One byte of the grayscale height pixel buffer.
pub open spec fn height_image_at(m: Seq<i64>, cs: int, j: int) -> u8 {
    let size: int = cs + 1;
    let p: int = j / 4;
    let ch: int = j % 4;
    let x: int = p % cs;
    let y: int = p / cs;
    if ch == 3 {
        255
    } else {
        gray_of(m[x * size + y] as int)
    }
}

impl TerrainGenerator {
    /// The whole classification pixel buffer of a height field.
    pub open spec fn color_image_seq(self, m: Seq<i64>) -> Seq<u8> {
        let cs: int = self.chunk_size as int;
        Seq::new((cs * cs * 4) as nat, |j: int| color_image_at(self.regions.0@, m, cs, j))
    }

    /// The whole grayscale pixel buffer of a height field.
    pub open spec fn height_image_seq(self, m: Seq<i64>) -> Seq<u8> {
        let cs: int = self.chunk_size as int;
        Seq::new((cs * cs * 4) as nat, |j: int| height_image_at(m, cs, j))
    }

    /// Classification texture: each pixel carries the color of the first
    /// region whose threshold is at least the sampled height, fully opaque.
    pub fn generate_color_map_image(&self, noise_map: &NoiseMap) -> (r: Vec<u8>)
        requires
            self.wf(),
            noise_map.wf(),
            noise_map.size == self.chunk_size + 1,
            2 <= noise_map.size <= MAX_GRID_SIZE,
        ensures
            r@ == self.color_image_seq(noise_map.data@),
            r@.len() == self.chunk_size * self.chunk_size * 4,
    {
        let cs: usize = self.chunk_size;
        let size: usize = noise_map.size;
        let ghost m: Seq<i64> = noise_map.data@;
        let ghost target: Seq<u8> = self.color_image_seq(m);
        proof {
            assert((cs as int) * (cs as int) * 4 <= 1025 * 1025 * 4) by (nonlinear_arith)
                requires
                    0 <= cs as int <= 1025,
            ;
        }
        let mut img: Vec<u8> = Vec::new();
        let mut y: usize = 0;
        while y < cs
            invariant
                y <= cs,
                cs == self.chunk_size,
                size == noise_map.size,
                size == cs + 1,
                2 <= size <= MAX_GRID_SIZE,
                self.wf(),
                noise_map.wf(),
                m == noise_map.data@,
                target == self.color_image_seq(m),
                target.len() == cs * cs * 4,
                img@.len() == 4 * (y * cs),
                forall|j: int| 0 <= j < img@.len() ==> #[trigger] img@[j] == target[j],
            decreases cs - y,
        {
            let mut x: usize = 0;
            while x < cs
                invariant
                    x <= cs,
                    y < cs,
                    cs == self.chunk_size,
                    size == noise_map.size,
                    size == cs + 1,
                    2 <= size <= MAX_GRID_SIZE,
                    self.wf(),
                    noise_map.wf(),
                    m == noise_map.data@,
                    target == self.color_image_seq(m),
                    target.len() == cs * cs * 4,
                    img@.len() == 4 * (y * cs + x),
                    forall|j: int| 0 <= j < img@.len() ==> #[trigger] img@[j] == target[j],
                decreases cs - x,
            {
                proof {
                    lemma_grid_index(cs as int, y as int, x as int);
                    lemma_cell_decompose2(cs as int, x as int, y as int);
                    let p: int = y as int * (cs as int) + x as int;
                    lemma_four(p, 0);
                    lemma_four(p, 1);
                    lemma_four(p, 2);
                    lemma_four(p, 3);
                    assert(p * 4 < (cs as int) * (cs as int) * 4 && 4 * p == p * 4)
                        by (nonlinear_arith)
                        requires
                            0 <= p < (cs as int) * (cs as int),
                    ;
                }
                let height: i64 = noise_map.get(x, y);
                let color: TerrainColor = self.regions.get_color(height);
                img.push(color.red);
                img.push(color.green);
                img.push(color.blue);
                img.push(255);
                x = x + 1;
            }
            proof {
                assert(y as int * (cs as int) + cs as int == (y as int + 1) * (cs as int))
                    by (nonlinear_arith);
            }
            y = y + 1;
        }
        proof {
            assert((cs as int) * (cs as int) <= y as int * (cs as int)) by (nonlinear_arith)
                requires
                    y as int == cs as int,
            ;
            assert(img@ =~= target);
        }
        img
    }

    /// Grayscale height texture: each pixel encodes its cell's height,
    /// clamped to the unit range, fully opaque.
    pub fn generate_height_map_image(&self, noise_map: &NoiseMap) -> (r: Vec<u8>)
        requires
            self.wf(),
            noise_map.wf(),
            noise_map.size == self.chunk_size + 1,
            2 <= noise_map.size <= MAX_GRID_SIZE,
            noise_map.in_range(-(SAMPLE_LIMIT as int), SAMPLE_LIMIT as int),
        ensures
            r@ == self.height_image_seq(noise_map.data@),
            r@.len() == self.chunk_size * self.chunk_size * 4,
    {
        let cs: usize = self.chunk_size;
        let size: usize = noise_map.size;
        let ghost m: Seq<i64> = noise_map.data@;
        let ghost target: Seq<u8> = self.height_image_seq(m);
        proof {
            assert((cs as int) * (cs as int) * 4 <= 1025 * 1025 * 4) by (nonlinear_arith)
                requires
                    0 <= cs as int <= 1025,
            ;
        }
        let mut img: Vec<u8> = Vec::new();
        let mut y: usize = 0;
        while y < cs
            invariant
                y <= cs,
                cs == self.chunk_size,
                size == noise_map.size,
                size == cs + 1,
                2 <= size <= MAX_GRID_SIZE,
                self.wf(),
                noise_map.wf(),
                noise_map.in_range(-(SAMPLE_LIMIT as int), SAMPLE_LIMIT as int),
                m == noise_map.data@,
                target == self.height_image_seq(m),
                target.len() == cs * cs * 4,
                img@.len() == 4 * (y * cs),
                forall|j: int| 0 <= j < img@.len() ==> #[trigger] img@[j] == target[j],
            decreases cs - y,
        {
            let mut x: usize = 0;
            while x < cs
                invariant
                    x <= cs,
                    y < cs,
                    cs == self.chunk_size,
                    size == noise_map.size,
                    size == cs + 1,
                    2 <= size <= MAX_GRID_SIZE,
                    self.wf(),
                    noise_map.wf(),
                    noise_map.in_range(-(SAMPLE_LIMIT as int), SAMPLE_LIMIT as int),
                    m == noise_map.data@,
                    target == self.height_image_seq(m),
                    target.len() == cs * cs * 4,
                    img@.len() == 4 * (y * cs + x),
                    forall|j: int| 0 <= j < img@.len() ==> #[trigger] img@[j] == target[j],
                decreases cs - x,
            {
                proof {
                    lemma_grid_index(cs as int, y as int, x as int);
                    lemma_cell_decompose2(cs as int, x as int, y as int);
                    let p: int = y as int * (cs as int) + x as int;
                    lemma_four(p, 0);
                    lemma_four(p, 1);
                    lemma_four(p, 2);
                    lemma_four(p, 3);
                    assert(p * 4 < (cs as int) * (cs as int) * 4 && 4 * p == p * 4)
                        by (nonlinear_arith)
                        requires
                            0 <= p < (cs as int) * (cs as int),
                    ;
                }
                let height: i64 = noise_map.get(x, y);
                let clamped: i64 = fp_clamp(height, 0, ONE);
                proof {
                    assert(tdiv((clamped as int) * 255, ONE as int) <= 255 && 0 <= tdiv(
                        (clamped as int) * 255,
                        ONE as int,
                    )) by (nonlinear_arith)
                        requires
                            0 <= clamped as int <= 65536,
                            (ONE as int) == 65536,
                    ;
                }
                let v: i64 = mul_div(clamped, 255, ONE);
                let vb: u8 = v as u8;
                img.push(vb);
                img.push(vb);
                img.push(vb);
                img.push(255);
                x = x + 1;
            }
            proof {
                assert(y as int * (cs as int) + cs as int == (y as int + 1) * (cs as int))
                    by (nonlinear_arith);
            }
            y = y + 1;
        }
        proof {
            assert((cs as int) * (cs as int) <= y as int * (cs as int)) by (nonlinear_arith)
                requires
                    y as int == cs as int,
            ;
            assert(img@ =~= target);
        }
        img
    }

    /// Erode the height field in place according to the configured mode;
    /// returns the recorded droplet trajectories and the residual sediment.
    /// Material is conserved exactly: the old total equals the new total
    /// plus the residual.
    pub fn generate_erosion(&self, map: &mut NoiseMap) -> (r: (Vec<Vec<Fx3>>, i64))
        requires
            self.wf(),
            old(map).wf(),
            old(map).size == self.chunk_size + 1,
            2 <= old(map).size <= MAX_GRID_SIZE,
            self.erosion is Hydraulic ==> old(map).in_range(0, HEIGHT_LIMIT as int),
        ensures
            final(map).wf(),
            final(map).size == old(map).size,
            ({
                let er = self.eroded_of(old(map).data@, old(map).size as int);
                final(map).data@ == er.0 && r.1 as int == er.1
            }),
            sum_seq(final(map).data@) + r.1 == sum_seq(old(map).data@),
            0 <= r.1,
            final(map).in_range(-(SAMPLE_LIMIT as int), SAMPLE_LIMIT as int) || !(self.erosion
                is Hydraulic),
            self.erosion is Hydraulic ==> final(map).in_range(0, SAMPLE_LIMIT as int),
            self.erosion is Disabled ==> final(map).data@ == old(map).data@ && r.1 == 0
                && r.0@.len() == 0,
            r.0@.len() <= crate::erosion::MAX_RECORDED_PATHS,
    {
        match &self.erosion {
            TerrainErosion::Disabled => (Vec::new(), 0),
            TerrainErosion::Hydraulic(h) => h.erode(
                map,
                self.world_scale,
                self.height_multiplier,
                self.record_rain_paths,
            ),
        }
    }

    /// What erosion leaves of a height field, with the total residual
    /// sediment: the field itself when erosion is disabled.
    pub open spec fn eroded_of(self, m: Seq<i64>, size: int) -> (Seq<i64>, int) {
        match self.erosion {
            TerrainErosion::Disabled => (m, 0),
            TerrainErosion::Hydraulic(h) => {
                let run = erosion_run_i(h, size, m, h.iterations as nat, h.seed, 0);
                (run.0, run.1)
            },
        }
    }

    /// Build the chunk mesh from a height field in the configured mode.
    pub fn generate_mesh(&self, noise_map: &NoiseMap) -> (r: ChunkMeshData)
        requires
            self.wf(),
            noise_map.wf(),
            2 <= noise_map.size <= MAX_GRID_SIZE,
            noise_map.in_range(-(SAMPLE_LIMIT as int), SAMPLE_LIMIT as int),
        ensures
            self.mesh_mode == TerrainMeshMode::Smooth ==> smooth_mesh_ok(
                r,
                noise_map.data@,
                noise_map.size as int,
                self.world_scale as int,
                self.height_multiplier as int,
            ),
            self.mesh_mode == TerrainMeshMode::Flat ==> flat_mesh_ok(
                r,
                noise_map.data@,
                noise_map.size as int,
                self.world_scale as int,
                self.height_multiplier as int,
            ),
    {
        build_mesh(noise_map, self.world_scale, self.height_multiplier, self.mesh_mode)
    }
}

/// A flattened grid index decomposes back into its coordinates (pixel
/// order: a row per grid `y`).
proof fn lemma_cell_decompose2(cs: int, x: int, y: int)
    requires
        0 <= x < cs,
        0 <= y,
    ensures
        (y * cs + x) / cs == y,
        (y * cs + x) % cs == x,
{
    assert((y * cs + x) / cs == y && (y * cs + x) % cs == x) by (nonlinear_arith)
        requires
            0 <= x < cs,
            0 <= y,
    ;
}


impl TerrainGenerator {
    /// Everything `generate` promises of a successful result: the height
    /// field is the eroded base field, the residual sediment balances the
    /// erosion exactly, the pixel buffer encodes the eroded field in the
    /// configured texture mode, and the mesh is built from it in the
    /// configured mesh mode. Every component except the debug trajectories
    /// is pinned, so two successful results of the same inputs are equal.
    pub open spec fn generate_post(self, position: ChunkPosition, out: ChunkResult) -> bool {
        let size: int = self.chunk_size + 1;
        let base: Seq<i64> = self.base_map(position);
        let er: (Seq<i64>, int) = self.eroded_of(base, size);
        &&& out.noise_map.wf()
        &&& out.noise_map.size == size
        &&& out.noise_map.data@ == er.0
        &&& out.residual_sediment as int == er.1
        &&& 0 <= out.residual_sediment
        &&& sum_seq(er.0) + er.1 == sum_seq(base)
        &&& out.image_data@ == (match self.texture_mode {
            TerrainTextureMode::Color => self.color_image_seq(er.0),
            TerrainTextureMode::HeightMap => self.height_image_seq(er.0),
        })
        &&& match self.mesh_mode {
            TerrainMeshMode::Smooth => smooth_mesh_ok(
                out.mesh,
                er.0,
                size,
                self.world_scale as int,
                self.height_multiplier as int,
            ),
            TerrainMeshMode::Flat => flat_mesh_ok(
                out.mesh,
                er.0,
                size,
                self.world_scale as int,
                self.height_multiplier as int,
            ),
        }
        &&& out.rain_paths@.len() <= crate::erosion::MAX_RECORDED_PATHS
    }

    /// Generate one chunk: sample the height field, erode it if configured,
    /// and derive the pixel buffer and the mesh. Fails fast, before any
    /// generation work, exactly when the snapshot is invalid, with the
    /// first configuration fault found.
    pub fn generate(&self, position: ChunkPosition) -> (r: Result<ChunkResult, GenerationError>)
        requires
            self.wf(),
            -CHUNK_COORD_LIMIT <= position.x <= CHUNK_COORD_LIMIT,
            -CHUNK_COORD_LIMIT <= position.y <= CHUNK_COORD_LIMIT,
        ensures
            r is Ok <==> self.valid(),
            r matches Err(e) ==> Some(e) == self.validation_error(),
            r matches Ok(out) ==> self.generate_post(position, out),
    {
        match self.validate() {
            Err(e) => Err(e),
            Ok(()) => {
                let mut map: NoiseMap = self.generate_noise_map(position);
                proof {
                    if self.erosion is Hydraulic {
                        assert(forall|i: int|
                            0 <= i < map.data@.len() ==> 0 <= #[trigger] map.data@[i]
                                <= HEIGHT_LIMIT as int);
                    }
                }
                let (rain_paths, residual_sediment): (Vec<Vec<Fx3>>, i64) = self.generate_erosion(
                    &mut map,
                );
                proof {
                    if self.erosion is Disabled {
                        assert(forall|i: int|
                            0 <= i < map.data@.len() ==> -(SAMPLE_LIMIT as int)
                                <= #[trigger] map.data@[i] <= SAMPLE_LIMIT as int);
                    }
                }
                let image_data: Vec<u8> = match self.texture_mode {
                    TerrainTextureMode::Color => self.generate_color_map_image(&map),
                    TerrainTextureMode::HeightMap => self.generate_height_map_image(&map),
                };
                let mesh: ChunkMeshData = self.generate_mesh(&map);
                Ok(
                    ChunkResult {
                        noise_map: map,
                        image_data,
                        mesh,
                        rain_paths,
                        residual_sediment,
                    },
                )
            },
        }
    }
}

/// For a fixed parameter snapshot and chunk coordinate, any two successful
/// generations agree bit for bit on the height field, the pixel buffer, the
/// mesh buffers and the residual sediment: the pipeline is deterministic.
pub proof fn lemma_generate_deterministic(
    g: TerrainGenerator,
    position: ChunkPosition,
    a: ChunkResult,
    b: ChunkResult,
)
    requires
        g.generate_post(position, a),
        g.generate_post(position, b),
    ensures
        a.noise_map.data@ == b.noise_map.data@,
        a.image_data@ == b.image_data@,
        a.mesh.positions@ == b.mesh.positions@,
        a.mesh.uvs@ == b.mesh.uvs@,
        a.mesh.normals@ == b.mesh.normals@,
        a.mesh.indices@ == b.mesh.indices@,
        a.residual_sediment == b.residual_sediment,
{
    match g.mesh_mode {
        TerrainMeshMode::Smooth => {
            assert(a.mesh.positions@ =~= b.mesh.positions@);
            assert(a.mesh.uvs@ =~= b.mesh.uvs@);
            assert(a.mesh.normals@ =~= b.mesh.normals@);
            assert(a.mesh.indices@ =~= b.mesh.indices@);
        },
        TerrainMeshMode::Flat => {
            assert(a.mesh.positions@ =~= b.mesh.positions@);
            assert(a.mesh.uvs@ =~= b.mesh.uvs@);
            assert(a.mesh.normals@ =~= b.mesh.normals@);
            assert(a.mesh.indices@ =~= b.mesh.indices@);
        },
    }
}


/// Erosion conserves material across the whole pipeline: the eroded height
/// field's total plus the sediment still carried by droplets at termination
/// equals the total of the freshly sampled field.
pub proof fn lemma_material_conservation(
    g: TerrainGenerator,
    position: ChunkPosition,
    out: ChunkResult,
)
    requires
        g.generate_post(position, out),
    ensures
        sum_seq(out.noise_map.data@) + out.residual_sediment == sum_seq(g.base_map(position)),
        0 <= out.residual_sediment,
{
}

/// Erosion with zero droplets (or disabled erosion) leaves the sampled
/// height field untouched.
pub proof fn lemma_zero_iterations_identity(
    g: TerrainGenerator,
    position: ChunkPosition,
    out: ChunkResult,
)
    requires
        g.generate_post(position, out),
        match g.erosion {
            TerrainErosion::Disabled => true,
            TerrainErosion::Hydraulic(h) => h.iterations == 0,
        },
    ensures
        out.noise_map.data@ == g.base_map(position),
        out.residual_sediment == 0,
{
}

/// Chunks with different coordinates sample different noise-space source
/// positions: the chunk shift moves every cell's sample numerator by at
/// least one whole grid width, so no two chunks read the same positions
/// (no aliasing from the integer arithmetic before the scale division).
pub proof fn lemma_distinct_chunks_distinct_samples(
    g: TerrainGenerator,
    c1: int,
    c2: int,
    cell: int,
)
    requires
        g.wf(),
        2 <= g.chunk_size,
        -0x8_0000 <= c1 <= 0x8_0000,
        -0x8_0000 <= c2 <= 0x8_0000,
        c1 != c2,
        0 <= cell <= g.chunk_size,
    ensures
        g.sample_num_i(c1, cell) != g.sample_num_i(c2, cell),
{
    let size: int = g.chunk_size + 1;
    let half: int = size * ((ONE as int) / 2);
    let base: int = cell * (ONE as int) - half;
    assert(-0x402_0000 <= base <= 0x402_0000 && 0 <= half) by (nonlinear_arith)
        requires
            0 <= cell <= size,
            3 <= size <= 1025,
            half == size * ((ONE as int) / 2),
            base == cell * (ONE as int) - half,
            (ONE as int) == 65536,
    ;
    assert(cap_i(base) == base);
    let s1: int = c1 * (size * (ONE as int));
    let s2: int = c2 * (size * (ONE as int));
    assert(base + s1 != base + s2 && -(CAP as int) <= base + s1 <= CAP as int && -(CAP as int)
        <= base + s2 <= CAP as int) by (nonlinear_arith)
        requires
            s1 == c1 * (size * (ONE as int)),
            s2 == c2 * (size * (ONE as int)),
            c1 != c2,
            -0x8_0000 <= c1 <= 0x8_0000,
            -0x8_0000 <= c2 <= 0x8_0000,
            3 <= size <= 1025,
            -0x402_0000 <= base <= 0x402_0000,
            (ONE as int) == 65536,
            (CAP as int) == 0x4000_0000_0000,
    ;
    assert(cap_i(cap_i(base) + s1) == base + s1);
    assert(cap_i(cap_i(base) + s2) == base + s2);
}


impl Default for TerrainGenerator {
    /// A 100-cell chunk, world scale 200, height multiplier 0.3, color
    /// texture, smooth mesh, nearest sampling, the default noise and
    /// erosion, the default region bands, and no trajectory recording.
    fn default() -> (r: Self)
        ensures
            r.chunk_size == 100,
            r.world_scale == 13107200,
            r.height_multiplier == 19661,
            r.texture_mode == TerrainTextureMode::Color,
            r.mesh_mode == TerrainMeshMode::Smooth,
            r.sampler == TerrainSampler::Nearest,
            r.noise == TerrainNoise::default_value(),
            r.erosion == TerrainErosion::Hydraulic(crate::erosion::default_hydraulic()),
            r.regions.0@.len() == 6,
            r.record_rain_paths == false,
            r.wf(),
            r.valid(),
    {
        TerrainGenerator {
            chunk_size: 100,
            world_scale: 13107200,
            height_multiplier: 19661,
            texture_mode: TerrainTextureMode::Color,
            mesh_mode: TerrainMeshMode::Smooth,
            sampler: TerrainSampler::Nearest,
            noise: TerrainNoise::default(),
            erosion: TerrainErosion::default(),
            regions: TerrainRegions::default(),
            record_rain_paths: false,
        }
    }
}

} // verus!
