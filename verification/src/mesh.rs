//! Grid-mesh construction from a height field: a `size x size` vertex grid
//! with UVs, two triangles per interior cell, and either smooth per-vertex
//! normals or flat per-triangle normals with duplicated vertices.

use vstd::prelude::*;
use crate::fixed::{
    ONE, CAP, Fx2, Fx3, fits, cap_i, fp_mul_i, fp_div_i, fp_sqrt_i, mul_div_i, cap_add, cap_sub,
    fp_mul, fp_div, fp_sqrt, mul_div, PARAM_LIMIT, lemma_fp_square_nonneg,
};
use crate::map::{NoiseMap, lemma_grid_index, MAX_GRID_SIZE, SAMPLE_LIMIT};

verus! {

/// How vertex normals are produced.
#[derive(Clone, Copy, PartialEq, Eq, Structural, Debug)]
pub enum TerrainMeshMode {
    Flat,
    Smooth,
}

/// The buffers of one chunk's mesh: positions, texture coordinates, normals
/// and a triangle index list.
#[derive(Clone, Debug)]
pub struct ChunkMeshData {
    pub positions: Vec<Fx3>,
    pub uvs: Vec<Fx2>,
    pub normals: Vec<Fx3>,
    pub indices: Vec<u32>,
}

/// Component-wise difference of two vectors.
pub open spec fn sub3_i(a: Fx3, b: Fx3) -> Fx3 {
    Fx3 { x: cap_i(a.x - b.x) as i64, y: cap_i(a.y - b.y) as i64, z: cap_i(a.z - b.z) as i64 }
}

/// The cross product of two vectors.
pub open spec fn cross_i(a: Fx3, b: Fx3) -> Fx3 {
    Fx3 {
        x: cap_i(fp_mul_i(a.y as int, b.z as int) - fp_mul_i(a.z as int, b.y as int)) as i64,
        y: cap_i(fp_mul_i(a.z as int, b.x as int) - fp_mul_i(a.x as int, b.z as int)) as i64,
        z: cap_i(fp_mul_i(a.x as int, b.y as int) - fp_mul_i(a.y as int, b.x as int)) as i64,
    }
}

/// A vector scaled to (roughly) unit length; the zero vector becomes the
/// up-axis unit vector.
pub open spec fn normalize3_i(v: Fx3) -> Fx3 {
    let lsq: int = cap_i(
        cap_i(fp_mul_i(v.x as int, v.x as int) + fp_mul_i(v.y as int, v.y as int)) + fp_mul_i(
            v.z as int,
            v.z as int,
        ),
    );
    let len: int = fp_sqrt_i(lsq);
    if len == 0 {
        Fx3 { x: 0, y: ONE, z: 0 }
    } else {
        Fx3 {
            x: fp_div_i(v.x as int, len) as i64,
            y: fp_div_i(v.y as int, len) as i64,
            z: fp_div_i(v.z as int, len) as i64,
        }
    }
}

/// Component-wise difference.
fn sub3(a: Fx3, b: Fx3) -> (r: Fx3)
    requires
        fits(a.x as int),
        fits(a.y as int),
        fits(a.z as int),
        fits(b.x as int),
        fits(b.y as int),
        fits(b.z as int),
    ensures
        r == sub3_i(a, b),
        fits(r.x as int) && fits(r.y as int) && fits(r.z as int),
{
    Fx3 { x: cap_sub(a.x, b.x), y: cap_sub(a.y, b.y), z: cap_sub(a.z, b.z) }
}

/// The cross product.
fn cross3(a: Fx3, b: Fx3) -> (r: Fx3)
    requires
        fits(a.x as int),
        fits(a.y as int),
        fits(a.z as int),
        fits(b.x as int),
        fits(b.y as int),
        fits(b.z as int),
    ensures
        r == cross_i(a, b),
        fits(r.x as int) && fits(r.y as int) && fits(r.z as int),
{
    Fx3 {
        x: cap_sub(fp_mul(a.y, b.z), fp_mul(a.z, b.y)),
        y: cap_sub(fp_mul(a.z, b.x), fp_mul(a.x, b.z)),
        z: cap_sub(fp_mul(a.x, b.y), fp_mul(a.y, b.x)),
    }
}

/// Scale a vector to (roughly) unit length.
fn normalize3(v: Fx3) -> (r: Fx3)
    requires
        fits(v.x as int),
        fits(v.y as int),
        fits(v.z as int),
    ensures
        r == normalize3_i(v),
        fits(r.x as int) && fits(r.y as int) && fits(r.z as int),
{
    proof {
        lemma_fp_square_nonneg(v.x as int);
        lemma_fp_square_nonneg(v.y as int);
        lemma_fp_square_nonneg(v.z as int);
    }
    let lsq: i64 = cap_add(cap_add(fp_mul(v.x, v.x), fp_mul(v.y, v.y)), fp_mul(v.z, v.z));
    let len: i64 = fp_sqrt(lsq);
    if len == 0 {
        Fx3 { x: 0, y: ONE, z: 0 }
    } else {
        Fx3 { x: fp_div(v.x, len), y: fp_div(v.y, len), z: fp_div(v.z, len) }
    }
}

/// The world-space position of the grid vertex `(x, y)`: the grid centered
/// at the origin and scaled to the world edge length, the height scaled by
/// the multiplier and the world scale.
pub open spec fn vertex_pos_i(m: Seq<i64>, size: int, ws: int, hm: int, x: int, y: int) -> Fx3 {
    let half: int = size * ((ONE as int) / 2);
    Fx3 {
        x: mul_div_i(cap_i(x * (ONE as int) - half), ws, size * (ONE as int)) as i64,
        y: fp_mul_i(fp_mul_i(m[x * size + y] as int, hm), ws) as i64,
        z: mul_div_i(cap_i(y * (ONE as int) - half), ws, size * (ONE as int)) as i64,
    }
}

/// The texture coordinate of the grid vertex `(x, y)`: its grid position as
/// a fraction of the grid edge.
pub open spec fn vertex_uv_i(size: int, x: int, y: int) -> Fx2 {
    Fx2 {
        x: mul_div_i(x * (ONE as int), ONE as int, size * (ONE as int)) as i64,
        y: mul_div_i(y * (ONE as int), ONE as int, size * (ONE as int)) as i64,
    }
}

/// The position of the vertex with buffer index `i` (row-major, a row per
/// grid `y`).
pub open spec fn mesh_pos_at(m: Seq<i64>, size: int, ws: int, hm: int, i: int) -> Fx3 {
    vertex_pos_i(m, size, ws, hm, i % size, i / size)
}

/// The texture coordinate of the vertex with buffer index `i`.
pub open spec fn mesh_uv_at(size: int, i: int) -> Fx2 {
    vertex_uv_i(size, i % size, i / size)
}

/// The vertex index stored at position `k` of the triangle index list: each
/// interior cell emits the two triangles `(a, b, c)` and `(c, d, a)` where
/// `a` is the cell's vertex, `b` is one row up, `c` one row up and one to
/// the right, and `d` one to the right.
pub open spec fn index_at(size: int, k: int) -> int {
    let c: int = k / 6;
    let j: int = k % 6;
    let cy: int = c / (size - 1);
    let cx: int = c % (size - 1);
    let a: int = cy * size + cx;
    if j == 0 {
        a
    } else if j == 1 {
        a + size
    } else if j == 2 {
        a + size + 1
    } else if j == 3 {
        a + size + 1
    } else if j == 4 {
        a + 1
    } else {
        a
    }
}

/// The normal of the vertex with buffer index `i` in smooth mode: interior
/// vertices get the normalized cross product of the tangents toward the
/// next row and the next column; vertices of the last row or column get the
/// up-axis unit vector (a deliberate approximation at the grid edge).
pub open spec fn smooth_normal_at(m: Seq<i64>, size: int, ws: int, hm: int, i: int) -> Fx3 {
    let x: int = i % size;
    let y: int = i / size;
    if x < size - 1 && y < size - 1 {
        let p: Fx3 = vertex_pos_i(m, size, ws, hm, x, y);
        let right: Fx3 = vertex_pos_i(m, size, ws, hm, x + 1, y);
        let up: Fx3 = vertex_pos_i(m, size, ws, hm, x, y + 1);
        normalize3_i(cross_i(sub3_i(up, p), sub3_i(right, p)))
    } else {
        Fx3 { x: 0, y: ONE, z: 0 }
    }
}

/// The face normal of the triangle that index-list position `k` belongs to
/// in flat mode: the normalized cross product of two triangle edges.
pub open spec fn flat_normal_at(m: Seq<i64>, size: int, ws: int, hm: int, k: int) -> Fx3 {
    let t: int = 3 * (k / 3);
    let p0: Fx3 = mesh_pos_at(m, size, ws, hm, index_at(size, t));
    let p1: Fx3 = mesh_pos_at(m, size, ws, hm, index_at(size, t + 1));
    let p2: Fx3 = mesh_pos_at(m, size, ws, hm, index_at(size, t + 2));
    normalize3_i(cross_i(sub3_i(p1, p0), sub3_i(p2, p0)))
}

/// Quotient and remainder of the six index-list slots of one cell.
proof fn lemma_six(c: int, j: int)
    requires
        0 <= c,
        0 <= j < 6,
    ensures
        (6 * c + j) / 6 == c,
        (6 * c + j) % 6 == j,
{
    assert((6 * c + j) / 6 == c && (6 * c + j) % 6 == j) by (nonlinear_arith)
        requires
            0 <= c,
            0 <= j < 6,
    ;
}

/// A flattened row-major index decomposes back into its coordinates.
proof fn lemma_flat_xy(size: int, x: int, y: int)
    requires
        0 <= x < size,
        0 <= y,
    ensures
        (y * size + x) / size == y,
        (y * size + x) % size == x,
{
    assert((y * size + x) / size == y && (y * size + x) % size == x) by (nonlinear_arith)
        requires
            0 <= x < size,
            0 <= y,
    ;
}


/// A complete smooth-mode mesh of one height field: a vertex per grid cell,
/// six indices per interior cell, and a per-vertex normal.
pub open spec fn smooth_mesh_ok(r: ChunkMeshData, m: Seq<i64>, size: int, ws: int, hm: int) -> bool {
    &&& r.positions@.len() == size * size
    &&& r.uvs@.len() == size * size
    &&& r.normals@.len() == size * size
    &&& r.indices@.len() == 6 * ((size - 1) * (size - 1))
    &&& forall|i: int|
        0 <= i < size * size ==> #[trigger] r.positions@[i] == mesh_pos_at(m, size, ws, hm, i)
    &&& forall|i: int| 0 <= i < size * size ==> #[trigger] r.uvs@[i] == mesh_uv_at(size, i)
    &&& forall|i: int|
        0 <= i < size * size ==> #[trigger] r.normals@[i] == smooth_normal_at(m, size, ws, hm, i)
    &&& forall|k: int|
        0 <= k < r.indices@.len() ==> #[trigger] r.indices@[k] == index_at(size, k)
    &&& forall|k: int| 0 <= k < r.indices@.len() ==> 0 <= #[trigger] r.indices@[k] < size * size
}

/// A complete flat-mode mesh: vertices duplicated per triangle slot, a face
/// normal shared by each triangle's three slots, and a sequential index
/// list.
pub open spec fn flat_mesh_ok(r: ChunkMeshData, m: Seq<i64>, size: int, ws: int, hm: int) -> bool {
    let t: int = 6 * ((size - 1) * (size - 1));
    &&& r.positions@.len() == t
    &&& r.uvs@.len() == t
    &&& r.normals@.len() == t
    &&& r.indices@.len() == t
    &&& forall|k: int|
        0 <= k < t ==> #[trigger] r.positions@[k] == mesh_pos_at(m, size, ws, hm, index_at(size, k))
    &&& forall|k: int| 0 <= k < t ==> #[trigger] r.uvs@[k] == mesh_uv_at(size, index_at(size, k))
    &&& forall|k: int|
        0 <= k < t ==> #[trigger] r.normals@[k] == flat_normal_at(m, size, ws, hm, k)
    &&& forall|k: int| 0 <= k < t ==> #[trigger] r.indices@[k] == k
}

/// Quotient and remainder of the three vertex slots of one triangle.
proof fn lemma_three(c: int, j: int)
    requires
        0 <= c,
        0 <= j < 3,
    ensures
        (3 * c + j) / 3 == c,
        (3 * c + j) % 3 == j,
{
    assert((3 * c + j) / 3 == c && (3 * c + j) % 3 == j) by (nonlinear_arith)
        requires
            0 <= c,
            0 <= j < 3,
    ;
}

/// Build the mesh of a height field: positions, texture coordinates,
/// triangle indices and normals in the requested mode.
///
/// In smooth mode the mesh has exactly `size * size` vertices and
/// `6 * (size - 1)^2` indices, and every index points at a vertex; in flat
/// mode every triangle gets its own three vertices and the index list is
/// sequential.
#[verifier::rlimit(100)]
pub fn build_mesh(map: &NoiseMap, world_scale: i64, height_multiplier: i64, mode: TerrainMeshMode)
    -> (r: ChunkMeshData)
    requires
        map.wf(),
        2 <= map.size <= MAX_GRID_SIZE,
        map.in_range(-(SAMPLE_LIMIT as int), SAMPLE_LIMIT as int),
        -(PARAM_LIMIT as int) <= world_scale as int <= PARAM_LIMIT as int,
        -(PARAM_LIMIT as int) <= height_multiplier as int <= PARAM_LIMIT as int,
    ensures
        mode == TerrainMeshMode::Smooth ==> smooth_mesh_ok(
            r,
            map.data@,
            map.size as int,
            world_scale as int,
            height_multiplier as int,
        ),
        mode == TerrainMeshMode::Flat ==> flat_mesh_ok(
            r,
            map.data@,
            map.size as int,
            world_scale as int,
            height_multiplier as int,
        ),
{
    let size: usize = map.size;
    let size_fp: i64 = (size as i64) * ONE;
    let half: i64 = (size as i64) * (ONE / 2);
    let ghost m: Seq<i64> = map.data@;
    let ghost szi: int = size as int;
    let ghost wsi: int = world_scale as int;
    let ghost hmi: int = height_multiplier as int;
    let mut positions: Vec<Fx3> = Vec::new();
    let mut uvs: Vec<Fx2> = Vec::new();
    let mut indices: Vec<u32> = Vec::new();
    proof {
        assert(0 * (szi - 1) == 0) by (nonlinear_arith);
    }
    let mut y: usize = 0;
    while y < size
        invariant
            y <= size,
            size == map.size,
            2 <= size <= MAX_GRID_SIZE,
            map.wf(),
            m == map.data@,
            szi == size as int,
            wsi == world_scale as int,
            hmi == height_multiplier as int,
            size_fp == szi * (ONE as int),
            half == szi * ((ONE as int) / 2),
            0 < size_fp <= CAP,
            0 <= half <= CAP,
            map.in_range(-(SAMPLE_LIMIT as int), SAMPLE_LIMIT as int),
            -(PARAM_LIMIT as int) <= wsi <= PARAM_LIMIT as int,
            -(PARAM_LIMIT as int) <= hmi <= PARAM_LIMIT as int,
            positions@.len() == y * size,
            uvs@.len() == y * size,
            indices@.len() == 6 * ((if (y as int) <= szi - 1 {
                y as int
            } else {
                szi - 1
            }) * (szi - 1)),
            forall|i: int|
                0 <= i < positions@.len() ==> #[trigger] positions@[i] == mesh_pos_at(
                    m,
                    szi,
                    wsi,
                    hmi,
                    i,
                ),
            forall|i: int| 0 <= i < uvs@.len() ==> #[trigger] uvs@[i] == mesh_uv_at(szi, i),
            forall|k: int|
                0 <= k < indices@.len() ==> #[trigger] indices@[k] == index_at(szi, k),
            forall|k: int| 0 <= k < indices@.len() ==> 0 <= #[trigger] indices@[k] < szi * szi,
        decreases size - y,
    {
        let mut x: usize = 0;
        while x < size
            invariant
                x <= size,
                y < size,
                size == map.size,
                2 <= size <= MAX_GRID_SIZE,
                map.wf(),
                m == map.data@,
                szi == size as int,
                wsi == world_scale as int,
                hmi == height_multiplier as int,
                size_fp == szi * (ONE as int),
                half == szi * ((ONE as int) / 2),
                0 < size_fp <= CAP,
                0 <= half <= CAP,
                map.in_range(-(SAMPLE_LIMIT as int), SAMPLE_LIMIT as int),
                -(PARAM_LIMIT as int) <= wsi <= PARAM_LIMIT as int,
                -(PARAM_LIMIT as int) <= hmi <= PARAM_LIMIT as int,
                positions@.len() == y * size + x,
                uvs@.len() == y * size + x,
                indices@.len() == 6 * (y as int * (szi - 1) + (if (y as int) < szi - 1 {
                    if x as int <= szi - 1 {
                        x as int
                    } else {
                        szi - 1
                    }
                } else {
                    0
                })),
                forall|i: int|
                    0 <= i < positions@.len() ==> #[trigger] positions@[i] == mesh_pos_at(
                        m,
                        szi,
                        wsi,
                        hmi,
                        i,
                    ),
                forall|i: int| 0 <= i < uvs@.len() ==> #[trigger] uvs@[i] == mesh_uv_at(szi, i),
                forall|k: int|
                    0 <= k < indices@.len() ==> #[trigger] indices@[k] == index_at(szi, k),
                forall|k: int| 0 <= k < indices@.len() ==> 0 <= #[trigger] indices@[k] < szi * szi,
            decreases size - x,
        {
            proof {
                lemma_grid_index(szi, x as int, y as int);
                lemma_flat_xy(szi, x as int, y as int);
            }
            let xf: i64 = (x as i64) * ONE;
            let yf: i64 = (y as i64) * ONE;
            let h: i64 = map.get(x, y);
            let px: i64 = mul_div(cap_sub(xf, half), world_scale, size_fp);
            let py: i64 = fp_mul(fp_mul(h, height_multiplier), world_scale);
            let pz: i64 = mul_div(cap_sub(yf, half), world_scale, size_fp);
            positions.push(Fx3 { x: px, y: py, z: pz });
            uvs.push(Fx2 { x: mul_div(xf, ONE, size_fp), y: mul_div(yf, ONE, size_fp) });
            if x < size - 1 && y < size - 1 {
                let ghost c: int = y as int * (szi - 1) + x as int;
                let ghost base: int = indices@.len() as int;
                proof {
                    lemma_flat_xy(szi - 1, x as int, y as int);
                    lemma_six(c, 0);
                    lemma_six(c, 1);
                    lemma_six(c, 2);
                    lemma_six(c, 3);
                    lemma_six(c, 4);
                    lemma_six(c, 5);
                    lemma_grid_index(szi, y as int, x as int);
                    lemma_grid_index(szi, y as int, x as int + 1);
                    lemma_grid_index(szi, y as int + 1, x as int);
                    lemma_grid_index(szi, y as int + 1, x as int + 1);
                    assert((y as int + 1) * szi == y as int * szi + szi) by (nonlinear_arith);
                }
                proof {
                    assert(szi * szi <= 1025 * 1025) by (nonlinear_arith)
                        requires
                            2 <= szi <= 1025,
                    ;
                }
                let a: usize = y * size + x;
                let b: usize = a + size;
                let cidx: usize = a + size + 1;
                let d: usize = a + 1;
                indices.push(a as u32);
                indices.push(b as u32);
                indices.push(cidx as u32);
                indices.push(cidx as u32);
                indices.push(d as u32);
                indices.push(a as u32);
                proof {
                    assert(indices@.len() == base + 6);
                    assert(indices@[base] == a as u32 && indices@[base + 1] == b as u32
                        && indices@[base + 2] == cidx as u32 && indices@[base + 3] == cidx as u32
                        && indices@[base + 4] == d as u32 && indices@[base + 5] == a as u32);
                    assert(0 <= a as int && (cidx as int) < szi * szi);
                }
            }
            x = x + 1;
        }
        proof {
            assert(y as int * szi + szi == (y as int + 1) * szi) by (nonlinear_arith);
            assert(y as int * (szi - 1) + (szi - 1) == (y as int + 1) * (szi - 1))
                by (nonlinear_arith);
        }
        y = y + 1;
    }
    proof {
        assert(szi * szi == size * size);
    }
    match mode {
        TerrainMeshMode::Smooth => {
            // Per-vertex normals: interior vertices blend the tangents
            // toward the next column and row; edge vertices point up.
            let mut normals: Vec<Fx3> = Vec::new();
            let mut ny: usize = 0;
            while ny < size
                invariant
                    ny <= size,
                    size == map.size,
                    2 <= size <= MAX_GRID_SIZE,
                    szi == size as int,
                    normals@.len() == ny * size,
                    positions@.len() == size * size,
                    forall|i: int|
                        0 <= i < positions@.len() ==> #[trigger] positions@[i] == mesh_pos_at(
                            m,
                            szi,
                            wsi,
                            hmi,
                            i,
                        ),
                    forall|i: int|
                        0 <= i < normals@.len() ==> #[trigger] normals@[i] == smooth_normal_at(
                            m,
                            szi,
                            wsi,
                            hmi,
                            i,
                        ),
                decreases size - ny,
            {
                let mut nx: usize = 0;
                while nx < size
                    invariant
                        nx <= size,
                        ny < size,
                        size == map.size,
                        2 <= size <= MAX_GRID_SIZE,
                        szi == size as int,
                        normals@.len() == ny * size + nx,
                        positions@.len() == size * size,
                        forall|i: int|
                            0 <= i < positions@.len() ==> #[trigger] positions@[i] == mesh_pos_at(
                                m,
                                szi,
                                wsi,
                                hmi,
                                i,
                            ),
                        forall|i: int|
                            0 <= i < normals@.len() ==> #[trigger] normals@[i] == smooth_normal_at(
                                m,
                                szi,
                                wsi,
                                hmi,
                                i,
                            ),
                    decreases size - nx,
                {
                    let vlen: usize = positions.len();
                    proof {
                        lemma_grid_index(szi, ny as int, nx as int);
                        lemma_flat_xy(szi, nx as int, ny as int);
                    }
                    let i: usize = ny * size + nx;
                    let n: Fx3 = if nx < size - 1 && ny < size - 1 {
                        proof {
                            lemma_grid_index(szi, ny as int, nx as int + 1);
                            lemma_grid_index(szi, ny as int + 1, nx as int);
                            lemma_flat_xy(szi, nx as int + 1, ny as int);
                            assert((ny as int + 1) * szi + nx as int == (ny as int) * szi + nx
                                as int + szi) by (nonlinear_arith);
                            lemma_flat_xy(szi, nx as int, ny as int + 1);
                        }
                        let p: Fx3 = positions[i];
                        let right: Fx3 = positions[i + 1];
                        let up: Fx3 = positions[i + size];
                        proof {
                            lemma_mesh_pos_fits(m, szi, wsi, hmi, i as int);
                            lemma_mesh_pos_fits(m, szi, wsi, hmi, i as int + 1);
                            lemma_mesh_pos_fits(m, szi, wsi, hmi, i as int + szi);
                        }
                        normalize3(cross3(sub3(up, p), sub3(right, p)))
                    } else {
                        Fx3 { x: 0, y: ONE, z: 0 }
                    };
                    normals.push(n);
                    nx = nx + 1;
                }
                proof {
                    assert(ny as int * szi + szi == (ny as int + 1) * szi) by (nonlinear_arith);
                }
                ny = ny + 1;
            }
            ChunkMeshData { positions, uvs, normals, indices }
        },
        TerrainMeshMode::Flat => {
            // Flat shading duplicates each triangle's vertices and shares
            // one face normal across its three slots.
            proof {
                assert((szi - 1) * (szi - 1) <= 1025 * 1025) by (nonlinear_arith)
                    requires
                        2 <= szi <= 1025,
                ;
                assert(indices@.len() == 6 * ((szi - 1) * (szi - 1)));
            }
            let cells: usize = (size - 1) * (size - 1);
            let tris: usize = 2 * cells;
            let mut fpos: Vec<Fx3> = Vec::new();
            let mut fuvs: Vec<Fx2> = Vec::new();
            let mut fnorm: Vec<Fx3> = Vec::new();
            let mut find: Vec<u32> = Vec::new();
            let mut t: usize = 0;
            while t < tris
                invariant
                    t <= tris,
                    size == map.size,
                    2 <= size <= MAX_GRID_SIZE,
                    szi == size as int,
                    cells == (size - 1) * (size - 1),
                    tris == 2 * cells,
                    cells <= 1025 * 1025,
                    positions@.len() == size * size,
                    uvs@.len() == size * size,
                    indices@.len() == 6 * ((szi - 1) * (szi - 1)),
                    indices@.len() == 3 * tris,
                    forall|i: int|
                        0 <= i < positions@.len() ==> #[trigger] positions@[i] == mesh_pos_at(
                            m,
                            szi,
                            wsi,
                            hmi,
                            i,
                        ),
                    forall|i: int| 0 <= i < uvs@.len() ==> #[trigger] uvs@[i] == mesh_uv_at(szi, i),
                    forall|k: int|
                        0 <= k < indices@.len() ==> #[trigger] indices@[k] == index_at(szi, k),
                    forall|k: int|
                        0 <= k < indices@.len() ==> 0 <= #[trigger] indices@[k] < szi * szi,
                    fpos@.len() == 3 * t,
                    fuvs@.len() == 3 * t,
                    fnorm@.len() == 3 * t,
                    find@.len() == 3 * t,
                    forall|k: int|
                        0 <= k < fpos@.len() ==> #[trigger] fpos@[k] == mesh_pos_at(
                            m,
                            szi,
                            wsi,
                            hmi,
                            index_at(szi, k),
                        ),
                    forall|k: int|
                        0 <= k < fuvs@.len() ==> #[trigger] fuvs@[k] == mesh_uv_at(
                            szi,
                            index_at(szi, k),
                        ),
                    forall|k: int|
                        0 <= k < fnorm@.len() ==> #[trigger] fnorm@[k] == flat_normal_at(
                            m,
                            szi,
                            wsi,
                            hmi,
                            k,
                        ),
                    forall|k: int| 0 <= k < find@.len() ==> #[trigger] find@[k] == k,
                decreases tris - t,
            {
                proof {
                    lemma_three(t as int, 0);
                    lemma_three(t as int, 1);
                    lemma_three(t as int, 2);
                }
                let k0: usize = 3 * t;
                let i0: usize = indices[k0] as usize;
                let i1: usize = indices[k0 + 1] as usize;
                let i2: usize = indices[k0 + 2] as usize;
                let p0: Fx3 = positions[i0];
                let p1: Fx3 = positions[i1];
                let p2: Fx3 = positions[i2];
                proof {
                    lemma_mesh_pos_fits(m, szi, wsi, hmi, i0 as int);
                    lemma_mesh_pos_fits(m, szi, wsi, hmi, i1 as int);
                    lemma_mesh_pos_fits(m, szi, wsi, hmi, i2 as int);
                }
                let n: Fx3 = normalize3(cross3(sub3(p1, p0), sub3(p2, p0)));
                fpos.push(p0);
                fpos.push(p1);
                fpos.push(p2);
                fuvs.push(uvs[i0]);
                fuvs.push(uvs[i1]);
                fuvs.push(uvs[i2]);
                fnorm.push(n);
                fnorm.push(n);
                fnorm.push(n);
                find.push(k0 as u32);
                find.push((k0 + 1) as u32);
                find.push((k0 + 2) as u32);
                t = t + 1;
            }
            ChunkMeshData { positions: fpos, uvs: fuvs, normals: fnorm, indices: find }
        },
    }
}

/// Every component of a mesh vertex position is a saturated value, so it is
/// within the saturation range.
proof fn lemma_mesh_pos_fits(m: Seq<i64>, size: int, ws: int, hm: int, i: int)
    ensures
        fits(mesh_pos_at(m, size, ws, hm, i).x as int),
        fits(mesh_pos_at(m, size, ws, hm, i).y as int),
        fits(mesh_pos_at(m, size, ws, hm, i).z as int),
{
}

} // verus!
