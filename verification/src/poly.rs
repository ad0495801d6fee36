//! The polygonization pass.
//!
//! One invocation per cell walks the chunk's `(CHUNK_SZ - 1)^3` cells. For
//! each cell it samples the eight corner densities, classifies each corner
//! against the iso-value (bit set means "outside": density below the
//! iso-value), and skips the cell when all corners agree. Otherwise it looks
//! up the crossed edges, places one vertex on each crossed edge by linear
//! interpolation of the two corner densities, and stitches the vertices into
//! triangles by the triangle table, appending everything to the output
//! buffers. The append counters are the output lengths; indices always come
//! in whole triangles and always point at an emitted vertex, and no cell can
//! emit more than 12 vertices or 5 triangles, which is what the output
//! capacities are sized for.

use vstd::prelude::*;

use crate::math::{FxVec2, FxVec4};
use vstd::arithmetic::div_mod::{lemma_div_by_multiple, lemma_div_is_ordered};
use crate::tables::{read_tri_entry, tri_entry, EDGE_TABLE, TRI_TABLE};
use crate::voxel::{spec_voxel_index, voxel_index, Voxel};
use crate::{CHUNK_SZ_3, FP_ONE, ISO};

verus! {

/// Cells per chunk axis: one less than the voxels per axis, so every cell
/// has all eight corners inside the chunk.
pub const CELL_SZ: usize = 31;

/// Cells per chunk.
pub const CELL_COUNT: usize = 29791;

/// A cell has 12 edges, so it can never emit more than 12 vertices.
pub const MAX_CELL_VERTS: usize = 12;

/// No triangle-table row holds more than 5 triangles, 15 indices.
pub const MAX_CELL_INDICES: usize = 15;

/// A full-size density field with every density in range.
pub open spec fn field_wf(v: Seq<Voxel>) -> bool {
    &&& v.len() == CHUNK_SZ_3
    &&& forall|i: int| 0 <= i < CHUNK_SZ_3 ==> #[trigger] v[i].wf()
}

/// x-offset of corner `c` within its cell.
pub open spec fn corner_dx(c: int) -> int {
    if c == 1 || c == 2 || c == 5 || c == 6 {
        1
    } else {
        0
    }
}

/// y-offset of corner `c` within its cell.
pub open spec fn corner_dy(c: int) -> int {
    if c >= 4 {
        1
    } else {
        0
    }
}

/// z-offset of corner `c` within its cell.
pub open spec fn corner_dz(c: int) -> int {
    if c == 2 || c == 3 || c == 6 || c == 7 {
        1
    } else {
        0
    }
}

/// First endpoint corner of edge `e`.
pub open spec fn edge_corner_a(e: int) -> int {
    if e < 8 {
        e % 4 + (if e < 4 {
            0int
        } else {
            4
        })
    } else {
        e - 8
    }
}

/// Second endpoint corner of edge `e`.
pub open spec fn edge_corner_b(e: int) -> int {
    if e < 8 {
        (e + 1) % 4 + (if e < 4 {
            0int
        } else {
            4
        })
    } else {
        e - 4
    }
}

/// Density at corner `c` of the cell at `(x, y, z)`.
pub open spec fn corner_density(v: Seq<Voxel>, x: int, y: int, z: int, c: int) -> u32 {
    v[spec_voxel_index(x + corner_dx(c), y + corner_dy(c), z + corner_dz(c))].density
}

/// Whether corner `c` lies outside the surface: density below the iso-value.
pub open spec fn corner_outside(v: Seq<Voxel>, x: int, y: int, z: int, c: int) -> bool {
    corner_density(v, x, y, z, c) < ISO
}

/// The cell's 8-bit corner-sign configuration: bit `c` set when corner `c`
/// is outside.
pub open spec fn cell_config(v: Seq<Voxel>, x: int, y: int, z: int) -> int {
    (if corner_outside(v, x, y, z, 0) {
        1int
    } else {
        0
    }) + (if corner_outside(v, x, y, z, 1) {
        2int
    } else {
        0
    }) + (if corner_outside(v, x, y, z, 2) {
        4int
    } else {
        0
    }) + (if corner_outside(v, x, y, z, 3) {
        8int
    } else {
        0
    }) + (if corner_outside(v, x, y, z, 4) {
        16int
    } else {
        0
    }) + (if corner_outside(v, x, y, z, 5) {
        32int
    } else {
        0
    }) + (if corner_outside(v, x, y, z, 6) {
        64int
    } else {
        0
    }) + (if corner_outside(v, x, y, z, 7) {
        128int
    } else {
        0
    })
}

/// Whether the edge table flags edge `e` as crossed for configuration `cfg`.
pub open spec fn edge_flagged(cfg: int, e: int) -> bool {
    (EDGE_TABLE[cfg] >> e as u32) & 1 == 1
}

/// Whether the two endpoint densities of edge `e` really straddle the
/// iso-value: the interpolation guard.
pub open spec fn edge_straddles(v: Seq<Voxel>, x: int, y: int, z: int, e: int) -> bool {
    corner_outside(v, x, y, z, edge_corner_a(e)) != corner_outside(v, x, y, z, edge_corner_b(e))
}

/// An edge gets a vertex when the table flags it and its corners straddle
/// the iso-value.
pub open spec fn edge_active(v: Seq<Voxel>, x: int, y: int, z: int, e: int) -> bool {
    edge_flagged(cell_config(v, x, y, z), e) && edge_straddles(v, x, y, z, e)
}

/// Fraction, in fixed point, of the way from corner `a` to corner `b` at
/// which the surface crosses: `(iso - d_a) / (d_b - d_a)`.
pub open spec fn interp_t(da: u32, db: u32) -> int {
    if da < db {
        ((ISO - da) * FP_ONE) / (db - da)
    } else if db < da {
        ((da - ISO) * FP_ONE) / (da - db)
    } else {
        0
    }
}

/// The vertex placed on edge `e`: the corner-`a` position plus the crossing
/// fraction toward corner `b`, in fixed point; `w` is one.
pub open spec fn edge_pos(v: Seq<Voxel>, x: int, y: int, z: int, e: int) -> FxVec4 {
    let a = edge_corner_a(e);
    let b = edge_corner_b(e);
    let t = interp_t(corner_density(v, x, y, z, a), corner_density(v, x, y, z, b));
    FxVec4 {
        x: ((x + corner_dx(a)) * FP_ONE + t * (corner_dx(b) - corner_dx(a))) as i32,
        y: ((y + corner_dy(a)) * FP_ONE + t * (corner_dy(b) - corner_dy(a))) as i32,
        z: ((z + corner_dz(a)) * FP_ONE + t * (corner_dz(b) - corner_dz(a))) as i32,
        w: FP_ONE as i32,
    }
}

/// The texture coordinate of a vertex: its x and z position, a planar map.
pub open spec fn edge_uv(v: Seq<Voxel>, x: int, y: int, z: int, e: int) -> FxVec2 {
    let p = edge_pos(v, x, y, z, e);
    FxVec2 { x: p.x, y: p.z }
}

/// The cell's normal estimate: the negated density gradient from corner
/// differences, shared by every vertex of the cell; `w` is zero.
pub open spec fn cell_normal(v: Seq<Voxel>, x: int, y: int, z: int) -> FxVec4 {
    let d0 = corner_density(v, x, y, z, 0) as int;
    let d1 = corner_density(v, x, y, z, 1) as int;
    let d2 = corner_density(v, x, y, z, 2) as int;
    let d3 = corner_density(v, x, y, z, 3) as int;
    let d4 = corner_density(v, x, y, z, 4) as int;
    let d5 = corner_density(v, x, y, z, 5) as int;
    let d6 = corner_density(v, x, y, z, 6) as int;
    let d7 = corner_density(v, x, y, z, 7) as int;
    FxVec4 {
        x: ((d0 + d3 + d4 + d7) - (d1 + d2 + d5 + d6)) as i32,
        y: ((d0 + d1 + d2 + d3) - (d4 + d5 + d6 + d7)) as i32,
        z: ((d0 + d1 + d4 + d5) - (d2 + d3 + d6 + d7)) as i32,
        w: 0,
    }
}

/// Whether the cell emits nothing: all corners inside or all outside.
pub open spec fn cell_degenerate(v: Seq<Voxel>, x: int, y: int, z: int) -> bool {
    cell_config(v, x, y, z) == 0 || cell_config(v, x, y, z) == 255
}

/// Vertex positions of the cell's active edges below `e`, in edge order.
pub open spec fn cell_verts_upto(v: Seq<Voxel>, x: int, y: int, z: int, e: int) -> Seq<FxVec4>
    decreases e,
{
    if e <= 0 {
        Seq::empty()
    } else if edge_active(v, x, y, z, e - 1) {
        cell_verts_upto(v, x, y, z, e - 1).push(edge_pos(v, x, y, z, e - 1))
    } else {
        cell_verts_upto(v, x, y, z, e - 1)
    }
}

/// Texture coordinates of the cell's active edges below `e`, in edge order.
pub open spec fn cell_uvs_upto(v: Seq<Voxel>, x: int, y: int, z: int, e: int) -> Seq<FxVec2>
    decreases e,
{
    if e <= 0 {
        Seq::empty()
    } else if edge_active(v, x, y, z, e - 1) {
        cell_uvs_upto(v, x, y, z, e - 1).push(edge_uv(v, x, y, z, e - 1))
    } else {
        cell_uvs_upto(v, x, y, z, e - 1)
    }
}

/// Normals of the cell's active edges below `e`: one copy of the cell
/// normal per vertex.
pub open spec fn cell_normals_upto(v: Seq<Voxel>, x: int, y: int, z: int, e: int) -> Seq<FxVec4>
    decreases e,
{
    if e <= 0 {
        Seq::empty()
    } else if edge_active(v, x, y, z, e - 1) {
        cell_normals_upto(v, x, y, z, e - 1).push(cell_normal(v, x, y, z))
    } else {
        cell_normals_upto(v, x, y, z, e - 1)
    }
}

/// The output slot, within the cell, of the vertex on active edge `e`:
/// the number of active edges before it.
pub open spec fn edge_slot(v: Seq<Voxel>, x: int, y: int, z: int, e: int) -> int {
    cell_verts_upto(v, x, y, z, e).len() as int
}

/// The three per-edge lists stay in step and never outgrow the edge count.
pub proof fn lemma_cell_lists_len(v: Seq<Voxel>, x: int, y: int, z: int, e: int)
    requires
        e >= 0,
    ensures
        cell_verts_upto(v, x, y, z, e).len() <= e,
        cell_uvs_upto(v, x, y, z, e).len() == cell_verts_upto(v, x, y, z, e).len(),
        cell_normals_upto(v, x, y, z, e).len() == cell_verts_upto(v, x, y, z, e).len(),
    decreases e,
{
    if e > 0 {
        lemma_cell_lists_len(v, x, y, z, e - 1);
    }
}

/// An earlier cut of the per-edge vertex list is never longer, and an
/// active edge's slot lies strictly below any later cut's length.
pub proof fn lemma_cell_verts_mono(v: Seq<Voxel>, x: int, y: int, z: int, e1: int, e2: int)
    requires
        0 <= e1 <= e2,
    ensures
        cell_verts_upto(v, x, y, z, e1).len() <= cell_verts_upto(v, x, y, z, e2).len(),
        e1 < e2 && edge_active(v, x, y, z, e1) ==> edge_slot(v, x, y, z, e1) < cell_verts_upto(
            v,
            x,
            y,
            z,
            e2,
        ).len(),
    decreases e2 - e1,
{
    if e1 < e2 {
        lemma_cell_verts_mono(v, x, y, z, e1 + 1, e2);
    }
}

/// Whether triangle slot `t` of the cell's table row names three valid,
/// active edges; the kernel stops at the first slot that does not.
pub open spec fn tri_ok(v: Seq<Voxel>, x: int, y: int, z: int, t: int) -> bool {
    let row = TRI_TABLE[cell_config(v, x, y, z)];
    let e0 = tri_entry(row, 3 * t) as int;
    let e1 = tri_entry(row, 3 * t + 1) as int;
    let e2 = tri_entry(row, 3 * t + 2) as int;
    &&& e0 < 12
    &&& e1 < 12
    &&& e2 < 12
    &&& edge_active(v, x, y, z, e0)
    &&& edge_active(v, x, y, z, e1)
    &&& edge_active(v, x, y, z, e2)
}

/// Indices of the cell's triangles from slot `t` on, each vertex index the
/// cell's base offset plus the edge's slot; empty from the first bad slot.
pub open spec fn cell_tris_from(
    v: Seq<Voxel>,
    x: int,
    y: int,
    z: int,
    base: int,
    t: int,
) -> Seq<u32>
    decreases 5 - t,
{
    if t < 0 || t >= 5 || !tri_ok(v, x, y, z, t) {
        Seq::empty()
    } else {
        let row = TRI_TABLE[cell_config(v, x, y, z)];
        let e0 = tri_entry(row, 3 * t) as int;
        let e1 = tri_entry(row, 3 * t + 1) as int;
        let e2 = tri_entry(row, 3 * t + 2) as int;
        seq![
            (base + edge_slot(v, x, y, z, e0)) as u32,
            (base + edge_slot(v, x, y, z, e1)) as u32,
            (base + edge_slot(v, x, y, z, e2)) as u32,
        ] + cell_tris_from(v, x, y, z, base, t + 1)
    }
}

/// What the cell at `(x, y, z)` appends to the vertex buffer.
pub open spec fn cell_positions(v: Seq<Voxel>, x: int, y: int, z: int) -> Seq<FxVec4> {
    if cell_degenerate(v, x, y, z) {
        Seq::empty()
    } else {
        cell_verts_upto(v, x, y, z, 12)
    }
}

/// What the cell appends to the normal buffer.
pub open spec fn cell_normals(v: Seq<Voxel>, x: int, y: int, z: int) -> Seq<FxVec4> {
    if cell_degenerate(v, x, y, z) {
        Seq::empty()
    } else {
        cell_normals_upto(v, x, y, z, 12)
    }
}

/// What the cell appends to the texture-coordinate buffer.
pub open spec fn cell_uvs(v: Seq<Voxel>, x: int, y: int, z: int) -> Seq<FxVec2> {
    if cell_degenerate(v, x, y, z) {
        Seq::empty()
    } else {
        cell_uvs_upto(v, x, y, z, 12)
    }
}

/// What the cell appends to the index buffer when its vertices start at
/// offset `base`.
pub open spec fn cell_indices(v: Seq<Voxel>, x: int, y: int, z: int, base: int) -> Seq<u32> {
    if cell_degenerate(v, x, y, z) {
        Seq::empty()
    } else {
        cell_tris_from(v, x, y, z, base, 0)
    }
}

/// A fully-inside or fully-outside cell emits no vertices and no indices.
pub proof fn lemma_degenerate_cell_empty(v: Seq<Voxel>, x: int, y: int, z: int, base: int)
    requires
        cell_config(v, x, y, z) == 0 || cell_config(v, x, y, z) == 255,
    ensures
        cell_positions(v, x, y, z).len() == 0,
        cell_indices(v, x, y, z, base).len() == 0,
{
}

/// A cell's indices come in whole triangles — at most five of them — and
/// every index points below the cell's base plus its own vertex count.
pub proof fn lemma_cell_tris_props(v: Seq<Voxel>, x: int, y: int, z: int, base: int, t: int)
    requires
        0 <= t <= 5,
        base >= 0,
    ensures
        cell_tris_from(v, x, y, z, base, t).len() % 3 == 0,
        cell_tris_from(v, x, y, z, base, t).len() <= 3 * (5 - t),
        base + 12 <= u32::MAX ==> forall|i: int|
            0 <= i < cell_tris_from(v, x, y, z, base, t).len() ==> #[trigger] cell_tris_from(
                v,
                x,
                y,
                z,
                base,
                t,
            )[i] < base + cell_verts_upto(v, x, y, z, 12).len(),
    decreases 5 - t,
{
    if t < 5 && tri_ok(v, x, y, z, t) {
        lemma_cell_tris_props(v, x, y, z, base, t + 1);
        let row = TRI_TABLE[cell_config(v, x, y, z)];
        let e0 = tri_entry(row, 3 * t) as int;
        let e1 = tri_entry(row, 3 * t + 1) as int;
        let e2 = tri_entry(row, 3 * t + 2) as int;
        lemma_cell_verts_mono(v, x, y, z, e0, 12);
        lemma_cell_verts_mono(v, x, y, z, e1, 12);
        lemma_cell_verts_mono(v, x, y, z, e2, 12);
    }
}

/// x-coordinate of the cell with flat index `ci`: cells are dispatched in
/// x-major order, `ci == x + y * CELL_SZ + z * CELL_SZ * CELL_SZ`.
pub open spec fn cell_x(ci: int) -> int {
    ci % 31
}

/// y-coordinate of the cell with flat index `ci`.
pub open spec fn cell_y(ci: int) -> int {
    (ci / 31) % 31
}

/// z-coordinate of the cell with flat index `ci`.
pub open spec fn cell_z(ci: int) -> int {
    ci / 961
}

/// Vertex positions emitted by the first `n` cells, in dispatch order.
pub open spec fn mesh_positions_upto(v: Seq<Voxel>, n: int) -> Seq<FxVec4>
    decreases n,
{
    if n <= 0 {
        Seq::empty()
    } else {
        mesh_positions_upto(v, n - 1) + cell_positions(
            v,
            cell_x(n - 1),
            cell_y(n - 1),
            cell_z(n - 1),
        )
    }
}

/// Normals emitted by the first `n` cells.
pub open spec fn mesh_normals_upto(v: Seq<Voxel>, n: int) -> Seq<FxVec4>
    decreases n,
{
    if n <= 0 {
        Seq::empty()
    } else {
        mesh_normals_upto(v, n - 1) + cell_normals(v, cell_x(n - 1), cell_y(n - 1), cell_z(n - 1))
    }
}

/// Texture coordinates emitted by the first `n` cells.
pub open spec fn mesh_uvs_upto(v: Seq<Voxel>, n: int) -> Seq<FxVec2>
    decreases n,
{
    if n <= 0 {
        Seq::empty()
    } else {
        mesh_uvs_upto(v, n - 1) + cell_uvs(v, cell_x(n - 1), cell_y(n - 1), cell_z(n - 1))
    }
}

/// Indices emitted by the first `n` cells: each cell's triangles point at
/// its own vertices through the running vertex count, the same disjoint
/// offsets the atomic append hands out.
pub open spec fn mesh_indices_upto(v: Seq<Voxel>, n: int) -> Seq<u32>
    decreases n,
{
    if n <= 0 {
        Seq::empty()
    } else {
        mesh_indices_upto(v, n - 1) + cell_indices(
            v,
            cell_x(n - 1),
            cell_y(n - 1),
            cell_z(n - 1),
            mesh_positions_upto(v, n - 1).len() as int,
        )
    }
}

/// All vertex positions the polygonization pass emits for field `v`.
pub open spec fn mesh_positions(v: Seq<Voxel>) -> Seq<FxVec4> {
    mesh_positions_upto(v, CELL_COUNT as int)
}

/// All normals the pass emits.
pub open spec fn mesh_normals(v: Seq<Voxel>) -> Seq<FxVec4> {
    mesh_normals_upto(v, CELL_COUNT as int)
}

/// All texture coordinates the pass emits.
pub open spec fn mesh_uvs(v: Seq<Voxel>) -> Seq<FxVec2> {
    mesh_uvs_upto(v, CELL_COUNT as int)
}

/// All indices the pass emits.
pub open spec fn mesh_indices(v: Seq<Voxel>) -> Seq<u32> {
    mesh_indices_upto(v, CELL_COUNT as int)
}

/// The final vertex counter: how many vertices the pass emitted.
pub open spec fn spec_vertex_count(v: Seq<Voxel>) -> nat {
    mesh_positions(v).len()
}

/// The final index counter: how many indices the pass emitted.
pub open spec fn spec_index_count(v: Seq<Voxel>) -> nat {
    mesh_indices(v).len()
}

/// What holds of everything the first `n` cells emit: the three vertex
/// streams stay in step and below 12 entries per cell, the indices come in
/// whole triangles, at most five per cell, and every index points at an
/// emitted vertex.
#[verifier::rlimit(60)]
#[verifier::spinoff_prover]
pub proof fn lemma_mesh_upto_props(v: Seq<Voxel>, n: int)
    requires
        0 <= n <= CELL_COUNT,
    ensures
        mesh_positions_upto(v, n).len() <= 12 * n,
        mesh_normals_upto(v, n).len() == mesh_positions_upto(v, n).len(),
        mesh_uvs_upto(v, n).len() == mesh_positions_upto(v, n).len(),
        mesh_indices_upto(v, n).len() <= 15 * n,
        mesh_indices_upto(v, n).len() % 3 == 0,
        forall|i: int|
            0 <= i < mesh_indices_upto(v, n).len() ==> #[trigger] mesh_indices_upto(v, n)[i]
                < mesh_positions_upto(v, n).len(),
    decreases n,
{
    if n > 0 {
        lemma_mesh_upto_props(v, n - 1);
        let x = cell_x(n - 1);
        let y = cell_y(n - 1);
        let z = cell_z(n - 1);
        let base = mesh_positions_upto(v, n - 1).len() as int;
        lemma_cell_lists_len(v, x, y, z, 12);
        lemma_cell_tris_props(v, x, y, z, base, 0);
    }
}

/// The in-cell offsets of corner `c`.
fn corner_offset(c: usize) -> (r: (usize, usize, usize))
    requires
        c < 8,
    ensures
        r.0 == corner_dx(c as int),
        r.1 == corner_dy(c as int),
        r.2 == corner_dz(c as int),
{
    match c {
        0 => (0, 0, 0),
        1 => (1, 0, 0),
        2 => (1, 0, 1),
        3 => (0, 0, 1),
        4 => (0, 1, 0),
        5 => (1, 1, 0),
        6 => (1, 1, 1),
        _ => (0, 1, 1),
    }
}

/// The two endpoint corners of edge `e`.
fn edge_corners(e: usize) -> (r: (usize, usize))
    requires
        e < 12,
    ensures
        r.0 == edge_corner_a(e as int),
        r.1 == edge_corner_b(e as int),
        r.0 < 8,
        r.1 < 8,
{
    match e {
        0 => (0, 1),
        1 => (1, 2),
        2 => (2, 3),
        3 => (3, 0),
        4 => (4, 5),
        5 => (5, 6),
        6 => (6, 7),
        7 => (7, 4),
        8 => (0, 4),
        9 => (1, 5),
        10 => (2, 6),
        _ => (3, 7),
    }
}

/// Samples the density at corner `c` of the cell at `(x, y, z)`.
fn corner_density_at(voxels: &Vec<Voxel>, x: usize, y: usize, z: usize, c: usize) -> (d: u32)
    requires
        field_wf(voxels@),
        x < CELL_SZ,
        y < CELL_SZ,
        z < CELL_SZ,
        c < 8,
    ensures
        d == corner_density(voxels@, x as int, y as int, z as int, c as int),
        d <= FP_ONE,
{
    let (dx, dy, dz) = corner_offset(c);
    let i = voxel_index(x + dx, y + dy, z + dz);
    proof {
        assert(voxels@[i as int].wf());
    }
    voxels[i].density
}

/// Builds the cell's corner-sign configuration: bit `c` set when corner `c`
/// is outside the surface.
fn compute_config(voxels: &Vec<Voxel>, x: usize, y: usize, z: usize) -> (cfg: usize)
    requires
        field_wf(voxels@),
        x < CELL_SZ,
        y < CELL_SZ,
        z < CELL_SZ,
    ensures
        cfg == cell_config(voxels@, x as int, y as int, z as int),
        cfg < 256,
{
    let mut cfg: usize = 0;
    if corner_density_at(voxels, x, y, z, 0) < ISO {
        cfg = cfg + 1;
    }
    if corner_density_at(voxels, x, y, z, 1) < ISO {
        cfg = cfg + 2;
    }
    if corner_density_at(voxels, x, y, z, 2) < ISO {
        cfg = cfg + 4;
    }
    if corner_density_at(voxels, x, y, z, 3) < ISO {
        cfg = cfg + 8;
    }
    if corner_density_at(voxels, x, y, z, 4) < ISO {
        cfg = cfg + 16;
    }
    if corner_density_at(voxels, x, y, z, 5) < ISO {
        cfg = cfg + 32;
    }
    if corner_density_at(voxels, x, y, z, 6) < ISO {
        cfg = cfg + 64;
    }
    if corner_density_at(voxels, x, y, z, 7) < ISO {
        cfg = cfg + 128;
    }
    cfg
}

/// Estimates the cell's normal from the corner-density differences.
fn compute_cell_normal(voxels: &Vec<Voxel>, x: usize, y: usize, z: usize) -> (nrm: FxVec4)
    requires
        field_wf(voxels@),
        x < CELL_SZ,
        y < CELL_SZ,
        z < CELL_SZ,
    ensures
        nrm == cell_normal(voxels@, x as int, y as int, z as int),
{
    let d0 = corner_density_at(voxels, x, y, z, 0) as i64;
    let d1 = corner_density_at(voxels, x, y, z, 1) as i64;
    let d2 = corner_density_at(voxels, x, y, z, 2) as i64;
    let d3 = corner_density_at(voxels, x, y, z, 3) as i64;
    let d4 = corner_density_at(voxels, x, y, z, 4) as i64;
    let d5 = corner_density_at(voxels, x, y, z, 5) as i64;
    let d6 = corner_density_at(voxels, x, y, z, 6) as i64;
    let d7 = corner_density_at(voxels, x, y, z, 7) as i64;
    let gx = (d0 + d3 + d4 + d7) - (d1 + d2 + d5 + d6);
    let gy = (d0 + d1 + d2 + d3) - (d4 + d5 + d6 + d7);
    let gz = (d0 + d1 + d4 + d5) - (d2 + d3 + d6 + d7);
    FxVec4 { x: gx as i32, y: gy as i32, z: gz as i32, w: 0 }
}

/// Computes the fixed-point crossing fraction between two straddling
/// corner densities.
fn compute_t(da: u32, db: u32) -> (t: u64)
    requires
        da <= FP_ONE,
        db <= FP_ONE,
        (da < ISO) != (db < ISO),
    ensures
        t == interp_t(da, db),
        t <= FP_ONE,
{
    if da < db {
        let num = (ISO - da) as u64 * FP_ONE as u64;
        let den = (db - da) as u64;
        proof {
            vstd::arithmetic::mul::lemma_mul_inequality(
                (ISO - da) as int,
                (db - da) as int,
                FP_ONE as int,
            );
            lemma_div_is_ordered(
                (ISO - da) as int * FP_ONE as int,
                (db - da) as int * FP_ONE as int,
                (db - da) as int,
            );
            lemma_div_by_multiple(FP_ONE as int, (db - da) as int);
            assert((db - da) as int * FP_ONE as int == FP_ONE as int * (db - da) as int);
        }
        num / den
    } else {
        let num = (da - ISO) as u64 * FP_ONE as u64;
        let den = (da - db) as u64;
        proof {
            vstd::arithmetic::mul::lemma_mul_inequality(
                (da - ISO) as int,
                (da - db) as int,
                FP_ONE as int,
            );
            lemma_div_is_ordered(
                (da - ISO) as int * FP_ONE as int,
                (da - db) as int * FP_ONE as int,
                (da - db) as int,
            );
            lemma_div_by_multiple(FP_ONE as int, (da - db) as int);
            assert((da - db) as int * FP_ONE as int == FP_ONE as int * (da - db) as int);
        }
        num / den
    }
}

/// Places the vertex on straddling edge `e` of the cell at `(x, y, z)`.
fn compute_edge_pos(voxels: &Vec<Voxel>, x: usize, y: usize, z: usize, e: usize) -> (p: FxVec4)
    requires
        field_wf(voxels@),
        x < CELL_SZ,
        y < CELL_SZ,
        z < CELL_SZ,
        e < 12,
        edge_straddles(voxels@, x as int, y as int, z as int, e as int),
    ensures
        p == edge_pos(voxels@, x as int, y as int, z as int, e as int),
{
    let (ca, cb) = edge_corners(e);
    let da = corner_density_at(voxels, x, y, z, ca);
    let db = corner_density_at(voxels, x, y, z, cb);
    let t = compute_t(da, db);
    let (dxa, dya, dza) = corner_offset(ca);
    let (dxb, dyb, dzb) = corner_offset(cb);
    let ti: i64 = t as i64;
    let one: i64 = FP_ONE as i64;
    let bx: i64 = (x + dxa) as i64;
    let by: i64 = (y + dya) as i64;
    let bz: i64 = (z + dza) as i64;
    let ddx: i64 = dxb as i64 - dxa as i64;
    let ddy: i64 = dyb as i64 - dya as i64;
    let ddz: i64 = dzb as i64 - dza as i64;
    proof {
        assert(dxa <= 1 && dxb <= 1 && dya <= 1 && dyb <= 1 && dza <= 1 && dzb <= 1);
        assert(-65536 <= (ti as int) * (ddx as int) <= 65536 && -65536 <= (ti as int) * (
        ddy as int) <= 65536 && -65536 <= (ti as int) * (ddz as int) <= 65536 && 0 <= (
        bx as int) * (one as int) <= 2097152 && 0 <= (by as int) * (one as int) <= 2097152 && 0
            <= (bz as int) * (one as int) <= 2097152) by (nonlinear_arith)
            requires
                0 <= ti <= 65536 && -1 <= ddx <= 1 && -1 <= ddy <= 1 && -1 <= ddz <= 1 && 0 <= bx
                    <= 32 && 0 <= by <= 32 && 0 <= bz <= 32 && one == 65536,
        ;
    }
    let px = bx * one + ti * ddx;
    let py = by * one + ti * ddy;
    let pz = bz * one + ti * ddz;
    FxVec4 { x: px as i32, y: py as i32, z: pz as i32, w: FP_ONE as i32 }
}

/// Runs one cell of the polygonization pass: classifies the corners, skips
/// uniform cells, and otherwise appends one vertex (with normal and texture
/// coordinate) per crossed edge and the cell's triangles to the outputs.
#[verifier::rlimit(30)]
fn polygonize_cell(
    voxels: &Vec<Voxel>,
    x: usize,
    y: usize,
    z: usize,
    vertices: &mut Vec<FxVec4>,
    normals: &mut Vec<FxVec4>,
    uvs: &mut Vec<FxVec2>,
    indices: &mut Vec<u32>,
)
    requires
        field_wf(voxels@),
        x < CELL_SZ,
        y < CELL_SZ,
        z < CELL_SZ,
        old(normals)@.len() == old(vertices)@.len(),
        old(uvs)@.len() == old(vertices)@.len(),
        old(vertices)@.len() + 12 <= u32::MAX,
    ensures
        final(vertices)@ == old(vertices)@ + cell_positions(voxels@, x as int, y as int, z as int),
        final(normals)@ == old(normals)@ + cell_normals(voxels@, x as int, y as int, z as int),
        final(uvs)@ == old(uvs)@ + cell_uvs(voxels@, x as int, y as int, z as int),
        final(indices)@ == old(indices)@ + cell_indices(
            voxels@,
            x as int,
            y as int,
            z as int,
            old(vertices)@.len() as int,
        ),
{
    let ghost v = voxels@;
    let ghost xi = x as int;
    let ghost yi = y as int;
    let ghost zi = z as int;
    let cfg = compute_config(voxels, x, y, z);
    if cfg == 0 || cfg == 255 {
        proof {
            assert(final(vertices)@ =~= old(vertices)@ + cell_positions(v, xi, yi, zi));
            assert(final(normals)@ =~= old(normals)@ + cell_normals(v, xi, yi, zi));
            assert(final(uvs)@ =~= old(uvs)@ + cell_uvs(v, xi, yi, zi));
            assert(final(indices)@ =~= old(indices)@ + cell_indices(
                v,
                xi,
                yi,
                zi,
                old(vertices)@.len() as int,
            ));
        }
        return ;
    }
    let mask = EDGE_TABLE[cfg];
    let nrm = compute_cell_normal(voxels, x, y, z);
    let base = vertices.len();

    let mut slots: Vec<usize> = Vec::new();
    let mut active: Vec<bool> = Vec::new();
    let mut k: usize = 0;
    while k < 12
        invariant
            k <= 12,
            slots@.len() == k,
            active@.len() == k,
            forall|ee: int| 0 <= ee < k ==> !(#[trigger] active@[ee]),
        decreases 12 - k,
    {
        slots.push(0);
        active.push(false);
        k = k + 1;
    }

    let mut e: usize = 0;
    while e < 12
        invariant
            e <= 12,
            field_wf(v),
            voxels@ == v,
            x < CELL_SZ,
            y < CELL_SZ,
            z < CELL_SZ,
            xi == x as int && yi == y as int && zi == z as int,
            cfg == cell_config(v, xi, yi, zi),
            0 < cfg < 255,
            mask == EDGE_TABLE[cfg as int],
            nrm == cell_normal(v, xi, yi, zi),
            base == old(vertices)@.len(),
            base + 12 <= u32::MAX,
            vertices@ == old(vertices)@ + cell_verts_upto(v, xi, yi, zi, e as int),
            normals@ == old(normals)@ + cell_normals_upto(v, xi, yi, zi, e as int),
            uvs@ == old(uvs)@ + cell_uvs_upto(v, xi, yi, zi, e as int),
            indices@ == old(indices)@,
            slots@.len() == 12,
            active@.len() == 12,
            forall|ee: int| 0 <= ee < e ==> active@[ee] == edge_active(v, xi, yi, zi, ee),
            forall|ee: int| e <= ee < 12 ==> !(#[trigger] active@[ee]),
            forall|ee: int|
                0 <= ee < e && edge_active(v, xi, yi, zi, ee) ==> slots@[ee] == edge_slot(
                    v,
                    xi,
                    yi,
                    zi,
                    ee,
                ),
        decreases 12 - e,
    {
        if (mask >> (e as u32)) & 1 == 1 {
            let (ca, cb) = edge_corners(e);
            let da = corner_density_at(voxels, x, y, z, ca);
            let db = corner_density_at(voxels, x, y, z, cb);
            if (da < ISO) != (db < ISO) {
                proof {
                    assert(edge_active(v, xi, yi, zi, e as int));
                    lemma_cell_lists_len(v, xi, yi, zi, e as int);
                }
                let slot = vertices.len() - base;
                slots[e] = slot;
                active[e] = true;
                let p = compute_edge_pos(voxels, x, y, z, e);
                vertices.push(p);
                normals.push(nrm);
                uvs.push(FxVec2 { x: p.x, y: p.z });
                proof {
                    assert(vertices@ =~= old(vertices)@ + cell_verts_upto(
                        v,
                        xi,
                        yi,
                        zi,
                        e as int + 1,
                    ));
                    assert(normals@ =~= old(normals)@ + cell_normals_upto(
                        v,
                        xi,
                        yi,
                        zi,
                        e as int + 1,
                    ));
                    assert(uvs@ =~= old(uvs)@ + cell_uvs_upto(v, xi, yi, zi, e as int + 1));
                }
            } else {
                proof {
                    assert(!edge_active(v, xi, yi, zi, e as int));
                }
            }
        } else {
            proof {
                assert(!edge_flagged(cfg as int, e as int));
                assert(!edge_active(v, xi, yi, zi, e as int));
            }
        }
        e = e + 1;
    }

    let row = TRI_TABLE[cfg];
    let ghost basei = base as int;
    let mut t: usize = 0;
    let mut stopped = false;
    while t < 5 && !stopped
        invariant
            t <= 5,
            field_wf(v),
            voxels@ == v,
            xi == x as int && yi == y as int && zi == z as int,
            cfg == cell_config(v, xi, yi, zi),
            0 < cfg < 255,
            row == TRI_TABLE[cfg as int],
            base == old(vertices)@.len(),
            basei == base as int,
            base + 12 <= u32::MAX,
            vertices@ == old(vertices)@ + cell_verts_upto(v, xi, yi, zi, 12),
            normals@ == old(normals)@ + cell_normals_upto(v, xi, yi, zi, 12),
            uvs@ == old(uvs)@ + cell_uvs_upto(v, xi, yi, zi, 12),
            slots@.len() == 12,
            active@.len() == 12,
            forall|ee: int| 0 <= ee < 12 ==> active@[ee] == edge_active(v, xi, yi, zi, ee),
            forall|ee: int|
                0 <= ee < 12 && edge_active(v, xi, yi, zi, ee) ==> slots@[ee] == edge_slot(
                    v,
                    xi,
                    yi,
                    zi,
                    ee,
                ),
            indices@.len() >= old(indices)@.len(),
            indices@.take(old(indices)@.len() as int) == old(indices)@,
            cell_tris_from(v, xi, yi, zi, basei, 0) == indices@.skip(old(indices)@.len() as int)
                + (if stopped {
                Seq::<u32>::empty()
            } else {
                cell_tris_from(v, xi, yi, zi, basei, t as int)
            }),
        decreases 5 - t, (if stopped {
            0int
        } else {
            1
        }),
    {
        let e0 = read_tri_entry(row, (3 * t) as u64);
        let e1 = read_tri_entry(row, (3 * t + 1) as u64);
        let e2 = read_tri_entry(row, (3 * t + 2) as u64);
        let ok = e0 < 12 && e1 < 12 && e2 < 12 && active[e0 as usize] && active[e1 as usize]
            && active[e2 as usize];
        if ok {
            proof {
                assert(tri_ok(v, xi, yi, zi, t as int));
                lemma_cell_lists_len(v, xi, yi, zi, 12);
                lemma_cell_verts_mono(v, xi, yi, zi, e0 as int, 12);
                lemma_cell_verts_mono(v, xi, yi, zi, e1 as int, 12);
                lemma_cell_verts_mono(v, xi, yi, zi, e2 as int, 12);
            }
            let i0 = (base + slots[e0 as usize]) as u32;
            let i1 = (base + slots[e1 as usize]) as u32;
            let i2 = (base + slots[e2 as usize]) as u32;
            indices.push(i0);
            indices.push(i1);
            indices.push(i2);
            proof {
                assert(indices@.take(old(indices)@.len() as int) =~= old(indices)@);
                assert(cell_tris_from(v, xi, yi, zi, basei, 0) =~= indices@.skip(
                    old(indices)@.len() as int,
                ) + cell_tris_from(v, xi, yi, zi, basei, t as int + 1));
            }
            t = t + 1;
        } else {
            proof {
                assert(!tri_ok(v, xi, yi, zi, t as int));
                assert(cell_tris_from(v, xi, yi, zi, basei, t as int) =~= Seq::<u32>::empty());
            }
            stopped = true;
        }
    }
    proof {
        assert(cell_tris_from(v, xi, yi, zi, basei, 5) =~= Seq::<u32>::empty());
        assert(indices@ =~= indices@.take(old(indices)@.len() as int) + indices@.skip(
            old(indices)@.len() as int,
        ));
        assert(indices@ =~= old(indices)@ + cell_indices(v, xi, yi, zi, basei));
        assert(vertices@ =~= old(vertices)@ + cell_positions(v, xi, yi, zi));
        assert(normals@ =~= old(normals)@ + cell_normals(v, xi, yi, zi));
        assert(uvs@ =~= old(uvs)@ + cell_uvs(v, xi, yi, zi));
    }
}

/// The variable-length output of one polygonization pass: the valid
/// prefixes of the four output buffers. The final counter values are the
/// lengths of `vertices` and `indices`.
pub struct MeshData {
    pub vertices: Vec<FxVec4>,
    pub normals: Vec<FxVec4>,
    pub uvs: Vec<FxVec2>,
    pub indices: Vec<u32>,
}

/// The coordinates of the cell with flat dispatch index `ci`.
fn cell_coords(ci: usize) -> (r: (usize, usize, usize))
    requires
        ci < CELL_COUNT,
    ensures
        r.0 == cell_x(ci as int),
        r.1 == cell_y(ci as int),
        r.2 == cell_z(ci as int),
        r.0 < CELL_SZ,
        r.1 < CELL_SZ,
        r.2 < CELL_SZ,
{
    let x = ci % 31;
    let y = (ci / 31) % 31;
    let z = ci / 961;
    proof {
        assert(z < 31) by (nonlinear_arith)
            requires
                ci < 29791 && z == ci / 961,
        ;
    }
    (x, y, z)
}

/// Runs the polygonization pass over a whole density field, one cell at a
/// time, returning exactly the vertices, normals, texture coordinates and
/// triangle indices of its isosurface. The output is a function of the
/// field alone, its indices come in whole triangles, every index points at
/// an emitted vertex, and the totals never exceed the worst case of 12
/// vertices and 5 triangles per cell that the device buffers are sized for.
pub fn polygonize_field(voxels: &Vec<Voxel>) -> (m: MeshData)
    requires
        field_wf(voxels@),
    ensures
        m.vertices@ == mesh_positions(voxels@),
        m.normals@ == mesh_normals(voxels@),
        m.uvs@ == mesh_uvs(voxels@),
        m.indices@ == mesh_indices(voxels@),
        m.vertices@.len() == spec_vertex_count(voxels@),
        m.indices@.len() == spec_index_count(voxels@),
        m.normals@.len() == m.vertices@.len(),
        m.uvs@.len() == m.vertices@.len(),
        m.vertices@.len() <= 12 * CELL_COUNT,
        m.indices@.len() <= 15 * CELL_COUNT,
        m.indices@.len() % 3 == 0,
        forall|i: int| 0 <= i < m.indices@.len() ==> #[trigger] m.indices@[i]
            < m.vertices@.len(),
{
    let mut vertices: Vec<FxVec4> = Vec::new();
    let mut normals: Vec<FxVec4> = Vec::new();
    let mut uvs: Vec<FxVec2> = Vec::new();
    let mut indices: Vec<u32> = Vec::new();
    let mut ci: usize = 0;
    while ci < CELL_COUNT
        invariant
            ci <= CELL_COUNT,
            field_wf(voxels@),
            vertices@ == mesh_positions_upto(voxels@, ci as int),
            normals@ == mesh_normals_upto(voxels@, ci as int),
            uvs@ == mesh_uvs_upto(voxels@, ci as int),
            indices@ == mesh_indices_upto(voxels@, ci as int),
        decreases CELL_COUNT - ci,
    {
        proof {
            lemma_mesh_upto_props(voxels@, ci as int);
        }
        let (x, y, z) = cell_coords(ci);
        polygonize_cell(voxels, x, y, z, &mut vertices, &mut normals, &mut uvs, &mut indices);
        ci = ci + 1;
    }
    proof {
        lemma_mesh_upto_props(voxels@, CELL_COUNT as int);
    }
    MeshData { vertices, normals, uvs, indices }
}

} // verus!
