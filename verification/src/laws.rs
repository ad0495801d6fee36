//! Laws of the meshing core.
//!
//! Each proof function here states one guarantee of the pipeline as a whole,
//! over the same specification functions the executable contracts use.

use vstd::prelude::*;

use crate::buffer::{decode_n, encode_seq, lemma_decode_encode, lemma_encode_seq_len};
use crate::element::BufElement;
use crate::orchestrator::{INDEX_CAP, VERTEX_CAP};
use crate::field::voxel_at;
use crate::poly::{
    cell_config, cell_degenerate, cell_indices, cell_positions, cell_tris_from, cell_verts_upto,
    cell_x, cell_y, cell_z, corner_density, corner_dx, corner_dy, corner_dz,
    lemma_degenerate_cell_empty, lemma_mesh_upto_props, mesh_indices, mesh_indices_upto,
    mesh_normals, mesh_positions, mesh_positions_upto, mesh_uvs, spec_index_count,
    spec_vertex_count, MeshData, CELL_COUNT, CELL_SZ,
};
use crate::tables::{tri_entry, EDGE_TABLE, TRI_TABLE};
use crate::voxel::Voxel;
use crate::{CHUNK_SZ_3, ISO};

verus! {

/// The size constants agree with the formulas they come from: the chunk is
/// `CHUNK_SZ` voxels cubed, the kernel walks one cell less per axis, and
/// the output capacities are the documented per-cell worst case — 12
/// vertices (one per edge) and 5 triangles — over every cell of the chunk,
/// never computed from incoming counts.
pub proof fn lemma_size_constants_consistent()
    ensures
        crate::CHUNK_SZ_2 == crate::CHUNK_SZ * crate::CHUNK_SZ,
        crate::CHUNK_SZ_3 == crate::CHUNK_SZ * crate::CHUNK_SZ * crate::CHUNK_SZ,
        crate::ISO == crate::FP_ONE / 2,
        CELL_SZ == crate::CHUNK_SZ - 1,
        CELL_COUNT == CELL_SZ * CELL_SZ * CELL_SZ,
        VERTEX_CAP == crate::CHUNK_SZ_3 * crate::poly::MAX_CELL_VERTS,
        INDEX_CAP == crate::CHUNK_SZ_3 * crate::poly::MAX_CELL_INDICES,
        crate::orchestrator::POINT_COUNT == crate::CHUNK_SZ_2,
{
}

/// Byte-layout round trip: writing a sequence of elements into a buffer
/// and reading the same count back yields the original sequence bit for
/// bit.
pub proof fn lemma_buffer_round_trip<T: BufElement>(s: Seq<T>)
    ensures
        decode_n::<T>(encode_seq(s), s.len()) == s,
{
    lemma_encode_seq_len::<T>(s);
    assert(encode_seq(s).subrange(0, (s.len() * T::byte_len()) as int) =~= encode_seq(s));
    lemma_decode_encode::<T>(s, encode_seq(s));
}

/// For every supported field, the polygonization output is well formed:
/// the index count is a multiple of three, every index points at an
/// emitted vertex, and both counts stay within the statically reserved
/// worst-case capacities — whatever the densities.
pub proof fn lemma_mesh_output_valid(v: Seq<Voxel>)
    ensures
        spec_index_count(v) % 3 == 0,
        forall|i: int|
            0 <= i < spec_index_count(v) ==> #[trigger] mesh_indices(v)[i] < spec_vertex_count(v),
        spec_vertex_count(v) <= VERTEX_CAP,
        spec_index_count(v) <= INDEX_CAP,
{
    lemma_mesh_upto_props(v, CELL_COUNT as int);
}

/// Idempotence: polygonization is a function of the density field alone,
/// so two outputs that both meet its contract for the same field are the
/// same mesh — same counters, same vertices, same triangles.
pub proof fn lemma_polygonize_idempotent(v: Seq<Voxel>, m1: MeshData, m2: MeshData)
    requires
        m1.vertices@ == mesh_positions(v),
        m1.normals@ == mesh_normals(v),
        m1.uvs@ == mesh_uvs(v),
        m1.indices@ == mesh_indices(v),
        m2.vertices@ == mesh_positions(v),
        m2.normals@ == mesh_normals(v),
        m2.uvs@ == mesh_uvs(v),
        m2.indices@ == mesh_indices(v),
    ensures
        m1.vertices@ == m2.vertices@,
        m1.normals@ == m2.normals@,
        m1.uvs@ == m2.uvs@,
        m1.indices@ == m2.indices@,
        m1.vertices@.len() == m2.vertices@.len(),
        m1.indices@.len() == m2.indices@.len(),
{
}

/// A field whose densities all sit on one side of the iso-value — fully
/// inside or fully outside — makes every cell degenerate.
pub proof fn lemma_uniform_field_degenerate(v: Seq<Voxel>, x: int, y: int, z: int)
    requires
        v.len() == CHUNK_SZ_3,
        0 <= x < CELL_SZ,
        0 <= y < CELL_SZ,
        0 <= z < CELL_SZ,
        (forall|i: int| 0 <= i < CHUNK_SZ_3 ==> (#[trigger] v[i]).density < ISO) || (forall|i: int|
            0 <= i < CHUNK_SZ_3 ==> (#[trigger] v[i]).density >= ISO),
    ensures
        cell_degenerate(v, x, y, z),
{
    if forall|i: int| 0 <= i < CHUNK_SZ_3 ==> (#[trigger] v[i]).density < ISO {
        assert(cell_config(v, x, y, z) == 255);
    } else {
        assert(cell_config(v, x, y, z) == 0);
    }
}

/// An entirely one-sided field — for instance all densities zero, fully
/// outside — polygonizes to nothing: zero vertices and zero indices, the
/// case in which the orchestrator skips the payload read-back.
pub proof fn lemma_uniform_field_empty(v: Seq<Voxel>)
    requires
        v.len() == CHUNK_SZ_3,
        (forall|i: int| 0 <= i < CHUNK_SZ_3 ==> (#[trigger] v[i]).density < ISO) || (forall|i: int|
            0 <= i < CHUNK_SZ_3 ==> (#[trigger] v[i]).density >= ISO),
    ensures
        spec_vertex_count(v) == 0,
        spec_index_count(v) == 0,
{
    lemma_uniform_field_empty_upto(v, CELL_COUNT as int);
}

/// The density field of the planar-slice scenario: full below `y == 8`,
/// empty from there up.
pub open spec fn flat_field(v: Seq<Voxel>) -> bool {
    &&& v.len() == CHUNK_SZ_3
    &&& forall|x: int, y: int, z: int|
        0 <= x < 32 && 0 <= y < 32 && 0 <= z < 32 ==> (#[trigger] voxel_at(v, x, y, z)).density
            == (if y < 8 {
            crate::FP_ONE
        } else {
            0u32
        })
}

/// The planar-slice scenario, cell by cell: in the flat field the surface
/// layer of cells — the ones whose lower corners sit at `y == 7` — each
/// emit exactly one quad, four vertices and two triangles, and every cell
/// above or below the slice emits nothing.
pub proof fn lemma_flat_field_slice(v: Seq<Voxel>, x: int, y: int, z: int, base: int)
    requires
        flat_field(v),
        0 <= x < CELL_SZ,
        0 <= y < CELL_SZ,
        0 <= z < CELL_SZ,
    ensures
        y == 7 ==> cell_positions(v, x, y, z).len() == 4 && cell_indices(
            v,
            x,
            y,
            z,
            base,
        ).len() == 6,
        y != 7 ==> cell_positions(v, x, y, z).len() == 0 && cell_indices(
            v,
            x,
            y,
            z,
            base,
        ).len() == 0,
{
    assert forall|c: int| 0 <= c < 8 implies corner_density(v, x, y, z, c) == (if y + corner_dy(c)
        < 8 {
        crate::FP_ONE
    } else {
        0u32
    }) by {
        assert(voxel_at(v, x + corner_dx(c), y + corner_dy(c), z + corner_dz(c)).density == (if y
            + corner_dy(c) < 8 {
            crate::FP_ONE
        } else {
            0u32
        }));
    }
    if y == 7 {
        assert(cell_config(v, x, y, z) == 240);
        let m = EDGE_TABLE[240];
        assert(m == 0xf00);
        assert((m >> 0u32) & 1 != 1 && (m >> 1u32) & 1 != 1 && (m >> 2u32) & 1 != 1 && (m
            >> 3u32) & 1 != 1 && (m >> 4u32) & 1 != 1 && (m >> 5u32) & 1 != 1 && (m >> 6u32) & 1
            != 1 && (m >> 7u32) & 1 != 1 && (m >> 8u32) & 1 == 1 && (m >> 9u32) & 1 == 1 && (m
            >> 10u32) & 1 == 1 && (m >> 11u32) & 1 == 1) by (bit_vector)
            requires
                m == 0xf00u32,
        ;
        assert(cell_positions(v, x, y, z).len() == 4) by {
            reveal_with_fuel(cell_verts_upto, 13);
        }
        let row = TRI_TABLE[240];
        assert(row == 0xffffffffffba8a98u64);
        assert(tri_entry(row, 0) == 8 && tri_entry(row, 1) == 9 && tri_entry(row, 2) == 10
            && tri_entry(row, 3) == 8 && tri_entry(row, 4) == 10 && tri_entry(row, 5) == 11
            && tri_entry(row, 6) == 15) by (bit_vector)
            requires
                row == 0xffffffffffba8a98u64,
        ;
        assert(cell_indices(v, x, y, z, base).len() == 6) by {
            reveal_with_fuel(cell_tris_from, 4);
        }
    } else {
        if y < 7 {
            assert(cell_config(v, x, y, z) == 0);
        } else {
            assert(cell_config(v, x, y, z) == 255);
        }
        lemma_degenerate_cell_empty(v, x, y, z, base);
    }
}

proof fn lemma_uniform_field_empty_upto(v: Seq<Voxel>, n: int)
    requires
        v.len() == CHUNK_SZ_3,
        0 <= n <= CELL_COUNT,
        (forall|i: int| 0 <= i < CHUNK_SZ_3 ==> (#[trigger] v[i]).density < ISO) || (forall|i: int|
            0 <= i < CHUNK_SZ_3 ==> (#[trigger] v[i]).density >= ISO),
    ensures
        mesh_positions_upto(v, n).len() == 0,
        mesh_indices_upto(v, n).len() == 0,
    decreases n,
{
    if n > 0 {
        lemma_uniform_field_empty_upto(v, n - 1);
        let ci = n - 1;
        let x = cell_x(ci);
        let y = cell_y(ci);
        let z = cell_z(ci);
        assert(0 <= x < CELL_SZ && 0 <= y < CELL_SZ && 0 <= z < CELL_SZ) by (nonlinear_arith)
            requires
                0 <= ci < 29791 && x == ci % 31 && y == (ci / 31) % 31 && z == ci / 961,
        ;
        lemma_uniform_field_degenerate(v, x, y, z);
        lemma_degenerate_cell_empty(v, x, y, z, mesh_positions_upto(v, ci).len() as int);
    }
}

} // verus!
