//! The density-field update.
//!
//! After the height read-back, every voxel of the chunk gets a fresh
//! density on the host: the column's height sample (a noise value in
//! `[-1, 1]`, fixed point) is mapped to `[0, 1]`, scaled by four and offset
//! by eight to a terrain height, the voxel's own y is subtracted, and the
//! signed result is clamped to `[0, 1]` — a one-unit linear ramp, so the
//! polygonizer can interpolate a smooth surface instead of a blocky one.
//!
//! The sample-point lattice fed to the height stage is also defined here:
//! one point per `(x, z)` column, chunk-local coordinates offset by the
//! elapsed time and scaled by the noise frequency one twentieth.

use vstd::prelude::*;

use crate::math::FxVec2;
use crate::voxel::{spec_voxel_index, Chunk, Voxel};
use crate::{CHUNK_SZ, CHUNK_SZ_2, CHUNK_SZ_3, FP_ONE};

verus! {

/// The voxel at `(x, y, z)` of a chunk's array.
pub open spec fn voxel_at(v: Seq<Voxel>, x: int, y: int, z: int) -> Voxel {
    v[spec_voxel_index(x, y, z)]
}

/// The density a voxel at height `y` gets from its column's height sample
/// `h`: map the sample from `[-1, 1]` to `[0, 1]`, scale by 4, offset by 8,
/// subtract `y`, and clamp the signed remainder to `[0, 1]`.
pub open spec fn spec_density_from(h: i32, y: int) -> u32 {
    let sh = (h + FP_ONE) * 2 + 8 * FP_ONE - y * FP_ONE;
    if sh > FP_ONE {
        FP_ONE
    } else if sh > 0 {
        sh as u32
    } else {
        0
    }
}

/// The voxel the density update writes at height `y` of the column with
/// height sample `h`: flags cleared, density from the ramp.
pub open spec fn updated_voxel(h: i32, y: int) -> Voxel {
    Voxel { flags: 0, density: spec_density_from(h, y) }
}

/// Computes the clamped ramp density for one voxel.
pub fn density_from_height(h: i32, y: usize) -> (d: u32)
    requires
        y < CHUNK_SZ,
    ensures
        d == spec_density_from(h, y as int),
        d <= FP_ONE,
{
    let sh: i64 = (h as i64 + FP_ONE as i64) * 2 + 8 * (FP_ONE as i64) - (y as i64) * (
    FP_ONE as i64);
    if sh > FP_ONE as i64 {
        FP_ONE
    } else if sh > 0 {
        sh as u32
    } else {
        0
    }
}

/// The flat voxel index decomposes back into its coordinates.
proof fn lemma_voxel_index_reconstruct(x: int, y: int, z: int)
    requires
        0 <= x < CHUNK_SZ,
        0 <= y < CHUNK_SZ,
        0 <= z < CHUNK_SZ,
    ensures
        0 <= spec_voxel_index(x, y, z) < CHUNK_SZ_3,
        spec_voxel_index(x, y, z) % 32 == x,
        (spec_voxel_index(x, y, z) / 32) % 32 == y,
        spec_voxel_index(x, y, z) / 1024 == z,
{
    assert(0 <= x + y * 32 + z * 1024 < 32768 && (x + y * 32 + z * 1024) % 32 == x && ((x + y * 32
        + z * 1024) / 32) % 32 == y && (x + y * 32 + z * 1024) / 1024 == z) by (nonlinear_arith)
        requires
            0 <= x < 32 && 0 <= y < 32 && 0 <= z < 32,
    ;
}

/// Recomputes every voxel of the chunk from the height samples: voxel
/// `(x, y, z)` becomes the ramp density of its `(x, z)` column's sample.
/// Flags are cleared; the chunk's position and size are untouched.
pub fn update_density(chunk: &mut Chunk, heights: &Vec<i32>)
    requires
        old(chunk).wf(),
        heights@.len() == CHUNK_SZ_2,
    ensures
        final(chunk).wf(),
        final(chunk).position == old(chunk).position,
        forall|x: int, y: int, z: int|
            0 <= x < CHUNK_SZ && 0 <= y < CHUNK_SZ && 0 <= z < CHUNK_SZ ==> #[trigger] voxel_at(
                final(chunk).voxels@,
                x,
                y,
                z,
            ) == updated_voxel(heights@[x + z * CHUNK_SZ], y),
{
    let mut i: usize = 0;
    while i < CHUNK_SZ_3
        invariant
            i <= CHUNK_SZ_3,
            heights@.len() == CHUNK_SZ_2,
            chunk.position == old(chunk).position,
            chunk.voxels@.len() == CHUNK_SZ_3,
            forall|j: int|
                0 <= j < i ==> #[trigger] chunk.voxels@[j] == updated_voxel(
                    heights@[(j % 32) + (j / 1024) * 32],
                    (j / 32) % 32,
                ),
            forall|j: int| i <= j < CHUNK_SZ_3 ==> #[trigger] chunk.voxels@[j].wf(),
        decreases CHUNK_SZ_3 - i,
    {
        let x = i % 32;
        let y = (i / 32) % 32;
        let z = i / 1024;
        proof {
            assert(x + (i / 1024) * 32 < 1024 && i / 1024 < 32) by (nonlinear_arith)
                requires
                    i < 32768 && x == i % 32,
            ;
        }
        let col = x + z * 32;
        let d = density_from_height(heights[col], y);
        chunk.voxels[i] = Voxel { flags: 0, density: d };
        i = i + 1;
    }
    proof {
        assert forall|x: int, y: int, z: int|
            0 <= x < CHUNK_SZ && 0 <= y < CHUNK_SZ && 0 <= z < CHUNK_SZ implies #[trigger] voxel_at(
            chunk.voxels@,
            x,
            y,
            z,
        ) == updated_voxel(heights@[x + z * CHUNK_SZ], y) by {
            lemma_voxel_index_reconstruct(x, y, z);
        }
        assert forall|j: int| 0 <= j < CHUNK_SZ_3 implies #[trigger] chunk.voxels@[j].wf() by {
            assert(chunk.voxels@[j] == updated_voxel(heights@[(j % 32) + (j / 1024) * 32], (j / 32)
                % 32));
        }
    }
}

/// The lattice sample point of column `(gx, gz)` at elapsed time `t`:
/// chunk-local coordinates offset by the time, scaled by one twentieth.
pub open spec fn spec_sample_point(gx: int, gz: int, t: int) -> FxVec2 {
    FxVec2 { x: ((gx * FP_ONE + t) / 20) as i32, y: ((gz * FP_ONE + t) / 20) as i32 }
}

/// Computes the sample point of column `(gx, gz)` at elapsed time `t`.
pub fn sample_point(gx: usize, gz: usize, t: i32) -> (p: FxVec2)
    requires
        gx < CHUNK_SZ,
        gz < CHUNK_SZ,
        t >= 0,
    ensures
        p == spec_sample_point(gx as int, gz as int, t as int),
{
    let gxu: u64 = gx as u64;
    let gzu: u64 = gz as u64;
    let one64: u64 = FP_ONE as u64;
    proof {
        assert(0 <= (gxu as int) * (one64 as int) <= 2031616 && 0 <= (gzu as int) * (one64 as int)
            <= 2031616) by (nonlinear_arith)
            requires
                gxu < 32 && gzu < 32 && one64 == 65536,
        ;
    }
    let px = (gxu * one64 + (t as u64)) / 20;
    let pz = (gzu * one64 + (t as u64)) / 20;
    FxVec2 { x: px as i32, y: pz as i32 }
}

} // verus!
