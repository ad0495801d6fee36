//! Voxels and chunks.
//!
//! A chunk is a dense cube of `CHUNK_SZ` voxels per edge, addressed as
//! `x + y * CHUNK_SZ + z * CHUNK_SZ_2`. Each voxel is a fixed-layout
//! 8-byte record of a flag word and a fixed-point density in `[0, 1]`,
//! so the whole voxel array can be uploaded to the device byte for byte.

use vstd::prelude::*;

use crate::bytes::{u32_from_le, u32_le_bytes};
use crate::element::BufElement;
use crate::{CHUNK_SZ, CHUNK_SZ_2, CHUNK_SZ_3, FP_ONE};

verus! {

/// One voxel: a reserved flag bitset and a density, 8 bytes, fields in order.
/// Density runs from 0 (fully outside the surface) to `FP_ONE` (fully inside).
#[derive(Clone, Copy, PartialEq, Eq, Structural, Debug)]
pub struct Voxel {
    pub flags: u32,
    pub density: u32,
}

impl Voxel {
    /// The density never exceeds one.
    pub open spec fn wf(self) -> bool {
        self.density <= FP_ONE
    }
}

impl Default for Voxel {
    /// An empty voxel: no flags, zero density.
    fn default() -> (r: Self)
        ensures
            r.flags == 0,
            r.density == 0,
    {
        Voxel { flags: 0, density: 0 }
    }
}

impl BufElement for Voxel {
    open spec fn byte_len() -> nat {
        8
    }

    open spec fn to_bytes(self) -> Seq<u8> {
        u32_le_bytes(self.flags) + u32_le_bytes(self.density)
    }

    open spec fn of_bytes(b: Seq<u8>) -> Self {
        Voxel {
            flags: u32_from_le(b[0], b[1], b[2], b[3]),
            density: u32_from_le(b[4], b[5], b[6], b[7]),
        }
    }

    open spec fn fill_value() -> Self {
        Voxel { flags: 0, density: 0 }
    }

    proof fn lemma_codec(self) {
        crate::bytes::lemma_u32_le_round_trip(self.flags);
        crate::bytes::lemma_u32_le_round_trip(self.density);
    }

    fn byte_size() -> (n: usize) {
        8
    }

    fn append_to(&self, out: &mut Vec<u8>) {
        crate::bytes::push_u32_le(out, self.flags);
        crate::bytes::push_u32_le(out, self.density);
        proof {
            assert(out@ =~= old(out)@ + self.to_bytes());
        }
    }

    fn parse_from(b: &Vec<u8>, off: usize) -> (r: Self) {
        let _len = b.len();
        let flags = crate::bytes::read_u32_le(b, off);
        let density = crate::bytes::read_u32_le(b, off + 4);
        Voxel { flags, density }
    }

    fn filler() -> (r: Self) {
        Voxel { flags: 0, density: 0 }
    }
}

/// A chunk-grid coordinate: which chunk of the world, not which voxel.
#[derive(Clone, Copy, PartialEq, Eq, Structural, Debug)]
pub struct ChunkPos {
    pub x: i32,
    pub y: i32,
    pub z: i32,
}

/// A chunk: its grid position and its dense voxel array, created full size
/// once and mutated in place every tick, never resized.
pub struct Chunk {
    pub position: ChunkPos,
    pub voxels: Vec<Voxel>,
}

/// The index of voxel `(x, y, z)` in a chunk's dense array.
pub open spec fn spec_voxel_index(x: int, y: int, z: int) -> int {
    x + y * CHUNK_SZ + z * CHUNK_SZ_2
}

/// Computes the dense-array index of voxel `(x, y, z)`.
pub fn voxel_index(x: usize, y: usize, z: usize) -> (i: usize)
    requires
        x < CHUNK_SZ,
        y < CHUNK_SZ,
        z < CHUNK_SZ,
    ensures
        i == spec_voxel_index(x as int, y as int, z as int),
        i < CHUNK_SZ_3,
{
    x + y * CHUNK_SZ + z * CHUNK_SZ_2
}

impl Chunk {
    /// A full-size voxel array with densities all in range.
    pub open spec fn wf(self) -> bool {
        &&& self.voxels@.len() == CHUNK_SZ_3
        &&& forall|i: int| 0 <= i < CHUNK_SZ_3 ==> #[trigger] self.voxels@[i].wf()
    }

    /// Creates the chunk at `position`, with every voxel empty.
    pub fn new(position: ChunkPos) -> (c: Chunk)
        ensures
            c.wf(),
            c.position == position,
            forall|i: int| 0 <= i < CHUNK_SZ_3 ==> #[trigger] c.voxels@[i] == (Voxel {
                flags: 0,
                density: 0,
            }),
    {
        let mut voxels: Vec<Voxel> = Vec::new();
        let mut k: usize = 0;
        while k < CHUNK_SZ_3
            invariant
                k <= CHUNK_SZ_3,
                voxels@.len() == k,
                forall|i: int| 0 <= i < k ==> #[trigger] voxels@[i] == (Voxel {
                    flags: 0,
                    density: 0,
                }),
            decreases CHUNK_SZ_3 - k,
        {
            voxels.push(Voxel { flags: 0, density: 0 });
            k = k + 1;
        }
        Chunk { position, voxels }
    }
}

} // verus!
