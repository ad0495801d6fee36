//! Verified core of a voxel terrain meshing pipeline.
//!
//! A dense per-chunk density field is turned into a triangle mesh by a
//! marching-cubes polygonizer whose output size is not known ahead of time.
//! The crate models the host side of the pipeline exactly: the growable
//! transfer buffers with their byte codec, the density-field update, the
//! polygonization pass with its append counters, and the per-tick
//! orchestration that strings the stages together.

use vstd::prelude::*;

pub mod buffer;
pub mod bytes;
pub mod chunk_map;
pub mod element;
pub mod field;
pub mod laws;
pub mod math;
pub mod orchestrator;
pub mod poly;
pub mod tables;
pub mod voxel;

verus! {

/// Edge length of a cubic chunk, in voxels.
pub const CHUNK_SZ: usize = 32;

/// Voxels in one horizontal (x, z) slice of a chunk.
pub const CHUNK_SZ_2: usize = 1024;

/// Voxels in a whole chunk.
pub const CHUNK_SZ_3: usize = 32768;

/// Fixed-point unit: the integer that stands for the real value one.
/// All scalar quantities (densities, heights, coordinates) are carried
/// as multiples of 1 / FP_ONE.
pub const FP_ONE: u32 = 65536;

/// Iso-value of the extracted surface: one half, in fixed point.
pub const ISO: u32 = 32768;

} // verus!
