use voxel_mesh::field::{density_from_height, sample_point, update_density};
use voxel_mesh::voxel::{voxel_index, Chunk, ChunkPos};
use voxel_mesh::{CHUNK_SZ_2, FP_ONE};

const ONE: i32 = FP_ONE as i32;

#[test]
fn ramp_density_values() {
    // a zero noise sample maps to terrain height ten: full density up to
    // y = 9, a clean cutoff at y = 10
    assert_eq!(density_from_height(0, 8), FP_ONE);
    assert_eq!(density_from_height(0, 9), FP_ONE);
    assert_eq!(density_from_height(0, 10), 0);
    // noise of minus one: the surface sits exactly at y = 8
    assert_eq!(density_from_height(-ONE, 7), FP_ONE);
    assert_eq!(density_from_height(-ONE, 8), 0);
    // noise of plus one: terrain height twelve
    assert_eq!(density_from_height(ONE, 11), FP_ONE);
    assert_eq!(density_from_height(ONE, 12), 0);
    // a fractional sample lands inside the ramp band
    assert_eq!(density_from_height(-ONE / 4, 9), FP_ONE / 2);
}

#[test]
fn update_writes_every_column() {
    let mut chunk = Chunk::new(ChunkPos { x: 0, y: 0, z: 0 });
    let mut heights = vec![0i32; CHUNK_SZ_2];
    heights[3 + 4 * 32] = -ONE; // column (x = 3, z = 4)
    update_density(&mut chunk, &heights);
    // the special column cuts off at y = 8, the rest at y = 10
    assert_eq!(chunk.voxels[voxel_index(3, 7, 4)].density, FP_ONE);
    assert_eq!(chunk.voxels[voxel_index(3, 8, 4)].density, 0);
    assert_eq!(chunk.voxels[voxel_index(0, 9, 0)].density, FP_ONE);
    assert_eq!(chunk.voxels[voxel_index(0, 10, 0)].density, 0);
    assert_eq!(chunk.voxels[voxel_index(31, 9, 31)].density, FP_ONE);
    for v in &chunk.voxels {
        assert_eq!(v.flags, 0);
        assert!(v.density <= FP_ONE);
    }
}

#[test]
fn lattice_points() {
    let p = sample_point(1, 0, 0);
    assert_eq!((p.x, p.y), (3276, 0)); // 65536 / 20, truncated
    let p = sample_point(0, 2, 0);
    assert_eq!((p.x, p.y), (0, 6553));
    // twenty fixed-point steps of elapsed time shift a point by one step
    let p = sample_point(0, 0, 20);
    assert_eq!((p.x, p.y), (1, 1));
}

#[test]
fn fresh_chunk_is_empty() {
    let chunk = Chunk::new(ChunkPos { x: -3, y: 0, z: 9 });
    assert_eq!(chunk.voxels.len(), 32768);
    assert_eq!(chunk.position, ChunkPos { x: -3, y: 0, z: 9 });
    for v in &chunk.voxels {
        assert_eq!(v.flags, 0);
        assert_eq!(v.density, 0);
    }
}
