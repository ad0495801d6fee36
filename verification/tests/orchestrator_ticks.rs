use voxel_mesh::orchestrator::VoxelBuffers;
use voxel_mesh::voxel::{Chunk, ChunkPos};
use voxel_mesh::{CHUNK_SZ_2, FP_ONE};

const ONE: i32 = FP_ONE as i32;

#[test]
fn points_lattice_upload() {
    let mut buffers = VoxelBuffers::new();
    buffers.generate_points(0);
    let points = buffers.points_values();
    assert_eq!(points.len(), 1024);
    // point (x, z) sits at index x + z * 32 and is (x, z) / 20 in fixed point
    assert_eq!((points[0].x, points[0].y), (0, 0));
    assert_eq!((points[1].x, points[1].y), (65536 / 20, 0));
    assert_eq!((points[32].x, points[32].y), (0, 65536 / 20));
    let p = &points[5 + 7 * 32];
    assert_eq!((p.x, p.y), (5 * 65536 / 20, 7 * 65536 / 20));
    // the elapsed-time offset moves every point
    buffers.generate_points(20);
    let p = &buffers.points_values()[1];
    assert_eq!(p.x, (65536 + 20) / 20);
    assert_eq!(p.y, 1);
}

/// A full tick over a flat terrain: heights of minus one put the surface
/// exactly at y = 8, one slice of quads.
#[test]
fn tick_flat_terrain() {
    let mut buffers = VoxelBuffers::new();
    let mut chunk = Chunk::new(ChunkPos { x: 0, y: 0, z: 0 });
    buffers.generate_points(0);
    let heights = vec![-ONE; CHUNK_SZ_2];
    let mesh = buffers.polygonize(&mut chunk, &heights);
    assert_eq!(buffers.heights_values().as_slice(), heights.as_slice());
    assert_eq!(buffers.counters(), (3844, 5766));
    assert_eq!(mesh.positions.len(), 3844);
    assert_eq!(mesh.normals.len(), 3844);
    assert_eq!(mesh.uvs.len(), 3844);
    assert_eq!(mesh.indices.len(), 5766);
    for p in &mesh.positions {
        assert_eq!(p.y, 491520); // 7.5 in fixed point
    }
    for &ix in &mesh.indices {
        assert!((ix as usize) < mesh.positions.len());
    }
    // the density update really wrote the ramp into the chunk
    assert_eq!(chunk.voxels[0].density, FP_ONE); // (0, 0, 0): below surface
    let idx_top = 0 + 31 * 32 + 0; // (0, 31, 0): above surface
    assert_eq!(chunk.voxels[idx_top].density, 0);
}

/// An entirely "outside" chunk: zero counters, payload read-back skipped,
/// empty mesh.
#[test]
fn tick_empty_terrain() {
    let mut buffers = VoxelBuffers::new();
    let mut chunk = Chunk::new(ChunkPos { x: 1, y: 0, z: -2 });
    // a height of minus five units keeps the signed height at or below
    // zero for every voxel, so every density clamps to zero
    let heights = vec![-5 * ONE; CHUNK_SZ_2];
    let mesh = buffers.polygonize(&mut chunk, &heights);
    assert_eq!(buffers.counters(), (0, 0));
    assert_eq!(mesh.positions.len(), 0);
    assert_eq!(mesh.normals.len(), 0);
    assert_eq!(mesh.uvs.len(), 0);
    assert_eq!(mesh.indices.len(), 0);
    for v in &chunk.voxels {
        assert_eq!(v.density, 0);
    }
}

/// Two ticks over the same heights produce the same mesh: the counters and
/// every triangle agree.
#[test]
fn tick_twice_same_mesh() {
    let mut buffers = VoxelBuffers::new();
    let mut chunk = Chunk::new(ChunkPos { x: 0, y: 0, z: 0 });
    let mut heights = vec![0i32; CHUNK_SZ_2];
    for (i, h) in heights.iter_mut().enumerate() {
        *h = ((i as i32) % 65) * 1024 - 32768;
    }
    let m1 = buffers.polygonize(&mut chunk, &heights);
    let c1 = buffers.counters();
    let m2 = buffers.polygonize(&mut chunk, &heights);
    let c2 = buffers.counters();
    assert_eq!(c1, c2);
    assert_eq!(m1.indices, m2.indices);
    assert_eq!(m1.positions.len(), m2.positions.len());
    for i in 0..m1.positions.len() {
        assert!(m1.positions[i] == m2.positions[i]);
        assert!(m1.normals[i] == m2.normals[i]);
        assert!(m1.uvs[i] == m2.uvs[i]);
    }
}
