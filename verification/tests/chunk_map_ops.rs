use voxel_mesh::chunk_map::ChunkMap;
use voxel_mesh::voxel::ChunkPos;

#[test]
fn insert_get_and_replace() {
    let mut m = ChunkMap::new();
    assert_eq!(m.len(), 0);
    let a = ChunkPos { x: 0, y: 0, z: 0 };
    let b = ChunkPos { x: -1, y: 2, z: 7 };
    m.insert(a, 10);
    m.insert(b, 20);
    assert_eq!(m.len(), 2);
    assert_eq!(m.get(a), Some(10));
    assert_eq!(m.get(b), Some(20));
    assert_eq!(m.get(ChunkPos { x: 5, y: 5, z: 5 }), None);
    // re-inserting a coordinate replaces its entity, key stays unique
    m.insert(a, 30);
    assert_eq!(m.len(), 2);
    assert_eq!(m.get(a), Some(30));
    assert_eq!(m.get(b), Some(20));
}

#[test]
fn default_is_empty() {
    let m = ChunkMap::default();
    assert_eq!(m.len(), 0);
    assert_eq!(m.get(ChunkPos { x: 0, y: 0, z: 0 }), None);
}
