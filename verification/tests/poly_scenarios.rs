use voxel_mesh::poly::polygonize_field;
use voxel_mesh::voxel::Voxel;
use voxel_mesh::{CHUNK_SZ, CHUNK_SZ_2, CHUNK_SZ_3, FP_ONE};

// builds the dense array in its x + y * N + z * N^2 addressing
fn field_of(f: impl Fn(usize, usize, usize) -> u32) -> Vec<Voxel> {
    let mut v = vec![Voxel { flags: 0, density: 0 }; CHUNK_SZ_3];
    for z in 0..CHUNK_SZ {
        for y in 0..CHUNK_SZ {
            for x in 0..CHUNK_SZ {
                v[x + y * CHUNK_SZ + z * CHUNK_SZ_2] = Voxel { flags: 0, density: f(x, y, z) };
            }
        }
    }
    v
}

/// An entirely "outside" field emits nothing.
#[test]
fn all_zero_field_is_empty() {
    let field = field_of(|_, _, _| 0);
    let m = polygonize_field(&field);
    assert_eq!(m.vertices.len(), 0);
    assert_eq!(m.normals.len(), 0);
    assert_eq!(m.uvs.len(), 0);
    assert_eq!(m.indices.len(), 0);
}

/// An entirely "inside" field emits nothing either: both uniform corner
/// configurations produce zero vertices and zero indices.
#[test]
fn all_one_field_is_empty() {
    let field = field_of(|_, _, _| FP_ONE);
    let m = polygonize_field(&field);
    assert_eq!(m.vertices.len(), 0);
    assert_eq!(m.indices.len(), 0);
}

/// A flat field — full density below y = 8, empty above — produces one
/// horizontal slice of quads: two triangles per surface cell, vertices all
/// at the interpolated crossing height of 7.5.
#[test]
fn flat_field_single_slice() {
    let field = field_of(|_, y, _| if y < 8 { FP_ONE } else { 0 });
    let m = polygonize_field(&field);
    // 31 x 31 surface cells, 4 vertices and 2 triangles each
    assert_eq!(m.vertices.len(), 3844);
    assert_eq!(m.indices.len(), 5766);
    assert_eq!(m.normals.len(), 3844);
    assert_eq!(m.uvs.len(), 3844);
    for v in &m.vertices {
        assert_eq!(v.y, 491520); // 7.5 in fixed point
        assert_eq!(v.w, FP_ONE as i32);
    }
    // the normal estimate points straight up
    for n in &m.normals {
        assert_eq!((n.x, n.y, n.z), (0, 4 * FP_ONE as i32, 0));
    }
}

/// Capacity safety: the checkerboard field crosses every edge of every
/// cell — the maximum-density case — and still fits the reserved
/// capacities exactly.
#[test]
fn checkerboard_stays_in_capacity() {
    let field = field_of(|x, y, z| if (x + y + z) % 2 == 0 { FP_ONE } else { 0 });
    let m = polygonize_field(&field);
    assert_eq!(m.vertices.len(), 357492); // 12 per cell, every cell
    assert_eq!(m.indices.len(), 357492); // 4 triangles per cell
    assert!(m.vertices.len() <= 393216);
    assert!(m.indices.len() <= 491520);
}

/// A single full voxel is wrapped by 24 vertices and 8 triangles, all on
/// the half-unit crossings around it.
#[test]
fn single_voxel_bump() {
    let field = field_of(|x, y, z| if (x, y, z) == (5, 5, 5) { FP_ONE } else { 0 });
    let m = polygonize_field(&field);
    assert_eq!(m.vertices.len(), 24);
    assert_eq!(m.indices.len(), 24);
    let half = (FP_ONE / 2) as i32;
    let five = 5 * FP_ONE as i32;
    for v in &m.vertices {
        let d = (v.x - five).abs() + (v.y - five).abs() + (v.z - five).abs();
        assert_eq!(d, half);
    }
}

/// Every index is below the vertex counter and the index counter is a
/// whole number of triangles, on an arbitrary (pseudo-random) field.
#[test]
fn indices_always_valid() {
    let field = field_of(|x, y, z| {
        let s = ((x * 73856093) ^ (y * 19349663) ^ (z * 83492791)) as u64 & 0xffff_ffff;
        let s = (1103515245u64.wrapping_mul(s).wrapping_add(12345)) & 0x7fff_ffff;
        (s % (FP_ONE as u64 + 1)) as u32
    });
    let m = polygonize_field(&field);
    assert_eq!(m.vertices.len(), 180580);
    assert_eq!(m.indices.len(), 289044);
    assert_eq!(m.indices.len() % 3, 0);
    for &ix in &m.indices {
        assert!((ix as usize) < m.vertices.len());
    }
}

/// Idempotence: re-running polygonization on an unchanged field gives the
/// same mesh.
#[test]
fn repolygonize_same_field() {
    let field = field_of(|_, y, _| if y < 8 { FP_ONE } else { 0 });
    let m1 = polygonize_field(&field);
    let m2 = polygonize_field(&field);
    assert_eq!(m1.vertices.len(), m2.vertices.len());
    assert_eq!(m1.indices.len(), m2.indices.len());
    assert!(m1.indices == m2.indices);
    for i in 0..m1.vertices.len() {
        assert!(m1.vertices[i] == m2.vertices[i]);
        assert!(m1.uvs[i] == m2.uvs[i]);
    }
}
