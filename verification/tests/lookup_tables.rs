use voxel_mesh::tables::{read_tri_entry, EDGE_TABLE, TRI_TABLE};

#[test]
fn uniform_configurations_are_empty() {
    assert_eq!(EDGE_TABLE[0], 0);
    assert_eq!(EDGE_TABLE[255], 0);
    assert_eq!(read_tri_entry(TRI_TABLE[0], 0), 0xf);
    assert_eq!(read_tri_entry(TRI_TABLE[255], 0), 0xf);
}

#[test]
fn single_corner_configuration() {
    // corner 0 outside: its three edges (0, 8, 3) crossed, one triangle
    assert_eq!(EDGE_TABLE[1], (1 << 0) | (1 << 3) | (1 << 8));
    let row = TRI_TABLE[1];
    assert_eq!(read_tri_entry(row, 0), 0);
    assert_eq!(read_tri_entry(row, 1), 8);
    assert_eq!(read_tri_entry(row, 2), 3);
    assert_eq!(read_tri_entry(row, 3), 0xf);
}

#[test]
fn complement_configurations_cross_the_same_edges() {
    for c in 0..256 {
        assert_eq!(EDGE_TABLE[c], EDGE_TABLE[255 - c]);
        assert!(EDGE_TABLE[c] < 1 << 12);
    }
}

#[test]
fn rows_are_whole_triangles_of_crossed_edges() {
    for c in 0..256 {
        let row = TRI_TABLE[c];
        let mut ended = false;
        let mut triangles = 0;
        for t in 0..5u64 {
            let e0 = read_tri_entry(row, 3 * t);
            let e1 = read_tri_entry(row, 3 * t + 1);
            let e2 = read_tri_entry(row, 3 * t + 2);
            if ended || e0 == 0xf {
                // nothing but padding after the terminator
                assert_eq!((e0, e1, e2), (0xf, 0xf, 0xf));
                ended = true;
                continue;
            }
            // a full triangle of three distinct crossed edges
            for e in [e0, e1, e2] {
                assert!(e < 12);
                assert_ne!(EDGE_TABLE[c] & (1 << e), 0);
            }
            assert!(e0 != e1 && e1 != e2 && e0 != e2);
            triangles += 1;
        }
        assert!(triangles <= 5);
        // every crossed edge is used by at least one triangle
        for e in 0..12u64 {
            if EDGE_TABLE[c] & (1 << e) != 0 {
                let mut used = false;
                for k in 0..15u64 {
                    if read_tri_entry(row, k) == e {
                        used = true;
                    }
                }
                assert!(used);
            }
        }
        // the terminator itself
        assert_eq!(read_tri_entry(row, 15), 0xf);
    }
}
