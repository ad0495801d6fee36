use voxel_mesh::buffer::BufVec;
use voxel_mesh::bytes::{push_u32_le, read_u32_le};
use voxel_mesh::math::{FxVec2, FxVec4};
use voxel_mesh::voxel::Voxel;

#[test]
fn u32_little_endian_layout() {
    let mut bytes: Vec<u8> = Vec::new();
    push_u32_le(&mut bytes, 0x12345678);
    assert_eq!(bytes, vec![0x78, 0x56, 0x34, 0x12]);
    assert_eq!(read_u32_le(&bytes, 0), 0x12345678);
}

#[test]
fn round_trip_words() {
    let mut buf: BufVec<u32> = BufVec::with_capacity(true, 8);
    assert_eq!(buf.push(10), 0);
    assert_eq!(buf.push(0xffff_ffff), 1);
    assert_eq!(buf.push(0), 2);
    buf.encode_write();
    buf.encode_read(3);
    buf.map_buffer(3);
    buf.read_and_unmap_buffer(3);
    assert_eq!(buf.as_slice(), &[10, 0xffff_ffff, 0]);
}

#[test]
fn round_trip_voxels() {
    let mut buf: BufVec<Voxel> = BufVec::with_capacity(true, 4);
    buf.push(Voxel { flags: 7, density: 65536 });
    buf.push(Voxel { flags: 0, density: 12345 });
    buf.encode_write();
    buf.encode_read(2);
    buf.map_buffer(2);
    buf.read_and_unmap_buffer(2);
    let s = buf.as_slice();
    assert_eq!(s.len(), 2);
    assert!(s[0] == Voxel { flags: 7, density: 65536 });
    assert!(s[1] == Voxel { flags: 0, density: 12345 });
}

#[test]
fn round_trip_vectors_bit_for_bit() {
    let mut buf: BufVec<FxVec4> = BufVec::with_capacity(true, 4);
    buf.push(FxVec4 { x: -1, y: i32::MIN, z: i32::MAX, w: 0 });
    buf.push(FxVec4 { x: 65536, y: -65536, z: 42, w: 1 });
    buf.encode_write();
    buf.encode_read(2);
    buf.map_buffer(2);
    buf.read_and_unmap_buffer(2);
    let s = buf.as_slice();
    assert!(s[0] == FxVec4 { x: -1, y: i32::MIN, z: i32::MAX, w: 0 });
    assert!(s[1] == FxVec4 { x: 65536, y: -65536, z: 42, w: 1 });

    let mut buf2: BufVec<FxVec2> = BufVec::with_capacity(true, 2);
    buf2.push(FxVec2 { x: -32768, y: 32767 });
    buf2.encode_write();
    buf2.encode_read(1);
    buf2.map_buffer(1);
    buf2.read_and_unmap_buffer(1);
    assert!(buf2.as_slice()[0] == FxVec2 { x: -32768, y: 32767 });
}

#[test]
fn push_len_clear() {
    let mut buf: BufVec<u32> = BufVec::with_capacity(false, 4);
    assert!(buf.is_empty());
    assert_eq!(buf.capacity(), 4);
    assert_eq!(buf.push(5), 0);
    assert_eq!(buf.push(6), 1);
    assert_eq!(buf.len(), 2);
    assert!(!buf.is_empty());
    buf.clear();
    assert!(buf.is_empty());
    assert_eq!(buf.capacity(), 4);
}

#[test]
fn reserve_grows_and_never_shrinks() {
    let mut buf: BufVec<u32> = BufVec::with_capacity(false, 4);
    buf.reserve(16);
    assert_eq!(buf.capacity(), 16);
    assert_eq!(buf.buffer().len(), 16 * 4);
    buf.reserve(8);
    assert_eq!(buf.capacity(), 16);
}

#[test]
fn write_reaches_device_bytes() {
    let mut buf: BufVec<u32> = BufVec::with_capacity(false, 2);
    buf.push(0x0a0b0c0d);
    buf.encode_write();
    assert_eq!(&buf.buffer()[0..4], &[0x0d, 0x0c, 0x0b, 0x0a]);
}
