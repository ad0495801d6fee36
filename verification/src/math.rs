//! Fixed-point vector types.
//!
//! The meshing core carries every scalar as a signed 32-bit fixed-point
//! number with `FP_ONE` standing for one. These are the 2- and 4-component
//! vectors the kernel emits (positions and normals are 4-component to match
//! the device's 16-byte alignment; texture coordinates are 2-component),
//! and the 3-component form handed to the mesh consumer.

use vstd::prelude::*;

use crate::bytes::{u32_from_le, u32_le_bytes};
use crate::element::BufElement;

verus! {

/// A 2-component fixed-point vector, 8 bytes, fields in order.
#[derive(Clone, Copy, PartialEq, Eq, Structural, Debug)]
pub struct FxVec2 {
    pub x: i32,
    pub y: i32,
}

/// A 4-component fixed-point vector, 16 bytes, fields in order.
#[derive(Clone, Copy, PartialEq, Eq, Structural, Debug)]
pub struct FxVec4 {
    pub x: i32,
    pub y: i32,
    pub z: i32,
    pub w: i32,
}

/// A 3-component fixed-point vector: the mesh consumer's position and
/// normal format. Never uploaded, so it is not a buffer element.
#[derive(Clone, Copy, PartialEq, Eq, Structural, Debug)]
pub struct FxVec3 {
    pub x: i32,
    pub y: i32,
    pub z: i32,
}

impl FxVec3 {
    /// The first three components of a 4-component vector.
    pub open spec fn spec_of_vec4(v: FxVec4) -> FxVec3 {
        FxVec3 { x: v.x, y: v.y, z: v.z }
    }

    /// Drops the fourth component of `v`.
    pub fn of_vec4(v: &FxVec4) -> (r: FxVec3)
        ensures
            r == FxVec3::spec_of_vec4(*v),
    {
        FxVec3 { x: v.x, y: v.y, z: v.z }
    }
}

impl BufElement for FxVec2 {
    open spec fn byte_len() -> nat {
        8
    }

    open spec fn to_bytes(self) -> Seq<u8> {
        u32_le_bytes(self.x as u32) + u32_le_bytes(self.y as u32)
    }

    open spec fn of_bytes(b: Seq<u8>) -> Self {
        FxVec2 {
            x: u32_from_le(b[0], b[1], b[2], b[3]) as i32,
            y: u32_from_le(b[4], b[5], b[6], b[7]) as i32,
        }
    }

    open spec fn fill_value() -> Self {
        FxVec2 { x: 0, y: 0 }
    }

    proof fn lemma_codec(self) {
        let x = self.x;
        let y = self.y;
        crate::bytes::lemma_u32_le_round_trip(x as u32);
        crate::bytes::lemma_u32_le_round_trip(y as u32);
        assert(x as u32 as i32 == x) by (bit_vector);
        assert(y as u32 as i32 == y) by (bit_vector);
    }

    fn byte_size() -> (n: usize) {
        8
    }

    fn append_to(&self, out: &mut Vec<u8>) {
        crate::bytes::push_u32_le(out, self.x as u32);
        crate::bytes::push_u32_le(out, self.y as u32);
        proof {
            assert(out@ =~= old(out)@ + self.to_bytes());
        }
    }

    fn parse_from(b: &Vec<u8>, off: usize) -> (r: Self) {
        let _len = b.len();
        let x = crate::bytes::read_u32_le(b, off) as i32;
        let y = crate::bytes::read_u32_le(b, off + 4) as i32;
        FxVec2 { x, y }
    }

    fn filler() -> (r: Self) {
        FxVec2 { x: 0, y: 0 }
    }
}

impl BufElement for FxVec4 {
    open spec fn byte_len() -> nat {
        16
    }

    open spec fn to_bytes(self) -> Seq<u8> {
        u32_le_bytes(self.x as u32) + u32_le_bytes(self.y as u32) + u32_le_bytes(self.z as u32)
            + u32_le_bytes(self.w as u32)
    }

    open spec fn of_bytes(b: Seq<u8>) -> Self {
        FxVec4 {
            x: u32_from_le(b[0], b[1], b[2], b[3]) as i32,
            y: u32_from_le(b[4], b[5], b[6], b[7]) as i32,
            z: u32_from_le(b[8], b[9], b[10], b[11]) as i32,
            w: u32_from_le(b[12], b[13], b[14], b[15]) as i32,
        }
    }

    open spec fn fill_value() -> Self {
        FxVec4 { x: 0, y: 0, z: 0, w: 0 }
    }

    proof fn lemma_codec(self) {
        let x = self.x;
        let y = self.y;
        let z = self.z;
        let w = self.w;
        crate::bytes::lemma_u32_le_round_trip(x as u32);
        crate::bytes::lemma_u32_le_round_trip(y as u32);
        crate::bytes::lemma_u32_le_round_trip(z as u32);
        crate::bytes::lemma_u32_le_round_trip(w as u32);
        assert(x as u32 as i32 == x) by (bit_vector);
        assert(y as u32 as i32 == y) by (bit_vector);
        assert(z as u32 as i32 == z) by (bit_vector);
        assert(w as u32 as i32 == w) by (bit_vector);
    }

    fn byte_size() -> (n: usize) {
        16
    }

    fn append_to(&self, out: &mut Vec<u8>) {
        crate::bytes::push_u32_le(out, self.x as u32);
        crate::bytes::push_u32_le(out, self.y as u32);
        crate::bytes::push_u32_le(out, self.z as u32);
        crate::bytes::push_u32_le(out, self.w as u32);
        proof {
            assert(out@ =~= old(out)@ + self.to_bytes());
        }
    }

    fn parse_from(b: &Vec<u8>, off: usize) -> (r: Self) {
        let _len = b.len();
        let x = crate::bytes::read_u32_le(b, off) as i32;
        let y = crate::bytes::read_u32_le(b, off + 4) as i32;
        let z = crate::bytes::read_u32_le(b, off + 8) as i32;
        let w = crate::bytes::read_u32_le(b, off + 12) as i32;
        FxVec4 { x, y, z, w }
    }

    fn filler() -> (r: Self) {
        FxVec4 { x: 0, y: 0, z: 0, w: 0 }
    }
}

} // verus!
