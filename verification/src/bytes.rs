//! Little-endian byte codec for 32-bit words.
//!
//! Every element that travels between the host mirror and the device staging
//! buffer is laid out as a sequence of 32-bit words, each serialized as four
//! bytes, least significant first. This module pins that layout down and
//! proves it round-trips.

use vstd::prelude::*;

verus! {

/// The four little-endian bytes of a 32-bit word.
pub open spec fn u32_le_bytes(v: u32) -> Seq<u8> {
    seq![
        (v & 0xff) as u8,
        ((v >> 8) & 0xff) as u8,
        ((v >> 16) & 0xff) as u8,
        ((v >> 24) & 0xff) as u8,
    ]
}

/// The 32-bit word read from four little-endian bytes.
pub open spec fn u32_from_le(b0: u8, b1: u8, b2: u8, b3: u8) -> u32 {
    (b0 as u32) | ((b1 as u32) << 8) | ((b2 as u32) << 16) | ((b3 as u32) << 24)
}

/// Decoding the four little-endian bytes of a word gives the word back.
pub proof fn lemma_u32_le_round_trip(v: u32)
    ensures
        u32_from_le(
            (v & 0xff) as u8,
            ((v >> 8) & 0xff) as u8,
            ((v >> 16) & 0xff) as u8,
            ((v >> 24) & 0xff) as u8,
        ) == v,
{
    assert(((v & 0xff) as u8 as u32) | ((((v >> 8) & 0xff) as u8 as u32) << 8) | ((((v >> 16)
        & 0xff) as u8 as u32) << 16) | ((((v >> 24) & 0xff) as u8 as u32) << 24) == v)
        by (bit_vector);
}

/// A signed word is serialized through its two's-complement bit pattern.
pub open spec fn i32_as_u32(v: i32) -> u32 {
    v as u32
}

/// Reading a two's-complement bit pattern back as signed.
pub open spec fn u32_as_i32(v: u32) -> i32 {
    v as i32
}

/// The two's-complement reinterpretation round-trips.
pub proof fn lemma_i32_round_trip(v: i32)
    ensures
        u32_as_i32(i32_as_u32(v)) == v,
{
    assert(v as u32 as i32 == v) by (bit_vector);
}

/// Appends the four little-endian bytes of `v` to `out`.
pub fn push_u32_le(out: &mut Vec<u8>, v: u32)
    ensures
        final(out)@ == old(out)@ + u32_le_bytes(v),
{
    proof {
        assert(v & 0xff < 256 && (v >> 8) & 0xff < 256 && (v >> 16) & 0xff < 256 && (v >> 24)
            & 0xff < 256) by (bit_vector);
    }
    out.push((v & 0xff) as u8);
    out.push(((v >> 8) & 0xff) as u8);
    out.push(((v >> 16) & 0xff) as u8);
    out.push(((v >> 24) & 0xff) as u8);
    proof {
        assert(out@ =~= old(out)@ + u32_le_bytes(v));
    }
}

/// Reads the 32-bit word stored little-endian at `b[off..off + 4]`.
pub fn read_u32_le(b: &Vec<u8>, off: usize) -> (r: u32)
    requires
        off + 4 <= b@.len(),
    ensures
        r == u32_from_le(b@[off as int], b@[off + 1], b@[off + 2], b@[off + 3]),
{
    let _len = b.len();
    let b0 = b[off];
    let b1 = b[off + 1];
    let b2 = b[off + 2];
    let b3 = b[off + 3];
    (b0 as u32) | ((b1 as u32) << 8) | ((b2 as u32) << 16) | ((b3 as u32) << 24)
}

/// Decoding the encoding of `v`, starting anywhere a copy of that encoding
/// sits in a larger byte sequence, yields `v` again.
pub proof fn lemma_u32_le_decode(v: u32, b: Seq<u8>, off: int)
    requires
        0 <= off,
        off + 4 <= b.len(),
        b.subrange(off, off + 4) == u32_le_bytes(v),
    ensures
        u32_from_le(b[off], b[off + 1], b[off + 2], b[off + 3]) == v,
{
    assert(b[off] == u32_le_bytes(v)[0]);
    assert(b[off + 1] == u32_le_bytes(v)[1]);
    assert(b[off + 2] == u32_le_bytes(v)[2]);
    assert(b[off + 3] == u32_le_bytes(v)[3]);
    lemma_u32_le_round_trip(v);
}

} // verus!
