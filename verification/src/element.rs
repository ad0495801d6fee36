//! Fixed-layout buffer elements.
//!
//! Everything that travels through a transfer buffer has a stable byte
//! layout, identical on the host and the device: a fixed number of bytes,
//! little-endian within each 32-bit word, fields in declaration order and
//! without padding. The `BufElement` trait states that layout and its
//! round-trip, so the buffer code can serialize any element generically.

use vstd::prelude::*;

use crate::bytes::{
    lemma_u32_le_round_trip,
    push_u32_le,
    read_u32_le,
    u32_from_le,
    u32_le_bytes,
};

verus! {

/// An element with a fixed, self-describing byte layout.
pub trait BufElement: Sized + Copy {
    /// Number of bytes one element occupies, on the host and on the device.
    spec fn byte_len() -> nat;

    /// The bytes one element serializes to.
    spec fn to_bytes(self) -> Seq<u8>;

    /// The element read back from one element's worth of bytes.
    spec fn of_bytes(b: Seq<u8>) -> Self;

    /// The element used to fill the host mirror ahead of a read-back.
    spec fn fill_value() -> Self;

    /// The layout is non-empty, sized as stated, and round-trips.
    proof fn lemma_codec(self)
        ensures
            Self::byte_len() > 0,
            self.to_bytes().len() == Self::byte_len(),
            Self::of_bytes(self.to_bytes()) == self;

    /// Number of bytes one element occupies.
    fn byte_size() -> (n: usize)
        ensures
            n == Self::byte_len(),
            0 < n <= 16;

    /// Appends the serialized element to `out`.
    fn append_to(&self, out: &mut Vec<u8>)
        ensures
            final(out)@ == old(out)@ + self.to_bytes();

    /// Reads one element back from `b[off ..off + byte_len()]`.
    fn parse_from(b: &Vec<u8>, off: usize) -> (r: Self)
        requires
            off + Self::byte_len() <= b@.len(),
        ensures
            r == Self::of_bytes(b@.subrange(off as int, off + Self::byte_len()));

    /// The element used to fill the host mirror ahead of a read-back.
    fn filler() -> (r: Self)
        ensures
            r == Self::fill_value();
}

impl BufElement for u32 {
    open spec fn byte_len() -> nat {
        4
    }

    open spec fn to_bytes(self) -> Seq<u8> {
        u32_le_bytes(self)
    }

    open spec fn of_bytes(b: Seq<u8>) -> Self {
        u32_from_le(b[0], b[1], b[2], b[3])
    }

    open spec fn fill_value() -> Self {
        0
    }

    proof fn lemma_codec(self) {
        lemma_u32_le_round_trip(self);
    }

    fn byte_size() -> (n: usize) {
        4
    }

    fn append_to(&self, out: &mut Vec<u8>) {
        push_u32_le(out, *self);
    }

    fn parse_from(b: &Vec<u8>, off: usize) -> (r: Self) {
        read_u32_le(b, off)
    }

    fn filler() -> (r: Self) {
        0
    }
}

impl BufElement for u64 {
    open spec fn byte_len() -> nat {
        8
    }

    open spec fn to_bytes(self) -> Seq<u8> {
        u32_le_bytes((self & 0xffffffff) as u32) + u32_le_bytes((self >> 32) as u32)
    }

    open spec fn of_bytes(b: Seq<u8>) -> Self {
        (u32_from_le(b[0], b[1], b[2], b[3]) as u64) | ((u32_from_le(b[4], b[5], b[6], b[7])
            as u64) << 32)
    }

    open spec fn fill_value() -> Self {
        0
    }

    proof fn lemma_codec(self) {
        let lo = (self & 0xffffffff) as u32;
        let hi = (self >> 32) as u32;
        lemma_u32_le_round_trip(lo);
        lemma_u32_le_round_trip(hi);
        assert((lo as u64) | ((hi as u64) << 32) == self) by (bit_vector)
            requires
                lo == (self & 0xffffffff) as u32 && hi == (self >> 32) as u32,
        ;
    }

    fn byte_size() -> (n: usize) {
        8
    }

    fn append_to(&self, out: &mut Vec<u8>) {
        push_u32_le(out, (*self & 0xffffffff) as u32);
        push_u32_le(out, (*self >> 32) as u32);
        proof {
            assert(out@ =~= old(out)@ + self.to_bytes());
        }
    }

    fn parse_from(b: &Vec<u8>, off: usize) -> (r: Self) {
        let _len = b.len();
        let lo = read_u32_le(b, off);
        let hi = read_u32_le(b, off + 4);
        (lo as u64) | ((hi as u64) << 32)
    }

    fn filler() -> (r: Self) {
        0
    }
}

impl BufElement for i32 {
    open spec fn byte_len() -> nat {
        4
    }

    open spec fn to_bytes(self) -> Seq<u8> {
        u32_le_bytes(self as u32)
    }

    open spec fn of_bytes(b: Seq<u8>) -> Self {
        u32_from_le(b[0], b[1], b[2], b[3]) as i32
    }

    open spec fn fill_value() -> Self {
        0
    }

    proof fn lemma_codec(self) {
        lemma_u32_le_round_trip(self as u32);
        assert(self as u32 as i32 == self) by (bit_vector);
    }

    fn byte_size() -> (n: usize) {
        4
    }

    fn append_to(&self, out: &mut Vec<u8>) {
        push_u32_le(out, *self as u32);
    }

    fn parse_from(b: &Vec<u8>, off: usize) -> (r: Self) {
        read_u32_le(b, off) as i32
    }

    fn filler() -> (r: Self) {
        0
    }
}

} // verus!
