//! Isosurface lookup tables.
//!
//! Corner numbering (y-up): corners 0..=3 ring the bottom face of a cell in
//! the order given by `corner_dx`/`corner_dy`/`corner_dz` in the polygonizer;
//! corners 4..=7 sit directly above them. Edge `e` joins the corner pair given
//! by `edge_corner_a`/`edge_corner_b`: edges 0..=3 ring the bottom face,
//! 4..=7 the top face, and 8..=11 are the verticals.
//!
//! `EDGE_TABLE[c]` is a 12-bit mask of the cell edges crossed by the surface
//! when configuration bit `i` means "corner `i` is outside" (density below
//! the iso-value). `TRI_TABLE[c]` stitches the crossed edges of configuration
//! `c` into triangles: up to five triples of edge indices, packed four bits
//! per entry starting at the low end of the word, with `0xF` terminating and
//! padding the row. Every edge set in `EDGE_TABLE[c]` appears in at least one
//! triple, and no row holds more than five triangles: that bound is the
//! per-cell worst case the output buffers are sized for. The tables are
//! immutable and the pipeline uploads them to the device once.

use vstd::prelude::*;

verus! {

/// For each corner-sign configuration, the 12-bit mask of crossed cell edges.
pub const EDGE_TABLE: [u32; 256] = [
    0x000, 0x109, 0x203, 0x30a, 0x406, 0x50f, 0x605, 0x70c,
    0x80c, 0x905, 0xa0f, 0xb06, 0xc0a, 0xd03, 0xe09, 0xf00,
    0x190, 0x099, 0x393, 0x29a, 0x596, 0x49f, 0x795, 0x69c,
    0x99c, 0x895, 0xb9f, 0xa96, 0xd9a, 0xc93, 0xf99, 0xe90,
    0x230, 0x339, 0x033, 0x13a, 0x636, 0x73f, 0x435, 0x53c,
    0xa3c, 0xb35, 0x83f, 0x936, 0xe3a, 0xf33, 0xc39, 0xd30,
    0x3a0, 0x2a9, 0x1a3, 0x0aa, 0x7a6, 0x6af, 0x5a5, 0x4ac,
    0xbac, 0xaa5, 0x9af, 0x8a6, 0xfaa, 0xea3, 0xda9, 0xca0,
    0x460, 0x569, 0x663, 0x76a, 0x066, 0x16f, 0x265, 0x36c,
    0xc6c, 0xd65, 0xe6f, 0xf66, 0x86a, 0x963, 0xa69, 0xb60,
    0x5f0, 0x4f9, 0x7f3, 0x6fa, 0x1f6, 0x0ff, 0x3f5, 0x2fc,
    0xdfc, 0xcf5, 0xfff, 0xef6, 0x9fa, 0x8f3, 0xbf9, 0xaf0,
    0x650, 0x759, 0x453, 0x55a, 0x256, 0x35f, 0x055, 0x15c,
    0xe5c, 0xf55, 0xc5f, 0xd56, 0xa5a, 0xb53, 0x859, 0x950,
    0x7c0, 0x6c9, 0x5c3, 0x4ca, 0x3c6, 0x2cf, 0x1c5, 0x0cc,
    0xfcc, 0xec5, 0xdcf, 0xcc6, 0xbca, 0xac3, 0x9c9, 0x8c0,
    0x8c0, 0x9c9, 0xac3, 0xbca, 0xcc6, 0xdcf, 0xec5, 0xfcc,
    0x0cc, 0x1c5, 0x2cf, 0x3c6, 0x4ca, 0x5c3, 0x6c9, 0x7c0,
    0x950, 0x859, 0xb53, 0xa5a, 0xd56, 0xc5f, 0xf55, 0xe5c,
    0x15c, 0x055, 0x35f, 0x256, 0x55a, 0x453, 0x759, 0x650,
    0xaf0, 0xbf9, 0x8f3, 0x9fa, 0xef6, 0xfff, 0xcf5, 0xdfc,
    0x2fc, 0x3f5, 0x0ff, 0x1f6, 0x6fa, 0x7f3, 0x4f9, 0x5f0,
    0xb60, 0xa69, 0x963, 0x86a, 0xf66, 0xe6f, 0xd65, 0xc6c,
    0x36c, 0x265, 0x16f, 0x066, 0x76a, 0x663, 0x569, 0x460,
    0xca0, 0xda9, 0xea3, 0xfaa, 0x8a6, 0x9af, 0xaa5, 0xbac,
    0x4ac, 0x5a5, 0x6af, 0x7a6, 0x0aa, 0x1a3, 0x2a9, 0x3a0,
    0xd30, 0xc39, 0xf33, 0xe3a, 0x936, 0x83f, 0xb35, 0xa3c,
    0x53c, 0x435, 0x73f, 0x636, 0x13a, 0x033, 0x339, 0x230,
    0xe90, 0xf99, 0xc93, 0xd9a, 0xa96, 0xb9f, 0x895, 0x99c,
    0x69c, 0x795, 0x49f, 0x596, 0x29a, 0x393, 0x099, 0x190,
    0xf00, 0xe09, 0xd03, 0xc0a, 0xb06, 0xa0f, 0x905, 0x80c,
    0x70c, 0x605, 0x50f, 0x406, 0x30a, 0x203, 0x109, 0x000,
];

/// For each configuration, up to five triangles as triples of edge indices,
/// four bits per entry from the low end of the word, ended and padded by 0xF.
pub const TRI_TABLE: [u64; 256] = [
    0xffffffffffffffff, 0xfffffffffffff380, 0xfffffffffffff910, 0xffffffffff381891,
    0xfffffffffffffa21, 0xffffffffffa21380, 0xffffffffff9a0a20, 0xfffffff3828929a2,
    0xfffffffffffffb32, 0xffffffffff2b0b80, 0xffffffffffb32910, 0xfffffff2b1b81891,
    0xffffffffffab1b31, 0xfffffff1a0ab0b80, 0xfffffff9a0ab0b30, 0xffffffffff9a8ab8,
    0xfffffffffffff874, 0xffffffffff370740, 0xffffffffff874910, 0xfffffff371741491,
    0xffffffffff874a21, 0xfffffffa21370740, 0xfffffff8749a0a20, 0xffff3727424929a2,
    0xffffffffff874b32, 0xfffffff2b0b70740, 0xfffffff874b32910, 0xffff2b1b71741491,
    0xfffffff874ab1b31, 0xffff1a0ab0b70740, 0xffff8749a0ab0b30, 0xfffffff9a4ab4b74,
    0xfffffffffffff594, 0xffffffffff594380, 0xffffffffff450510, 0xfffffff381841451,
    0xffffffffff594a21, 0xfffffff594a21380, 0xfffffff4505a0a20, 0xffff3828424525a2,
    0xffffffffff594b32, 0xfffffff5942b0b80, 0xfffffffb32450510, 0xffff2b1b81841451,
    0xfffffff594ab1b31, 0xffff5941a0ab0b80, 0xffff4505a0ab0b30, 0xfffffff5a4ab4b84,
    0xffffffffff985875, 0xfffffff370750590, 0xfffffff870750510, 0xffffffffff371751,
    0xfffffff985875a21, 0xffffa21370750590, 0xffff8707505a0a20, 0xfffffff3727525a2,
    0xfffffff985875b32, 0xffff2b0b70750590, 0xffffb32870750510, 0xfffffff2b1b71751,
    0xffff985875ab1b31, 0xf1a0ab0b70750590, 0xf8707505a0ab0b30, 0xffffffffffab5b75,
    0xfffffffffffff6a5, 0xffffffffff6a5380, 0xffffffffff6a5910, 0xfffffff6a5381891,
    0xffffffffff561621, 0xfffffff561621380, 0xfffffff950560620, 0xffff382892952562,
    0xffffffffff6a5b32, 0xfffffff6a52b0b80, 0xfffffff6a5b32910, 0xffff6a52b1b81891,
    0xfffffff5616b1b31, 0xffff1505606b0b80, 0xffff9505606b0b30, 0xfffffff6b5b85895,
    0xffffffffff6a5874, 0xfffffff6a5370740, 0xfffffff6a5874910, 0xffff6a5371741491,
    0xfffffff874561621, 0xffff561621370740, 0xffff874950560620, 0xf372742492952562,
    0xfffffff6a5874b32, 0xffff6a52b0b70740, 0xffff6a5874b32910, 0xf6a52b1b71741491,
    0xffff8745616b1b31, 0xf1505606b0b70740, 0xf8749505606b0b30, 0xffff9545646b4b74,
    0xffffffffff6a4a94, 0xfffffff6a4a94380, 0xfffffff4606a0a10, 0xffff3818414616a1,
    0xfffffff941461621, 0xffff941461621380, 0xffffffffff460620, 0xfffffff382842462,
    0xfffffff6a4a94b32, 0xffff6a4a942b0b80, 0xffffb324606a0a10, 0xf2b1b818414616a1,
    0xffff9414616b1b31, 0xf1909404606b0b80, 0xfffffff4606b0b30, 0xffffffffff6b4b84,
    0xfffffffa96986876, 0xffff3707606a0a90, 0xffff8707606a0a10, 0xfffffff3717616a1,
    0xffff981871761621, 0xf370760620210190, 0xfffffff870760620, 0xffffffffff372762,
    0xffffa96986876b32, 0xf2b0b707606a0a90, 0xfb328707606a0a10, 0xffff2b1b717616a1,
    0xf9818717616b1b31, 0xffffffffffb76190, 0xffff8707606b0b30, 0xfffffffffffffb76,
    0xfffffffffffff7b6, 0xffffffffff7b6380, 0xffffffffff7b6910, 0xfffffff7b6381891,
    0xffffffffff7b6a21, 0xfffffff7b6a21380, 0xfffffff7b69a0a20, 0xffff7b63828929a2,
    0xffffffffff672732, 0xfffffff260670780, 0xfffffff672732910, 0xffff261671781891,
    0xfffffffa61671731, 0xffff1a0a60670780, 0xffff9a0a60670730, 0xfffffff7868969a6,
    0xffffffffff8b4b64, 0xfffffff3b0b60640, 0xfffffff8b4b64910, 0xffff3b1b61641491,
    0xfffffff8b4b64a21, 0xffffa213b0b60640, 0xffff8b4b649a0a20, 0xf3b2b626424929a2,
    0xfffffff642482832, 0xffffffffff260640, 0xffff642482832910, 0xfffffff261641491,
    0xffffa61641481831, 0xfffffff1a0a60640, 0xf9a0a60640480830, 0xffffffffff9a4a64,
    0xffffffffff7b6594, 0xfffffff7b6594380, 0xfffffff7b6450510, 0xffff7b6381841451,
    0xfffffff7b6594a21, 0xffff7b6594a21380, 0xffff7b64505a0a20, 0xf7b63828424525a2,
    0xfffffff594672732, 0xffff594260670780, 0xffff672732450510, 0xf261671781841451,
    0xffff594a61671731, 0xf5941a0a60670780, 0xf4505a0a60670730, 0xffff5a4a64674784,
    0xfffffff9858b5b65, 0xffff3b0b60650590, 0xffff8b0b60650510, 0xfffffff3b1b61651,
    0xffff9858b5b65a21, 0xfa213b0b60650590, 0xf8b0b606505a0a20, 0xffff3b2b626525a2,
    0xffff652592982832, 0xfffffff260650590, 0xf830320260650510, 0xffffffffff261651,
    0xfa61651591981831, 0xffff1a0a60650590, 0xffffffffffa65830, 0xfffffffffffffa65,
    0xffffffffff7b5ba5, 0xfffffff7b5ba5380, 0xfffffff7b5ba5910, 0xffff7b5ba5381891,
    0xfffffff5717b1b21, 0xffff5717b1b21380, 0xffff9505707b0b20, 0xf3828929525727b2,
    0xfffffffa52572732, 0xffff2a0a50570780, 0xffffa52572732910, 0xf2a1a51571781891,
    0xffffffffff571731, 0xfffffff150570780, 0xfffffff950570730, 0xffffffffff785895,
    0xfffffff8b4ba4a54, 0xffff3b0ba0a50540, 0xffff8b4ba4a54910, 0xf3b1ba1a51541491,
    0xffff5414818b1b21, 0xf3b0b20210150540, 0xf9505404808b0b20, 0xffffffffff9543b2,
    0xffffa52542482832, 0xfffffff2a0a50540, 0xfa52542482832910, 0xffff2a1a51541491,
    0xfffffff541481831, 0xffffffffff150540, 0xffff950540480830, 0xfffffffffffff954,
    0xfffffff7b4ba4a94, 0xffff7b4ba4a94380, 0xffff4707b0ba0a10, 0xf3818414717b1ba1,
    0xffff9414717b1b21, 0xf9414717b1b21380, 0xfffffff4707b0b20, 0xffff3828424727b2,
    0xffffa92942472732, 0xf2a0a90940470780, 0xf4707303202a0a10, 0xffffffffff7842a1,
    0xfffffff941471731, 0xffff190940470780, 0xffffffffff470730, 0xfffffffffffff784,
    0xffffffffffba8a98, 0xfffffff3b0ba0a90, 0xfffffff8b0ba0a10, 0xffffffffff3b1ba1,
    0xfffffff9818b1b21, 0xffff3b0b20210190, 0xffffffffff8b0b20, 0xfffffffffffff3b2,
    0xfffffffa92982832, 0xffffffffff2a0a90, 0xffff8303202a0a10, 0xfffffffffffff2a1,
    0xffffffffff981831, 0xfffffffffffff190, 0xfffffffffffff830, 0xffffffffffffffff,
];

/// The entry at slot `k` of a packed triangle-table row.
pub open spec fn tri_entry(row: u64, k: int) -> u64 {
    (row >> (4 * k as u64)) & 0xf
}

/// Reads the entry at slot `k` of a packed triangle-table row.
pub fn read_tri_entry(row: u64, k: u64) -> (r: u64)
    requires
        k < 16,
    ensures
        r == tri_entry(row, k as int),
        r < 16,
{
    proof {
        assert((row >> (4 * k)) & 0xf < 16) by (bit_vector);
    }
    (row >> (4 * k)) & 0xf
}

} // verus!
