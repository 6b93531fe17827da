//! Big-endian packing of multi-byte values.
//!
//! Multi-byte values are serialized most-significant-byte-first, both in the
//! program encoding and on the execution stack.  The spec functions here are
//! the single definition of that packing; the execution stack primitives and
//! the operand decoder state their contracts in terms of them.

use vstd::prelude::*;

verus! {

/// The value encoded by two big-endian bytes.
pub open spec fn u16_of_be(b0: u8, b1: u8) -> u16 {
    (b0 * 0x100 + b1) as u16
}

/// The value encoded by four big-endian bytes.
pub open spec fn u32_of_be(b0: u8, b1: u8, b2: u8, b3: u8) -> u32 {
    (u16_of_be(b0, b1) * 0x1_0000 + u16_of_be(b2, b3)) as u32
}

/// The value encoded by eight big-endian bytes.
pub open spec fn u64_of_be(
    b0: u8,
    b1: u8,
    b2: u8,
    b3: u8,
    b4: u8,
    b5: u8,
    b6: u8,
    b7: u8,
) -> u64 {
    (u32_of_be(b0, b1, b2, b3) * 0x1_0000_0000 + u32_of_be(b4, b5, b6, b7)) as u64
}

/// The two big-endian bytes of a 16-bit value, most significant first.
pub open spec fn be_bytes_u16(v: u16) -> Seq<u8> {
    seq![(v / 0x100) as u8, (v % 0x100) as u8]
}

/// The four big-endian bytes of a 32-bit value, most significant first.
pub open spec fn be_bytes_u32(v: u32) -> Seq<u8> {
    seq![
        ((v / 0x100_0000) % 0x100) as u8,
        ((v / 0x1_0000) % 0x100) as u8,
        ((v / 0x100) % 0x100) as u8,
        (v % 0x100) as u8,
    ]
}

/// The eight big-endian bytes of a 64-bit value, most significant first.
pub open spec fn be_bytes_u64(v: u64) -> Seq<u8> {
    seq![
        ((v / 0x100_0000_0000_0000) % 0x100) as u8,
        ((v / 0x1_0000_0000_0000) % 0x100) as u8,
        ((v / 0x100_0000_0000) % 0x100) as u8,
        ((v / 0x1_0000_0000) % 0x100) as u8,
        ((v / 0x100_0000) % 0x100) as u8,
        ((v / 0x1_0000) % 0x100) as u8,
        ((v / 0x100) % 0x100) as u8,
        (v % 0x100) as u8,
    ]
}

/// Packing a 16-bit value and reading the bytes back yields the value.
pub proof fn lemma_u16_roundtrip(v: u16)
    ensures
        be_bytes_u16(v).len() == 2,
        u16_of_be(be_bytes_u16(v)[0], be_bytes_u16(v)[1]) == v,
{
}

/// Packing a 32-bit value and reading the bytes back yields the value.
pub proof fn lemma_u32_roundtrip(v: u32)
    ensures
        be_bytes_u32(v).len() == 4,
        u32_of_be(
            be_bytes_u32(v)[0],
            be_bytes_u32(v)[1],
            be_bytes_u32(v)[2],
            be_bytes_u32(v)[3],
        ) == v,
{
}

/// Packing a 64-bit value and reading the bytes back yields the value.
pub proof fn lemma_u64_roundtrip(v: u64)
    ensures
        be_bytes_u64(v).len() == 8,
        u64_of_be(
            be_bytes_u64(v)[0],
            be_bytes_u64(v)[1],
            be_bytes_u64(v)[2],
            be_bytes_u64(v)[3],
            be_bytes_u64(v)[4],
            be_bytes_u64(v)[5],
            be_bytes_u64(v)[6],
            be_bytes_u64(v)[7],
        ) == v,
{
    assert(u64_of_be(
        ((v / 0x100_0000_0000_0000) % 0x100) as u8,
        ((v / 0x1_0000_0000_0000) % 0x100) as u8,
        ((v / 0x100_0000_0000) % 0x100) as u8,
        ((v / 0x1_0000_0000) % 0x100) as u8,
        ((v / 0x100_0000) % 0x100) as u8,
        ((v / 0x1_0000) % 0x100) as u8,
        ((v / 0x100) % 0x100) as u8,
        (v % 0x100) as u8,
    ) == v) by (bit_vector);
}

} // verus!
