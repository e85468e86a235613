//! Allocation-free big-endian integer conversion helpers for packet fields.
use vstd::prelude::*;

verus! {

/// The value of two bytes read in network byte order.
pub open spec fn be16(hi: u8, lo: u8) -> int {
    hi as int * 256 + lo as int
}

/// The value of four bytes read in network byte order.
pub open spec fn be32(b0: u8, b1: u8, b2: u8, b3: u8) -> int {
    ((b0 as int * 256 + b1 as int) * 256 + b2 as int) * 256 + b3 as int
}

/// The two network-order bytes of a 16-bit value.
pub open spec fn be16_bytes(v: int) -> Seq<u8> {
    seq![(v / 256) as u8, (v % 256) as u8]
}

/// The four network-order bytes of a 32-bit value.
pub open spec fn be32_bytes(v: int) -> Seq<u8> {
    seq![
        (v / 16777216) as u8,
        ((v / 65536) % 256) as u8,
        ((v / 256) % 256) as u8,
        (v % 256) as u8,
    ]
}

/// Decodes a 16-bit integer from network byte order.
pub fn read_u16_be(bytes: [u8; 2]) -> (v: u16)
    ensures
        v == be16(bytes[0], bytes[1]),
{
    (bytes[0] as u16) * 256 + (bytes[1] as u16)
}

/// Decodes a 32-bit integer from network byte order.
pub fn read_u32_be(bytes: [u8; 4]) -> (v: u32)
    ensures
        v == be32(bytes[0], bytes[1], bytes[2], bytes[3]),
{
    (((bytes[0] as u32) * 256 + (bytes[1] as u32)) * 256 + (bytes[2] as u32)) * 256
        + (bytes[3] as u32)
}

/// Encodes a 16-bit integer in network byte order.
pub fn write_u16_be(v: u16) -> (bytes: [u8; 2])
    ensures
        bytes@ == be16_bytes(v as int),
{
    [(v / 256) as u8, (v % 256) as u8]
}

/// Encodes a 32-bit integer in network byte order.
pub fn write_u32_be(v: u32) -> (bytes: [u8; 4])
    ensures
        bytes@ == be32_bytes(v as int),
{
    [(v / 16777216) as u8, ((v / 65536) % 256) as u8, ((v / 256) % 256) as u8, (v % 256) as u8]
}

/// Decoding the encoding of a 16-bit value gives the value back.
pub proof fn lemma_u16_write_read_roundtrip(v: u16)
    ensures
        be16(be16_bytes(v as int)[0], be16_bytes(v as int)[1]) == v,
{
}

/// Encoding the decoding of two bytes gives the bytes back.
pub proof fn lemma_u16_read_write_roundtrip(hi: u8, lo: u8)
    ensures
        be16_bytes(be16(hi, lo)) == seq![hi, lo],
{
    assert(be16_bytes(be16(hi, lo)) =~= seq![hi, lo]);
}

/// Decoding the encoding of a 32-bit value gives the value back.
pub proof fn lemma_u32_write_read_roundtrip(v: u32)
    ensures
        ({
            let b = be32_bytes(v as int);
            be32(b[0], b[1], b[2], b[3]) == v
        }),
{
}

/// Encoding the decoding of four bytes gives the bytes back.
pub proof fn lemma_u32_read_write_roundtrip(b0: u8, b1: u8, b2: u8, b3: u8)
    ensures
        be32_bytes(be32(b0, b1, b2, b3)) == seq![b0, b1, b2, b3],
{
    assert(be32_bytes(be32(b0, b1, b2, b3)) =~= seq![b0, b1, b2, b3]);
}

} // verus!
