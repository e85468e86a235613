//! Fixed-size IPv4 and IPv6 header builders.
use crate::checksum::{
    checksum16_spec, ipv4_header_checksum_20b, ipv4_header_checksum_spec,
    lemma_ipv4_header_checksum_verifies, with_checksum,
};
use crate::wire::{be16, be16_bytes, lemma_u16_write_read_roundtrip, write_u16_be};
use vstd::prelude::*;

verus! {

/// An option-less IPv4 header with flags, fragment offset and checksum all zero.
pub open spec fn ipv4_header_unchecked(
    src: Seq<u8>,
    dst: Seq<u8>,
    total_len: u16,
    ttl: u8,
    identification: u16,
    proto: u8,
) -> Seq<u8> {
    seq![0x45u8, 0u8] + be16_bytes(total_len as int) + be16_bytes(identification as int) + seq![
        0u8,
        0u8,
        ttl,
        proto,
        0u8,
        0u8,
    ] + src + dst
}

/// The option-less IPv4 header above with its header checksum filled in.
pub open spec fn ipv4_header(
    src: Seq<u8>,
    dst: Seq<u8>,
    total_len: u16,
    ttl: u8,
    identification: u16,
    proto: u8,
) -> Seq<u8> {
    let raw = ipv4_header_unchecked(src, dst, total_len, ttl, identification, proto);
    with_checksum(raw, 10, ipv4_header_checksum_spec(raw))
}

/// An IPv6 base header with zero traffic class and flow label.
pub open spec fn ipv6_header(
    src: Seq<u8>,
    dst: Seq<u8>,
    payload_len: u16,
    next_header: u8,
    hop_limit: u8,
) -> Seq<u8> {
    seq![0x60u8, 0u8, 0u8, 0u8] + be16_bytes(payload_len as int) + seq![next_header, hop_limit] + src
        + dst
}

/// Every IPv4 header built here carries a valid header checksum.
pub proof fn lemma_ipv4_header_checksum_valid(
    src: Seq<u8>,
    dst: Seq<u8>,
    total_len: u16,
    ttl: u8,
    identification: u16,
    proto: u8,
)
    requires
        src.len() == 4,
        dst.len() == 4,
    ensures
        checksum16_spec(ipv4_header(src, dst, total_len, ttl, identification, proto)) == 0xffff,
{
    let raw = ipv4_header_unchecked(src, dst, total_len, ttl, identification, proto);
    assert(raw.len() == 20);
    assert(raw[10] == 0 && raw[11] == 0);
    lemma_ipv4_header_checksum_verifies(raw);
}

pub(crate) fn build_ipv4_header(
    src: [u8; 4],
    dst: [u8; 4],
    total_len: u16,
    ttl: u8,
    identification: u16,
    proto: u8,
) -> (hdr: [u8; 20])
    ensures
        hdr@ == ipv4_header(src@, dst@, total_len, ttl, identification, proto),
{
    let len = write_u16_be(total_len);
    let id = write_u16_be(identification);
    let mut hdr: [u8; 20] = [
        0x45,
        0,
        len[0],
        len[1],
        id[0],
        id[1],
        0,
        0,
        ttl,
        proto,
        0,
        0,
        src[0],
        src[1],
        src[2],
        src[3],
        dst[0],
        dst[1],
        dst[2],
        dst[3],
    ];
    let ghost raw = ipv4_header_unchecked(src@, dst@, total_len, ttl, identification, proto);
    assert(hdr@ =~= raw);
    let checksum = ipv4_header_checksum_20b(&hdr);
    let bytes = write_u16_be(checksum);
    hdr[10] = bytes[0];
    hdr[11] = bytes[1];
    assert(hdr@ =~= with_checksum(raw, 10, ipv4_header_checksum_spec(raw)));
    hdr
}

pub(crate) fn build_ipv6_header(
    src: [u8; 16],
    dst: [u8; 16],
    payload_len: u16,
    next_header: u8,
    hop_limit: u8,
) -> (hdr: [u8; 40])
    ensures
        hdr@ == ipv6_header(src@, dst@, payload_len, next_header, hop_limit),
{
    let len = write_u16_be(payload_len);
    let hdr: [u8; 40] = [
        0x60,
        0,
        0,
        0,
        len[0],
        len[1],
        next_header,
        hop_limit,
        src[0],
        src[1],
        src[2],
        src[3],
        src[4],
        src[5],
        src[6],
        src[7],
        src[8],
        src[9],
        src[10],
        src[11],
        src[12],
        src[13],
        src[14],
        src[15],
        dst[0],
        dst[1],
        dst[2],
        dst[3],
        dst[4],
        dst[5],
        dst[6],
        dst[7],
        dst[8],
        dst[9],
        dst[10],
        dst[11],
        dst[12],
        dst[13],
        dst[14],
        dst[15],
    ];
    assert(hdr@ =~= ipv6_header(src@, dst@, payload_len, next_header, hop_limit));
    hdr
}

/// Builds a checksum-complete 20-byte IPv4 header for a TCP packet.
pub fn build_ipv4_header_tcp(
    src: [u8; 4],
    dst: [u8; 4],
    total_len: u16,
    ttl: u8,
    identification: u16,
) -> (hdr: [u8; 20])
    ensures
        hdr@ == ipv4_header(src@, dst@, total_len, ttl, identification, 6),
        checksum16_spec(hdr@) == 0xffff,
{
    proof {
        lemma_ipv4_header_checksum_valid(src@, dst@, total_len, ttl, identification, 6);
    }
    build_ipv4_header(src, dst, total_len, ttl, identification, 6)
}

/// Builds a checksum-complete 20-byte IPv4 header for a UDP packet.
pub fn build_ipv4_header_udp(
    src: [u8; 4],
    dst: [u8; 4],
    total_len: u16,
    ttl: u8,
    identification: u16,
) -> (hdr: [u8; 20])
    ensures
        hdr@ == ipv4_header(src@, dst@, total_len, ttl, identification, 17),
        checksum16_spec(hdr@) == 0xffff,
{
    proof {
        lemma_ipv4_header_checksum_valid(src@, dst@, total_len, ttl, identification, 17);
    }
    build_ipv4_header(src, dst, total_len, ttl, identification, 17)
}

/// Builds a 40-byte IPv6 base header for a TCP packet.
pub fn build_ipv6_header_tcp(src: [u8; 16], dst: [u8; 16], payload_len: u16, hop_limit: u8) -> (hdr: [u8; 40])
    ensures
        hdr@ == ipv6_header(src@, dst@, payload_len, 6, hop_limit),
{
    build_ipv6_header(src, dst, payload_len, 6, hop_limit)
}

/// Builds a 40-byte IPv6 base header for a UDP packet.
pub fn build_ipv6_header_udp(src: [u8; 16], dst: [u8; 16], payload_len: u16, hop_limit: u8) -> (hdr: [u8; 40])
    ensures
        hdr@ == ipv6_header(src@, dst@, payload_len, 17, hop_limit),
{
    build_ipv6_header(src, dst, payload_len, 17, hop_limit)
}

/// Reading back an IPv4 header built here gives version 4, a five-word
/// header, the total length, identification, TTL, protocol and addresses it
/// was built from, no fragmentation, and a checksum that verifies.
pub proof fn lemma_ipv4_header_parse_back(
    src: Seq<u8>,
    dst: Seq<u8>,
    total_len: u16,
    ttl: u8,
    identification: u16,
    proto: u8,
)
    requires
        src.len() == 4,
        dst.len() == 4,
    ensures
        ({
            let h = ipv4_header(src, dst, total_len, ttl, identification, proto);
            &&& h.len() == 20
            &&& h[0] / 16 == 4
            &&& h[0] % 16 == 5
            &&& be16(h[2], h[3]) == total_len
            &&& be16(h[4], h[5]) == identification
            &&& be16(h[6], h[7]) == 0
            &&& h[8] == ttl
            &&& h[9] == proto
            &&& h.subrange(12, 16) == src
            &&& h.subrange(16, 20) == dst
            &&& checksum16_spec(h) == 0xffff
        }),
{
    let h = ipv4_header(src, dst, total_len, ttl, identification, proto);
    let raw = ipv4_header_unchecked(src, dst, total_len, ttl, identification, proto);
    lemma_ipv4_header_checksum_valid(src, dst, total_len, ttl, identification, proto);
    lemma_u16_write_read_roundtrip(total_len);
    lemma_u16_write_read_roundtrip(identification);
    assert(h[2] == raw[2] && h[3] == raw[3]);
    assert(h[4] == raw[4] && h[5] == raw[5]);
    assert(h.subrange(12, 16) =~= src);
    assert(h.subrange(16, 20) =~= dst);
}

/// An IPv6 header built here, found at `l3_offset` of a frame, reads back as
/// version 6 with the payload length, next header, hop limit and addresses
/// it was built from: the fields that `parse_ipv6_base` reports.
pub proof fn lemma_ipv6_header_parse_back(
    frame: Seq<u8>,
    l3_offset: int,
    src: Seq<u8>,
    dst: Seq<u8>,
    payload_len: u16,
    next_header: u8,
    hop_limit: u8,
)
    requires
        src.len() == 16,
        dst.len() == 16,
        0 <= l3_offset,
        l3_offset + 40 <= frame.len(),
        frame.subrange(l3_offset, l3_offset + 40) == ipv6_header(
            src,
            dst,
            payload_len,
            next_header,
            hop_limit,
        ),
    ensures
        frame[l3_offset] / 16 == 6,
        be16(frame[l3_offset + 4], frame[l3_offset + 5]) == payload_len,
        frame[l3_offset + 6] == next_header,
        frame[l3_offset + 7] == hop_limit,
        frame.subrange(l3_offset + 8, l3_offset + 24) == src,
        frame.subrange(l3_offset + 24, l3_offset + 40) == dst,
{
    let h = ipv6_header(src, dst, payload_len, next_header, hop_limit);
    lemma_u16_write_read_roundtrip(payload_len);
    assert(frame[l3_offset] == h[0]);
    assert(frame[l3_offset + 4] == h[4]);
    assert(frame[l3_offset + 5] == h[5]);
    assert(frame[l3_offset + 6] == h[6]);
    assert(frame[l3_offset + 7] == h[7]);
    assert(frame.subrange(l3_offset + 8, l3_offset + 24) =~= h.subrange(8, 24));
    assert(frame.subrange(l3_offset + 24, l3_offset + 40) =~= h.subrange(24, 40));
    assert(h.subrange(8, 24) =~= src);
    assert(h.subrange(24, 40) =~= dst);
}

} // verus!
