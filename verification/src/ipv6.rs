//! Bounded parsing of IPv6 base headers.
use crate::wire::{be16, be32_bytes, write_u32_be};
use vstd::prelude::*;

verus! {

/// Length of an IPv6 base header in bytes.
pub const IPV6_BASE_HDR_LEN: usize = 40;

const IPPROTO_HOPOPTS: u8 = 0;

const IPPROTO_ROUTING: u8 = 43;

const IPPROTO_FRAGMENT: u8 = 44;

const IPPROTO_ESP: u8 = 50;

const IPPROTO_AH: u8 = 51;

const IPPROTO_DSTOPTS: u8 = 60;

/// Fields extracted from an IPv6 base header.
#[derive(Clone, Copy, Debug)]
pub struct Ipv6Info {
    /// Source IPv6 address in network byte order.
    pub src: [u8; 16],
    /// Destination IPv6 address in network byte order.
    pub dst: [u8; 16],
    /// Protocol number immediately following the IPv6 base header.
    pub next_header: u8,
    /// IPv6 payload length in bytes.
    pub payload_len: u16,
    /// Absolute packet offset of the transport header.
    pub l4_abs_offset: usize,
}

/// Errors returned while parsing an IPv6 base header.
#[derive(Clone, Copy, Debug, PartialEq, Eq, Structural)]
pub enum Ipv6ParseError {
    /// The packet did not contain a complete IPv6 base header.
    Truncated,
}

/// Next-header values of the IPv6 extension headers that the translator does not walk.
pub open spec fn is_extension_header_spec(next_header: u8) -> bool {
    next_header == 0 || next_header == 43 || next_header == 44 || next_header == 60
        || next_header == 50 || next_header == 51
}

/// Returns whether a next-header value identifies an unsupported IPv6 extension header.
pub fn is_extension_header(next_header: u8) -> (ext: bool)
    ensures
        ext == is_extension_header_spec(next_header),
{
    next_header == IPPROTO_HOPOPTS || next_header == IPPROTO_ROUTING || next_header
        == IPPROTO_FRAGMENT || next_header == IPPROTO_DSTOPTS || next_header == IPPROTO_ESP
        || next_header == IPPROTO_AH
}

/// Reassembles an IPv6 address from four 32-bit words read in network byte order.
pub fn ipv6_from_be_words(w0: u32, w1: u32, w2: u32, w3: u32) -> (addr: [u8; 16])
    ensures
        addr@ == be32_bytes(w0 as int) + be32_bytes(w1 as int) + be32_bytes(w2 as int) + be32_bytes(
            w3 as int,
        ),
{
    let b0 = write_u32_be(w0);
    let b1 = write_u32_be(w1);
    let b2 = write_u32_be(w2);
    let b3 = write_u32_be(w3);
    let addr = [
        b0[0], b0[1], b0[2], b0[3], b1[0], b1[1], b1[2], b1[3], b2[0], b2[1], b2[2], b2[3], b3[0],
        b3[1], b3[2], b3[3],
    ];
    assert(addr@ =~= b0@ + b1@ + b2@ + b3@);
    addr
}

fn load_be_u32(packet: &[u8], offset: usize) -> (word: u32)
    requires
        offset + 4 <= packet.len(),
    ensures
        be32_bytes(word as int) == packet@.subrange(offset as int, offset + 4),
{
    let word = (((packet[offset] as u32) * 256 + (packet[offset + 1] as u32)) * 256
        + (packet[offset + 2] as u32)) * 256 + (packet[offset + 3] as u32);
    assert(be32_bytes(word as int) =~= packet@.subrange(offset as int, offset + 4));
    word
}

/// Parses an IPv6 base header starting at `l3_offset` without walking
/// extension-header chains; fails only when the header does not fit in `packet`.
pub fn parse_ipv6_base(packet: &[u8], l3_offset: usize) -> (parsed: Result<Ipv6Info, Ipv6ParseError>)
    ensures
        match parsed {
            Ok(info) => {
                &&& l3_offset + IPV6_BASE_HDR_LEN <= packet.len()
                &&& info.payload_len == be16(packet[l3_offset + 4], packet[l3_offset + 5])
                &&& info.next_header == packet[l3_offset + 6]
                &&& info.src@ == packet@.subrange(l3_offset + 8, l3_offset + 24)
                &&& info.dst@ == packet@.subrange(l3_offset + 24, l3_offset + 40)
                &&& info.l4_abs_offset == l3_offset + IPV6_BASE_HDR_LEN
            },
            Err(e) => e == Ipv6ParseError::Truncated && l3_offset + IPV6_BASE_HDR_LEN
                > packet.len(),
        },
{
    if l3_offset > packet.len() || packet.len() - l3_offset < IPV6_BASE_HDR_LEN {
        return Err(Ipv6ParseError::Truncated);
    }
    let payload_len = (packet[l3_offset + 4] as u16) * 256 + (packet[l3_offset + 5] as u16);
    let next_header = packet[l3_offset + 6];

    let s0 = load_be_u32(packet, l3_offset + 8);
    let s1 = load_be_u32(packet, l3_offset + 12);
    let s2 = load_be_u32(packet, l3_offset + 16);
    let s3 = load_be_u32(packet, l3_offset + 20);

    let d0 = load_be_u32(packet, l3_offset + 24);
    let d1 = load_be_u32(packet, l3_offset + 28);
    let d2 = load_be_u32(packet, l3_offset + 32);
    let d3 = load_be_u32(packet, l3_offset + 36);

    let src = ipv6_from_be_words(s0, s1, s2, s3);
    let dst = ipv6_from_be_words(d0, d1, d2, d3);
    assert(src@ =~= packet@.subrange(l3_offset + 8, l3_offset + 24));
    assert(dst@ =~= packet@.subrange(l3_offset + 24, l3_offset + 40));

    Ok(
        Ipv6Info {
            src,
            dst,
            next_header,
            payload_len,
            l4_abs_offset: l3_offset + IPV6_BASE_HDR_LEN,
        },
    )
}

} // verus!
