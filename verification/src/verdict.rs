//! Which packets the classifiers translate, read from the leading bytes of an
//! Ethernet frame before any of them is rewritten.
use crate::abi::{Nat64Config, embedded_v4, nat64_embedded_v4_be, pool_selection};
use crate::dataplane::{
    ETH_HDR_LEN, ETH_P_IP, ETH_P_IPV6, IPPROTO_TCP, IPPROTO_UDP, MAX_L4_LEN, TCP_HDR_LEN, UDP_HDR_LEN,
    in_active_pool, prefix96_matches, select_v4_from_pool_fixed, v4_in_pool,
};
use crate::ipv6::{Ipv6Info, is_extension_header, is_extension_header_spec, parse_ipv6_base};
use crate::wire::{be16, be32};
use vstd::prelude::*;

verus! {

/// The 16-bit big-endian value at `offset` of `p`.
pub open spec fn be16_at(p: Seq<u8>, offset: int) -> int {
    be16(p[offset], p[offset + 1])
}

/// The 32-bit big-endian value at `offset` of `p`.
pub open spec fn be32_at(p: Seq<u8>, offset: int) -> int {
    be32(p[offset], p[offset + 1], p[offset + 2], p[offset + 3])
}

pub(crate) fn read_be16(p: &[u8], offset: usize) -> (v: u16)
    requires
        offset + 2 <= p.len(),
    ensures
        v == be16_at(p@, offset as int),
{
    (p[offset] as u16) * 256 + (p[offset + 1] as u16)
}

fn read_be32(p: &[u8], offset: usize) -> (v: u32)
    requires
        offset + 4 <= p.len(),
    ensures
        v == be32_at(p@, offset as int),
{
    (((p[offset] as u32) * 256 + (p[offset + 1] as u32)) * 256 + (p[offset + 2] as u32)) * 256 + (
    p[offset + 3] as u32)
}

/// Transport header fields of a UDP datagram, in host byte order.
#[derive(Clone, Copy, Debug, PartialEq, Eq, Structural)]
pub struct UdpHeader {
    /// Source port.
    pub sport: u16,
    /// Destination port.
    pub dport: u16,
    /// Length of the datagram, header included.
    pub len: u16,
}

/// A forward-path packet accepted for translation.
#[derive(Clone, Copy, Debug)]
pub struct ForwardFlow {
    /// The parsed IPv6 base header.
    pub info: Ipv6Info,
    /// The IPv4 destination embedded in the IPv6 destination, big-endian numeric.
    pub remote_v4: u32,
    /// The external IPv4 source selected for the client, big-endian numeric.
    pub ext_v4: u32,
}

/// Outcome of classifying a frame on the forward (IPv6 to IPv4) path.
#[derive(Clone, Copy, Debug)]
pub enum ForwardVerdict {
    /// The Ethernet type could not be read.
    Unreadable,
    /// The frame does not carry IPv6.
    NotIpv6,
    /// The IPv6 base header is incomplete.
    Truncated,
    /// The destination lies outside the configured /96 prefix.
    OutsidePrefix,
    /// The next header is an IPv6 extension header.
    ExtensionHeader,
    /// The next header is neither TCP nor UDP.
    UnsupportedProtocol,
    /// The external IPv4 pool is empty or malformed.
    NoExternalAddress,
    /// The TCP payload is longer than the dataplane translates.
    TcpTooLong,
    /// The TCP header is incomplete.
    TcpTruncated,
    /// The UDP header is incomplete.
    UdpTruncated,
    /// The UDP length is below the header size or above the translated maximum.
    UdpBadLength,
    /// A TCP segment to translate.
    Tcp(ForwardFlow),
    /// A UDP datagram to translate.
    Udp(ForwardFlow, UdpHeader),
}

/// Which [`ForwardVerdict`] a frame receives, without the carried data.
#[derive(Clone, Copy, Debug, PartialEq, Eq, Structural)]
pub enum ForwardStage {
    /// The Ethernet type could not be read.
    Unreadable,
    /// The frame does not carry IPv6.
    NotIpv6,
    /// The IPv6 base header is incomplete.
    Truncated,
    /// The destination lies outside the configured /96 prefix.
    OutsidePrefix,
    /// The next header is an IPv6 extension header.
    ExtensionHeader,
    /// The next header is neither TCP nor UDP.
    UnsupportedProtocol,
    /// The external IPv4 pool is empty or malformed.
    NoExternalAddress,
    /// The TCP payload is longer than the dataplane translates.
    TcpTooLong,
    /// The TCP header is incomplete.
    TcpTruncated,
    /// The UDP header is incomplete.
    UdpTruncated,
    /// The UDP length is below the header size or above the translated maximum.
    UdpBadLength,
    /// A TCP segment to translate.
    Tcp,
    /// A UDP datagram to translate.
    Udp,
}

impl ForwardVerdict {
    /// The stage of this verdict.
    pub open spec fn stage(self) -> ForwardStage {
        match self {
            ForwardVerdict::Unreadable => ForwardStage::Unreadable,
            ForwardVerdict::NotIpv6 => ForwardStage::NotIpv6,
            ForwardVerdict::Truncated => ForwardStage::Truncated,
            ForwardVerdict::OutsidePrefix => ForwardStage::OutsidePrefix,
            ForwardVerdict::ExtensionHeader => ForwardStage::ExtensionHeader,
            ForwardVerdict::UnsupportedProtocol => ForwardStage::UnsupportedProtocol,
            ForwardVerdict::NoExternalAddress => ForwardStage::NoExternalAddress,
            ForwardVerdict::TcpTooLong => ForwardStage::TcpTooLong,
            ForwardVerdict::TcpTruncated => ForwardStage::TcpTruncated,
            ForwardVerdict::UdpTruncated => ForwardStage::UdpTruncated,
            ForwardVerdict::UdpBadLength => ForwardStage::UdpBadLength,
            ForwardVerdict::Tcp(_) => ForwardStage::Tcp,
            ForwardVerdict::Udp(_, _) => ForwardStage::Udp,
        }
    }
}

/// Offset of the IPv6 next-header byte in a frame.
pub open spec fn fwd_next_header(p: Seq<u8>) -> u8 {
    p[ETH_HDR_LEN + 6]
}

/// The IPv6 source address of a frame.
pub open spec fn fwd_src(p: Seq<u8>) -> Seq<u8> {
    p.subrange(ETH_HDR_LEN + 8, ETH_HDR_LEN + 24)
}

/// The IPv6 destination address of a frame.
pub open spec fn fwd_dst(p: Seq<u8>) -> Seq<u8> {
    p.subrange(ETH_HDR_LEN + 24, ETH_HDR_LEN + 40)
}

/// The forward-path stage a frame reaches, checked in order.
pub open spec fn forward_stage(p: Seq<u8>, cfg: Nat64Config) -> ForwardStage {
    let l4 = ETH_HDR_LEN + 40;
    if p.len() < ETH_HDR_LEN {
        ForwardStage::Unreadable
    } else if be16_at(p, 12) != ETH_P_IPV6 {
        ForwardStage::NotIpv6
    } else if p.len() < l4 {
        ForwardStage::Truncated
    } else if fwd_dst(p).subrange(0, 12) != cfg.prefix96@ {
        ForwardStage::OutsidePrefix
    } else if is_extension_header_spec(fwd_next_header(p)) {
        ForwardStage::ExtensionHeader
    } else if fwd_next_header(p) != IPPROTO_TCP && fwd_next_header(p) != IPPROTO_UDP {
        ForwardStage::UnsupportedProtocol
    } else if pool_selection(fwd_src(p), cfg) is None {
        ForwardStage::NoExternalAddress
    } else if fwd_next_header(p) == IPPROTO_TCP {
        if be16_at(p, ETH_HDR_LEN + 4) > MAX_L4_LEN {
            ForwardStage::TcpTooLong
        } else if p.len() < l4 + TCP_HDR_LEN {
            ForwardStage::TcpTruncated
        } else {
            ForwardStage::Tcp
        }
    } else if p.len() < l4 + UDP_HDR_LEN {
        ForwardStage::UdpTruncated
    } else if be16_at(p, l4 + 4) < UDP_HDR_LEN || be16_at(p, l4 + 4) > MAX_L4_LEN {
        ForwardStage::UdpBadLength
    } else {
        ForwardStage::Udp
    }
}

/// Whether `flow` carries exactly what the frame `p` holds.
pub open spec fn forward_flow_of(flow: ForwardFlow, p: Seq<u8>, cfg: Nat64Config) -> bool {
    &&& flow.info.src@ == fwd_src(p)
    &&& flow.info.dst@ == fwd_dst(p)
    &&& flow.info.next_header == fwd_next_header(p)
    &&& flow.info.payload_len == be16_at(p, ETH_HDR_LEN + 4)
    &&& flow.info.l4_abs_offset == ETH_HDR_LEN + 40
    &&& flow.remote_v4 == embedded_v4(fwd_dst(p))
    &&& pool_selection(fwd_src(p), cfg) == Some(flow.ext_v4)
}

/// Classifies a frame on the forward path.
pub fn forward_verdict(packet: &[u8], cfg: &Nat64Config) -> (verdict: ForwardVerdict)
    ensures
        verdict.stage() == forward_stage(packet@, *cfg),
        match verdict {
            ForwardVerdict::Tcp(flow) => forward_flow_of(flow, packet@, *cfg),
            ForwardVerdict::Udp(flow, udp) => {
                &&& forward_flow_of(flow, packet@, *cfg)
                &&& udp.sport == be16_at(packet@, ETH_HDR_LEN + 40)
                &&& udp.dport == be16_at(packet@, ETH_HDR_LEN + 42)
                &&& udp.len == be16_at(packet@, ETH_HDR_LEN + 44)
            },
            _ => true,
        },
{
    if packet.len() < ETH_HDR_LEN {
        return ForwardVerdict::Unreadable;
    }
    if read_be16(packet, 12) != ETH_P_IPV6 {
        return ForwardVerdict::NotIpv6;
    }
    let info = match parse_ipv6_base(packet, ETH_HDR_LEN) {
        Ok(info) => info,
        Err(_) => return ForwardVerdict::Truncated,
    };
    proof {
        assert(info.dst@.subrange(0, 12) =~= fwd_dst(packet@).subrange(0, 12));
    }
    if !prefix96_matches(&info.dst, &cfg.prefix96) {
        return ForwardVerdict::OutsidePrefix;
    }
    if is_extension_header(info.next_header) {
        return ForwardVerdict::ExtensionHeader;
    }
    if info.next_header != IPPROTO_TCP && info.next_header != IPPROTO_UDP {
        return ForwardVerdict::UnsupportedProtocol;
    }
    let remote_v4 = nat64_embedded_v4_be(&info.dst);
    let ext_v4 = match select_v4_from_pool_fixed(&info.src, cfg) {
        Some(v4) => v4,
        None => return ForwardVerdict::NoExternalAddress,
    };
    let flow = ForwardFlow { info, remote_v4, ext_v4 };
    if info.next_header == IPPROTO_TCP {
        if info.payload_len as usize > MAX_L4_LEN {
            return ForwardVerdict::TcpTooLong;
        }
        if packet.len() - info.l4_abs_offset < TCP_HDR_LEN {
            return ForwardVerdict::TcpTruncated;
        }
        return ForwardVerdict::Tcp(flow);
    }
    let udp_offset = info.l4_abs_offset;
    if packet.len() - udp_offset < UDP_HDR_LEN {
        return ForwardVerdict::UdpTruncated;
    }
    let udp = UdpHeader {
        sport: read_be16(packet, udp_offset),
        dport: read_be16(packet, udp_offset + 2),
        len: read_be16(packet, udp_offset + 4),
    };
    if (udp.len as usize) < UDP_HDR_LEN || udp.len as usize > MAX_L4_LEN {
        return ForwardVerdict::UdpBadLength;
    }
    ForwardVerdict::Udp(flow, udp)
}

/// A return-path IPv4 packet accepted for translation.
#[derive(Clone, Copy, Debug, PartialEq, Eq, Structural)]
pub struct ReverseFlow {
    /// IPv4 source address, big-endian numeric.
    pub src_v4: u32,
    /// IPv4 destination address (an external pool address), big-endian numeric.
    pub dst_v4: u32,
    /// IPv4 header length in bytes.
    pub ihl_bytes: usize,
    /// IPv4 total length in bytes.
    pub total_len: usize,
    /// Transport source port.
    pub sport: u16,
    /// Transport destination port.
    pub dport: u16,
}

/// Outcome of classifying a frame on the reverse (IPv4 to IPv6) path.
#[derive(Clone, Copy, Debug, PartialEq, Eq, Structural)]
pub enum ReverseVerdict {
    /// A header field needed for the decision could not be read.
    Unreadable,
    /// The frame does not carry IPv4.
    NotIpv4,
    /// The IPv4 header has a wrong version, header length or total length.
    Malformed,
    /// The destination is not an address of the external pool.
    NotInPool,
    /// The packet is an IPv4 fragment.
    Fragment,
    /// The protocol is neither TCP nor UDP.
    UnsupportedProtocol,
    /// The TCP segment is longer than the dataplane translates.
    TcpTooLong,
    /// The TCP header is incomplete.
    TcpTruncated,
    /// The UDP header is incomplete.
    UdpTruncated,
    /// The UDP length is out of range or exceeds the IPv4 payload.
    UdpBadLength,
    /// A TCP segment to translate.
    Tcp(ReverseFlow),
    /// A UDP datagram to translate, with its UDP length.
    Udp(ReverseFlow, u16),
}

/// Which [`ReverseVerdict`] a frame receives, without the carried data.
#[derive(Clone, Copy, Debug, PartialEq, Eq, Structural)]
pub enum ReverseStage {
    /// A header field needed for the decision could not be read.
    Unreadable,
    /// The frame does not carry IPv4.
    NotIpv4,
    /// The IPv4 header has a wrong version, header length or total length.
    Malformed,
    /// The destination is not an address of the external pool.
    NotInPool,
    /// The packet is an IPv4 fragment.
    Fragment,
    /// The protocol is neither TCP nor UDP.
    UnsupportedProtocol,
    /// The TCP segment is longer than the dataplane translates.
    TcpTooLong,
    /// The TCP header is incomplete.
    TcpTruncated,
    /// The UDP header is incomplete.
    UdpTruncated,
    /// The UDP length is out of range or exceeds the IPv4 payload.
    UdpBadLength,
    /// A TCP segment to translate.
    Tcp,
    /// A UDP datagram to translate, with its UDP length.
    Udp,
}

impl ReverseVerdict {
    /// The stage of this verdict.
    pub open spec fn stage(self) -> ReverseStage {
        match self {
            ReverseVerdict::Unreadable => ReverseStage::Unreadable,
            ReverseVerdict::NotIpv4 => ReverseStage::NotIpv4,
            ReverseVerdict::Malformed => ReverseStage::Malformed,
            ReverseVerdict::NotInPool => ReverseStage::NotInPool,
            ReverseVerdict::Fragment => ReverseStage::Fragment,
            ReverseVerdict::UnsupportedProtocol => ReverseStage::UnsupportedProtocol,
            ReverseVerdict::TcpTooLong => ReverseStage::TcpTooLong,
            ReverseVerdict::TcpTruncated => ReverseStage::TcpTruncated,
            ReverseVerdict::UdpTruncated => ReverseStage::UdpTruncated,
            ReverseVerdict::UdpBadLength => ReverseStage::UdpBadLength,
            ReverseVerdict::Tcp(_) => ReverseStage::Tcp,
            ReverseVerdict::Udp(_, _) => ReverseStage::Udp,
        }
    }
}

/// IPv4 header length in bytes, from the version/IHL byte.
pub open spec fn rev_ihl_bytes(p: Seq<u8>) -> int {
    (p[ETH_HDR_LEN as int] % 16) * 4
}

/// IPv4 total length.
pub open spec fn rev_total_len(p: Seq<u8>) -> int {
    be16_at(p, ETH_HDR_LEN + 2)
}

/// IPv4 protocol.
pub open spec fn rev_proto(p: Seq<u8>) -> u8 {
    p[ETH_HDR_LEN + 9]
}

/// Whether the IPv4 fragment offset or more-fragments flag is set.
pub open spec fn rev_is_fragment(p: Seq<u8>) -> bool {
    (be16_at(p, ETH_HDR_LEN + 6) as u16 & 0x3fffu16) != 0
}

/// The reverse-path stage a frame reaches, checked in order.
pub open spec fn reverse_stage(p: Seq<u8>, cfg: Nat64Config) -> ReverseStage {
    let l3 = ETH_HDR_LEN as int;
    let l4 = l3 + rev_ihl_bytes(p);
    if p.len() < l3 {
        ReverseStage::Unreadable
    } else if be16_at(p, 12) != ETH_P_IP {
        ReverseStage::NotIpv4
    } else if p.len() < l3 + 1 {
        ReverseStage::Unreadable
    } else if p[l3] / 16 != 4 {
        ReverseStage::Malformed
    } else if rev_ihl_bytes(p) < 20 || rev_ihl_bytes(p) > 60 {
        ReverseStage::Malformed
    } else if p.len() < l3 + 4 {
        ReverseStage::Unreadable
    } else if rev_total_len(p) < rev_ihl_bytes(p) {
        ReverseStage::Malformed
    } else if p.len() < l3 + 20 {
        ReverseStage::Unreadable
    } else if !in_active_pool(be32_at(p, l3 + 16) as u32, cfg) {
        ReverseStage::NotInPool
    } else if rev_is_fragment(p) {
        ReverseStage::Fragment
    } else if rev_proto(p) != IPPROTO_TCP && rev_proto(p) != IPPROTO_UDP {
        ReverseStage::UnsupportedProtocol
    } else if rev_proto(p) == IPPROTO_TCP {
        if rev_total_len(p) - rev_ihl_bytes(p) > MAX_L4_LEN {
            ReverseStage::TcpTooLong
        } else if p.len() < l4 + TCP_HDR_LEN {
            ReverseStage::TcpTruncated
        } else {
            ReverseStage::Tcp
        }
    } else if p.len() < l4 + UDP_HDR_LEN {
        ReverseStage::UdpTruncated
    } else if be16_at(p, l4 + 4) < UDP_HDR_LEN || be16_at(p, l4 + 4) > MAX_L4_LEN
        || rev_total_len(p) < rev_ihl_bytes(p) + be16_at(p, l4 + 4) {
        ReverseStage::UdpBadLength
    } else {
        ReverseStage::Udp
    }
}

/// Whether `flow` carries exactly what the frame `p` holds.
pub open spec fn reverse_flow_of(flow: ReverseFlow, p: Seq<u8>) -> bool {
    let l3 = ETH_HDR_LEN as int;
    let l4 = l3 + rev_ihl_bytes(p);
    &&& flow.src_v4 == be32_at(p, l3 + 12)
    &&& flow.dst_v4 == be32_at(p, l3 + 16)
    &&& flow.ihl_bytes == rev_ihl_bytes(p)
    &&& flow.total_len == rev_total_len(p)
    &&& flow.sport == be16_at(p, l4)
    &&& flow.dport == be16_at(p, l4 + 2)
}

/// Classifies a frame on the reverse path.
pub fn reverse_verdict(packet: &[u8], cfg: &Nat64Config) -> (verdict: ReverseVerdict)
    ensures
        verdict.stage() == reverse_stage(packet@, *cfg),
        match verdict {
            ReverseVerdict::Tcp(flow) => reverse_flow_of(flow, packet@),
            ReverseVerdict::Udp(flow, udp_len) => {
                &&& reverse_flow_of(flow, packet@)
                &&& udp_len == be16_at(packet@, ETH_HDR_LEN + rev_ihl_bytes(packet@) + 4)
            },
            _ => true,
        },
{
    let l3 = ETH_HDR_LEN;
    if packet.len() < l3 {
        return ReverseVerdict::Unreadable;
    }
    if read_be16(packet, 12) != ETH_P_IP {
        return ReverseVerdict::NotIpv4;
    }
    if packet.len() < l3 + 1 {
        return ReverseVerdict::Unreadable;
    }
    let vihl = packet[l3];
    if vihl / 16 != 4 {
        return ReverseVerdict::Malformed;
    }
    let ihl_bytes = ((vihl % 16) as usize) * 4;
    if ihl_bytes < 20 || ihl_bytes > 60 {
        return ReverseVerdict::Malformed;
    }
    if packet.len() < l3 + 4 {
        return ReverseVerdict::Unreadable;
    }
    let total_len = read_be16(packet, l3 + 2) as usize;
    if total_len < ihl_bytes {
        return ReverseVerdict::Malformed;
    }
    if packet.len() < l3 + 20 {
        return ReverseVerdict::Unreadable;
    }
    let frag_off_flags = read_be16(packet, l3 + 6);
    let is_fragment = (frag_off_flags & 0x3fff) != 0;
    let proto = packet[l3 + 9];
    let src_v4 = read_be32(packet, l3 + 12);
    let dst_v4 = read_be32(packet, l3 + 16);
    if !v4_in_pool(dst_v4, cfg) {
        return ReverseVerdict::NotInPool;
    }
    if is_fragment {
        return ReverseVerdict::Fragment;
    }
    if proto != IPPROTO_TCP && proto != IPPROTO_UDP {
        return ReverseVerdict::UnsupportedProtocol;
    }
    let l4 = l3 + ihl_bytes;
    if proto == IPPROTO_TCP {
        if total_len - ihl_bytes > MAX_L4_LEN {
            return ReverseVerdict::TcpTooLong;
        }
        if packet.len() < l4 + TCP_HDR_LEN {
            return ReverseVerdict::TcpTruncated;
        }
        let flow = ReverseFlow {
            src_v4,
            dst_v4,
            ihl_bytes,
            total_len,
            sport: read_be16(packet, l4),
            dport: read_be16(packet, l4 + 2),
        };
        return ReverseVerdict::Tcp(flow);
    }
    if packet.len() < l4 + UDP_HDR_LEN {
        return ReverseVerdict::UdpTruncated;
    }
    let udp_len = read_be16(packet, l4 + 4);
    let udp_len_usize = udp_len as usize;
    if udp_len_usize < UDP_HDR_LEN || udp_len_usize > MAX_L4_LEN || total_len < ihl_bytes
        + udp_len_usize {
        return ReverseVerdict::UdpBadLength;
    }
    let flow = ReverseFlow {
        src_v4,
        dst_v4,
        ihl_bytes,
        total_len,
        sport: read_be16(packet, l4),
        dport: read_be16(packet, l4 + 2),
    };
    ReverseVerdict::Udp(flow, udp_len)
}

} // verus!
