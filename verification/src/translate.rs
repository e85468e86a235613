//! What the classifiers write to translate an accepted packet: the new
//! network header, the rewritten port, the checksum update, the reverse
//! mapping entry and the redirect target.
use crate::abi::{
    NatKey, NatVal, build_ipv4_pseudo_header_bytes, build_ipv6_pseudo_header_bytes, embedded_v4,
    nat_key,
};
use crate::checksum::{
    checksum_update, incremental_update, l4_checksum_v4, l4_checksum_v6, lemma_incremental_v4_to_v6_matches_full_recompute,
    lemma_incremental_v6_to_v4_matches_full_recompute, lemma_incremental_update_keeps_checksum_valid,
    pseudo_header_v4, pseudo_header_v6, with_be16, with_checksum,
};
use crate::dataplane::{
    ETH_HDR_LEN, IPPROTO_TCP, IPPROTO_UDP, IPV4_HDR_LEN, TRANSLATED_HOP_LIMIT,
    ipv4_header_for_payload, ipv6_header_for_payload,
};
use crate::headers::{ipv4_header, ipv6_header};
use crate::ipv6::IPV6_BASE_HDR_LEN;
use crate::ones_complement::{ones_fold, word_at, word_sum};
use crate::verdict::{ForwardFlow, ReverseFlow};
use crate::wire::{be32_bytes, lemma_u32_read_write_roundtrip, write_u32_be};
use vstd::prelude::*;

verus! {

/// Offset of the transport checksum within a TCP or UDP header.
pub open spec fn l4_checksum_field(proto: u8) -> int {
    if proto == IPPROTO_TCP {
        16
    } else {
        6
    }
}

fn checksum_field(proto: u8) -> (field: usize)
    ensures
        field == l4_checksum_field(proto),
{
    if proto == IPPROTO_TCP {
        16
    } else {
        6
    }
}

/// The writes that translate an accepted IPv6 packet into IPv4.
#[derive(Clone, Copy)]
pub struct ForwardRewrite {
    /// The Ethernet type stored at frame offset 12 after the protocol change.
    pub ethertype: [u8; 2],
    /// The IPv4 header stored right after the Ethernet header.
    pub ipv4_header: [u8; 20],
    /// Frame offset of the transport source port.
    pub sport_offset: usize,
    /// The external source port stored there.
    pub new_sport: u16,
    /// Frame offset of the transport checksum.
    pub csum_offset: usize,
    /// The IPv6 pseudo-header taken out of the checksum.
    pub old_pseudo: [u8; 40],
    /// The IPv4 pseudo-header put into the checksum.
    pub new_pseudo: [u8; 12],
    /// The source port replaced in the checksum: the client's, then the external one.
    pub port_rewrite: (u16, u16),
    /// Whether the checksum update must send a zero result as all ones (UDP).
    pub mangle_zero: bool,
    /// Key of the reverse-mapping entry.
    pub nat_key: NatKey,
    /// Value of the reverse-mapping entry.
    pub nat_val: NatVal,
    /// Interface the translated packet leaves through.
    pub redirect_ifindex: u32,
}

/// Whether `r` translates the packet of `flow`, whose transport header
/// carries ports `sport` and `dport` and whose transport length is `l4_len`,
/// through the mapping (`ext_v4`, `ext_port`, `generation`) at `now_ns`.
pub open spec fn forward_rewrite_of(
    r: ForwardRewrite,
    flow: ForwardFlow,
    l4_len: u16,
    sport: u16,
    dport: u16,
    ext_v4: u32,
    ext_port: u16,
    generation: u32,
    now_ns: u64,
    uplink_ifindex: u32,
) -> bool {
    let proto = flow.info.next_header;
    &&& r.ethertype@ == seq![0x08u8, 0x00u8]
    &&& r.ipv4_header@ == ipv4_header(
        be32_bytes(ext_v4 as int),
        be32_bytes(flow.remote_v4 as int),
        (l4_len + IPV4_HDR_LEN) as u16,
        TRANSLATED_HOP_LIMIT,
        0,
        proto,
    )
    &&& r.sport_offset == ETH_HDR_LEN + IPV4_HDR_LEN
    &&& r.new_sport == ext_port
    &&& r.csum_offset == ETH_HDR_LEN + IPV4_HDR_LEN + l4_checksum_field(proto)
    &&& r.old_pseudo@ == pseudo_header_v6(flow.info.src@, flow.info.dst@, l4_len as int, proto)
    &&& r.new_pseudo@ == pseudo_header_v4(ext_v4, flow.remote_v4, l4_len as int, proto)
    &&& r.port_rewrite == (sport, ext_port)
    &&& r.mangle_zero == (proto == IPPROTO_UDP)
    &&& r.nat_key == (NatKey { ext_v4, ext_port, proto, _pad: 0 })
    &&& r.nat_val == (NatVal {
        vm_v6: flow.info.src,
        vm_port: sport,
        remote_v4: flow.remote_v4,
        remote_port: dport,
        _pad: 0,
        generation,
        last_seen_ns: now_ns,
    })
    &&& r.redirect_ifindex == uplink_ifindex
}

/// The writes that translate an accepted forward-path packet; `None` when the
/// IPv4 total length would not fit in 16 bits.
///
/// `l4_len` is the IPv6 payload length for TCP and the UDP length for UDP.
pub fn forward_rewrite(
    flow: &ForwardFlow,
    l4_len: u16,
    sport: u16,
    dport: u16,
    ext_v4: u32,
    ext_port: u16,
    generation: u32,
    now_ns: u64,
    uplink_ifindex: u32,
) -> (r: Option<ForwardRewrite>)
    ensures
        r is None <==> l4_len + IPV4_HDR_LEN > u16::MAX,
        r matches Some(r) ==> forward_rewrite_of(
            r,
            *flow,
            l4_len,
            sport,
            dport,
            ext_v4,
            ext_port,
            generation,
            now_ns,
            uplink_ifindex,
        ),
{
    let proto = flow.info.next_header;
    let ipv4_header = match ipv4_header_for_payload(l4_len, ext_v4, flow.remote_v4, proto) {
        Some(h) => h,
        None => return None,
    };
    let old_pseudo = build_ipv6_pseudo_header_bytes(&flow.info.src, &flow.info.dst, l4_len, proto);
    let new_pseudo = build_ipv4_pseudo_header_bytes(ext_v4, flow.remote_v4, l4_len, proto);
    let nat_val = NatVal::new_forward_with_generation(
        flow.info.src,
        sport,
        flow.remote_v4,
        dport,
        generation,
        now_ns,
    );
    let ethertype: [u8; 2] = [0x08, 0x00];
    assert(ethertype@ =~= seq![0x08u8, 0x00u8]);
    Some(
        ForwardRewrite {
            ethertype,
            ipv4_header,
            sport_offset: ETH_HDR_LEN + IPV4_HDR_LEN,
            new_sport: ext_port,
            csum_offset: ETH_HDR_LEN + IPV4_HDR_LEN + checksum_field(proto),
            old_pseudo,
            new_pseudo,
            port_rewrite: (sport, ext_port),
            mangle_zero: proto == IPPROTO_UDP,
            nat_key: nat_key(ext_v4, ext_port, proto),
            nat_val,
            redirect_ifindex: uplink_ifindex,
        },
    )
}

/// The writes that translate an accepted IPv4 reply into IPv6.
#[derive(Clone, Copy, Debug)]
pub struct ReverseRewrite {
    /// The Ethernet type stored at frame offset 12 after the protocol change.
    pub ethertype: [u8; 2],
    /// The IPv6 header stored right after the Ethernet header.
    pub ipv6_header: [u8; 40],
    /// Frame offset of the transport destination port.
    pub dport_offset: usize,
    /// The client's port stored there.
    pub new_dport: u16,
    /// Frame offset of the transport checksum.
    pub csum_offset: usize,
    /// The IPv4 pseudo-header taken out of the checksum.
    pub old_pseudo: [u8; 12],
    /// The IPv6 pseudo-header put into the checksum.
    pub new_pseudo: [u8; 40],
    /// The destination port replaced in the checksum: the external one, then the client's.
    pub port_rewrite: (u16, u16),
    /// Whether the checksum update must send a zero result as all ones (UDP).
    pub mangle_zero: bool,
    /// Interface the translated packet leaves through.
    pub redirect_ifindex: u32,
}

/// The IPv6 source of a translated reply: the configured `/96` prefix
/// followed by the IPv4 source.
pub open spec fn reply_source_v6(prefix96: Seq<u8>, src_v4: u32) -> Seq<u8> {
    prefix96 + be32_bytes(src_v4 as int)
}

/// Whether the stored mapping `entry` belongs to the sender of `flow`.
pub open spec fn reverse_accepts(flow: ReverseFlow, entry: NatVal) -> bool {
    entry.remote_v4 == flow.src_v4 && entry.remote_port == flow.sport
}

/// Whether `r` translates the reply `flow` with protocol `proto` and
/// transport length `l4_len` back to the client recorded in `entry`, the
/// server appearing under `prefix96`.
pub open spec fn reverse_rewrite_of(
    r: ReverseRewrite,
    flow: ReverseFlow,
    proto: u8,
    l4_len: u16,
    entry: NatVal,
    prefix96: Seq<u8>,
    bridge_ifindex: u32,
) -> bool {
    let src_v6 = reply_source_v6(prefix96, flow.src_v4);
    &&& r.ethertype@ == seq![0x86u8, 0xddu8]
    &&& r.ipv6_header@ == ipv6_header(src_v6, entry.vm_v6@, l4_len, proto, TRANSLATED_HOP_LIMIT)
    &&& r.dport_offset == ETH_HDR_LEN + IPV6_BASE_HDR_LEN + 2
    &&& r.new_dport == entry.vm_port
    &&& r.csum_offset == ETH_HDR_LEN + IPV6_BASE_HDR_LEN + l4_checksum_field(proto)
    &&& r.old_pseudo@ == pseudo_header_v4(flow.src_v4, flow.dst_v4, l4_len as int, proto)
    &&& r.new_pseudo@ == pseudo_header_v6(src_v6, entry.vm_v6@, l4_len as int, proto)
    &&& r.port_rewrite == (flow.dport, entry.vm_port)
    &&& r.mangle_zero == (proto == IPPROTO_UDP)
    &&& r.redirect_ifindex == bridge_ifindex
}

/// The writes that translate an accepted reply back to the client recorded
/// in `entry`, the server appearing under the configured `prefix96`; `None`
/// when the entry belongs to another remote address or port.
///
/// `l4_len` is the IPv4 payload length for TCP and the UDP length for UDP.
pub fn reverse_rewrite(
    flow: &ReverseFlow,
    proto: u8,
    l4_len: u16,
    entry: &NatVal,
    prefix96: &[u8; 12],
    bridge_ifindex: u32,
) -> (r: Option<ReverseRewrite>)
    ensures
        r is Some <==> reverse_accepts(*flow, *entry),
        r matches Some(r) ==> reverse_rewrite_of(
            r,
            *flow,
            proto,
            l4_len,
            *entry,
            prefix96@,
            bridge_ifindex,
        ),
{
    if !crate::abi::nat_tuple_matches(entry, flow.src_v4, flow.sport) {
        return None;
    }
    let v4 = write_u32_be(flow.src_v4);
    let p = prefix96;
    let src_v6: [u8; 16] = [
        p[0], p[1], p[2], p[3], p[4], p[5], p[6], p[7], p[8], p[9], p[10], p[11], v4[0], v4[1],
        v4[2], v4[3],
    ];
    assert(src_v6@ =~= reply_source_v6(prefix96@, flow.src_v4));
    let ipv6_header = ipv6_header_for_payload(l4_len, proto, &src_v6, &entry.vm_v6);
    let old_pseudo = build_ipv4_pseudo_header_bytes(flow.src_v4, flow.dst_v4, l4_len, proto);
    let new_pseudo = build_ipv6_pseudo_header_bytes(&src_v6, &entry.vm_v6, l4_len, proto);
    let ethertype: [u8; 2] = [0x86, 0xdd];
    assert(ethertype@ =~= seq![0x86u8, 0xddu8]);
    Some(
        ReverseRewrite {
            ethertype,
            ipv6_header,
            dport_offset: ETH_HDR_LEN + IPV6_BASE_HDR_LEN + 2,
            new_dport: entry.vm_port,
            csum_offset: ETH_HDR_LEN + IPV6_BASE_HDR_LEN + checksum_field(proto),
            old_pseudo,
            new_pseudo,
            port_rewrite: (flow.dport, entry.vm_port),
            mangle_zero: proto == IPPROTO_UDP,
            redirect_ifindex: bridge_ifindex,
        },
    )
}

/// A reply to a translated flow (from the server's address and port to the
/// external address and port of the mapping) is looked up under the key the
/// forward translation stored, passes the tuple check, and is translated
/// back to the client's address and port, coming from exactly the IPv6
/// address the client sent to: the flow's destination, which lies in the
/// configured prefix.
pub proof fn lemma_reply_returns_to_client(
    fwd: ForwardRewrite,
    flow: ForwardFlow,
    l4_len: u16,
    sport: u16,
    dport: u16,
    ext_v4: u32,
    ext_port: u16,
    generation: u32,
    now_ns: u64,
    uplink_ifindex: u32,
    reply: ReverseFlow,
    reply_len: u16,
    rev: ReverseRewrite,
    prefix96: Seq<u8>,
    bridge_ifindex: u32,
)
    requires
        forward_rewrite_of(
            fwd,
            flow,
            l4_len,
            sport,
            dport,
            ext_v4,
            ext_port,
            generation,
            now_ns,
            uplink_ifindex,
        ),
        flow.remote_v4 == embedded_v4(flow.info.dst@),
        flow.info.dst@.subrange(0, 12) == prefix96,
        prefix96.len() == 12,
        reply.src_v4 == flow.remote_v4,
        reply.sport == dport,
        reply.dst_v4 == ext_v4,
        reply.dport == ext_port,
        reverse_rewrite_of(
            rev,
            reply,
            flow.info.next_header,
            reply_len,
            fwd.nat_val,
            prefix96,
            bridge_ifindex,
        ),
    ensures
        (NatKey {
            ext_v4: reply.dst_v4,
            ext_port: reply.dport,
            proto: flow.info.next_header,
            _pad: 0,
        }) == fwd.nat_key,
        reverse_accepts(reply, fwd.nat_val),
        rev.ipv6_header@ == ipv6_header(
            flow.info.dst@,
            flow.info.src@,
            reply_len,
            flow.info.next_header,
            TRANSLATED_HOP_LIMIT,
        ),
        rev.new_dport == sport,
        rev.new_pseudo@ == pseudo_header_v6(
            flow.info.dst@,
            flow.info.src@,
            reply_len as int,
            flow.info.next_header,
        ),
{
    let d = flow.info.dst@;
    lemma_u32_read_write_roundtrip(d[12], d[13], d[14], d[15]);
    assert(be32_bytes(reply.src_v4 as int) =~= d.subrange(12, 16));
    assert(reply_source_v6(prefix96, reply.src_v4) =~= d);
}

/// Updating the checksum of a client segment in place as the forward
/// translation prescribes gives the checksum recomputed over the IPv4
/// pseudo-header and the segment with its external source port.
pub proof fn lemma_forward_rewrite_checksum(
    fwd: ForwardRewrite,
    flow: ForwardFlow,
    sport: u16,
    dport: u16,
    ext_v4: u32,
    ext_port: u16,
    generation: u32,
    now_ns: u64,
    uplink_ifindex: u32,
    segment: Seq<u8>,
)
    requires
        forward_rewrite_of(
            fwd,
            flow,
            segment.len() as u16,
            sport,
            dport,
            ext_v4,
            ext_port,
            generation,
            now_ns,
            uplink_ifindex,
        ),
        flow.info.next_header == IPPROTO_TCP ==> segment.len() >= 18,
        flow.info.next_header != IPPROTO_TCP ==> segment.len() >= 8,
        segment.len() <= 65535,
        word_at(segment, 0) == sport,
    ensures
        ({
            let proto = flow.info.next_header;
            let field = l4_checksum_field(proto);
            incremental_update(
                l4_checksum_v6(flow.info.src@, flow.info.dst@, proto, segment, field),
                fwd.old_pseudo@,
                fwd.new_pseudo@,
                fwd.port_rewrite.0 as int,
                fwd.port_rewrite.1 as int,
            ) == l4_checksum_v4(
                ext_v4,
                flow.remote_v4,
                proto,
                with_be16(segment, 0, fwd.new_sport as int),
                field,
            )
        }),
{
    let proto = flow.info.next_header;
    lemma_incremental_v6_to_v4_matches_full_recompute(
        flow.info.src@,
        flow.info.dst@,
        ext_v4,
        flow.remote_v4,
        proto,
        segment,
        l4_checksum_field(proto),
        0,
        ext_port,
    );
}

/// Updating the checksum of a reply segment in place as the reverse
/// translation prescribes gives the checksum recomputed over the IPv6
/// pseudo-header and the segment with the client's destination port.
pub proof fn lemma_reverse_rewrite_checksum(
    rev: ReverseRewrite,
    flow: ReverseFlow,
    proto: u8,
    entry: NatVal,
    prefix96: Seq<u8>,
    bridge_ifindex: u32,
    segment: Seq<u8>,
)
    requires
        prefix96.len() == 12,
        reverse_rewrite_of(
            rev,
            flow,
            proto,
            segment.len() as u16,
            entry,
            prefix96,
            bridge_ifindex,
        ),
        proto == IPPROTO_TCP ==> segment.len() >= 18,
        proto != IPPROTO_TCP ==> segment.len() >= 8,
        segment.len() <= 65535,
        word_at(segment, 2) == flow.dport,
    ensures
        ({
            let field = l4_checksum_field(proto);
            incremental_update(
                l4_checksum_v4(flow.src_v4, flow.dst_v4, proto, segment, field),
                rev.old_pseudo@,
                rev.new_pseudo@,
                rev.port_rewrite.0 as int,
                rev.port_rewrite.1 as int,
            ) == l4_checksum_v6(
                reply_source_v6(prefix96, flow.src_v4),
                entry.vm_v6@,
                proto,
                with_be16(segment, 2, rev.new_dport as int),
                field,
            )
        }),
{
    lemma_incremental_v4_to_v6_matches_full_recompute(
        flow.src_v4,
        flow.dst_v4,
        reply_source_v6(prefix96, flow.src_v4),
        entry.vm_v6@,
        proto,
        segment,
        l4_checksum_field(proto),
        2,
        entry.vm_port,
    );
}

/// The transport segment of a frame whose network header is IPv6.
pub open spec fn forward_segment(p: Seq<u8>) -> Seq<u8> {
    p.subrange(ETH_HDR_LEN + IPV6_BASE_HDR_LEN, p.len() as int)
}

/// The frame sent for the IPv6 frame `p` translated by `r`: the Ethernet
/// addresses kept, the IPv4 Ethernet type, the IPv4 header, and the
/// transport segment with its external source port and its checksum
/// updated in place.
pub open spec fn forward_frame(p: Seq<u8>, r: ForwardRewrite) -> Seq<u8> {
    let seg = forward_segment(p);
    let field = r.csum_offset - (ETH_HDR_LEN + IPV4_HDR_LEN);
    let check = incremental_update(
        word_at(seg, field),
        r.old_pseudo@,
        r.new_pseudo@,
        r.port_rewrite.0 as int,
        r.port_rewrite.1 as int,
    );
    p.subrange(0, 12) + r.ethertype@ + r.ipv4_header@ + with_be16(
        with_be16(seg, 0, r.new_sport as int),
        field,
        check,
    )
}

/// Applies a forward decision to a frame: a frame that is not translated
/// (`None`) is left exactly as it was; a translated one becomes
/// [`forward_frame`].
pub fn apply_forward(frame: &mut Vec<u8>, rewrite: Option<ForwardRewrite>)
    requires
        rewrite matches Some(r) ==> {
            &&& r.sport_offset == ETH_HDR_LEN + IPV4_HDR_LEN
            &&& (r.csum_offset == ETH_HDR_LEN + IPV4_HDR_LEN + 16 || r.csum_offset == ETH_HDR_LEN
                + IPV4_HDR_LEN + 6)
            &&& old(frame).len() >= r.csum_offset + 22
        },
    ensures
        rewrite is None ==> final(frame)@ == old(frame)@,
        rewrite matches Some(r) ==> final(frame)@ == forward_frame(old(frame)@, r),
{
    let r = match rewrite {
        None => return,
        Some(r) => r,
    };
    let ghost p = frame@;
    let ghost seg = forward_segment(p);
    let start: usize = ETH_HDR_LEN + IPV6_BASE_HDR_LEN;
    let field: usize = r.csum_offset - (ETH_HDR_LEN + IPV4_HDR_LEN);
    let old_check = (frame[start + field] as u16) * 256 + (frame[start + field + 1] as u16);
    assert(old_check == word_at(seg, field as int));
    let check = checksum_update(
        old_check,
        &r.old_pseudo,
        &r.new_pseudo,
        r.port_rewrite.0,
        r.port_rewrite.1,
    );
    let ghost seg2 = with_be16(with_be16(seg, 0, r.new_sport as int), field as int, check as int);
    let mut out: Vec<u8> = Vec::new();
    let mut i: usize = 0;
    while i < 12
        invariant
            i <= 12,
            p == frame@,
            p.len() >= 40,
            out@ == p.subrange(0, i as int),
        decreases 12 - i,
    {
        out.push(frame[i]);
        i = i + 1;
        assert(out@ =~= p.subrange(0, i as int));
    }
    out.push(r.ethertype[0]);
    out.push(r.ethertype[1]);
    assert(out@ =~= p.subrange(0, 12) + r.ethertype@);
    let mut h: usize = 0;
    while h < 20
        invariant
            h <= 20,
            out@ == p.subrange(0, 12) + r.ethertype@ + r.ipv4_header@.subrange(0, h as int),
        decreases 20 - h,
    {
        out.push(r.ipv4_header[h]);
        h = h + 1;
        assert(out@ =~= p.subrange(0, 12) + r.ethertype@ + r.ipv4_header@.subrange(0, h as int));
    }
    assert(r.ipv4_header@.subrange(0, 20) =~= r.ipv4_header@);
    let ghost head = p.subrange(0, 12) + r.ethertype@ + r.ipv4_header@;
    let sport_hi = (r.new_sport / 256) as u8;
    let sport_lo = (r.new_sport % 256) as u8;
    let check_hi = (check / 256) as u8;
    let check_lo = (check % 256) as u8;
    let n = frame.len();
    let mut j: usize = start;
    while j < n
        invariant
            start == ETH_HDR_LEN + IPV6_BASE_HDR_LEN,
            start <= j <= n,
            n == p.len(),
            p == frame@,
            seg == forward_segment(p),
            field + 1 < seg.len(),
            field >= 2,
            sport_hi == (r.new_sport / 256) as u8,
            sport_lo == (r.new_sport % 256) as u8,
            check_hi == (check / 256) as u8,
            check_lo == (check % 256) as u8,
            seg2 == with_be16(with_be16(seg, 0, r.new_sport as int), field as int, check as int),
            out@ == head + seg2.subrange(0, j - start),
        decreases n - j,
    {
        let k = j - start;
        let b = if k == field {
            check_hi
        } else if k == field + 1 {
            check_lo
        } else if k == 0 {
            sport_hi
        } else if k == 1 {
            sport_lo
        } else {
            frame[j]
        };
        assert(b == seg2[k as int]);
        out.push(b);
        j = j + 1;
        assert(out@ =~= head + seg2.subrange(0, j - start));
    }
    assert(seg2.subrange(0, n - start) =~= seg2);
    *frame = out;
}

/// The frame sent for a client's valid IPv6 segment carries the IPv4
/// Ethernet type, the planned IPv4 header, the external source port, and a
/// transport checksum equal to the one recomputed from scratch over the IPv4
/// pseudo-header.
pub proof fn lemma_forward_frame(
    p: Seq<u8>,
    r: ForwardRewrite,
    flow: ForwardFlow,
    sport: u16,
    dport: u16,
    ext_v4: u32,
    ext_port: u16,
    generation: u32,
    now_ns: u64,
    uplink_ifindex: u32,
)
    requires
        forward_rewrite_of(
            r,
            flow,
            forward_segment(p).len() as u16,
            sport,
            dport,
            ext_v4,
            ext_port,
            generation,
            now_ns,
            uplink_ifindex,
        ),
        p.len() >= ETH_HDR_LEN + IPV6_BASE_HDR_LEN,
        flow.info.next_header == IPPROTO_TCP ==> forward_segment(p).len() >= 18,
        flow.info.next_header != IPPROTO_TCP ==> forward_segment(p).len() >= 8,
        forward_segment(p).len() <= 65535,
        word_at(forward_segment(p), 0) == sport,
        word_at(forward_segment(p), l4_checksum_field(flow.info.next_header)) == l4_checksum_v6(
            flow.info.src@,
            flow.info.dst@,
            flow.info.next_header,
            forward_segment(p),
            l4_checksum_field(flow.info.next_header),
        ),
    ensures
        ({
            let out = forward_frame(p, r);
            let proto = flow.info.next_header;
            let field = l4_checksum_field(proto);
            let seg4 = out.subrange(34, out.len() as int);
            &&& out.len() == p.len() - 20
            &&& out.subrange(0, 12) == p.subrange(0, 12)
            &&& out[12] == 0x08 && out[13] == 0x00
            &&& out.subrange(14, 34) == r.ipv4_header@
            &&& word_at(seg4, 0) == ext_port
            &&& word_at(seg4, field) == l4_checksum_v4(
                ext_v4,
                flow.remote_v4,
                proto,
                with_be16(forward_segment(p), 0, ext_port as int),
                field,
            )
        }),
{
    let seg = forward_segment(p);
    let proto = flow.info.next_header;
    let field = l4_checksum_field(proto);
    lemma_forward_rewrite_checksum(r, flow, sport, dport, ext_v4, ext_port, generation, now_ns, uplink_ifindex, seg);
    let out = forward_frame(p, r);
    let check = incremental_update(
        word_at(seg, field),
        r.old_pseudo@,
        r.new_pseudo@,
        r.port_rewrite.0 as int,
        r.port_rewrite.1 as int,
    );
    let seg2 = with_be16(with_be16(seg, 0, ext_port as int), field, check);
    assert(out.subrange(34, out.len() as int) =~= seg2);
    assert(out.subrange(0, 12) =~= p.subrange(0, 12));
    assert(out.subrange(14, 34) =~= r.ipv4_header@);
    assert(out[12] == r.ethertype@[0]);
    assert(out[13] == r.ethertype@[1]);
    assert(0 <= check < 65536) by {
        crate::ones_complement::lemma_word_bounds(seg, field);
        crate::ones_complement::lemma_word_sum_bounds(r.old_pseudo@);
        crate::ones_complement::lemma_word_sum_bounds(r.new_pseudo@);
        crate::ones_complement::lemma_ones_fold_props(
            (65535 - word_at(seg, field)) + crate::checksum::complement_sum(r.old_pseudo@)
                + crate::ones_complement::word_sum(r.new_pseudo@) + (65535 - sport) + ext_port,
        );
    }
}

/// The transport segment of a frame whose IPv4 header is `ihl` bytes long.
pub open spec fn reverse_segment(p: Seq<u8>, ihl: int) -> Seq<u8> {
    p.subrange(ETH_HDR_LEN + ihl, p.len() as int)
}

/// The frame sent for the IPv4 frame `p` (header of `ihl` bytes) translated
/// by `r`: the Ethernet addresses kept, the IPv6 Ethernet type, the IPv6
/// header, and the transport segment with the client's destination port and
/// its checksum updated in place.
pub open spec fn reverse_frame(p: Seq<u8>, ihl: int, r: ReverseRewrite) -> Seq<u8> {
    let seg = reverse_segment(p, ihl);
    let field = r.csum_offset - (ETH_HDR_LEN + IPV6_BASE_HDR_LEN);
    let check = incremental_update(
        word_at(seg, field),
        r.old_pseudo@,
        r.new_pseudo@,
        r.port_rewrite.0 as int,
        r.port_rewrite.1 as int,
    );
    p.subrange(0, 12) + r.ethertype@ + r.ipv6_header@ + with_be16(
        with_be16(seg, 2, r.new_dport as int),
        field,
        check,
    )
}

/// Applies a reverse decision to a frame whose IPv4 header is `ihl` bytes
/// long: a frame that is not translated (`None`) is left exactly as it was;
/// a translated one becomes [`reverse_frame`].
pub fn apply_reverse(frame: &mut Vec<u8>, ihl: usize, rewrite: Option<ReverseRewrite>)
    requires
        rewrite matches Some(r) ==> {
            &&& r.dport_offset == ETH_HDR_LEN + IPV6_BASE_HDR_LEN + 2
            &&& (r.csum_offset == ETH_HDR_LEN + IPV6_BASE_HDR_LEN + 16 || r.csum_offset == ETH_HDR_LEN
                + IPV6_BASE_HDR_LEN + 6)
            &&& 20 <= ihl <= 60
            &&& old(frame).len() >= ETH_HDR_LEN + ihl + r.csum_offset - (ETH_HDR_LEN + IPV6_BASE_HDR_LEN) + 2
        },
    ensures
        rewrite is None ==> final(frame)@ == old(frame)@,
        rewrite matches Some(r) ==> final(frame)@ == reverse_frame(old(frame)@, ihl as int, r),
{
    let r = match rewrite {
        None => return,
        Some(r) => r,
    };
    let ghost p = frame@;
    let start: usize = ETH_HDR_LEN + ihl;
    let ghost seg = reverse_segment(p, ihl as int);
    let field: usize = r.csum_offset - (ETH_HDR_LEN + IPV6_BASE_HDR_LEN);
    let old_check = (frame[start + field] as u16) * 256 + (frame[start + field + 1] as u16);
    assert(old_check == word_at(seg, field as int));
    let check = checksum_update(
        old_check,
        &r.old_pseudo,
        &r.new_pseudo,
        r.port_rewrite.0,
        r.port_rewrite.1,
    );
    let ghost seg2 = with_be16(with_be16(seg, 2, r.new_dport as int), field as int, check as int);
    let mut out: Vec<u8> = Vec::new();
    let mut i: usize = 0;
    while i < 12
        invariant
            i <= 12,
            p == frame@,
            p.len() >= 40,
            out@ == p.subrange(0, i as int),
        decreases 12 - i,
    {
        out.push(frame[i]);
        i = i + 1;
        assert(out@ =~= p.subrange(0, i as int));
    }
    out.push(r.ethertype[0]);
    out.push(r.ethertype[1]);
    assert(out@ =~= p.subrange(0, 12) + r.ethertype@);
    let mut h: usize = 0;
    while h < 40
        invariant
            h <= 40,
            out@ == p.subrange(0, 12) + r.ethertype@ + r.ipv6_header@.subrange(0, h as int),
        decreases 40 - h,
    {
        out.push(r.ipv6_header[h]);
        h = h + 1;
        assert(out@ =~= p.subrange(0, 12) + r.ethertype@ + r.ipv6_header@.subrange(0, h as int));
    }
    assert(r.ipv6_header@.subrange(0, 40) =~= r.ipv6_header@);
    let ghost head = p.subrange(0, 12) + r.ethertype@ + r.ipv6_header@;
    let dport_hi = (r.new_dport / 256) as u8;
    let dport_lo = (r.new_dport % 256) as u8;
    let check_hi = (check / 256) as u8;
    let check_lo = (check % 256) as u8;
    let n = frame.len();
    let mut j: usize = start;
    while j < n
        invariant
            start == ETH_HDR_LEN + ihl,
            start <= j <= n,
            n == p.len(),
            p == frame@,
            seg == reverse_segment(p, ihl as int),
            field + 1 < seg.len(),
            field >= 4,
            dport_hi == (r.new_dport / 256) as u8,
            dport_lo == (r.new_dport % 256) as u8,
            check_hi == (check / 256) as u8,
            check_lo == (check % 256) as u8,
            seg2 == with_be16(with_be16(seg, 2, r.new_dport as int), field as int, check as int),
            out@ == head + seg2.subrange(0, j - start),
        decreases n - j,
    {
        let k = j - start;
        let b = if k == field {
            check_hi
        } else if k == field + 1 {
            check_lo
        } else if k == 2 {
            dport_hi
        } else if k == 3 {
            dport_lo
        } else {
            frame[j]
        };
        assert(b == seg2[k as int]);
        out.push(b);
        j = j + 1;
        assert(out@ =~= head + seg2.subrange(0, j - start));
    }
    assert(seg2.subrange(0, n - start) =~= seg2);
    *frame = out;
}

/// The frame sent for a client's IPv6 segment whose transport checksum
/// verifies over the IPv6 pseudo-header carries a segment whose checksum
/// verifies over the IPv4 pseudo-header of the translated packet, whichever
/// valid checksum the client sent.
pub proof fn lemma_forward_frame_keeps_checksum_valid(
    p: Seq<u8>,
    r: ForwardRewrite,
    flow: ForwardFlow,
    sport: u16,
    dport: u16,
    ext_v4: u32,
    ext_port: u16,
    generation: u32,
    now_ns: u64,
    uplink_ifindex: u32,
)
    requires
        forward_rewrite_of(
            r,
            flow,
            forward_segment(p).len() as u16,
            sport,
            dport,
            ext_v4,
            ext_port,
            generation,
            now_ns,
            uplink_ifindex,
        ),
        p.len() >= ETH_HDR_LEN + IPV6_BASE_HDR_LEN,
        flow.info.next_header == IPPROTO_TCP ==> forward_segment(p).len() >= 18,
        flow.info.next_header != IPPROTO_TCP ==> forward_segment(p).len() >= 8,
        forward_segment(p).len() <= 65535,
        word_at(forward_segment(p), 0) == sport,
        ones_fold(
            word_sum(
                pseudo_header_v6(
                    flow.info.src@,
                    flow.info.dst@,
                    forward_segment(p).len() as int,
                    flow.info.next_header,
                ) + forward_segment(p),
            ),
        ) == 65535,
    ensures
        ({
            let out = forward_frame(p, r);
            ones_fold(
                word_sum(
                    pseudo_header_v4(
                        ext_v4,
                        flow.remote_v4,
                        forward_segment(p).len() as int,
                        flow.info.next_header,
                    ) + out.subrange(34, out.len() as int),
                ),
            ) == 65535
        }),
{
    let seg = forward_segment(p);
    let proto = flow.info.next_header;
    let field = l4_checksum_field(proto);
    let check = incremental_update(
        word_at(seg, field),
        r.old_pseudo@,
        r.new_pseudo@,
        r.port_rewrite.0 as int,
        r.port_rewrite.1 as int,
    );
    lemma_incremental_update_keeps_checksum_valid(r.old_pseudo@, r.new_pseudo@, seg, field, 0, ext_port as int);
    let out = forward_frame(p, r);
    let seg2 = with_be16(with_be16(seg, 0, ext_port as int), field, check);
    assert(out.subrange(34, out.len() as int) =~= seg2);
    assert(seg2 =~= with_checksum(with_be16(seg, 0, ext_port as int), field, check));
}

/// The frame sent for a reply whose transport checksum verifies over the
/// IPv4 pseudo-header carries a segment whose checksum verifies over the
/// IPv6 pseudo-header of the translated reply, whichever valid checksum the
/// server sent.
pub proof fn lemma_reverse_frame_keeps_checksum_valid(
    p: Seq<u8>,
    ihl: int,
    r: ReverseRewrite,
    flow: ReverseFlow,
    proto: u8,
    entry: NatVal,
    prefix96: Seq<u8>,
    bridge_ifindex: u32,
)
    requires
        reverse_rewrite_of(
            r,
            flow,
            proto,
            reverse_segment(p, ihl).len() as u16,
            entry,
            prefix96,
            bridge_ifindex,
        ),
        20 <= ihl <= 60,
        p.len() >= ETH_HDR_LEN + ihl,
        proto == IPPROTO_TCP ==> reverse_segment(p, ihl).len() >= 18,
        proto != IPPROTO_TCP ==> reverse_segment(p, ihl).len() >= 8,
        reverse_segment(p, ihl).len() <= 65535,
        word_at(reverse_segment(p, ihl), 2) == flow.dport,
        ones_fold(
            word_sum(
                pseudo_header_v4(flow.src_v4, flow.dst_v4, reverse_segment(p, ihl).len() as int, proto)
                    + reverse_segment(p, ihl),
            ),
        ) == 65535,
    ensures
        ({
            let out = reverse_frame(p, ihl, r);
            ones_fold(
                word_sum(
                    pseudo_header_v6(
                        reply_source_v6(prefix96, flow.src_v4),
                        entry.vm_v6@,
                        reverse_segment(p, ihl).len() as int,
                        proto,
                    ) + out.subrange(54, out.len() as int),
                ),
            ) == 65535
        }),
{
    let seg = reverse_segment(p, ihl);
    let field = l4_checksum_field(proto);
    let check = incremental_update(
        word_at(seg, field),
        r.old_pseudo@,
        r.new_pseudo@,
        r.port_rewrite.0 as int,
        r.port_rewrite.1 as int,
    );
    lemma_incremental_update_keeps_checksum_valid(
        r.old_pseudo@,
        r.new_pseudo@,
        seg,
        field,
        2,
        entry.vm_port as int,
    );
    let out = reverse_frame(p, ihl, r);
    let seg2 = with_be16(with_be16(seg, 2, entry.vm_port as int), field, check);
    assert(out.subrange(54, out.len() as int) =~= seg2);
    assert(seg2 =~= with_checksum(with_be16(seg, 2, entry.vm_port as int), field, check));
}

} // verus!
