//! Which production counters each outcome of the classifiers moves.
use crate::abi::ProdCounters;
use crate::dataplane::{IPPROTO_TCP, PortAllocation};
use crate::metrics::{counter_count, counter_field};
use crate::verdict::{ForwardStage, ReverseStage};
use vstd::prelude::*;

verus! {

/// Position of `pkts_total` among the production counters.
pub const PKTS_TOTAL: usize = 0;

/// Position of `pkts_ipv6` among the production counters.
pub const PKTS_IPV6: usize = 1;

/// Position of `pkts_ipv4` among the production counters.
pub const PKTS_IPV4: usize = 2;

/// Position of `pkts_nat64_dst` among the production counters.
pub const PKTS_NAT64_DST: usize = 3;

/// Position of `pkts_nat64_tcp` among the production counters.
pub const PKTS_NAT64_TCP: usize = 4;

/// Position of `pkts_nat64_udp` among the production counters.
pub const PKTS_NAT64_UDP: usize = 5;

/// Position of `pkts_ipv4_tcp` among the production counters.
pub const PKTS_IPV4_TCP: usize = 6;

/// Position of `pkts_ipv4_udp` among the production counters.
pub const PKTS_IPV4_UDP: usize = 7;

/// Position of `nat64_v6_to_v4_ok` among the production counters.
pub const NAT64_V6_TO_V4_OK: usize = 8;

/// Position of `nat64_v6_to_v4_udp_ok` among the production counters.
pub const NAT64_V6_TO_V4_UDP_OK: usize = 9;

/// Position of `nat64_v6_to_v4_err_write_hdr` among the production counters.
pub const NAT64_V6_TO_V4_ERR_WRITE_HDR: usize = 10;

/// Position of `nat64_v6_to_v4_err_csum` among the production counters.
pub const NAT64_V6_TO_V4_ERR_CSUM: usize = 11;

/// Position of `nat64_v4_to_v6_ok` among the production counters.
pub const NAT64_V4_TO_V6_OK: usize = 12;

/// Position of `nat64_v4_to_v6_udp_ok` among the production counters.
pub const NAT64_V4_TO_V6_UDP_OK: usize = 13;

/// Position of `nat64_v4_to_v6_err_write_hdr` among the production counters.
pub const NAT64_V4_TO_V6_ERR_WRITE_HDR: usize = 14;

/// Position of `nat64_v4_to_v6_err_csum` among the production counters.
pub const NAT64_V4_TO_V6_ERR_CSUM: usize = 15;

/// Position of `nat64_v4_to_v6_udp_miss` among the production counters.
pub const NAT64_V4_TO_V6_UDP_MISS: usize = 16;

/// Position of `nat64_v4_to_v6_udp_tuple_mismatch` among the production counters.
pub const NAT64_V4_TO_V6_UDP_TUPLE_MISMATCH: usize = 17;

/// Position of `nat_lookup_hit` among the production counters.
pub const NAT_LOOKUP_HIT: usize = 18;

/// Position of `nat_lookup_miss` among the production counters.
pub const NAT_LOOKUP_MISS: usize = 19;

/// Position of `nat_lookup_tuple_mismatch` among the production counters.
pub const NAT_LOOKUP_TUPLE_MISMATCH: usize = 20;

/// Position of `nat_hit_refresh_ok` among the production counters.
pub const NAT_HIT_REFRESH_OK: usize = 21;

/// Position of `nat_hit_refresh_err` among the production counters.
pub const NAT_HIT_REFRESH_ERR: usize = 22;

/// Position of `fwd_nat_lookup_hit` among the production counters.
pub const FWD_NAT_LOOKUP_HIT: usize = 23;

/// Position of `fwd_nat_lookup_miss` among the production counters.
pub const FWD_NAT_LOOKUP_MISS: usize = 24;

/// Position of `fwd_nat_insert_ok` among the production counters.
pub const FWD_NAT_INSERT_OK: usize = 25;

/// Position of `fwd_nat_insert_err` among the production counters.
pub const FWD_NAT_INSERT_ERR: usize = 26;

/// Position of `fwd_nat_refresh_ok` among the production counters.
pub const FWD_NAT_REFRESH_OK: usize = 27;

/// Position of `fwd_nat_refresh_err` among the production counters.
pub const FWD_NAT_REFRESH_ERR: usize = 28;

/// Position of `port_alloc_ok` among the production counters.
pub const PORT_ALLOC_OK: usize = 29;

/// Position of `port_alloc_err` among the production counters.
pub const PORT_ALLOC_ERR: usize = 30;

/// Position of `port_alloc_exhausted` among the production counters.
pub const PORT_ALLOC_EXHAUSTED: usize = 31;

/// Position of `unsupported_ipv6_extension_headers` among the production counters.
pub const UNSUPPORTED_IPV6_EXTENSION_HEADERS: usize = 32;

/// Position of `unsupported_ipv6_non_tcp_udp` among the production counters.
pub const UNSUPPORTED_IPV6_NON_TCP_UDP: usize = 33;

/// Position of `unsupported_ipv4_fragments` among the production counters.
pub const UNSUPPORTED_IPV4_FRAGMENTS: usize = 34;

/// Position of `unsupported_ipv4_non_tcp_udp` among the production counters.
pub const UNSUPPORTED_IPV4_NON_TCP_UDP: usize = 35;

/// Position of `unsupported_ipv4_udp_zero_checksum` among the production counters.
pub const UNSUPPORTED_IPV4_UDP_ZERO_CHECKSUM: usize = 36;

/// Position of `fwd_redirect_ok` among the production counters.
pub const FWD_REDIRECT_OK: usize = 37;

/// Position of `fwd_redirect_err` among the production counters.
pub const FWD_REDIRECT_ERR: usize = 38;

/// Position of `rev_redirect_ok` among the production counters.
pub const REV_REDIRECT_OK: usize = 39;

/// Position of `rev_redirect_err` among the production counters.
pub const REV_REDIRECT_ERR: usize = 40;

/// A counter value increased by one, saturating at `u64::MAX`.
pub open spec fn sat_inc(v: u64) -> u64 {
    if v == u64::MAX {
        v
    } else {
        (v + 1) as u64
    }
}

/// `after` is `before` with each counter whose position is in `moved`
/// increased by one (saturating) and every other counter unchanged.
pub open spec fn counters_bumped(before: ProdCounters, after: ProdCounters, moved: Set<int>) -> bool {
    forall|k: int|
        0 <= k < counter_count() ==> #[trigger] counter_field(after, k) == if moved.contains(k) {
            sat_inc(counter_field(before, k))
        } else {
            counter_field(before, k)
        }
}

/// Increases the counter at position `k` by one, saturating.
pub fn bump(c: &mut ProdCounters, k: usize)
    requires
        k < 41,
    ensures
        counters_bumped(*old(c), *final(c), set![k as int]),
{
    if k == PKTS_TOTAL {
        c.pkts_total = c.pkts_total.saturating_add(1);
    } else if k == PKTS_IPV6 {
        c.pkts_ipv6 = c.pkts_ipv6.saturating_add(1);
    } else if k == PKTS_IPV4 {
        c.pkts_ipv4 = c.pkts_ipv4.saturating_add(1);
    } else if k == PKTS_NAT64_DST {
        c.pkts_nat64_dst = c.pkts_nat64_dst.saturating_add(1);
    } else if k == PKTS_NAT64_TCP {
        c.pkts_nat64_tcp = c.pkts_nat64_tcp.saturating_add(1);
    } else if k == PKTS_NAT64_UDP {
        c.pkts_nat64_udp = c.pkts_nat64_udp.saturating_add(1);
    } else if k == PKTS_IPV4_TCP {
        c.pkts_ipv4_tcp = c.pkts_ipv4_tcp.saturating_add(1);
    } else if k == PKTS_IPV4_UDP {
        c.pkts_ipv4_udp = c.pkts_ipv4_udp.saturating_add(1);
    } else if k == NAT64_V6_TO_V4_OK {
        c.nat64_v6_to_v4_ok = c.nat64_v6_to_v4_ok.saturating_add(1);
    } else if k == NAT64_V6_TO_V4_UDP_OK {
        c.nat64_v6_to_v4_udp_ok = c.nat64_v6_to_v4_udp_ok.saturating_add(1);
    } else if k == NAT64_V6_TO_V4_ERR_WRITE_HDR {
        c.nat64_v6_to_v4_err_write_hdr = c.nat64_v6_to_v4_err_write_hdr.saturating_add(1);
    } else if k == NAT64_V6_TO_V4_ERR_CSUM {
        c.nat64_v6_to_v4_err_csum = c.nat64_v6_to_v4_err_csum.saturating_add(1);
    } else if k == NAT64_V4_TO_V6_OK {
        c.nat64_v4_to_v6_ok = c.nat64_v4_to_v6_ok.saturating_add(1);
    } else if k == NAT64_V4_TO_V6_UDP_OK {
        c.nat64_v4_to_v6_udp_ok = c.nat64_v4_to_v6_udp_ok.saturating_add(1);
    } else if k == NAT64_V4_TO_V6_ERR_WRITE_HDR {
        c.nat64_v4_to_v6_err_write_hdr = c.nat64_v4_to_v6_err_write_hdr.saturating_add(1);
    } else if k == NAT64_V4_TO_V6_ERR_CSUM {
        c.nat64_v4_to_v6_err_csum = c.nat64_v4_to_v6_err_csum.saturating_add(1);
    } else if k == NAT64_V4_TO_V6_UDP_MISS {
        c.nat64_v4_to_v6_udp_miss = c.nat64_v4_to_v6_udp_miss.saturating_add(1);
    } else if k == NAT64_V4_TO_V6_UDP_TUPLE_MISMATCH {
        c.nat64_v4_to_v6_udp_tuple_mismatch = c.nat64_v4_to_v6_udp_tuple_mismatch.saturating_add(1);
    } else if k == NAT_LOOKUP_HIT {
        c.nat_lookup_hit = c.nat_lookup_hit.saturating_add(1);
    } else if k == NAT_LOOKUP_MISS {
        c.nat_lookup_miss = c.nat_lookup_miss.saturating_add(1);
    } else if k == NAT_LOOKUP_TUPLE_MISMATCH {
        c.nat_lookup_tuple_mismatch = c.nat_lookup_tuple_mismatch.saturating_add(1);
    } else if k == NAT_HIT_REFRESH_OK {
        c.nat_hit_refresh_ok = c.nat_hit_refresh_ok.saturating_add(1);
    } else if k == NAT_HIT_REFRESH_ERR {
        c.nat_hit_refresh_err = c.nat_hit_refresh_err.saturating_add(1);
    } else if k == FWD_NAT_LOOKUP_HIT {
        c.fwd_nat_lookup_hit = c.fwd_nat_lookup_hit.saturating_add(1);
    } else if k == FWD_NAT_LOOKUP_MISS {
        c.fwd_nat_lookup_miss = c.fwd_nat_lookup_miss.saturating_add(1);
    } else if k == FWD_NAT_INSERT_OK {
        c.fwd_nat_insert_ok = c.fwd_nat_insert_ok.saturating_add(1);
    } else if k == FWD_NAT_INSERT_ERR {
        c.fwd_nat_insert_err = c.fwd_nat_insert_err.saturating_add(1);
    } else if k == FWD_NAT_REFRESH_OK {
        c.fwd_nat_refresh_ok = c.fwd_nat_refresh_ok.saturating_add(1);
    } else if k == FWD_NAT_REFRESH_ERR {
        c.fwd_nat_refresh_err = c.fwd_nat_refresh_err.saturating_add(1);
    } else if k == PORT_ALLOC_OK {
        c.port_alloc_ok = c.port_alloc_ok.saturating_add(1);
    } else if k == PORT_ALLOC_ERR {
        c.port_alloc_err = c.port_alloc_err.saturating_add(1);
    } else if k == PORT_ALLOC_EXHAUSTED {
        c.port_alloc_exhausted = c.port_alloc_exhausted.saturating_add(1);
    } else if k == UNSUPPORTED_IPV6_EXTENSION_HEADERS {
        c.unsupported_ipv6_extension_headers = c.unsupported_ipv6_extension_headers.saturating_add(1);
    } else if k == UNSUPPORTED_IPV6_NON_TCP_UDP {
        c.unsupported_ipv6_non_tcp_udp = c.unsupported_ipv6_non_tcp_udp.saturating_add(1);
    } else if k == UNSUPPORTED_IPV4_FRAGMENTS {
        c.unsupported_ipv4_fragments = c.unsupported_ipv4_fragments.saturating_add(1);
    } else if k == UNSUPPORTED_IPV4_NON_TCP_UDP {
        c.unsupported_ipv4_non_tcp_udp = c.unsupported_ipv4_non_tcp_udp.saturating_add(1);
    } else if k == UNSUPPORTED_IPV4_UDP_ZERO_CHECKSUM {
        c.unsupported_ipv4_udp_zero_checksum = c.unsupported_ipv4_udp_zero_checksum.saturating_add(1);
    } else if k == FWD_REDIRECT_OK {
        c.fwd_redirect_ok = c.fwd_redirect_ok.saturating_add(1);
    } else if k == FWD_REDIRECT_ERR {
        c.fwd_redirect_err = c.fwd_redirect_err.saturating_add(1);
    } else if k == REV_REDIRECT_OK {
        c.rev_redirect_ok = c.rev_redirect_ok.saturating_add(1);
    } else {
        c.rev_redirect_err = c.rev_redirect_err.saturating_add(1);
    }
}

/// Moving the counters of `a` and then those of a disjoint `b` moves those of both.
pub proof fn lemma_bumped_compose(x: ProdCounters, y: ProdCounters, z: ProdCounters, a: Set<int>, b: Set<int>)
    requires
        counters_bumped(x, y, a),
        counters_bumped(y, z, b),
        a.disjoint(b),
    ensures
        counters_bumped(x, z, a.union(b)),
{
    assert forall|k: int| 0 <= k < counter_count() implies #[trigger] counter_field(z, k) == if a.union(b).contains(k) {
        sat_inc(counter_field(x, k))
    } else {
        counter_field(x, k)
    } by {
        assert(counter_field(y, k) == if a.contains(k) { sat_inc(counter_field(x, k)) } else { counter_field(x, k) });
    }
}

/// Moving no counter leaves every counter unchanged.
pub proof fn lemma_bumped_none(x: ProdCounters)
    ensures
        counters_bumped(x, x, Set::<int>::empty()),
{
}

/// The set of counter positions listed in `ks`.
pub open spec fn positions(ks: Seq<usize>) -> Set<int> {
    Set::new(|k: int| exists|j: int| 0 <= j < ks.len() && #[trigger] ks[j] as int == k)
}

/// Whether `ks` lists valid counter positions, none twice.
pub open spec fn valid_positions(ks: Seq<usize>) -> bool {
    &&& forall|j: int| 0 <= j < ks.len() ==> ks[j] < 41
    &&& forall|i: int, j: int| 0 <= i < j < ks.len() ==> ks[i] != ks[j]
}

/// Increases each counter listed in `ks` by one, saturating.
pub fn bump_all(c: &mut ProdCounters, ks: &[usize])
    requires
        valid_positions(ks@),
    ensures
        counters_bumped(*old(c), *final(c), positions(ks@)),
{
    let ghost c0 = *c;
    let mut i: usize = 0;
    assert(positions(ks@.take(0)) =~= Set::<int>::empty());
    while i < ks.len()
        invariant
            i <= ks.len(),
            valid_positions(ks@),
            counters_bumped(c0, *c, positions(ks@.take(i as int))),
        decreases ks.len() - i,
    {
        let ghost before = *c;
        bump(c, ks[i]);
        proof {
            let prev = positions(ks@.take(i as int));
            let one = set![ks@[i as int] as int];
            assert(prev.disjoint(one)) by {
                assert forall|k: int| prev.contains(k) implies !one.contains(k) by {
                    let j = choose|j: int| 0 <= j < i && #[trigger] ks@.take(i as int)[j] as int == k;
                    assert(ks@[j] != ks@[i as int]);
                }
            }
            lemma_bumped_compose(c0, before, *c, prev, one);
            assert(prev.union(one) =~= positions(ks@.take(i + 1))) by {
                assert forall|k: int| positions(ks@.take(i + 1)).contains(k) implies prev.union(one).contains(k) by {
                    let j = choose|j: int| 0 <= j < i + 1 && #[trigger] ks@.take(i + 1)[j] as int == k;
                    if j < i {
                        assert(ks@.take(i as int)[j] as int == k);
                    }
                }
                assert forall|k: int| prev.union(one).contains(k) implies positions(ks@.take(i + 1)).contains(k) by {
                    if prev.contains(k) {
                        let j = choose|j: int| 0 <= j < i && #[trigger] ks@.take(i as int)[j] as int == k;
                        assert(ks@.take(i + 1)[j] as int == k);
                    } else {
                        assert(ks@.take(i + 1)[i as int] as int == k);
                    }
                }
            }
        }
        i = i + 1;
    }
    assert(ks@.take(ks@.len() as int) =~= ks@);
}

/// Counters moved while the forward classifier decides on a frame that
/// reaches `stage`: every frame counts, IPv6 frames count, frames to the
/// prefix count, then the reason a frame is not translated or its protocol.
pub open spec fn forward_stage_positions(stage: ForwardStage) -> Seq<usize> {
    match stage {
        ForwardStage::Unreadable | ForwardStage::NotIpv6 => seq![PKTS_TOTAL],
        ForwardStage::Truncated | ForwardStage::OutsidePrefix => seq![PKTS_TOTAL, PKTS_IPV6],
        ForwardStage::ExtensionHeader => seq![
            PKTS_TOTAL,
            PKTS_IPV6,
            PKTS_NAT64_DST,
            UNSUPPORTED_IPV6_EXTENSION_HEADERS,
        ],
        ForwardStage::UnsupportedProtocol => seq![
            PKTS_TOTAL,
            PKTS_IPV6,
            PKTS_NAT64_DST,
            UNSUPPORTED_IPV6_NON_TCP_UDP,
        ],
        ForwardStage::NoExternalAddress => seq![PKTS_TOTAL, PKTS_IPV6, PKTS_NAT64_DST],
        ForwardStage::TcpTooLong | ForwardStage::TcpTruncated => seq![
            PKTS_TOTAL,
            PKTS_IPV6,
            PKTS_NAT64_DST,
            PKTS_NAT64_TCP,
            NAT64_V6_TO_V4_ERR_CSUM,
        ],
        ForwardStage::Tcp => seq![PKTS_TOTAL, PKTS_IPV6, PKTS_NAT64_DST, PKTS_NAT64_TCP],
        ForwardStage::UdpTruncated | ForwardStage::UdpBadLength | ForwardStage::Udp => seq![
            PKTS_TOTAL,
            PKTS_IPV6,
            PKTS_NAT64_DST,
            PKTS_NAT64_UDP,
        ],
    }
}

/// Counters moved while the reverse classifier decides on a frame that
/// reaches `stage`; `ipv4` says whether the frame's Ethernet type is IPv4.
pub open spec fn reverse_stage_positions(ipv4: bool, stage: ReverseStage) -> Seq<usize> {
    match stage {
        ReverseStage::NotIpv4 => seq![PKTS_TOTAL],
        ReverseStage::Unreadable => if ipv4 {
            seq![PKTS_TOTAL, PKTS_IPV4]
        } else {
            seq![PKTS_TOTAL]
        },
        ReverseStage::Malformed | ReverseStage::NotInPool => seq![PKTS_TOTAL, PKTS_IPV4],
        ReverseStage::Fragment => seq![PKTS_TOTAL, PKTS_IPV4, UNSUPPORTED_IPV4_FRAGMENTS],
        ReverseStage::UnsupportedProtocol => seq![PKTS_TOTAL, PKTS_IPV4, UNSUPPORTED_IPV4_NON_TCP_UDP],
        ReverseStage::TcpTooLong => seq![PKTS_TOTAL, PKTS_IPV4, PKTS_IPV4_TCP, NAT64_V4_TO_V6_ERR_CSUM],
        ReverseStage::TcpTruncated | ReverseStage::Tcp => seq![PKTS_TOTAL, PKTS_IPV4, PKTS_IPV4_TCP],
        ReverseStage::UdpTruncated | ReverseStage::UdpBadLength | ReverseStage::Udp => seq![
            PKTS_TOTAL,
            PKTS_IPV4,
            PKTS_IPV4_UDP,
        ],
    }
}

/// Counters moved by the outcome of a port allocation.
pub open spec fn allocation_positions(a: PortAllocation) -> Seq<usize> {
    match a {
        PortAllocation::Allocated(_) => seq![PORT_ALLOC_OK],
        PortAllocation::Exhausted => seq![PORT_ALLOC_EXHAUSTED, PORT_ALLOC_ERR],
        PortAllocation::InvalidRange => seq![PORT_ALLOC_ERR],
    }
}

/// How a translation that got past classification and mapping ended.
#[derive(Clone, Copy, Debug, PartialEq, Eq, Structural)]
pub enum TranslationEnd {
    /// The translated packet was handed to the redirect.
    Translated,
    /// Changing the protocol or storing the Ethernet type failed.
    ProtocolChangeFailed,
    /// Writing the new network header failed.
    HeaderWriteFailed,
    /// Storing the rewritten port failed.
    PortStoreFailed,
    /// Updating the transport checksum failed.
    ChecksumFailed,
    /// Storing the reverse-mapping entry failed.
    NatInsertFailed,
}

/// Counters moved when a forward translation of protocol `proto` ends with
/// `end`. A UDP datagram whose reverse entry could not be stored is still
/// sent, as a translated one.
pub open spec fn forward_end_positions(proto: u8, end: TranslationEnd) -> Seq<usize> {
    if proto == IPPROTO_TCP {
        match end {
            TranslationEnd::Translated => seq![NAT64_V6_TO_V4_OK],
            TranslationEnd::HeaderWriteFailed => seq![NAT64_V6_TO_V4_ERR_WRITE_HDR],
            TranslationEnd::PortStoreFailed | TranslationEnd::ChecksumFailed => seq![NAT64_V6_TO_V4_ERR_CSUM],
            TranslationEnd::ProtocolChangeFailed | TranslationEnd::NatInsertFailed => seq![],
        }
    } else {
        match end {
            TranslationEnd::Translated | TranslationEnd::NatInsertFailed => seq![NAT64_V6_TO_V4_UDP_OK],
            TranslationEnd::HeaderWriteFailed => seq![NAT64_V6_TO_V4_ERR_WRITE_HDR],
            _ => seq![],
        }
    }
}

/// Counters moved when a reverse translation of protocol `proto` ends with `end`.
pub open spec fn reverse_end_positions(proto: u8, end: TranslationEnd) -> Seq<usize> {
    if proto == IPPROTO_TCP {
        match end {
            TranslationEnd::Translated => seq![NAT64_V4_TO_V6_OK],
            TranslationEnd::HeaderWriteFailed => seq![NAT64_V4_TO_V6_ERR_WRITE_HDR],
            TranslationEnd::ChecksumFailed => seq![NAT64_V4_TO_V6_ERR_CSUM],
            _ => seq![],
        }
    } else {
        match end {
            TranslationEnd::Translated => seq![NAT64_V4_TO_V6_UDP_OK],
            _ => seq![],
        }
    }
}

/// Counters moved by a redirect: `sent` says whether the packet left through
/// the target interface.
pub open spec fn redirect_positions(forward: bool, sent: bool) -> Seq<usize> {
    if forward {
        if sent { seq![FWD_REDIRECT_OK] } else { seq![FWD_REDIRECT_ERR] }
    } else {
        if sent { seq![REV_REDIRECT_OK] } else { seq![REV_REDIRECT_ERR] }
    }
}

/// Counts a port-allocation outcome.
pub fn count_allocation(c: &mut ProdCounters, a: PortAllocation)
    ensures
        counters_bumped(*old(c), *final(c), positions(allocation_positions(a))),
{
    match a {
        PortAllocation::Allocated(_) => {
            let ks = [PORT_ALLOC_OK];
            assert(ks@ =~= allocation_positions(a));
            bump_all(c, &ks);
        },
        PortAllocation::Exhausted => {
            let ks = [PORT_ALLOC_EXHAUSTED, PORT_ALLOC_ERR];
            assert(ks@ =~= allocation_positions(a));
            bump_all(c, &ks);
        },
        PortAllocation::InvalidRange => {
            let ks = [PORT_ALLOC_ERR];
            assert(ks@ =~= allocation_positions(a));
            bump_all(c, &ks);
        },
    }
}

/// Counts how a forward translation ended.
pub fn count_forward_end(c: &mut ProdCounters, proto: u8, end: TranslationEnd)
    ensures
        counters_bumped(*old(c), *final(c), positions(forward_end_positions(proto, end))),
{
    let ks: Vec<usize> = if proto == IPPROTO_TCP {
        match end {
            TranslationEnd::Translated => vec![NAT64_V6_TO_V4_OK],
            TranslationEnd::HeaderWriteFailed => vec![NAT64_V6_TO_V4_ERR_WRITE_HDR],
            TranslationEnd::PortStoreFailed | TranslationEnd::ChecksumFailed => vec![NAT64_V6_TO_V4_ERR_CSUM],
            TranslationEnd::ProtocolChangeFailed | TranslationEnd::NatInsertFailed => vec![],
        }
    } else {
        match end {
            TranslationEnd::Translated | TranslationEnd::NatInsertFailed => vec![NAT64_V6_TO_V4_UDP_OK],
            TranslationEnd::HeaderWriteFailed => vec![NAT64_V6_TO_V4_ERR_WRITE_HDR],
            _ => vec![],
        }
    };
    assert(ks@ =~= forward_end_positions(proto, end));
    bump_all(c, ks.as_slice());
}

/// Counts how a reverse translation ended.
pub fn count_reverse_end(c: &mut ProdCounters, proto: u8, end: TranslationEnd)
    ensures
        counters_bumped(*old(c), *final(c), positions(reverse_end_positions(proto, end))),
{
    let ks: Vec<usize> = if proto == IPPROTO_TCP {
        match end {
            TranslationEnd::Translated => vec![NAT64_V4_TO_V6_OK],
            TranslationEnd::HeaderWriteFailed => vec![NAT64_V4_TO_V6_ERR_WRITE_HDR],
            TranslationEnd::ChecksumFailed => vec![NAT64_V4_TO_V6_ERR_CSUM],
            _ => vec![],
        }
    } else {
        match end {
            TranslationEnd::Translated => vec![NAT64_V4_TO_V6_UDP_OK],
            _ => vec![],
        }
    };
    assert(ks@ =~= reverse_end_positions(proto, end));
    bump_all(c, ks.as_slice());
}

/// Counts a redirect. A zero interface index is never redirected to, so
/// `sent` is false for it.
pub fn count_redirect(c: &mut ProdCounters, forward: bool, sent: bool)
    ensures
        counters_bumped(*old(c), *final(c), positions(redirect_positions(forward, sent))),
{
    let k = if forward {
        if sent { FWD_REDIRECT_OK } else { FWD_REDIRECT_ERR }
    } else {
        if sent { REV_REDIRECT_OK } else { REV_REDIRECT_ERR }
    };
    let ks = [k];
    assert(ks@ =~= redirect_positions(forward, sent));
    bump_all(c, &ks);
}

} // verus!
