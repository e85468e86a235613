//! The decisions the classifiers and the session timer take between their
//! table lookups and packet writes, with the counters each outcome moves and
//! the table writes it asks for.
use crate::abi::{FwdNatKey, Nat64Config, NatKey, NatVal, PortCooldownRing, ProdCounters, fwd_nat_key};
use crate::accounting::{
    FWD_NAT_INSERT_ERR, FWD_NAT_INSERT_OK, FWD_NAT_LOOKUP_HIT, FWD_NAT_LOOKUP_MISS, FWD_NAT_REFRESH_OK,
    NAT64_V4_TO_V6_ERR_CSUM, NAT64_V4_TO_V6_UDP_MISS, NAT64_V4_TO_V6_UDP_TUPLE_MISMATCH,
    NAT64_V6_TO_V4_ERR_CSUM, NAT_HIT_REFRESH_OK, NAT_LOOKUP_HIT, NAT_LOOKUP_MISS,
    NAT_LOOKUP_TUPLE_MISMATCH, PKTS_IPV4, PKTS_IPV4_TCP, PKTS_IPV4_UDP, PKTS_IPV6, PKTS_NAT64_DST,
    PKTS_NAT64_TCP, PKTS_NAT64_UDP, PKTS_TOTAL, PORT_ALLOC_ERR, PORT_ALLOC_EXHAUSTED, PORT_ALLOC_OK,
    UNSUPPORTED_IPV4_FRAGMENTS, UNSUPPORTED_IPV4_NON_TCP_UDP, UNSUPPORTED_IPV4_UDP_ZERO_CHECKSUM,
    UNSUPPORTED_IPV6_EXTENSION_HEADERS, UNSUPPORTED_IPV6_NON_TCP_UDP, allocation_positions, bump_all,
    bump, counters_bumped, forward_stage_positions, positions, reverse_stage_positions,
};
use crate::dataplane::{
    ETH_HDR_LEN, ETH_P_IP, IPPROTO_TCP, IPPROTO_UDP, MAX_L4_LEN, PortAllocation, alloc_port, allocation_of,
    elapsed_since, session_expiry_spec,
};
use crate::translate::{
    ForwardRewrite, ReverseRewrite, apply_forward, apply_reverse, forward_frame, forward_rewrite,
    forward_rewrite_of, reverse_accepts, reverse_frame, reverse_rewrite, reverse_rewrite_of,
};
use crate::verdict::{
    ForwardFlow, ForwardStage, ForwardVerdict, ReverseFlow, ReverseStage, ReverseVerdict, be16_at, forward_stage,
    forward_flow_of, forward_verdict, read_be16, rev_ihl_bytes, reverse_flow_of, reverse_stage,
    reverse_verdict,
};
use vstd::prelude::*;

verus! {

/// Whether a frame declares IPv4 as its Ethernet type.
pub open spec fn is_ipv4_frame(p: Seq<u8>) -> bool {
    p.len() >= ETH_HDR_LEN && be16_at(p, 12) == ETH_P_IP
}

/// Whether a forward-path stage lets the frame through untranslated.
pub open spec fn forward_passes(stage: ForwardStage) -> bool {
    stage != ForwardStage::Tcp && stage != ForwardStage::Udp
}

/// Whether a reverse-path stage lets the frame through untranslated.
pub open spec fn reverse_passes(stage: ReverseStage) -> bool {
    stage != ReverseStage::Tcp && stage != ReverseStage::Udp
}

fn forward_stage_list(stage: ForwardStage) -> (ks: Vec<usize>)
    ensures
        ks@ == forward_stage_positions(stage),
{
    let ks = match stage {
        ForwardStage::Unreadable | ForwardStage::NotIpv6 => vec![PKTS_TOTAL],
        ForwardStage::Truncated | ForwardStage::OutsidePrefix => vec![PKTS_TOTAL, PKTS_IPV6],
        ForwardStage::ExtensionHeader => vec![
            PKTS_TOTAL,
            PKTS_IPV6,
            PKTS_NAT64_DST,
            UNSUPPORTED_IPV6_EXTENSION_HEADERS,
        ],
        ForwardStage::UnsupportedProtocol => vec![
            PKTS_TOTAL,
            PKTS_IPV6,
            PKTS_NAT64_DST,
            UNSUPPORTED_IPV6_NON_TCP_UDP,
        ],
        ForwardStage::NoExternalAddress => vec![PKTS_TOTAL, PKTS_IPV6, PKTS_NAT64_DST],
        ForwardStage::TcpTooLong | ForwardStage::TcpTruncated => vec![
            PKTS_TOTAL,
            PKTS_IPV6,
            PKTS_NAT64_DST,
            PKTS_NAT64_TCP,
            NAT64_V6_TO_V4_ERR_CSUM,
        ],
        ForwardStage::Tcp => vec![PKTS_TOTAL, PKTS_IPV6, PKTS_NAT64_DST, PKTS_NAT64_TCP],
        ForwardStage::UdpTruncated | ForwardStage::UdpBadLength | ForwardStage::Udp => vec![
            PKTS_TOTAL,
            PKTS_IPV6,
            PKTS_NAT64_DST,
            PKTS_NAT64_UDP,
        ],
    };
    assert(ks@ =~= forward_stage_positions(stage));
    ks
}

fn reverse_stage_list(ipv4: bool, stage: ReverseStage) -> (ks: Vec<usize>)
    ensures
        ks@ == reverse_stage_positions(ipv4, stage),
{
    let ks = match stage {
        ReverseStage::NotIpv4 => vec![PKTS_TOTAL],
        ReverseStage::Unreadable => if ipv4 {
            vec![PKTS_TOTAL, PKTS_IPV4]
        } else {
            vec![PKTS_TOTAL]
        },
        ReverseStage::Malformed | ReverseStage::NotInPool => vec![PKTS_TOTAL, PKTS_IPV4],
        ReverseStage::Fragment => vec![PKTS_TOTAL, PKTS_IPV4, UNSUPPORTED_IPV4_FRAGMENTS],
        ReverseStage::UnsupportedProtocol => vec![PKTS_TOTAL, PKTS_IPV4, UNSUPPORTED_IPV4_NON_TCP_UDP],
        ReverseStage::TcpTooLong => vec![PKTS_TOTAL, PKTS_IPV4, PKTS_IPV4_TCP, NAT64_V4_TO_V6_ERR_CSUM],
        ReverseStage::TcpTruncated | ReverseStage::Tcp => vec![PKTS_TOTAL, PKTS_IPV4, PKTS_IPV4_TCP],
        ReverseStage::UdpTruncated | ReverseStage::UdpBadLength | ReverseStage::Udp => vec![
            PKTS_TOTAL,
            PKTS_IPV4,
            PKTS_IPV4_UDP,
        ],
    };
    assert(ks@ =~= reverse_stage_positions(ipv4, stage));
    ks
}

fn stage_of_forward(v: &ForwardVerdict) -> (s: ForwardStage)
    ensures
        s == v.stage(),
{
    match v {
        ForwardVerdict::Unreadable => ForwardStage::Unreadable,
        ForwardVerdict::NotIpv6 => ForwardStage::NotIpv6,
        ForwardVerdict::Truncated => ForwardStage::Truncated,
        ForwardVerdict::OutsidePrefix => ForwardStage::OutsidePrefix,
        ForwardVerdict::ExtensionHeader => ForwardStage::ExtensionHeader,
        ForwardVerdict::UnsupportedProtocol => ForwardStage::UnsupportedProtocol,
        ForwardVerdict::NoExternalAddress => ForwardStage::NoExternalAddress,
        ForwardVerdict::TcpTooLong => ForwardStage::TcpTooLong,
        ForwardVerdict::TcpTruncated => ForwardStage::TcpTruncated,
        ForwardVerdict::UdpTruncated => ForwardStage::UdpTruncated,
        ForwardVerdict::UdpBadLength => ForwardStage::UdpBadLength,
        ForwardVerdict::Tcp(_) => ForwardStage::Tcp,
        ForwardVerdict::Udp(_, _) => ForwardStage::Udp,
    }
}

fn stage_of_reverse(v: &ReverseVerdict) -> (s: ReverseStage)
    ensures
        s == v.stage(),
{
    match v {
        ReverseVerdict::Unreadable => ReverseStage::Unreadable,
        ReverseVerdict::NotIpv4 => ReverseStage::NotIpv4,
        ReverseVerdict::Malformed => ReverseStage::Malformed,
        ReverseVerdict::NotInPool => ReverseStage::NotInPool,
        ReverseVerdict::Fragment => ReverseStage::Fragment,
        ReverseVerdict::UnsupportedProtocol => ReverseStage::UnsupportedProtocol,
        ReverseVerdict::TcpTooLong => ReverseStage::TcpTooLong,
        ReverseVerdict::TcpTruncated => ReverseStage::TcpTruncated,
        ReverseVerdict::UdpTruncated => ReverseStage::UdpTruncated,
        ReverseVerdict::UdpBadLength => ReverseStage::UdpBadLength,
        ReverseVerdict::Tcp(_) => ReverseStage::Tcp,
        ReverseVerdict::Udp(_, _) => ReverseStage::Udp,
    }
}

/// Classifies a frame on the forward path and counts it.
pub fn forward_classify(packet: &[u8], cfg: &Nat64Config, counters: &mut ProdCounters) -> (verdict:
    ForwardVerdict)
    ensures
        verdict.stage() == forward_stage(packet@, *cfg),
        match verdict {
            ForwardVerdict::Tcp(flow) => forward_flow_of(flow, packet@, *cfg),
            ForwardVerdict::Udp(flow, udp) => {
                &&& forward_flow_of(flow, packet@, *cfg)
                &&& udp.sport == be16_at(packet@, ETH_HDR_LEN + 40)
                &&& udp.dport == be16_at(packet@, ETH_HDR_LEN + 42)
                &&& udp.len == be16_at(packet@, ETH_HDR_LEN + 44)
            },
            _ => true,
        },
        counters_bumped(*old(counters), *final(counters), positions(forward_stage_positions(verdict.stage()))),
{
    let verdict = forward_verdict(packet, cfg);
    let ks = forward_stage_list(stage_of_forward(&verdict));
    bump_all(counters, ks.as_slice());
    verdict
}

/// Classifies a frame on the reverse path and counts it.
pub fn reverse_classify(packet: &[u8], cfg: &Nat64Config, counters: &mut ProdCounters) -> (verdict:
    ReverseVerdict)
    ensures
        verdict.stage() == reverse_stage(packet@, *cfg),
        match verdict {
            ReverseVerdict::Tcp(flow) => reverse_flow_of(flow, packet@),
            ReverseVerdict::Udp(flow, udp_len) => {
                &&& reverse_flow_of(flow, packet@)
                &&& udp_len == be16_at(packet@, ETH_HDR_LEN + rev_ihl_bytes(packet@) + 4)
            },
            _ => true,
        },
        counters_bumped(
            *old(counters),
            *final(counters),
            positions(reverse_stage_positions(is_ipv4_frame(packet@), verdict.stage())),
        ),
{
    let verdict = reverse_verdict(packet, cfg);
    let ipv4 = packet.len() >= ETH_HDR_LEN && (packet[12] as u16) * 256 + (packet[13] as u16)
        == ETH_P_IP;
    let ks = reverse_stage_list(ipv4, stage_of_reverse(&verdict));
    bump_all(counters, ks.as_slice());
    verdict
}

/// What a forward mapping decision asks of the forward flow table.
#[derive(Clone, Copy, Debug, PartialEq, Eq, Structural)]
pub enum MappingWrite {
    /// Leave the table as it is.
    Nothing,
    /// Write the flow's activity times back: the latest activity becomes
    /// `last_seen_ns` and the activity seen by a pending expiry check becomes
    /// `observed_last_seen_ns`.
    Refresh { last_seen_ns: u64, observed_last_seen_ns: u64 },
    /// The new entry that was stored stays.
    Keep,
    /// The new entry that was stored must be removed again.
    Remove,
}

/// The mapping a forward flow uses and the table write it asks for, given the
/// flow's existing entry (external address, port, generation), the address
/// the pool selected, the port allocation, the fresh generation, whether
/// storing the new entry succeeded, the session timeout, whether arming its
/// timer succeeded and the packet's time. Later inputs are consulted only
/// when reached: an existing entry is refreshed to the packet's time, with
/// no activity left pending for an expiry check.
pub open spec fn mapping_outcome(
    existing: Option<(u32, u16, u32)>,
    selected_ext_v4: u32,
    allocation: PortAllocation,
    generation: u32,
    inserted: bool,
    session_timeout_secs: u32,
    timer_armed: bool,
    now_ns: u64,
) -> (Option<(u32, u16, u32)>, MappingWrite) {
    match existing {
        Some(e) => (Some(e), MappingWrite::Refresh { last_seen_ns: now_ns, observed_last_seen_ns: 0 }),
        None => match allocation {
            PortAllocation::Allocated(port) => if !inserted {
                (None, MappingWrite::Nothing)
            } else if session_timeout_secs != 0 && !timer_armed {
                (None, MappingWrite::Remove)
            } else {
                (Some((selected_ext_v4, port, generation)), MappingWrite::Keep)
            },
            _ => (None, MappingWrite::Nothing),
        },
    }
}

/// Counters moved by a forward mapping decision.
pub open spec fn mapping_positions(
    existing: Option<(u32, u16, u32)>,
    allocation: PortAllocation,
    inserted: bool,
    session_timeout_secs: u32,
    timer_armed: bool,
) -> Seq<usize> {
    match existing {
        Some(_) => seq![FWD_NAT_LOOKUP_HIT, FWD_NAT_REFRESH_OK],
        None => match allocation {
            PortAllocation::Allocated(_) => if !inserted || (session_timeout_secs != 0 && !timer_armed) {
                seq![FWD_NAT_LOOKUP_MISS, PORT_ALLOC_OK, FWD_NAT_INSERT_ERR]
            } else {
                seq![FWD_NAT_LOOKUP_MISS, PORT_ALLOC_OK, FWD_NAT_INSERT_OK]
            },
            _ => seq![FWD_NAT_LOOKUP_MISS] + allocation_positions(allocation),
        },
    }
}

/// Decides the external mapping of a forward flow and counts the decision.
pub fn mapping_step(
    existing: Option<(u32, u16, u32)>,
    selected_ext_v4: u32,
    allocation: PortAllocation,
    generation: u32,
    inserted: bool,
    session_timeout_secs: u32,
    timer_armed: bool,
    now_ns: u64,
    counters: &mut ProdCounters,
) -> (r: (Option<(u32, u16, u32)>, MappingWrite))
    ensures
        r == mapping_outcome(
            existing,
            selected_ext_v4,
            allocation,
            generation,
            inserted,
            session_timeout_secs,
            timer_armed,
            now_ns,
        ),
        counters_bumped(
            *old(counters),
            *final(counters),
            positions(
                mapping_positions(existing, allocation, inserted, session_timeout_secs, timer_armed),
            ),
        ),
{
    match existing {
        Some(e) => {
            let ks = [FWD_NAT_LOOKUP_HIT, FWD_NAT_REFRESH_OK];
            bump_all(counters, &ks);
            proof {
                assert(ks@ =~= mapping_positions(existing, allocation, inserted, session_timeout_secs, timer_armed));
            }
            (Some(e), MappingWrite::Refresh { last_seen_ns: now_ns, observed_last_seen_ns: 0 })
        },
        None => match allocation {
            PortAllocation::Allocated(port) => {
                let failed = !inserted || (session_timeout_secs != 0 && !timer_armed);
                let ks = if failed {
                    [FWD_NAT_LOOKUP_MISS, PORT_ALLOC_OK, FWD_NAT_INSERT_ERR]
                } else {
                    [FWD_NAT_LOOKUP_MISS, PORT_ALLOC_OK, FWD_NAT_INSERT_OK]
                };
                assert(ks@ =~= mapping_positions(existing, allocation, inserted, session_timeout_secs, timer_armed));
                bump_all(counters, &ks);
                if !inserted {
                    (None, MappingWrite::Nothing)
                } else if session_timeout_secs != 0 && !timer_armed {
                    (None, MappingWrite::Remove)
                } else {
                    (Some((selected_ext_v4, port, generation)), MappingWrite::Keep)
                }
            },
            PortAllocation::Exhausted => {
                let ks = [FWD_NAT_LOOKUP_MISS, PORT_ALLOC_EXHAUSTED, PORT_ALLOC_ERR];
                assert(ks@ =~= mapping_positions(existing, allocation, inserted, session_timeout_secs, timer_armed));
                bump_all(counters, &ks);
                (None, MappingWrite::Nothing)
            },
            PortAllocation::InvalidRange => {
                let ks = [FWD_NAT_LOOKUP_MISS, PORT_ALLOC_ERR];
                assert(ks@ =~= mapping_positions(existing, allocation, inserted, session_timeout_secs, timer_armed));
                bump_all(counters, &ks);
                (None, MappingWrite::Nothing)
            },
        },
    }
}

/// Every packet of a flow that already has a mapping uses that mapping's
/// external address and port; a flow without one gets a mapping only when
/// its entry was stored (and its timer armed when sessions expire), and a
/// failed attempt leaves the forward table as it was.
pub proof fn lemma_mapping_is_stable(
    existing: Option<(u32, u16, u32)>,
    selected_ext_v4: u32,
    allocation: PortAllocation,
    generation: u32,
    inserted: bool,
    session_timeout_secs: u32,
    timer_armed: bool,
    now_ns: u64,
)
    ensures
        ({
            let (m, w) = mapping_outcome(
                existing,
                selected_ext_v4,
                allocation,
                generation,
                inserted,
                session_timeout_secs,
                timer_armed,
                now_ns,
            );
            &&& existing matches Some(e) ==> m == Some(e) && w == (MappingWrite::Refresh {
                last_seen_ns: now_ns,
                observed_last_seen_ns: 0,
            })
            &&& m is None ==> (w == MappingWrite::Nothing || w == MappingWrite::Remove)
            &&& (existing is None && m is Some) ==> w == MappingWrite::Keep
            &&& (existing is None && m is Some) ==> (allocation matches PortAllocation::Allocated(p)
                && m == Some((selected_ext_v4, p, generation)))
        }),
{
}

/// Outcome of looking up the reverse entry of a reply.
#[derive(Clone, Copy)]
pub enum ReverseLookup {
    /// No entry is stored under the reply's destination.
    Miss,
    /// The stored entry belongs to another remote endpoint; nothing is written.
    Mismatch,
    /// The entry matches; it is written back with the reply's time as its
    /// latest activity.
    Hit(NatVal),
}

/// The reverse-table write a lookup outcome asks for.
pub open spec fn reverse_lookup_write(r: ReverseLookup) -> Option<NatVal> {
    match r {
        ReverseLookup::Hit(v) => Some(v),
        _ => None,
    }
}

/// Counters moved by a reverse lookup of protocol `proto`.
pub open spec fn reverse_lookup_positions(proto: u8, r: ReverseLookup) -> Seq<usize> {
    if proto == IPPROTO_TCP {
        match r {
            ReverseLookup::Miss => seq![NAT_LOOKUP_MISS],
            ReverseLookup::Mismatch => seq![NAT_LOOKUP_HIT, NAT_LOOKUP_TUPLE_MISMATCH, NAT_LOOKUP_MISS],
            ReverseLookup::Hit(_) => seq![NAT_LOOKUP_HIT, NAT_HIT_REFRESH_OK],
        }
    } else {
        match r {
            ReverseLookup::Miss => seq![NAT64_V4_TO_V6_UDP_MISS],
            ReverseLookup::Mismatch => seq![NAT64_V4_TO_V6_UDP_TUPLE_MISMATCH],
            ReverseLookup::Hit(_) => seq![NAT_HIT_REFRESH_OK],
        }
    }
}

/// What the entry stored under a reply's destination allows the reply
/// `flow` at `now_ns`.
pub open spec fn reverse_lookup_of(flow: ReverseFlow, entry: Option<NatVal>, now_ns: u64) -> ReverseLookup {
    match entry {
        None => ReverseLookup::Miss,
        Some(v) => if reverse_accepts(flow, v) {
            ReverseLookup::Hit(NatVal { last_seen_ns: now_ns, ..v })
        } else {
            ReverseLookup::Mismatch
        },
    }
}

/// Decides what a reply's reverse entry allows, given the entry stored under
/// the reply's destination, and counts the decision.
pub fn reverse_lookup_step(
    proto: u8,
    flow: &ReverseFlow,
    entry: Option<NatVal>,
    now_ns: u64,
    counters: &mut ProdCounters,
) -> (r: ReverseLookup)
    ensures
        r == reverse_lookup_of(*flow, entry, now_ns),
        counters_bumped(*old(counters), *final(counters), positions(reverse_lookup_positions(proto, r))),
{
    let r = match entry {
        None => ReverseLookup::Miss,
        Some(v) => if crate::abi::nat_tuple_matches(&v, flow.src_v4, flow.sport) {
            ReverseLookup::Hit(NatVal { last_seen_ns: now_ns, ..v })
        } else {
            ReverseLookup::Mismatch
        },
    };
    let ks: Vec<usize> = if proto == IPPROTO_TCP {
        match r {
            ReverseLookup::Miss => vec![NAT_LOOKUP_MISS],
            ReverseLookup::Mismatch => vec![NAT_LOOKUP_HIT, NAT_LOOKUP_TUPLE_MISMATCH, NAT_LOOKUP_MISS],
            ReverseLookup::Hit(_) => vec![NAT_LOOKUP_HIT, NAT_HIT_REFRESH_OK],
        }
    } else {
        match r {
            ReverseLookup::Miss => vec![NAT64_V4_TO_V6_UDP_MISS],
            ReverseLookup::Mismatch => vec![NAT64_V4_TO_V6_UDP_TUPLE_MISMATCH],
            ReverseLookup::Hit(_) => vec![NAT_HIT_REFRESH_OK],
        }
    };
    assert(ks@ =~= reverse_lookup_positions(proto, r));
    bump_all(counters, ks.as_slice());
    r
}

/// Only the endpoint recorded in a reverse entry can reach the client: a
/// reply from any other endpoint gets no translation and leaves the entry
/// unrefreshed.
pub proof fn lemma_mismatch_leaves_entry(proto: u8, flow: ReverseFlow, v: NatVal, r: ReverseLookup)
    requires
        !reverse_accepts(flow, v),
        r is Mismatch,
    ensures
        reverse_lookup_write(r) is None,
{
}

/// What a session timer does once the session looked idle twice in a row.
#[derive(Clone, Copy, Debug, PartialEq, Eq, Structural)]
pub enum SessionExpiry {
    /// The session is kept; the timer fires again after `delay_ns`.
    Keep { delay_ns: u64 },
    /// The forward entry is removed, and the reverse entry with it when
    /// `remove_reverse` holds.
    Expire { remove_reverse: bool },
}

/// Final step of a session timer: from the timeout, the clock, the activity
/// time seen at the first idle check, the activity re-read now, the
/// generation of the reverse entry re-read now (if there is one) and the
/// session's generation.
pub fn session_expiry(
    timeout_ns: u64,
    now_ns: u64,
    latest_ns: u64,
    final_latest_ns: u64,
    final_reverse_generation: Option<u32>,
    generation: u32,
) -> (e: SessionExpiry)
    ensures
        match session_expiry_spec(timeout_ns, now_ns, latest_ns, final_latest_ns) {
            Some(delay) => e == SessionExpiry::Keep { delay_ns: delay },
            None => e == SessionExpiry::Expire {
                remove_reverse: final_reverse_generation == Some(generation),
            },
        },
{
    match crate::dataplane::session_expiry_recheck(timeout_ns, now_ns, latest_ns, final_latest_ns) {
        Some(delay) => SessionExpiry::Keep { delay_ns: delay },
        None => {
            let remove_reverse = match final_reverse_generation {
                Some(g) => g == generation,
                None => false,
            };
            SessionExpiry::Expire { remove_reverse }
        },
    }
}

/// A session timer removes a reverse entry only together with the forward
/// one, only when the entry belongs to the session's generation, and only
/// after the session has been idle for the whole timeout with no activity
/// between the two reads.
pub proof fn lemma_reverse_removed_only_with_forward(
    timeout_ns: u64,
    now_ns: u64,
    latest_ns: u64,
    final_latest_ns: u64,
    final_reverse_generation: Option<u32>,
    generation: u32,
    e: SessionExpiry,
)
    requires
        match session_expiry_spec(timeout_ns, now_ns, latest_ns, final_latest_ns) {
            Some(delay) => e == SessionExpiry::Keep { delay_ns: delay },
            None => e == SessionExpiry::Expire {
                remove_reverse: final_reverse_generation == Some(generation),
            },
        },
        e == (SessionExpiry::Expire { remove_reverse: true }),
    ensures
        final_reverse_generation == Some(generation),
        final_latest_ns == latest_ns,
        elapsed_since(now_ns, latest_ns) >= timeout_ns,
{
}

/// How the forward classifier ended with a frame.
#[derive(Clone, Copy)]
pub enum ForwardOutcome {
    /// The frame is not translated; frame, flow tables and port state are
    /// left as they were.
    Pass,
    /// No mapping could be had; the frame is left as it was, and the forward
    /// table write is the one given.
    NoMapping(MappingWrite),
    /// The frame was translated by `rewrite` through a mapping that asks for
    /// the forward table write `mapping`.
    Translated { rewrite: ForwardRewrite, mapping: MappingWrite },
}

/// The transport ports of an accepted forward frame: read from the TCP
/// header, or carried by the UDP verdict.
pub open spec fn forward_ports(p: Seq<u8>, v: ForwardVerdict) -> (u16, u16) {
    match v {
        ForwardVerdict::Udp(_, udp) => (udp.sport, udp.dport),
        _ => (be16_at(p, 54) as u16, be16_at(p, 56) as u16),
    }
}

/// The transport length of an accepted forward frame.
pub open spec fn forward_l4_len(v: ForwardVerdict) -> u16 {
    match v {
        ForwardVerdict::Udp(_, udp) => udp.len,
        ForwardVerdict::Tcp(flow) => flow.info.payload_len,
        _ => 0,
    }
}

/// The counters moved while classifying never overlap those moved while
/// mapping.
proof fn lemma_stage_and_mapping_disjoint(stage: ForwardStage, ms: Seq<usize>)
    requires
        forall|j: int| 0 <= j < ms.len() ==> 23 <= #[trigger] ms[j] <= 31,
    ensures
        positions(forward_stage_positions(stage)).disjoint(positions(ms)),
{
    let a = positions(forward_stage_positions(stage));
    let b = positions(ms);
    assert forall|k: int| a.contains(k) implies !b.contains(k) by {
        let sp = forward_stage_positions(stage);
        let j = choose|j: int| 0 <= j < sp.len() && #[trigger] sp[j] as int == k;
        assert(k < 23 || k > 31);
        if b.contains(k) {
            let i = choose|i: int| 0 <= i < ms.len() && #[trigger] ms[i] as int == k;
            assert(23 <= ms[i] <= 31);
        }
    }
}

/// What the forward classifier learned and decided while mapping a flow.
#[derive(Clone, Copy)]
pub struct MappingTrace {
    /// The forward-table key of the flow.
    pub key: FwdNatKey,
    /// The entry the forward table held under `key`.
    pub existing: Option<(u32, u16, u32)>,
    /// The port allocation; `InvalidRange` when an existing entry made
    /// allocating unnecessary.
    pub allocation: PortAllocation,
    /// Whether the new entry was stored; `false` when no port was allocated.
    pub inserted: bool,
    /// Whether the session timer was armed; `true` when it needed no arming
    /// (nothing stored, or sessions never expire), `false` when no port was
    /// allocated.
    pub armed: bool,
}

/// Whether `t` records what the forward classifier did while mapping `flow`,
/// whose transport ports are `sport` and `dport`: the forward-table lookup
/// under the flow's key; with an entry, nothing else, the allocation cursor
/// and cooldown ring staying as they were; without one, the port allocation
/// with the cursor going from `cursor0` to `cursor1` and the ring from
/// `ring0` to `ring1`, the store of the new entry (the selected address, the
/// allocated port, `generation` and `now_ns` as its latest activity) and the
/// arming of its timer.
pub open spec fn mapping_trace_of<L, U, S, A>(
    t: MappingTrace,
    flow: ForwardFlow,
    sport: u16,
    dport: u16,
    cfg: Nat64Config,
    generation: u32,
    now_ns: u64,
    cursor0: u32,
    cursor1: u32,
    ring0: Option<PortCooldownRing>,
    ring1: Option<PortCooldownRing>,
    lookup: L,
    in_use: U,
    store: S,
    arm: A,
) -> bool where
    L: Fn(FwdNatKey) -> Option<(u32, u16, u32)>,
    U: Fn(NatKey) -> bool,
    S: Fn(FwdNatKey, u32, u16, u32, u64) -> bool,
    A: Fn(FwdNatKey) -> bool,
 {
    let proto = flow.info.next_header;
    &&& t.key.vm_v6 == flow.info.src
    &&& t.key.remote_v4 == flow.remote_v4
    &&& t.key.vm_port == sport
    &&& t.key.remote_port == dport
    &&& t.key.proto == proto
    &&& t.key._pad@ == seq![0u8, 0u8, 0u8]
    &&& lookup.ensures((t.key,), t.existing)
    &&& t.existing is Some ==> cursor1 == cursor0 && ring1 == ring0
    &&& t.existing is None ==> allocation_of(
        cfg.port_min,
        cfg.port_max,
        flow.ext_v4,
        proto,
        cursor0,
        cursor1,
        ring0,
        ring1,
        in_use,
        t.allocation,
    )
    &&& t.existing is None ==> (t.allocation matches PortAllocation::Allocated(port) ==> store.ensures(
        (t.key, flow.ext_v4, port, generation, now_ns),
        t.inserted,
    ))
    &&& t.existing is None ==> (t.allocation matches PortAllocation::Allocated(port) ==> (t.inserted
        && cfg.session_timeout_secs != 0 ==> arm.ensures((t.key,), t.armed)))
}

/// Runs the forward classifier on `frame`: classifies and counts it, and,
/// when it is translated, looks up or creates its mapping (through `lookup`,
/// `in_use`, `store` and `arm`, which stand for the flow tables and the
/// session timer) and rewrites the frame with it. The trace, present exactly
/// when the frame was not passed through, tells what the mapping step saw.
#[verifier::rlimit(80)]
#[verifier::spinoff_prover]
pub fn forward_packet<L, U, S, A>(
    frame: &mut Vec<u8>,
    cfg: &Nat64Config,
    counters: &mut ProdCounters,
    cursor: &mut u32,
    ring: &mut Option<PortCooldownRing>,
    lookup: &L,
    in_use: &U,
    store: &S,
    arm: &A,
    generation: u32,
    now_ns: u64,
) -> (r: (ForwardVerdict, ForwardOutcome, Option<MappingTrace>)) where
    L: Fn(FwdNatKey) -> Option<(u32, u16, u32)>,
    U: Fn(NatKey) -> bool,
    S: Fn(FwdNatKey, u32, u16, u32, u64) -> bool,
    A: Fn(FwdNatKey) -> bool,

    requires
        forall|k: FwdNatKey| #[trigger] lookup.requires((k,)),
        forall|k: NatKey| #[trigger] in_use.requires((k,)),
        forall|k: FwdNatKey, a: u32, b: u16, c: u32, t: u64| #[trigger] store.requires((k, a, b, c, t)),
        forall|k: FwdNatKey| #[trigger] arm.requires((k,)),
    ensures
        r.0.stage() == forward_stage(old(frame)@, *cfg),
        forward_passes(r.0.stage()) <==> r.1 is Pass,
        r.1 is Pass <==> r.2 is None,
        r.1 is Pass ==> {
            &&& final(frame)@ == old(frame)@
            &&& *final(cursor) == *old(cursor)
            &&& *final(ring) == *old(ring)
            &&& counters_bumped(
                *old(counters),
                *final(counters),
                positions(forward_stage_positions(r.0.stage())),
            )
        },
        r.1 is NoMapping ==> final(frame)@ == old(frame)@,
        r.2 matches Some(t) ==> match r.0 {
            ForwardVerdict::Tcp(flow) | ForwardVerdict::Udp(flow, _) => {
                let (sport, dport) = forward_ports(old(frame)@, r.0);
                let (m, w) = mapping_outcome(
                    t.existing,
                    flow.ext_v4,
                    t.allocation,
                    generation,
                    t.inserted,
                    cfg.session_timeout_secs,
                    t.armed,
                    now_ns,
                );
                &&& mapping_trace_of(
                    t,
                    flow,
                    sport,
                    dport,
                    *cfg,
                    generation,
                    now_ns,
                    *old(cursor),
                    *final(cursor),
                    *old(ring),
                    *final(ring),
                    *lookup,
                    *in_use,
                    *store,
                    *arm,
                )
                &&& counters_bumped(
                    *old(counters),
                    *final(counters),
                    positions(forward_stage_positions(r.0.stage())).union(
                        positions(
                            mapping_positions(
                                t.existing,
                                t.allocation,
                                t.inserted,
                                cfg.session_timeout_secs,
                                t.armed,
                            ),
                        ),
                    ),
                )
                &&& m is None <==> r.1 is NoMapping
                &&& r.1 matches ForwardOutcome::NoMapping(nw) ==> nw == w
                &&& r.1 matches ForwardOutcome::Translated { rewrite, mapping } ==> {
                    &&& mapping == w
                    &&& m == Some(
                        (rewrite.nat_key.ext_v4, rewrite.nat_key.ext_port, rewrite.nat_val.generation),
                    )
                    &&& forward_rewrite_of(
                        rewrite,
                        flow,
                        forward_l4_len(r.0),
                        sport,
                        dport,
                        rewrite.nat_key.ext_v4,
                        rewrite.nat_key.ext_port,
                        rewrite.nat_val.generation,
                        now_ns,
                        cfg.uplink_ifindex,
                    )
                    &&& final(frame)@ == forward_frame(old(frame)@, rewrite)
                }
            },
            _ => false,
        },
{
    let ghost c0 = *counters;
    let verdict = forward_classify(frame.as_slice(), cfg, counters);
    let ghost c1 = *counters;
    let ghost p = frame@;
    let (flow, sport, dport, l4_len) = match verdict {
        ForwardVerdict::Tcp(flow) => {
            assert(forward_stage(p, *cfg) == ForwardStage::Tcp);
            assert(p.len() >= 74);
            let sport = read_be16(frame.as_slice(), 54);
            let dport = read_be16(frame.as_slice(), 56);
            (flow, sport, dport, flow.info.payload_len)
        },
        ForwardVerdict::Udp(flow, udp) => {
            assert(forward_stage(p, *cfg) == ForwardStage::Udp);
            assert(p.len() >= 62);
            (flow, udp.sport, udp.dport, udp.len)
        },
        _ => return (verdict, ForwardOutcome::Pass, None),
    };
    let proto = flow.info.next_header;
    proof {
        match verdict {
            ForwardVerdict::Tcp(f) => {
                assert(forward_stage(p, *cfg) == ForwardStage::Tcp);
                assert(f == flow);
                assert(proto == IPPROTO_TCP && p.len() >= 74);
            },
            ForwardVerdict::Udp(f, _) => {
                assert(forward_stage(p, *cfg) == ForwardStage::Udp);
                assert(f == flow);
                assert(proto != IPPROTO_TCP && p.len() >= 62);
            },
            _ => {},
        }
        assert(l4_len <= MAX_L4_LEN);
        assert(l4_len == forward_l4_len(verdict));
        assert((sport, dport) == forward_ports(p, verdict));
    }
    let key = fwd_nat_key(flow.info.src, flow.remote_v4, sport, dport, proto);
    let existing = lookup(key);
    let allocation = match existing {
        Some(_) => PortAllocation::InvalidRange,
        None => alloc_port(cfg.port_min, cfg.port_max, flow.ext_v4, proto, cursor, ring, in_use),
    };
    let (inserted, armed) = match (existing, allocation) {
        (None, PortAllocation::Allocated(port)) => {
            let inserted = store(key, flow.ext_v4, port, generation, now_ns);
            let armed = if inserted && cfg.session_timeout_secs != 0 {
                arm(key)
            } else {
                true
            };
            (inserted, armed)
        },
        _ => (false, false),
    };
    let trace = MappingTrace { key, existing, allocation, inserted, armed };
    let (mapping, write) = mapping_step(
        existing,
        flow.ext_v4,
        allocation,
        generation,
        inserted,
        cfg.session_timeout_secs,
        armed,
        now_ns,
        counters,
    );
    proof {
        let ms = mapping_positions(existing, allocation, inserted, cfg.session_timeout_secs, armed);
        assert(forall|j: int| 0 <= j < ms.len() ==> 23 <= #[trigger] ms[j] <= 31);
        lemma_stage_and_mapping_disjoint(verdict.stage(), ms);
        crate::accounting::lemma_bumped_compose(
            c0,
            c1,
            *counters,
            positions(forward_stage_positions(verdict.stage())),
            positions(ms),
        );
    }
    let (ext_v4, ext_port, gen) = match mapping {
        Some(m) => m,
        None => return (verdict, ForwardOutcome::NoMapping(write), Some(trace)),
    };
    let rewrite = match forward_rewrite(&flow, l4_len, sport, dport, ext_v4, ext_port, gen, now_ns, cfg.uplink_ifindex) {
        Some(rw) => rw,
        None => return (verdict, ForwardOutcome::NoMapping(write), Some(trace)),
    };
    assert(frame@ == p);
    assert(proto == IPPROTO_TCP ==> p.len() >= 74);
    assert(proto != IPPROTO_TCP ==> p.len() >= 62);
    apply_forward(frame, Some(rewrite));
    (verdict, ForwardOutcome::Translated { rewrite, mapping: write }, Some(trace))
}

/// How the reverse classifier ended with a frame.
#[derive(Clone, Copy)]
pub enum ReverseOutcome {
    /// The frame is not translated; frame and tables are left as they were.
    Pass,
    /// No usable reverse entry; frame and tables are left as they were.
    NoEntry(ReverseLookup),
    /// The UDP reply matched its entry, and `refreshed` is written back to the
    /// reverse table, but it carries no checksum, which IPv6 requires: the
    /// frame is left as it was.
    ZeroChecksum { refreshed: NatVal },
    /// The frame was translated by `rewrite`; `refreshed` is written back to
    /// the reverse table.
    Translated { rewrite: ReverseRewrite, refreshed: NatVal },
}

/// What the reverse classifier looked up for a reply.
#[derive(Clone, Copy)]
pub struct ReverseTrace {
    /// The reverse-table key looked up.
    pub key: NatKey,
    /// The entry the reverse table held under `key`.
    pub entry: Option<NatVal>,
}

/// The protocol of an accepted reverse frame.
pub open spec fn reverse_proto(v: ReverseVerdict) -> u8 {
    match v {
        ReverseVerdict::Udp(_, _) => IPPROTO_UDP,
        _ => IPPROTO_TCP,
    }
}

/// The transport length of an accepted reverse frame.
pub open spec fn reverse_l4_len(v: ReverseVerdict) -> u16 {
    match v {
        ReverseVerdict::Tcp(flow) => (flow.total_len - flow.ihl_bytes) as u16,
        ReverseVerdict::Udp(_, udp_len) => udp_len,
        _ => 0,
    }
}

/// Whether the UDP datagram of the reply `flow` in frame `p` carries no
/// checksum.
pub open spec fn udp_checksum_absent(p: Seq<u8>, flow: ReverseFlow) -> bool {
    be16_at(p, ETH_HDR_LEN + flow.ihl_bytes + 6) == 0
}

/// Runs the reverse classifier on `frame`: classifies and counts it, and,
/// when it is translated, looks up its reverse entry through `lookup` (which
/// stands for the reverse table) and rewrites the frame back to the client
/// the entry records. The trace, present exactly when the frame was not
/// passed through, tells what the lookup returned.
#[verifier::rlimit(80)]
#[verifier::spinoff_prover]
pub fn reverse_packet<L>(
    frame: &mut Vec<u8>,
    cfg: &Nat64Config,
    counters: &mut ProdCounters,
    lookup: &L,
    now_ns: u64,
) -> (r: (ReverseVerdict, ReverseOutcome, Option<ReverseTrace>)) where L: Fn(NatKey) -> Option<NatVal>,
    requires
        forall|k: NatKey| #[trigger] lookup.requires((k,)),
    ensures
        r.0.stage() == reverse_stage(old(frame)@, *cfg),
        reverse_passes(r.0.stage()) <==> r.1 is Pass,
        r.1 is Pass <==> r.2 is None,
        r.1 is Pass ==> {
            &&& final(frame)@ == old(frame)@
            &&& counters_bumped(
                *old(counters),
                *final(counters),
                positions(reverse_stage_positions(is_ipv4_frame(old(frame)@), r.0.stage())),
            )
        },
        !(r.1 is Translated) ==> final(frame)@ == old(frame)@,
        r.2 matches Some(t) ==> match r.0 {
            ReverseVerdict::Tcp(flow) | ReverseVerdict::Udp(flow, _) => {
                let proto = reverse_proto(r.0);
                let l = reverse_lookup_of(flow, t.entry, now_ns);
                let counted = positions(
                    reverse_stage_positions(is_ipv4_frame(old(frame)@), r.0.stage()),
                ).union(positions(reverse_lookup_positions(proto, l)));
                &&& t.key == (NatKey { ext_v4: flow.dst_v4, ext_port: flow.dport, proto, _pad: 0 })
                &&& lookup.ensures((t.key,), t.entry)
                &&& match l {
                    ReverseLookup::Hit(refreshed) => if proto == IPPROTO_UDP && udp_checksum_absent(
                        old(frame)@,
                        flow,
                    ) {
                        &&& r.1 == (ReverseOutcome::ZeroChecksum { refreshed })
                        &&& counters_bumped(
                            *old(counters),
                            *final(counters),
                            counted.insert(UNSUPPORTED_IPV4_UDP_ZERO_CHECKSUM as int),
                        )
                    } else {
                        &&& r.1 matches ReverseOutcome::Translated { rewrite, refreshed: rf }
                        &&& rf == refreshed
                        &&& reverse_rewrite_of(
                            rewrite,
                            flow,
                            proto,
                            reverse_l4_len(r.0),
                            refreshed,
                            cfg.prefix96@,
                            cfg.bridge_ifindex,
                        )
                        &&& final(frame)@ == reverse_frame(old(frame)@, flow.ihl_bytes as int, rewrite)
                        &&& counters_bumped(*old(counters), *final(counters), counted)
                    },
                    _ => {
                        &&& r.1 == ReverseOutcome::NoEntry(l)
                        &&& counters_bumped(*old(counters), *final(counters), counted)
                    },
                }
            },
            _ => false,
        },
{
    let ghost c0 = *counters;
    let verdict = reverse_classify(frame.as_slice(), cfg, counters);
    let ghost c1 = *counters;
    let ghost p = frame@;
    let (flow, proto, l4_len) = match verdict {
        ReverseVerdict::Tcp(flow) => {
            assert(reverse_stage(p, *cfg) == ReverseStage::Tcp);
            (flow, IPPROTO_TCP, (flow.total_len - flow.ihl_bytes) as u16)
        },
        ReverseVerdict::Udp(flow, udp_len) => {
            assert(reverse_stage(p, *cfg) == ReverseStage::Udp);
            (flow, IPPROTO_UDP, udp_len)
        },
        _ => return (verdict, ReverseOutcome::Pass, None),
    };
    proof {
        match verdict {
            ReverseVerdict::Tcp(f) => {
                assert(f == flow);
                assert(20 <= flow.ihl_bytes <= 60 && p.len() >= ETH_HDR_LEN + flow.ihl_bytes + 20);
            },
            ReverseVerdict::Udp(f, _) => {
                assert(f == flow);
                assert(20 <= flow.ihl_bytes <= 60 && p.len() >= ETH_HDR_LEN + flow.ihl_bytes + 8);
            },
            _ => {},
        }
    }
    let key = crate::abi::nat_lookup_key_from_ipv4(flow.dst_v4, flow.dport, proto);
    let entry = lookup(key);
    let trace = ReverseTrace { key, entry };
    let l = reverse_lookup_step(proto, &flow, entry, now_ns, counters);
    let ghost c2 = *counters;
    let ghost a = positions(reverse_stage_positions(is_ipv4_frame(p), verdict.stage()));
    let ghost b = positions(reverse_lookup_positions(proto, l));
    proof {
        let ls = reverse_lookup_positions(proto, l);
        assert(forall|j: int| 0 <= j < ls.len() ==> 16 <= #[trigger] ls[j] <= 21);
        assert forall|k: int| a.contains(k) implies !b.contains(k) by {
            let sp = reverse_stage_positions(is_ipv4_frame(p), verdict.stage());
            let j = choose|j: int| 0 <= j < sp.len() && #[trigger] sp[j] as int == k;
            if b.contains(k) {
                let i = choose|i: int| 0 <= i < ls.len() && #[trigger] ls[i] as int == k;
                assert(16 <= ls[i] <= 21);
            }
        }
        crate::accounting::lemma_bumped_compose(c0, c1, c2, a, b);
        assert(proto == reverse_proto(verdict));
    }
    let refreshed = match l {
        ReverseLookup::Hit(v) => v,
        _ => return (verdict, ReverseOutcome::NoEntry(l), Some(trace)),
    };
    if proto == IPPROTO_UDP {
        let csum = read_be16(frame.as_slice(), ETH_HDR_LEN + flow.ihl_bytes + 6);
        if csum == 0 {
            bump(counters, UNSUPPORTED_IPV4_UDP_ZERO_CHECKSUM);
            proof {
                let sp = reverse_stage_positions(is_ipv4_frame(p), verdict.stage());
                let ls = reverse_lookup_positions(proto, l);
                let z = set![UNSUPPORTED_IPV4_UDP_ZERO_CHECKSUM as int];
                assert forall|k: int| a.union(b).contains(k) implies !z.contains(k) by {
                    if a.contains(k) {
                        let j = choose|j: int| 0 <= j < sp.len() && #[trigger] sp[j] as int == k;
                    } else {
                        let i = choose|i: int| 0 <= i < ls.len() && #[trigger] ls[i] as int == k;
                    }
                }
                crate::accounting::lemma_bumped_compose(c0, c2, *counters, a.union(b), z);
                assert(a.union(b).union(z) =~= a.union(b).insert(UNSUPPORTED_IPV4_UDP_ZERO_CHECKSUM as int));
            }
            return (verdict, ReverseOutcome::ZeroChecksum { refreshed }, Some(trace));
        }
    }
    let rewrite = match reverse_rewrite(&flow, proto, l4_len, &refreshed, &cfg.prefix96, cfg.bridge_ifindex) {
        Some(rw) => rw,
        None => return (verdict, ReverseOutcome::NoEntry(ReverseLookup::Mismatch), Some(trace)),
    };
    assert(frame@ == p);
    apply_reverse(frame, flow.ihl_bytes, Some(rewrite));
    (verdict, ReverseOutcome::Translated { rewrite, refreshed }, Some(trace))
}

} // verus!
