use natto64::abi::{FwdNatKey, Nat64Config, NatKey, NatVal, PortCooldownRing, ProdCounters, V4_POOL_MAX};
use std::cell::Cell;
use natto64::accounting::{TranslationEnd, bump, count_allocation, count_forward_end, count_redirect, count_reverse_end};
use natto64::dataplane::PortAllocation;
use natto64::metrics::aggregate_prod_counters;
use natto64::steps::{
    ForwardOutcome, MappingWrite, ReverseLookup, ReverseOutcome, SessionExpiry, forward_classify,
    forward_packet, reverse_packet, mapping_step, reverse_classify,
    reverse_lookup_step, session_expiry,
};
use natto64::verdict::{ForwardVerdict, ReverseFlow, ReverseVerdict};

const EXT: u32 = 0xcb00_710a;
const SERVER4: u32 = 0x0215_1663;

fn cfg() -> Nat64Config {
    let mut v4_pool = [0u32; V4_POOL_MAX];
    v4_pool[0] = EXT;
    Nat64Config {
        prefix96: [0x00, 0x64, 0xff, 0x9b, 0, 0, 0, 0, 0, 0, 0, 0],
        v4_pool,
        v4_pool_len: 1,
        bridge_ifindex: 3,
        uplink_ifindex: 4,
        port_min: 20_000,
        port_max: 60_000,
        session_timeout_secs: 0,
        v4_policy: 0,
        _pad: [0; 3],
    }
}

fn ipv6_frame(next_header: u8, l4_len: usize) -> Vec<u8> {
    let mut f = vec![0u8; 12];
    f.extend_from_slice(&0x86DDu16.to_be_bytes());
    f.extend_from_slice(&[0x60, 0, 0, 0]);
    f.extend_from_slice(&(l4_len as u16).to_be_bytes());
    f.push(next_header);
    f.push(64);
    f.extend_from_slice(&[0xfd, 0, 0x13, 0x37, 0, 0, 0, 0, 0, 0, 0, 0, 0, 0, 0, 0x64]);
    f.extend_from_slice(&[0x00, 0x64, 0xff, 0x9b, 0, 0, 0, 0, 0, 0, 0, 0, 2, 21, 22, 99]);
    f.extend_from_slice(&vec![0u8; l4_len]);
    f
}

fn ipv4_frame(proto: u8, flags: u8, l4: &[u8]) -> Vec<u8> {
    let mut f = vec![0u8; 12];
    f.extend_from_slice(&0x0800u16.to_be_bytes());
    f.push(0x45);
    f.push(0);
    f.extend_from_slice(&((20 + l4.len()) as u16).to_be_bytes());
    f.extend_from_slice(&[0, 0, flags, 0, 64, proto, 0, 0]);
    f.extend_from_slice(&SERVER4.to_be_bytes());
    f.extend_from_slice(&EXT.to_be_bytes());
    f.extend_from_slice(l4);
    f
}

fn metrics(c: &ProdCounters) -> natto64::metrics::Nat64Metrics {
    aggregate_prod_counters(&[*c])
}

#[test]
fn bump_saturates() {
    let mut c = ProdCounters { pkts_total: u64::MAX, ..Default::default() };
    bump(&mut c, 0);
    bump(&mut c, 40);
    assert_eq!(c.pkts_total, u64::MAX);
    assert_eq!(c.rev_redirect_err, 1);
}

#[test]
fn forward_pass_through_moves_only_packet_counters() {
    let mut c = ProdCounters::default();
    let mut not_v6 = ipv6_frame(6, 20);
    not_v6[12] = 0x08;
    not_v6[13] = 0x00;
    assert!(matches!(forward_classify(&not_v6, &cfg(), &mut c), ForwardVerdict::NotIpv6));
    assert_eq!((c.pkts_total, c.pkts_ipv6, c.pkts_nat64_dst), (1, 0, 0));

    let mut outside = ipv6_frame(6, 20);
    outside[38] = 0x20;
    assert!(matches!(forward_classify(&outside, &cfg(), &mut c), ForwardVerdict::OutsidePrefix));
    assert_eq!((c.pkts_total, c.pkts_ipv6, c.pkts_nat64_dst), (2, 1, 0));
    let m = metrics(&c);
    assert_eq!(m.unsupported_ipv6_extension_headers + m.unsupported_ipv6_non_tcp_udp, 0);
}

#[test]
fn forward_unsupported_next_headers_are_told_apart() {
    let mut c = ProdCounters::default();
    assert!(matches!(forward_classify(&ipv6_frame(44, 20), &cfg(), &mut c), ForwardVerdict::ExtensionHeader));
    assert!(matches!(
        forward_classify(&ipv6_frame(58, 20), &cfg(), &mut c),
        ForwardVerdict::UnsupportedProtocol
    ));
    assert_eq!(c.unsupported_ipv6_extension_headers, 1);
    assert_eq!(c.unsupported_ipv6_non_tcp_udp, 1);
    assert_eq!(c.pkts_nat64_dst, 2);
}

#[test]
fn forward_tcp_counts_and_truncated_tcp_is_an_error() {
    let mut c = ProdCounters::default();
    assert!(matches!(forward_classify(&ipv6_frame(6, 20), &cfg(), &mut c), ForwardVerdict::Tcp(_)));
    assert!(matches!(forward_classify(&ipv6_frame(6, 8), &cfg(), &mut c), ForwardVerdict::TcpTruncated));
    assert_eq!(c.pkts_nat64_tcp, 2);
    assert_eq!(c.nat64_v6_to_v4_err_csum, 1);
}

#[test]
fn reverse_fragment_and_unsupported_counters() {
    let mut c = ProdCounters::default();
    assert_eq!(reverse_classify(&ipv4_frame(6, 0x20, &[0; 20]), &cfg(), &mut c), ReverseVerdict::Fragment);
    assert_eq!(
        reverse_classify(&ipv4_frame(1, 0, &[0; 20]), &cfg(), &mut c),
        ReverseVerdict::UnsupportedProtocol
    );
    let mut udp = [0u8; 12];
    udp[4..6].copy_from_slice(&12u16.to_be_bytes());
    // A missing UDP checksum is only refused once the reply's entry is found.
    assert!(matches!(reverse_classify(&ipv4_frame(17, 0, &udp), &cfg(), &mut c), ReverseVerdict::Udp(_, 12)));
    assert_eq!(c.unsupported_ipv4_fragments, 1);
    assert_eq!(c.unsupported_ipv4_non_tcp_udp, 1);
    assert_eq!(c.unsupported_ipv4_udp_zero_checksum, 0);
    assert_eq!(c.pkts_ipv4_udp, 1);
    assert_eq!((c.pkts_total, c.pkts_ipv4), (3, 3));
    let short = [0u8; 10];
    assert_eq!(reverse_classify(&short, &cfg(), &mut c), ReverseVerdict::Unreadable);
    assert_eq!((c.pkts_total, c.pkts_ipv4), (4, 3));
}

#[test]
fn allocation_outcomes_are_counted() {
    let mut c = ProdCounters::default();
    count_allocation(&mut c, PortAllocation::Exhausted);
    assert_eq!((c.port_alloc_exhausted, c.port_alloc_err, c.port_alloc_ok), (1, 1, 0));
    count_allocation(&mut c, PortAllocation::Allocated(20_001));
    assert_eq!(c.port_alloc_ok, 1);
}

#[test]
fn existing_mapping_is_reused_and_refreshed() {
    let mut c = ProdCounters::default();
    let r = mapping_step(Some((EXT, 40_000, 7)), 0x0a00_0001, PortAllocation::Allocated(1), 9, true, 300, true, 55, &mut c);
    assert_eq!(
        r,
        (Some((EXT, 40_000, 7)), MappingWrite::Refresh { last_seen_ns: 55, observed_last_seen_ns: 0 })
    );
    assert_eq!((c.fwd_nat_lookup_hit, c.fwd_nat_refresh_ok, c.fwd_nat_lookup_miss), (1, 1, 0));
}

#[test]
fn new_mapping_outcomes() {
    let mut c = ProdCounters::default();
    let r = mapping_step(None, EXT, PortAllocation::Allocated(30_000), 9, true, 300, true, 55, &mut c);
    assert_eq!(r, (Some((EXT, 30_000, 9)), MappingWrite::Keep));
    assert_eq!((c.fwd_nat_lookup_miss, c.port_alloc_ok, c.fwd_nat_insert_ok), (1, 1, 1));

    let r = mapping_step(None, EXT, PortAllocation::Exhausted, 9, true, 300, true, 55, &mut c);
    assert_eq!(r, (None, MappingWrite::Nothing));
    assert_eq!((c.port_alloc_exhausted, c.port_alloc_err), (1, 1));

    let r = mapping_step(None, EXT, PortAllocation::Allocated(30_001), 9, false, 300, true, 55, &mut c);
    assert_eq!(r, (None, MappingWrite::Nothing));
    assert_eq!(c.fwd_nat_insert_err, 1);

    let r = mapping_step(None, EXT, PortAllocation::Allocated(30_002), 9, true, 300, false, 55, &mut c);
    assert_eq!(r, (None, MappingWrite::Remove));
    assert_eq!(c.fwd_nat_insert_err, 2);

    // Without session expiry no timer is needed.
    let r = mapping_step(None, EXT, PortAllocation::Allocated(30_003), 9, true, 0, false, 55, &mut c);
    assert_eq!(r, (Some((EXT, 30_003, 9)), MappingWrite::Keep));
}

#[test]
fn reverse_lookup_outcomes() {
    let flow = ReverseFlow { src_v4: SERVER4, dst_v4: EXT, ihl_bytes: 20, total_len: 40, sport: 443, dport: 40_000 };
    let entry = NatVal::new_forward([7; 16], 45_678, SERVER4, 443, 5);
    let mut c = ProdCounters::default();
    match reverse_lookup_step(6, &flow, Some(entry), 99, &mut c) {
        ReverseLookup::Hit(v) => {
            assert_eq!(v.last_seen_ns, 99);
            assert_eq!(v.vm_port, 45_678);
        }
        _ => panic!("expected a hit"),
    }
    assert_eq!((c.nat_lookup_hit, c.nat_hit_refresh_ok), (1, 1));

    let wrong = NatVal::new_forward([7; 16], 45_678, SERVER4, 444, 5);
    assert!(matches!(reverse_lookup_step(6, &flow, Some(wrong), 99, &mut c), ReverseLookup::Mismatch));
    assert_eq!((c.nat_lookup_hit, c.nat_lookup_tuple_mismatch, c.nat_lookup_miss), (2, 1, 1));
    assert!(matches!(reverse_lookup_step(6, &flow, None, 99, &mut c), ReverseLookup::Miss));
    assert_eq!(c.nat_lookup_miss, 2);

    let mut u = ProdCounters::default();
    assert!(matches!(reverse_lookup_step(17, &flow, Some(wrong), 99, &mut u), ReverseLookup::Mismatch));
    assert!(matches!(reverse_lookup_step(17, &flow, None, 99, &mut u), ReverseLookup::Miss));
    assert!(matches!(reverse_lookup_step(17, &flow, Some(entry), 99, &mut u), ReverseLookup::Hit(_)));
    assert_eq!(
        (u.nat64_v4_to_v6_udp_tuple_mismatch, u.nat64_v4_to_v6_udp_miss, u.nat_hit_refresh_ok, u.nat_lookup_hit),
        (1, 1, 1, 0)
    );
}

#[test]
fn translation_ends_and_redirects_are_counted() {
    let mut c = ProdCounters::default();
    count_reverse_end(&mut c, 17, TranslationEnd::Translated);
    count_forward_end(&mut c, 17, TranslationEnd::NatInsertFailed);
    count_forward_end(&mut c, 6, TranslationEnd::NatInsertFailed);
    count_forward_end(&mut c, 6, TranslationEnd::Translated);
    count_reverse_end(&mut c, 6, TranslationEnd::HeaderWriteFailed);
    count_redirect(&mut c, true, true);
    count_redirect(&mut c, false, false);
    assert_eq!(c.nat64_v4_to_v6_udp_ok, 1);
    assert_eq!(c.nat64_v6_to_v4_udp_ok, 1);
    assert_eq!(c.nat64_v6_to_v4_ok, 1);
    assert_eq!(c.nat64_v4_to_v6_err_write_hdr, 1);
    assert_eq!((c.fwd_redirect_ok, c.rev_redirect_err), (1, 1));
}

#[test]
fn session_expiry_removes_reverse_entry_only_for_its_generation() {
    assert_eq!(session_expiry(100, 300, 100, 100, Some(7), 7), SessionExpiry::Expire { remove_reverse: true });
    assert_eq!(session_expiry(100, 300, 100, 100, Some(8), 7), SessionExpiry::Expire { remove_reverse: false });
    assert_eq!(session_expiry(100, 300, 100, 100, None, 7), SessionExpiry::Expire { remove_reverse: false });
    assert_eq!(session_expiry(100, 300, 100, 250, Some(7), 7), SessionExpiry::Keep { delay_ns: 50 });
}

fn tcp_frame() -> Vec<u8> {
    let mut f = ipv6_frame(6, 20);
    f[54..56].copy_from_slice(&45678u16.to_be_bytes());
    f[56..58].copy_from_slice(&443u16.to_be_bytes());
    f[66] = 5 << 4;
    f
}

#[test]
fn forward_packet_passes_untranslatable_frames_untouched() {
    let mut frame = ipv6_frame(58, 20);
    let before = frame.clone();
    let mut c = ProdCounters::default();
    let mut cursor = 7u32;
    let mut ring = Some(PortCooldownRing::default());
    let stored = Cell::new(0u32);
    let (_, outcome, trace) = forward_packet(
        &mut frame, &cfg(), &mut c, &mut cursor, &mut ring,
        &|_: FwdNatKey| None, &|_: NatKey| false,
        &|_: FwdNatKey, _: u32, _: u16, _: u32, _: u64| { stored.set(stored.get() + 1); true },
        &|_: FwdNatKey| true, 1, 2,
    );
    assert!(matches!(outcome, ForwardOutcome::Pass));
    assert!(trace.is_none());
    assert_eq!(frame, before);
    assert_eq!(cursor, 7);
    assert_eq!(stored.get(), 0);
    assert_eq!(c.unsupported_ipv6_non_tcp_udp, 1);
}

#[test]
fn forward_packet_translates_with_a_new_mapping() {
    let mut frame = tcp_frame();
    let mut c = ProdCounters::default();
    let mut cursor = 0u32;
    let mut ring = Some(PortCooldownRing::default());
    let stored = Cell::new(None);
    let (_, outcome, trace) = forward_packet(
        &mut frame, &cfg(), &mut c, &mut cursor, &mut ring,
        &|_: FwdNatKey| None, &|_: NatKey| false,
        &|_: FwdNatKey, a: u32, p: u16, g: u32, t: u64| { stored.set(Some((a, p, g, t))); true },
        &|_: FwdNatKey| true, 9, 100,
    );
    match outcome {
        ForwardOutcome::Translated { rewrite, mapping } => {
            assert_eq!(mapping, MappingWrite::Keep);
            assert_eq!(stored.get(), Some((EXT, 20_001, 9, 100)));
            assert_eq!(rewrite.nat_key.ext_port, 20_001);
            assert_eq!(rewrite.nat_val.vm_port, 45678);
            assert_eq!(rewrite.nat_val.last_seen_ns, 100);
        }
        _ => panic!("expected a translation"),
    }
    let t = trace.expect("a mapping step was taken");
    assert_eq!(t.existing, None);
    assert_eq!(t.allocation, PortAllocation::Allocated(20_001));
    assert!(t.inserted && t.armed);
    assert_eq!((t.key.vm_port, t.key.remote_port, t.key.remote_v4, t.key.proto), (45678, 443, SERVER4, 6));
    assert_eq!(t.key.vm_v6, CLIENT);
    assert_eq!(frame.len(), 14 + 20 + 20);
    assert_eq!(&frame[12..14], &[0x08, 0x00]);
    assert_eq!(&frame[34..36], &20_001u16.to_be_bytes());
    assert_eq!((c.fwd_nat_lookup_miss, c.port_alloc_ok, c.fwd_nat_insert_ok), (1, 1, 1));
}

#[test]
fn forward_packet_reuses_existing_mapping() {
    let mut frame = tcp_frame();
    let mut c = ProdCounters::default();
    let mut cursor = 0u32;
    let mut ring = Some(PortCooldownRing::default());
    let (_, outcome, trace) = forward_packet(
        &mut frame, &cfg(), &mut c, &mut cursor, &mut ring,
        &|_: FwdNatKey| Some((EXT, 33_333, 4)), &|_: NatKey| false,
        &|_: FwdNatKey, _: u32, _: u16, _: u32, _: u64| true,
        &|_: FwdNatKey| true, 9, 100,
    );
    match outcome {
        ForwardOutcome::Translated { rewrite, mapping } => {
            assert_eq!(mapping, MappingWrite::Refresh { last_seen_ns: 100, observed_last_seen_ns: 0 });
            assert_eq!(rewrite.new_sport, 33_333);
            assert_eq!(rewrite.nat_key.ext_port, 33_333);
            assert_eq!(rewrite.nat_val.generation, 4);
        }
        _ => panic!("expected a translation"),
    }
    let t = trace.expect("a mapping step was taken");
    assert_eq!(t.existing, Some((EXT, 33_333, 4)));
    assert_eq!((c.fwd_nat_lookup_hit, c.fwd_nat_refresh_ok, c.port_alloc_ok), (1, 1, 0));
    assert_eq!(cursor, 0);
    assert_eq!(&frame[34..36], &33_333u16.to_be_bytes());
}

#[test]
fn forward_packet_without_free_port_leaves_frame() {
    let mut frame = tcp_frame();
    let before = frame.clone();
    let mut c = ProdCounters::default();
    let mut cursor = 0u32;
    let mut ring = Some(PortCooldownRing::default());
    let (_, outcome, trace) = forward_packet(
        &mut frame, &cfg(), &mut c, &mut cursor, &mut ring,
        &|_: FwdNatKey| None, &|_: NatKey| true,
        &|_: FwdNatKey, _: u32, _: u16, _: u32, _: u64| true,
        &|_: FwdNatKey| true, 9, 100,
    );
    assert!(matches!(outcome, ForwardOutcome::NoMapping(MappingWrite::Nothing)));
    assert_eq!(trace.expect("a mapping step was taken").allocation, PortAllocation::Exhausted);
    assert_eq!(frame, before);
    assert_eq!((c.fwd_nat_lookup_miss, c.port_alloc_exhausted, c.port_alloc_err), (1, 1, 1));
}

const CLIENT: [u8; 16] = [0xfd, 0, 0x13, 0x37, 0, 0, 0, 0, 0, 0, 0, 0, 0, 0, 0, 0x64];

fn udp_reply() -> (Vec<u8>, [u8; 12]) {
    let mut udp = [0u8; 12];
    udp[0..2].copy_from_slice(&53u16.to_be_bytes());
    udp[2..4].copy_from_slice(&30_000u16.to_be_bytes());
    udp[4..6].copy_from_slice(&12u16.to_be_bytes());
    udp[8..12].copy_from_slice(&[1, 2, 3, 4]);
    let check = natto64::checksum::udp_checksum_ipv4(SERVER4, EXT, &udp);
    udp[6..8].copy_from_slice(&check.to_be_bytes());
    (ipv4_frame(17, 0, &udp), udp)
}

#[test]
fn reverse_packet_passes_fragments_untouched() {
    let mut frame = ipv4_frame(6, 0x20, &[0; 20]);
    let before = frame.clone();
    let mut c = ProdCounters::default();
    let (_, outcome, trace) = reverse_packet(&mut frame, &cfg(), &mut c, &|_: NatKey| None, 5);
    assert!(matches!(outcome, ReverseOutcome::Pass));
    assert!(trace.is_none());
    assert_eq!(frame, before);
    assert_eq!(c.unsupported_ipv4_fragments, 1);
}

#[test]
fn reverse_packet_mismatch_leaves_frame_and_entry() {
    let (mut frame, _) = udp_reply();
    let before = frame.clone();
    let mut c = ProdCounters::default();
    let other = NatVal::new_forward(CLIENT, 5353, SERVER4 + 1, 53, 0);
    let (_, outcome, trace) = reverse_packet(&mut frame, &cfg(), &mut c, &|_: NatKey| Some(other), 5);
    assert!(matches!(outcome, ReverseOutcome::NoEntry(ReverseLookup::Mismatch)));
    assert!(matches!(trace, Some(t) if t.entry.is_some()));
    assert_eq!(frame, before);
    assert_eq!(c.nat64_v4_to_v6_udp_tuple_mismatch, 1);
}

#[test]
fn reverse_packet_translates_udp_reply() {
    let (mut frame, udp) = udp_reply();
    let mut c = ProdCounters::default();
    let entry = NatVal::new_forward(CLIENT, 5353, SERVER4, 53, 0);
    let looked_up = Cell::new(None);
    let (_, outcome, trace) = reverse_packet(
        &mut frame,
        &cfg(),
        &mut c,
        &|k: NatKey| { looked_up.set(Some(k)); Some(entry) },
        77,
    );
    assert_eq!(looked_up.get(), Some(NatKey { ext_v4: EXT, ext_port: 30_000, proto: 17, _pad: 0 }));
    assert_eq!(trace.expect("the entry was looked up").key, NatKey { ext_v4: EXT, ext_port: 30_000, proto: 17, _pad: 0 });
    match outcome {
        ReverseOutcome::Translated { refreshed, .. } => assert_eq!(refreshed.last_seen_ns, 77),
        _ => panic!("expected a translation"),
    }
    let server6 = [0x00, 0x64, 0xff, 0x9b, 0, 0, 0, 0, 0, 0, 0, 0, 2, 21, 22, 99];
    assert_eq!(frame.len(), 14 + 40 + 12);
    assert_eq!(&frame[12..14], &[0x86, 0xdd]);
    assert_eq!(&frame[22..38], &server6);
    assert_eq!(&frame[38..54], &CLIENT);
    let mut expected = udp;
    expected[2..4].copy_from_slice(&5353u16.to_be_bytes());
    let full = natto64::checksum::udp_checksum_ipv6(&server6, &CLIENT, &expected);
    assert_eq!(&frame[54..60], &expected[0..6]);
    assert_eq!(&frame[60..62], &full.to_be_bytes());
    assert_eq!(c.nat_hit_refresh_ok, 1);
}

#[test]
fn reverse_packet_refreshes_but_refuses_udp_without_checksum() {
    let (mut frame, _) = udp_reply();
    frame[14 + 20 + 6] = 0;
    frame[14 + 20 + 7] = 0;
    let before = frame.clone();
    let mut c = ProdCounters::default();
    let entry = NatVal::new_forward(CLIENT, 5353, SERVER4, 53, 0);
    let (_, outcome, _) = reverse_packet(&mut frame, &cfg(), &mut c, &|_: NatKey| Some(entry), 88);
    match outcome {
        ReverseOutcome::ZeroChecksum { refreshed } => {
            assert_eq!(refreshed.last_seen_ns, 88);
            assert_eq!(refreshed.vm_port, 5353);
        }
        _ => panic!("expected the datagram to be refused"),
    }
    assert_eq!(frame, before);
    assert_eq!((c.nat_hit_refresh_ok, c.unsupported_ipv4_udp_zero_checksum, c.pkts_ipv4_udp), (1, 1, 1));
    assert_eq!(c.nat64_v4_to_v6_udp_miss, 0);

    // Without an entry the datagram is a miss, whatever its checksum.
    let mut miss = before.clone();
    let mut m = ProdCounters::default();
    let (_, outcome, _) = reverse_packet(&mut miss, &cfg(), &mut m, &|_: NatKey| None, 88);
    assert!(matches!(outcome, ReverseOutcome::NoEntry(ReverseLookup::Miss)));
    assert_eq!((m.nat64_v4_to_v6_udp_miss, m.unsupported_ipv4_udp_zero_checksum), (1, 0));
}
