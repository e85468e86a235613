use natto64::abi::{Nat64Config, NatKey, PortCooldownRing, V4_POOL_MAX};

const EXT4: u32 = 0xcb00_710a;
use natto64::checksum::checksum16;
use natto64::dataplane::{
    FwdDstClass, PortAllocation, SessionTimerCheck, alloc_port, classify_fwd_dst, cooldown_contains,
    cooldown_push, fallback_config, fold_u32_fixed, ipv4_header_checksum_20b_local, ipv4_header_for_payload,
    ipv6_header_for_payload, latest_activity, prefix96_matches, reverse_activity,
    select_v4_from_pool_fixed, session_expiry_recheck, session_timeout_ns, session_timer_check,
    timer_delay, v4_in_pool,
};
use natto64::abi::select_v4_from_pool;

fn cfg_with_pool(pool: &[u32]) -> Nat64Config {
    let mut v4_pool = [0u32; V4_POOL_MAX];
    v4_pool[..pool.len()].copy_from_slice(pool);
    Nat64Config {
        prefix96: [0x00, 0x64, 0xff, 0x9b, 0, 0, 0, 0, 0, 0, 0, 0],
        v4_pool,
        v4_pool_len: pool.len() as u32,
        bridge_ifindex: 3,
        uplink_ifindex: 4,
        port_min: 20_000,
        port_max: 60_000,
        session_timeout_secs: 300,
        v4_policy: 0,
        _pad: [0; 3],
    }
}

#[test]
fn fold_u32_fixed_folds_carries() {
    assert_eq!(fold_u32_fixed(0), 0);
    assert_eq!(fold_u32_fixed(0x0001_0000), 1);
    assert_eq!(fold_u32_fixed(0x0001_ffff), 1);
    assert_eq!(fold_u32_fixed(0xffff_ffff), 0xffff);
    assert_eq!(fold_u32_fixed(0x1234), 0x1234);
}

#[test]
fn local_header_checksum_matches_generic_one() {
    let mut hdr = [0u8; 20];
    hdr[0] = 0x45;
    hdr[2..4].copy_from_slice(&40u16.to_be_bytes());
    hdr[8] = 64;
    hdr[9] = 6;
    hdr[12..16].copy_from_slice(&[192, 0, 2, 1]);
    hdr[16..20].copy_from_slice(&[198, 51, 100, 2]);
    let local = ipv4_header_checksum_20b_local(&hdr);
    assert_eq!(local, natto64::checksum::ipv4_header_checksum_20b(&hdr));
    hdr[10..12].copy_from_slice(&local.to_be_bytes());
    assert_eq!(checksum16(&hdr), 0xffff);
}

#[test]
fn translated_ipv4_header_has_fixed_fields() {
    let hdr = ipv4_header_for_payload(20, 0xcb00_710a, 0xc633_6402, 6).expect("fits");
    assert_eq!(hdr[0], 0x45);
    assert_eq!(&hdr[2..4], &40u16.to_be_bytes());
    assert_eq!(&hdr[4..8], &[0, 0, 0, 0]);
    assert_eq!(hdr[8], 64);
    assert_eq!(hdr[9], 6);
    assert_eq!(&hdr[12..16], &[203, 0, 113, 10]);
    assert_eq!(&hdr[16..20], &[198, 51, 100, 2]);
    assert_eq!(checksum16(&hdr), 0xffff);
    assert!(ipv4_header_for_payload(u16::MAX - 19, 1, 2, 17).is_none());
    assert!(ipv4_header_for_payload(u16::MAX - 20, 1, 2, 17).is_some());
}

#[test]
fn translated_ipv6_header_has_fixed_fields() {
    let src = [0x11u8; 16];
    let dst = [0x22u8; 16];
    let hdr = ipv6_header_for_payload(1200, 17, &src, &dst);
    assert_eq!(&hdr[0..4], &[0x60, 0, 0, 0]);
    assert_eq!(&hdr[4..6], &1200u16.to_be_bytes());
    assert_eq!(hdr[6], 17);
    assert_eq!(hdr[7], 64);
    assert_eq!(&hdr[8..24], &src);
    assert_eq!(&hdr[24..40], &dst);
}

#[test]
fn classifies_forward_destinations() {
    let mut nat64 = [0u8; 16];
    nat64[..4].copy_from_slice(&[0x00, 0x64, 0xff, 0x9b]);
    assert_eq!(classify_fwd_dst(&nat64), FwdDstClass::Nat64Prefix);
    let mut mcast = [0u8; 16];
    mcast[0] = 0xff;
    assert_eq!(classify_fwd_dst(&mcast), FwdDstClass::Multicast);
    let mut ll = [0u8; 16];
    ll[0] = 0xfe;
    ll[1] = 0x80;
    assert_eq!(classify_fwd_dst(&ll), FwdDstClass::LinkLocal);
    let mut global = [0u8; 16];
    global[0] = 0x20;
    global[1] = 0x01;
    assert_eq!(classify_fwd_dst(&global), FwdDstClass::GlobalNonNat64);
    let mut ula = [0u8; 16];
    ula[0] = 0xfd;
    assert_eq!(classify_fwd_dst(&ula), FwdDstClass::Other);
}

#[test]
fn prefix_match_compares_first_twelve_bytes() {
    let prefix = [0x00, 0x64, 0xff, 0x9b, 0, 0, 0, 0, 0, 0, 0, 0];
    let mut addr = [0u8; 16];
    addr[..12].copy_from_slice(&prefix);
    addr[12..].copy_from_slice(&[1, 2, 3, 4]);
    assert!(prefix96_matches(&addr, &prefix));
    addr[11] = 1;
    assert!(!prefix96_matches(&addr, &prefix));
}

#[test]
fn pool_membership_respects_active_length() {
    let cfg = cfg_with_pool(&[0xc633_640a, 0xc633_640b]);
    assert!(v4_in_pool(0xc633_640a, &cfg));
    assert!(v4_in_pool(0xc633_640b, &cfg));
    assert!(!v4_in_pool(0xc633_640c, &cfg));
    assert!(!v4_in_pool(0, &cfg));
    let mut empty = cfg;
    empty.v4_pool_len = 0;
    assert!(!v4_in_pool(0xc633_640a, &empty));
    let mut oversized = cfg;
    oversized.v4_pool_len = 17;
    assert!(!v4_in_pool(0xc633_640a, &oversized));
}

#[test]
fn fixed_selection_agrees_with_indexed_selection() {
    let cfg = cfg_with_pool(&[0xc633_640a, 0xc633_640b, 0xc633_640c, 0xc633_640d]);
    for last in 0u8..32 {
        let mut vm = [0x20, 0x01, 0x0d, 0xb8, 0, 0, 0, 0, 0, 0, 0, 0, 0, 0, 0, 0];
        vm[15] = last;
        let fixed = select_v4_from_pool_fixed(&vm, &cfg);
        assert_eq!(fixed, select_v4_from_pool(&vm, &cfg));
        assert!(v4_in_pool(fixed.expect("selected"), &cfg));
    }
    let mut empty = cfg;
    empty.v4_pool_len = 0;
    assert_eq!(select_v4_from_pool_fixed(&[0; 16], &empty), None);
}

#[test]
fn fnv1a_selection_of_known_address() {
    // FNV-1a over sixteen zero bytes, reduced modulo the pool length.
    let cfg = cfg_with_pool(&[10, 11, 12]);
    let mut hash: u32 = 0x811c_9dc5;
    for _ in 0..16 {
        hash ^= 0;
        hash = hash.wrapping_mul(0x0100_0193);
    }
    let expected = [10u32, 11, 12][(hash % 3) as usize];
    assert_eq!(select_v4_from_pool(&[0; 16], &cfg), Some(expected));
}

#[test]
fn cooldown_ring_records_and_wraps() {
    let mut ring = PortCooldownRing::default();
    assert!(cooldown_contains(&ring, 0));
    assert!(!cooldown_contains(&ring, 20_001));
    cooldown_push(&mut ring, 20_001);
    assert_eq!(ring.idx, 1);
    assert_eq!(ring.ports[0], 20_001);
    assert!(cooldown_contains(&ring, 20_001));
    for p in 0..64u16 {
        cooldown_push(&mut ring, 30_000 + p);
    }
    assert_eq!(ring.idx, 65);
    assert_eq!(ring.ports[0], 30_063);
    assert!(!cooldown_contains(&ring, 20_001));
    ring.idx = u32::MAX;
    cooldown_push(&mut ring, 7);
    assert_eq!(ring.idx, 0);
    assert_eq!(ring.ports[(u32::MAX as usize) % 64], 7);
}

#[test]
fn alloc_port_takes_next_free_candidate() {
    let mut cursor = 0u32;
    let mut ring = Some(PortCooldownRing::default());
    let free = |_: NatKey| false;
    let outcome = alloc_port(20_000, 20_009, EXT4, 6, &mut cursor, &mut ring, &free);
    // First candidate: cursor 1 -> 20_000 + 1 % 10.
    assert_eq!(outcome, PortAllocation::Allocated(20_001));
    assert_eq!(cursor, 1);
    let r = ring.expect("ring kept");
    assert_eq!(r.ports[0], 20_001);
    assert_eq!(r.idx, 1);
}

#[test]
fn alloc_port_skips_cooling_and_used_ports() {
    let mut cursor = 0u32;
    let mut base = PortCooldownRing::default();
    cooldown_push(&mut base, 20_001);
    let mut ring = Some(base);
    // 20_002 is taken for TCP on this address; 20_003 only for UDP.
    let in_use = |k: NatKey| {
        k.ext_v4 == EXT4 && ((k.proto == 6 && k.ext_port == 20_002) || (k.proto == 17 && k.ext_port == 20_003))
    };
    let outcome = alloc_port(20_000, 20_009, EXT4, 6, &mut cursor, &mut ring, &in_use);
    assert_eq!(outcome, PortAllocation::Allocated(20_003));
    assert_eq!(cursor, 3);
}

#[test]
fn alloc_port_without_ring_still_allocates() {
    let mut cursor = 9u32;
    let mut ring: Option<PortCooldownRing> = None;
    let free = |_: NatKey| false;
    let outcome = alloc_port(20_000, 20_009, EXT4, 6, &mut cursor, &mut ring, &free);
    assert_eq!(outcome, PortAllocation::Allocated(20_000));
    assert_eq!(cursor, 10);
    assert!(ring.is_none());
}

#[test]
fn alloc_port_refuses_empty_range_and_reports_exhaustion() {
    let mut cursor = 5u32;
    let mut ring = Some(PortCooldownRing::default());
    let free = |_: NatKey| false;
    assert_eq!(
        alloc_port(20_001, 20_000, EXT4, 6, &mut cursor, &mut ring, &free),
        PortAllocation::InvalidRange
    );
    assert_eq!(cursor, 5);
    let all_used = |_: NatKey| true;
    assert_eq!(
        alloc_port(20_000, 20_009, EXT4, 6, &mut cursor, &mut ring, &all_used),
        PortAllocation::Exhausted
    );
    assert_eq!(cursor, 21);
}

#[test]
fn alloc_port_cursor_wraps() {
    let mut cursor = u32::MAX;
    let mut ring: Option<PortCooldownRing> = None;
    let free = |_: NatKey| false;
    assert_eq!(
        alloc_port(1000, 1001, EXT4, 6, &mut cursor, &mut ring, &free),
        PortAllocation::Allocated(1000)
    );
    assert_eq!(cursor, 0);
}

#[test]
fn session_timer_decisions() {
    assert_eq!(session_timeout_ns(0), 0);
    assert_eq!(session_timeout_ns(300), 300_000_000_000);
    assert_eq!(session_timeout_ns(u32::MAX), u64::from(u32::MAX) * 1_000_000_000);
    assert_eq!(timer_delay(0), 1);
    assert_eq!(timer_delay(5), 5);
    assert_eq!(reverse_activity(Some((7, 100)), 7), 100);
    assert_eq!(reverse_activity(Some((8, 100)), 7), 0);
    assert_eq!(reverse_activity(None, 7), 0);
    assert_eq!(latest_activity(10, 20), 20);
    assert_eq!(latest_activity(30, 20), 30);

    assert_eq!(session_timer_check(0, 100, 0, 0), SessionTimerCheck::Disabled);
    assert_eq!(
        session_timer_check(100, 150, 100, 0),
        SessionTimerCheck::Active { delay_ns: 50 }
    );
    // A clock reading earlier than the activity counts as no time elapsed.
    assert_eq!(
        session_timer_check(100, 50, 100, 0),
        SessionTimerCheck::Active { delay_ns: 100 }
    );
    assert_eq!(
        session_timer_check(100, 300, 100, 0),
        SessionTimerCheck::Confirm { latest_ns: 100 }
    );
    assert_eq!(session_timer_check(100, 300, 100, 100), SessionTimerCheck::Recheck);

    assert_eq!(session_expiry_recheck(100, 300, 100, 100), None);
    assert_eq!(session_expiry_recheck(100, 300, 100, 250), Some(50));
    assert_eq!(session_expiry_recheck(100, 300, 100, 150), Some(0));
}

#[test]
fn fallback_config_uses_documentation_defaults() {
    let cfg = fallback_config();
    assert_eq!(cfg.prefix96, [0x00, 0x64, 0xff, 0x9b, 0, 0, 0, 0, 0, 0, 0, 0]);
    assert_eq!(cfg.v4_pool[0].to_be_bytes(), [203, 0, 113, 10]);
    assert_eq!(cfg.v4_pool_len, 1);
    assert_eq!((cfg.port_min, cfg.port_max), (20_000, 60_000));
    assert_eq!(cfg.session_timeout_secs, 0);
    assert_eq!((cfg.bridge_ifindex, cfg.uplink_ifindex), (0, 0));
    assert_eq!(select_v4_from_pool(&[0x42; 16], &cfg), Some(0xcb00_710a));
}

#[test]
fn alloc_port_allocates_a_single_port_range() {
    let mut cursor = 0u32;
    let mut ring = Some(PortCooldownRing::default());
    let free = |_: NatKey| false;
    assert_eq!(
        alloc_port(20_000, 20_000, EXT4, 6, &mut cursor, &mut ring, &free),
        PortAllocation::Allocated(20_000)
    );
    assert_eq!(cursor, 1);
    // Once the only port cools down, the range is exhausted.
    assert_eq!(
        alloc_port(20_000, 20_000, EXT4, 6, &mut cursor, &mut ring, &free),
        PortAllocation::Exhausted
    );
}
