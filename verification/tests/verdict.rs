use natto64::abi::{Nat64Config, V4_POOL_MAX, select_v4_from_pool};
use natto64::verdict::{ForwardVerdict, ReverseVerdict, forward_verdict, reverse_verdict};

const CLIENT: [u8; 16] = [0xfd, 0x00, 0x13, 0x37, 0, 0, 0, 0, 0, 0, 0, 0, 0, 0, 0, 0x64];
const SERVER6: [u8; 16] = [0x00, 0x64, 0xff, 0x9b, 0, 0, 0, 0, 0, 0, 0, 0, 2, 21, 22, 99];
const EXT: u32 = 0xcb00_710a;

fn cfg() -> Nat64Config {
    let mut v4_pool = [0u32; V4_POOL_MAX];
    v4_pool[0] = EXT;
    Nat64Config {
        prefix96: [0x00, 0x64, 0xff, 0x9b, 0, 0, 0, 0, 0, 0, 0, 0],
        v4_pool,
        v4_pool_len: 1,
        bridge_ifindex: 3,
        uplink_ifindex: 4,
        port_min: 20_000,
        port_max: 60_000,
        session_timeout_secs: 0,
        v4_policy: 0,
        _pad: [0; 3],
    }
}

fn ipv6_frame(next_header: u8, l4: &[u8]) -> Vec<u8> {
    let mut f = vec![0u8; 12];
    f.extend_from_slice(&0x86DDu16.to_be_bytes());
    f.extend_from_slice(&[0x60, 0, 0, 0]);
    f.extend_from_slice(&(l4.len() as u16).to_be_bytes());
    f.push(next_header);
    f.push(64);
    f.extend_from_slice(&CLIENT);
    f.extend_from_slice(&SERVER6);
    f.extend_from_slice(l4);
    f
}

fn ipv4_frame(proto: u8, src: u32, dst: u32, l4: &[u8]) -> Vec<u8> {
    let mut f = vec![0u8; 12];
    f.extend_from_slice(&0x0800u16.to_be_bytes());
    f.push(0x45);
    f.push(0);
    f.extend_from_slice(&((20 + l4.len()) as u16).to_be_bytes());
    f.extend_from_slice(&[0, 0, 0, 0, 64, proto, 0, 0]);
    f.extend_from_slice(&src.to_be_bytes());
    f.extend_from_slice(&dst.to_be_bytes());
    f.extend_from_slice(l4);
    f
}

fn ports(sport: u16, dport: u16, len: usize) -> Vec<u8> {
    let mut l4 = vec![0u8; len];
    l4[0..2].copy_from_slice(&sport.to_be_bytes());
    l4[2..4].copy_from_slice(&dport.to_be_bytes());
    l4
}

#[test]
fn forward_accepts_tcp_to_nat64_prefix() {
    let frame = ipv6_frame(6, &ports(45678, 443, 20));
    match forward_verdict(&frame, &cfg()) {
        ForwardVerdict::Tcp(flow) => {
            assert_eq!(flow.info.src, CLIENT);
            assert_eq!(flow.info.dst, SERVER6);
            assert_eq!(flow.info.payload_len, 20);
            assert_eq!(flow.info.l4_abs_offset, 54);
            assert_eq!(flow.remote_v4, u32::from_be_bytes([2, 21, 22, 99]));
            assert_eq!(flow.ext_v4, EXT);
            assert_eq!(Some(flow.ext_v4), select_v4_from_pool(&CLIENT, &cfg()));
        }
        other => panic!("unexpected {other:?}"),
    }
}

#[test]
fn forward_accepts_udp_and_reads_header() {
    let mut l4 = ports(5353, 53, 12);
    l4[4..6].copy_from_slice(&12u16.to_be_bytes());
    let frame = ipv6_frame(17, &l4);
    match forward_verdict(&frame, &cfg()) {
        ForwardVerdict::Udp(flow, udp) => {
            assert_eq!(flow.info.next_header, 17);
            assert_eq!(udp.sport, 5353);
            assert_eq!(udp.dport, 53);
            assert_eq!(udp.len, 12);
        }
        other => panic!("unexpected {other:?}"),
    }
}

#[test]
fn forward_refusals_in_order() {
    assert!(matches!(forward_verdict(&[0u8; 10], &cfg()), ForwardVerdict::Unreadable));
    let mut v4 = ipv6_frame(6, &ports(1, 2, 20));
    v4[12] = 0x08;
    v4[13] = 0x00;
    assert!(matches!(forward_verdict(&v4, &cfg()), ForwardVerdict::NotIpv6));
    let frame = ipv6_frame(6, &[]);
    assert!(matches!(forward_verdict(&frame[..50], &cfg()), ForwardVerdict::Truncated));
    let mut outside = ipv6_frame(6, &ports(1, 2, 20));
    outside[38] = 0x20;
    assert!(matches!(forward_verdict(&outside, &cfg()), ForwardVerdict::OutsidePrefix));
    let ext = ipv6_frame(44, &ports(1, 2, 20));
    assert!(matches!(forward_verdict(&ext, &cfg()), ForwardVerdict::ExtensionHeader));
    let icmp = ipv6_frame(58, &ports(1, 2, 20));
    assert!(matches!(forward_verdict(&icmp, &cfg()), ForwardVerdict::UnsupportedProtocol));
    let mut no_pool = cfg();
    no_pool.v4_pool_len = 0;
    let tcp = ipv6_frame(6, &ports(1, 2, 20));
    assert!(matches!(forward_verdict(&tcp, &no_pool), ForwardVerdict::NoExternalAddress));
    let mut long = ipv6_frame(6, &ports(1, 2, 20));
    long[18..20].copy_from_slice(&1501u16.to_be_bytes());
    assert!(matches!(forward_verdict(&long, &cfg()), ForwardVerdict::TcpTooLong));
    let short_udp = ipv6_frame(17, &[0, 1, 0, 2]);
    assert!(matches!(forward_verdict(&short_udp, &cfg()), ForwardVerdict::UdpTruncated));
    let mut bad_len = ports(1, 2, 8);
    bad_len[4..6].copy_from_slice(&7u16.to_be_bytes());
    let bad_udp = ipv6_frame(17, &bad_len);
    assert!(matches!(forward_verdict(&bad_udp, &cfg()), ForwardVerdict::UdpBadLength));
}

#[test]
fn reverse_accepts_tcp_reply_to_pool_address() {
    let server = u32::from_be_bytes([2, 21, 22, 99]);
    let frame = ipv4_frame(6, server, EXT, &ports(443, 40_000, 20));
    match reverse_verdict(&frame, &cfg()) {
        ReverseVerdict::Tcp(flow) => {
            assert_eq!(flow.src_v4, server);
            assert_eq!(flow.dst_v4, EXT);
            assert_eq!(flow.ihl_bytes, 20);
            assert_eq!(flow.total_len, 40);
            assert_eq!(flow.sport, 443);
            assert_eq!(flow.dport, 40_000);
        }
        other => panic!("unexpected {other:?}"),
    }
}

#[test]
fn reverse_accepts_udp_reply_with_length() {
    let server = u32::from_be_bytes([2, 21, 22, 99]);
    let mut l4 = ports(53, 40_001, 12);
    l4[4..6].copy_from_slice(&12u16.to_be_bytes());
    l4[6..8].copy_from_slice(&0xbeefu16.to_be_bytes());
    let frame = ipv4_frame(17, server, EXT, &l4);
    match reverse_verdict(&frame, &cfg()) {
        ReverseVerdict::Udp(flow, udp_len) => {
            assert_eq!(flow.sport, 53);
            assert_eq!(flow.dport, 40_001);
            assert_eq!(udp_len, 12);
        }
        other => panic!("unexpected {other:?}"),
    }
}

#[test]
fn reverse_refusals() {
    let server = u32::from_be_bytes([2, 21, 22, 99]);
    assert_eq!(reverse_verdict(&[0u8; 13], &cfg()), ReverseVerdict::Unreadable);
    let v6 = ipv6_frame(6, &ports(1, 2, 20));
    assert_eq!(reverse_verdict(&v6, &cfg()), ReverseVerdict::NotIpv4);
    let mut bad_version = ipv4_frame(6, server, EXT, &ports(1, 2, 20));
    bad_version[14] = 0x65;
    assert_eq!(reverse_verdict(&bad_version, &cfg()), ReverseVerdict::Malformed);
    let mut short_ihl = ipv4_frame(6, server, EXT, &ports(1, 2, 20));
    short_ihl[14] = 0x44;
    assert_eq!(reverse_verdict(&short_ihl, &cfg()), ReverseVerdict::Malformed);
    let other_dst = ipv4_frame(6, server, EXT + 1, &ports(1, 2, 20));
    assert_eq!(reverse_verdict(&other_dst, &cfg()), ReverseVerdict::NotInPool);
    let mut frag = ipv4_frame(6, server, EXT, &ports(1, 2, 20));
    frag[20] = 0x20;
    assert_eq!(reverse_verdict(&frag, &cfg()), ReverseVerdict::Fragment);
    let mut dont_fragment = ipv4_frame(6, server, EXT, &ports(1, 2, 20));
    dont_fragment[20] = 0x40;
    assert!(matches!(reverse_verdict(&dont_fragment, &cfg()), ReverseVerdict::Tcp(_)));
    let icmp = ipv4_frame(1, server, EXT, &ports(1, 2, 20));
    assert_eq!(reverse_verdict(&icmp, &cfg()), ReverseVerdict::UnsupportedProtocol);
    let udp_short = ipv4_frame(17, server, EXT, &[0, 1, 0, 2]);
    assert_eq!(reverse_verdict(&udp_short, &cfg()), ReverseVerdict::UdpTruncated);
    let mut overlong = ports(1, 2, 8);
    overlong[4..6].copy_from_slice(&9u16.to_be_bytes());
    let udp_bad = ipv4_frame(17, server, EXT, &overlong);
    assert_eq!(reverse_verdict(&udp_bad, &cfg()), ReverseVerdict::UdpBadLength);
}

#[test]
fn reverse_accepts_udp_without_checksum_for_lookup() {
    let server = u32::from_be_bytes([2, 21, 22, 99]);
    let mut l4 = ports(53, 40_001, 12);
    l4[4..6].copy_from_slice(&12u16.to_be_bytes());
    let frame = ipv4_frame(17, server, EXT, &l4);
    // The missing checksum is refused after the entry lookup, not here.
    assert!(matches!(reverse_verdict(&frame, &cfg()), ReverseVerdict::Udp(_, 12)));
    let seven = ipv4_frame(17, server, EXT, &[0, 53, 0, 1, 0, 8, 0]);
    assert_eq!(reverse_verdict(&seven, &cfg()), ReverseVerdict::UdpTruncated);
}

#[test]
fn tcp_without_a_full_header_is_not_translated() {
    let server = u32::from_be_bytes([2, 21, 22, 99]);
    let short_rev = ipv4_frame(6, server, EXT, &ports(443, 40_000, 8));
    assert_eq!(reverse_verdict(&short_rev, &cfg()), ReverseVerdict::TcpTruncated);
    let short_fwd = ipv6_frame(6, &ports(1, 2, 19));
    assert!(matches!(forward_verdict(&short_fwd, &cfg()), ForwardVerdict::TcpTruncated));
}
