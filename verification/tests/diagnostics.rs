use natto64::abi::{DBG_FWD_DST_SAMPLE_SLOTS, DBG_FWD_TCP_CSUM_SAMPLE_SLOTS};
use natto64::diagnostics::{
    change_proto_fail_log, dst_sample_slot, fwd_dst_sample, fwd_tcp_csum_sample, fwd_tcp_sample,
    next_sample,
};

#[test]
fn sample_ring_advances_and_wraps() {
    assert_eq!(next_sample(0, DBG_FWD_TCP_CSUM_SAMPLE_SLOTS), (1, 1, 1));
    assert_eq!(next_sample(7, 8), (8, 8, 0));
    assert_eq!(next_sample(u32::MAX, 8), (0, 0, 0));
    assert_eq!(dst_sample_slot(0, DBG_FWD_DST_SAMPLE_SLOTS), (0, 1, 1));
    assert_eq!(dst_sample_slot(9, 8), (1, 10, 10));
    assert_eq!(dst_sample_slot(u32::MAX, 8), (7, u64::from(u32::MAX) + 1, 0));
}

#[test]
fn samples_record_their_fields() {
    let s = fwd_dst_sample(5, [7; 16]);
    assert_eq!(s.seq, 5);
    assert_eq!(s.dst, [7; 16]);
    let t = fwd_tcp_sample(3, [1; 16], [2, 21, 22, 99], 0x0215_1663, 0xcb00_710a, 45678, 443, true, false);
    assert_eq!(t.seq, 3);
    assert_eq!(t.dst4, [2, 21, 22, 99]);
    assert_eq!(t.nat_insert_ok, 1);
    assert_eq!(t.adjust_room_ok, 0);
    assert_eq!(t._pad, [0; 6]);
    let c = fwd_tcp_csum_sample(4, 0x1111, 0x2222, 0x3333, 0x4444, 0x5555, 0x6666, 10, 20);
    assert_eq!(c.seq, 4);
    assert_eq!(c.final_check_be, 0x4444);
    assert_eq!(c._pad, 0);
    assert_eq!((c.src_v4, c.dst_v4), (10, 20));
}

#[test]
fn only_first_three_protocol_change_failures_are_logged() {
    let mut seen = 0u32;
    let mut logged = Vec::new();
    for _ in 0..6 {
        let (next, log) = change_proto_fail_log(seen);
        logged.push(log);
        seen = next;
    }
    assert_eq!(logged, vec![true, true, true, false, false, false]);
    assert_eq!(seen, 6);
    assert_eq!(change_proto_fail_log(u32::MAX), (u32::MAX, false));
}
