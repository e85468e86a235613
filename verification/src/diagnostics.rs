//! Diagnostic sample rings and rate-limited failure logging of the dataplane.
use crate::abi::{DbgFwdTcpCsumSample, DbgFwdTcpSample, DbgIpv6Sample};
use vstd::prelude::*;

verus! {

/// One more sample in a ring of `slots` entries whose cursor counts the
/// samples taken so far: the advanced cursor, the sample's sequence number
/// (the advanced cursor itself) and the slot it is written to.
pub fn next_sample(cursor: u32, slots: u32) -> (r: (u32, u32, u32))
    requires
        slots > 0,
    ensures
        r.0 == vstd::wrapping::u32_specs::wrapping_add(cursor, 1),
        r.1 == r.0,
        r.2 == r.1 % slots,
{
    let seq = cursor.wrapping_add(1);
    (seq, seq, seq % slots)
}

/// A destination sample taken at `cursor` in a ring of `slots` entries: the
/// slot written, the sequence number recorded (one more than the cursor) and
/// the advanced cursor.
pub fn dst_sample_slot(cursor: u32, slots: u32) -> (r: (u32, u64, u32))
    requires
        slots > 0,
    ensures
        r.0 == cursor % slots,
        r.1 == cursor + 1,
        r.2 == vstd::wrapping::u32_specs::wrapping_add(cursor, 1),
{
    (cursor % slots, cursor as u64 + 1, cursor.wrapping_add(1))
}

/// The forward-destination sample recorded under `seq`.
pub fn fwd_dst_sample(seq: u64, dst: [u8; 16]) -> (s: DbgIpv6Sample)
    ensures
        s.seq == seq,
        s.dst == dst,
{
    DbgIpv6Sample { seq, dst }
}

/// The forward TCP translation sample recorded under `seq`; the two
/// outcomes are stored as 1 for success and 0 for failure.
pub fn fwd_tcp_sample(
    seq: u32,
    dst6: [u8; 16],
    dst4: [u8; 4],
    dst4_be: u32,
    src4_be: u32,
    tcp_sport: u16,
    tcp_dport: u16,
    nat_insert_ok: bool,
    adjust_room_ok: bool,
) -> (s: DbgFwdTcpSample)
    ensures
        s.seq == seq,
        s.dst6 == dst6,
        s.dst4 == dst4,
        s.dst4_be == dst4_be,
        s.src4_be == src4_be,
        s.tcp_sport == tcp_sport,
        s.tcp_dport == tcp_dport,
        s.nat_insert_ok == if nat_insert_ok { 1u8 } else { 0u8 },
        s.adjust_room_ok == if adjust_room_ok { 1u8 } else { 0u8 },
        s._pad@ == seq![0u8, 0u8, 0u8, 0u8, 0u8, 0u8],
{
    let s = DbgFwdTcpSample {
        seq: seq as u64,
        dst6,
        dst4,
        dst4_be,
        src4_be,
        tcp_sport,
        tcp_dport,
        nat_insert_ok: if nat_insert_ok { 1 } else { 0 },
        adjust_room_ok: if adjust_room_ok { 1 } else { 0 },
        _pad: [0u8; 6],
    };
    assert(s._pad@ =~= seq![0u8, 0u8, 0u8, 0u8, 0u8, 0u8]);
    s
}

/// The checksum-stage sample of a forward TCP translation recorded under `seq`.
pub fn fwd_tcp_csum_sample(
    seq: u32,
    old_check_be: u16,
    after_pseudo_be: u16,
    after_port_be: u16,
    final_check_be: u16,
    old_sport_be: u16,
    new_sport_be: u16,
    src_v4: u32,
    dst_v4: u32,
) -> (s: DbgFwdTcpCsumSample)
    ensures
        s == (DbgFwdTcpCsumSample {
            seq: seq as u64,
            old_check_be,
            after_pseudo_be,
            after_port_be,
            final_check_be,
            old_sport_be,
            new_sport_be,
            _pad: 0,
            src_v4,
            dst_v4,
        }),
{
    DbgFwdTcpCsumSample {
        seq: seq as u64,
        old_check_be,
        after_pseudo_be,
        after_port_be,
        final_check_be,
        old_sport_be,
        new_sport_be,
        _pad: 0,
        src_v4,
        dst_v4,
    }
}

/// Number of protocol-change failures logged per direction.
pub const CHANGE_PROTO_FAIL_LOG_LIMIT: u32 = 3;

/// The failure count after one more failure, and whether this failure is logged.
pub open spec fn change_proto_fail_step(seen: u32) -> (u32, bool) {
    (if seen == u32::MAX { u32::MAX } else { (seen + 1) as u32 }, seen < CHANGE_PROTO_FAIL_LOG_LIMIT)
}

/// Counts one more protocol-change failure in a direction whose count is
/// `seen`, and says whether to log it: only the first few are.
pub fn change_proto_fail_log(seen: u32) -> (r: (u32, bool))
    ensures
        r == change_proto_fail_step(seen),
{
    (seen.saturating_add(1), seen < CHANGE_PROTO_FAIL_LOG_LIMIT)
}

/// The failure count of a direction after `n` failures from zero.
pub open spec fn fail_count_after(n: nat) -> u32 {
    if n >= u32::MAX {
        u32::MAX
    } else {
        n as u32
    }
}

/// Starting from zero, the `n`-th failure of a direction (counting from
/// zero) is logged exactly when `n` is below the limit.
pub proof fn lemma_only_first_failures_logged(n: nat)
    ensures
        change_proto_fail_step(fail_count_after(n)) == (
            fail_count_after(n + 1),
            n < CHANGE_PROTO_FAIL_LOG_LIMIT,
        ),
{
}

} // verus!
