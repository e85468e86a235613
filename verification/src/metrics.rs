//! Production metrics snapshots summed over the per-CPU dataplane counters.
use crate::abi::ProdCounters;
use vstd::prelude::*;

verus! {

/// Aggregated, process-wide snapshot of cumulative production counters.
///
/// Values are summed across all possible CPUs from the dataplane's production
/// per-CPU counter array. The snapshot is cumulative and reading it does not
/// reset dataplane counters.
#[derive(Clone, Copy, Debug, Default, PartialEq, Eq, Structural)]
pub struct Nat64Metrics {
    /// Packets that entered either NAT64 classifier.
    pub pkts_total: u64,
    /// IPv6 packets observed by the forward classifier.
    pub pkts_ipv6: u64,
    /// IPv4 packets observed by the reverse classifier.
    pub pkts_ipv4: u64,
    /// IPv6 packets whose destination matched the configured NAT64 prefix.
    pub pkts_nat64_dst: u64,
    /// Prefix-matching forward packets carrying TCP.
    pub pkts_nat64_tcp: u64,
    /// Prefix-matching forward packets carrying UDP.
    pub pkts_nat64_udp: u64,
    /// Reverse-path IPv4 packets carrying TCP.
    pub pkts_ipv4_tcp: u64,
    /// Reverse-path IPv4 packets carrying UDP.
    pub pkts_ipv4_udp: u64,
    /// Successful forward TCP translations.
    pub nat64_v6_to_v4_ok: u64,
    /// Successful forward UDP translations.
    pub nat64_v6_to_v4_udp_ok: u64,
    /// Forward translations that failed while writing an IPv4 header.
    pub nat64_v6_to_v4_err_write_hdr: u64,
    /// Forward translations that failed while updating a transport checksum.
    pub nat64_v6_to_v4_err_csum: u64,
    /// Successful reverse TCP translations.
    pub nat64_v4_to_v6_ok: u64,
    /// Successful reverse UDP translations.
    pub nat64_v4_to_v6_udp_ok: u64,
    /// Reverse translations that failed while writing an IPv6 header.
    pub nat64_v4_to_v6_err_write_hdr: u64,
    /// Reverse translations that failed while updating a transport checksum.
    pub nat64_v4_to_v6_err_csum: u64,
    /// Reverse UDP packets with no matching NAT entry.
    pub nat64_v4_to_v6_udp_miss: u64,
    /// Reverse UDP packets whose remote tuple did not match the NAT entry.
    pub nat64_v4_to_v6_udp_tuple_mismatch: u64,
    /// Successful reverse NAT lookups.
    pub nat_lookup_hit: u64,
    /// Reverse NAT lookups that did not produce a usable entry.
    pub nat_lookup_miss: u64,
    /// Reverse TCP lookups rejected because the remote tuple differed.
    pub nat_lookup_tuple_mismatch: u64,
    /// NAT entries successfully refreshed after a reverse-path hit.
    pub nat_hit_refresh_ok: u64,
    /// NAT entries that could not be refreshed after a reverse-path hit.
    pub nat_hit_refresh_err: u64,
    /// Forward flows that reused an existing mapping.
    pub fwd_nat_lookup_hit: u64,
    /// Forward flows that required a new mapping.
    pub fwd_nat_lookup_miss: u64,
    /// Forward-flow mappings inserted successfully.
    pub fwd_nat_insert_ok: u64,
    /// Forward-flow mappings that could not be inserted.
    pub fwd_nat_insert_err: u64,
    /// Forward-flow mappings refreshed successfully.
    pub fwd_nat_refresh_ok: u64,
    /// Forward-flow mappings that could not be refreshed.
    pub fwd_nat_refresh_err: u64,
    /// External port allocations that succeeded.
    pub port_alloc_ok: u64,
    /// External port allocations that failed.
    pub port_alloc_err: u64,
    /// Allocation attempts that exhausted the configured port range.
    pub port_alloc_exhausted: u64,
    /// NAT64-prefix IPv6 packets carrying an unsupported extension header.
    pub unsupported_ipv6_extension_headers: u64,
    /// NAT64-prefix IPv6 packets carrying a protocol other than TCP or UDP.
    pub unsupported_ipv6_non_tcp_udp: u64,
    /// IPv4 fragments addressed to the configured external IPv4 pool.
    pub unsupported_ipv4_fragments: u64,
    /// Pool-addressed IPv4 packets carrying a protocol other than TCP or UDP.
    pub unsupported_ipv4_non_tcp_udp: u64,
    /// Reverse IPv4 UDP packets with matching NAT state that cannot be translated because
    /// their checksum is zero.
    pub unsupported_ipv4_udp_zero_checksum: u64,
    /// Forward translations successfully redirected to the uplink.
    pub fwd_redirect_ok: u64,
    /// Forward redirects that failed or returned a non-redirect action.
    pub fwd_redirect_err: u64,
    /// Reverse translations successfully redirected to the bridge.
    pub rev_redirect_ok: u64,
    /// Reverse redirects that failed or returned a non-redirect action.
    pub rev_redirect_err: u64,
}

/// Number of production counters.
pub open spec fn counter_count() -> int {
    41
}

/// The `k`-th production counter of `c`, in declaration order.
pub open spec fn counter_field(c: ProdCounters, k: int) -> u64 {
    if k == 0 {
        c.pkts_total
    } else if k == 1 {
        c.pkts_ipv6
    } else if k == 2 {
        c.pkts_ipv4
    } else if k == 3 {
        c.pkts_nat64_dst
    } else if k == 4 {
        c.pkts_nat64_tcp
    } else if k == 5 {
        c.pkts_nat64_udp
    } else if k == 6 {
        c.pkts_ipv4_tcp
    } else if k == 7 {
        c.pkts_ipv4_udp
    } else if k == 8 {
        c.nat64_v6_to_v4_ok
    } else if k == 9 {
        c.nat64_v6_to_v4_udp_ok
    } else if k == 10 {
        c.nat64_v6_to_v4_err_write_hdr
    } else if k == 11 {
        c.nat64_v6_to_v4_err_csum
    } else if k == 12 {
        c.nat64_v4_to_v6_ok
    } else if k == 13 {
        c.nat64_v4_to_v6_udp_ok
    } else if k == 14 {
        c.nat64_v4_to_v6_err_write_hdr
    } else if k == 15 {
        c.nat64_v4_to_v6_err_csum
    } else if k == 16 {
        c.nat64_v4_to_v6_udp_miss
    } else if k == 17 {
        c.nat64_v4_to_v6_udp_tuple_mismatch
    } else if k == 18 {
        c.nat_lookup_hit
    } else if k == 19 {
        c.nat_lookup_miss
    } else if k == 20 {
        c.nat_lookup_tuple_mismatch
    } else if k == 21 {
        c.nat_hit_refresh_ok
    } else if k == 22 {
        c.nat_hit_refresh_err
    } else if k == 23 {
        c.fwd_nat_lookup_hit
    } else if k == 24 {
        c.fwd_nat_lookup_miss
    } else if k == 25 {
        c.fwd_nat_insert_ok
    } else if k == 26 {
        c.fwd_nat_insert_err
    } else if k == 27 {
        c.fwd_nat_refresh_ok
    } else if k == 28 {
        c.fwd_nat_refresh_err
    } else if k == 29 {
        c.port_alloc_ok
    } else if k == 30 {
        c.port_alloc_err
    } else if k == 31 {
        c.port_alloc_exhausted
    } else if k == 32 {
        c.unsupported_ipv6_extension_headers
    } else if k == 33 {
        c.unsupported_ipv6_non_tcp_udp
    } else if k == 34 {
        c.unsupported_ipv4_fragments
    } else if k == 35 {
        c.unsupported_ipv4_non_tcp_udp
    } else if k == 36 {
        c.unsupported_ipv4_udp_zero_checksum
    } else if k == 37 {
        c.fwd_redirect_ok
    } else if k == 38 {
        c.fwd_redirect_err
    } else if k == 39 {
        c.rev_redirect_ok
    } else {
        c.rev_redirect_err
    }
}

/// The `k`-th metric of `m`, in declaration order.
pub open spec fn metric_field(m: Nat64Metrics, k: int) -> u64 {
    if k == 0 {
        m.pkts_total
    } else if k == 1 {
        m.pkts_ipv6
    } else if k == 2 {
        m.pkts_ipv4
    } else if k == 3 {
        m.pkts_nat64_dst
    } else if k == 4 {
        m.pkts_nat64_tcp
    } else if k == 5 {
        m.pkts_nat64_udp
    } else if k == 6 {
        m.pkts_ipv4_tcp
    } else if k == 7 {
        m.pkts_ipv4_udp
    } else if k == 8 {
        m.nat64_v6_to_v4_ok
    } else if k == 9 {
        m.nat64_v6_to_v4_udp_ok
    } else if k == 10 {
        m.nat64_v6_to_v4_err_write_hdr
    } else if k == 11 {
        m.nat64_v6_to_v4_err_csum
    } else if k == 12 {
        m.nat64_v4_to_v6_ok
    } else if k == 13 {
        m.nat64_v4_to_v6_udp_ok
    } else if k == 14 {
        m.nat64_v4_to_v6_err_write_hdr
    } else if k == 15 {
        m.nat64_v4_to_v6_err_csum
    } else if k == 16 {
        m.nat64_v4_to_v6_udp_miss
    } else if k == 17 {
        m.nat64_v4_to_v6_udp_tuple_mismatch
    } else if k == 18 {
        m.nat_lookup_hit
    } else if k == 19 {
        m.nat_lookup_miss
    } else if k == 20 {
        m.nat_lookup_tuple_mismatch
    } else if k == 21 {
        m.nat_hit_refresh_ok
    } else if k == 22 {
        m.nat_hit_refresh_err
    } else if k == 23 {
        m.fwd_nat_lookup_hit
    } else if k == 24 {
        m.fwd_nat_lookup_miss
    } else if k == 25 {
        m.fwd_nat_insert_ok
    } else if k == 26 {
        m.fwd_nat_insert_err
    } else if k == 27 {
        m.fwd_nat_refresh_ok
    } else if k == 28 {
        m.fwd_nat_refresh_err
    } else if k == 29 {
        m.port_alloc_ok
    } else if k == 30 {
        m.port_alloc_err
    } else if k == 31 {
        m.port_alloc_exhausted
    } else if k == 32 {
        m.unsupported_ipv6_extension_headers
    } else if k == 33 {
        m.unsupported_ipv6_non_tcp_udp
    } else if k == 34 {
        m.unsupported_ipv4_fragments
    } else if k == 35 {
        m.unsupported_ipv4_non_tcp_udp
    } else if k == 36 {
        m.unsupported_ipv4_udp_zero_checksum
    } else if k == 37 {
        m.fwd_redirect_ok
    } else if k == 38 {
        m.fwd_redirect_err
    } else if k == 39 {
        m.rev_redirect_ok
    } else {
        m.rev_redirect_err
    }
}

/// Exact sum of the `k`-th counter over all per-CPU values.
pub open spec fn counter_sum(values: Seq<ProdCounters>, k: int) -> int
    decreases values.len(),
{
    if values.len() == 0 {
        0
    } else {
        counter_sum(values.drop_last(), k) + counter_field(values.last(), k)
    }
}

/// The `k`-th counter summed over all per-CPU values, capped at `u64::MAX`.
pub open spec fn counter_total(values: Seq<ProdCounters>, k: int) -> int {
    if counter_sum(values, k) > u64::MAX {
        u64::MAX as int
    } else {
        counter_sum(values, k)
    }
}

proof fn lemma_counter_total_step(values: Seq<ProdCounters>, i: int, k: int)
    requires
        0 <= i < values.len(),
    ensures
        counter_total(values.take(i + 1), k) == if counter_total(values.take(i), k) + counter_field(
            values[i],
            k,
        ) > u64::MAX {
            u64::MAX as int
        } else {
            counter_total(values.take(i), k) + counter_field(values[i], k)
        },
{
    assert(values.take(i + 1).drop_last() =~= values.take(i));
    lemma_counter_sum_nonneg(values.take(i), k);
}

proof fn lemma_counter_sum_nonneg(values: Seq<ProdCounters>, k: int)
    ensures
        counter_sum(values, k) >= 0,
    decreases values.len(),
{
    if values.len() > 0 {
        lemma_counter_sum_nonneg(values.drop_last(), k);
    }
}

/// Sums per-CPU production counters into one snapshot; each metric saturates at `u64::MAX`.
pub fn aggregate_prod_counters(values: &[ProdCounters]) -> (metrics: Nat64Metrics)
    ensures
        forall|k: int| 0 <= k < counter_count() ==> #[trigger] metric_field(metrics, k) == counter_total(values@, k),
{
    let mut metrics = Nat64Metrics {
        pkts_total: 0,
        pkts_ipv6: 0,
        pkts_ipv4: 0,
        pkts_nat64_dst: 0,
        pkts_nat64_tcp: 0,
        pkts_nat64_udp: 0,
        pkts_ipv4_tcp: 0,
        pkts_ipv4_udp: 0,
        nat64_v6_to_v4_ok: 0,
        nat64_v6_to_v4_udp_ok: 0,
        nat64_v6_to_v4_err_write_hdr: 0,
        nat64_v6_to_v4_err_csum: 0,
        nat64_v4_to_v6_ok: 0,
        nat64_v4_to_v6_udp_ok: 0,
        nat64_v4_to_v6_err_write_hdr: 0,
        nat64_v4_to_v6_err_csum: 0,
        nat64_v4_to_v6_udp_miss: 0,
        nat64_v4_to_v6_udp_tuple_mismatch: 0,
        nat_lookup_hit: 0,
        nat_lookup_miss: 0,
        nat_lookup_tuple_mismatch: 0,
        nat_hit_refresh_ok: 0,
        nat_hit_refresh_err: 0,
        fwd_nat_lookup_hit: 0,
        fwd_nat_lookup_miss: 0,
        fwd_nat_insert_ok: 0,
        fwd_nat_insert_err: 0,
        fwd_nat_refresh_ok: 0,
        fwd_nat_refresh_err: 0,
        port_alloc_ok: 0,
        port_alloc_err: 0,
        port_alloc_exhausted: 0,
        unsupported_ipv6_extension_headers: 0,
        unsupported_ipv6_non_tcp_udp: 0,
        unsupported_ipv4_fragments: 0,
        unsupported_ipv4_non_tcp_udp: 0,
        unsupported_ipv4_udp_zero_checksum: 0,
        fwd_redirect_ok: 0,
        fwd_redirect_err: 0,
        rev_redirect_ok: 0,
        rev_redirect_err: 0,
    };
    let mut i: usize = 0;
    while i < values.len()
        invariant
            i <= values.len(),
            metrics.pkts_total == counter_total(values@.take(i as int), 0),
            metrics.pkts_ipv6 == counter_total(values@.take(i as int), 1),
            metrics.pkts_ipv4 == counter_total(values@.take(i as int), 2),
            metrics.pkts_nat64_dst == counter_total(values@.take(i as int), 3),
            metrics.pkts_nat64_tcp == counter_total(values@.take(i as int), 4),
            metrics.pkts_nat64_udp == counter_total(values@.take(i as int), 5),
            metrics.pkts_ipv4_tcp == counter_total(values@.take(i as int), 6),
            metrics.pkts_ipv4_udp == counter_total(values@.take(i as int), 7),
            metrics.nat64_v6_to_v4_ok == counter_total(values@.take(i as int), 8),
            metrics.nat64_v6_to_v4_udp_ok == counter_total(values@.take(i as int), 9),
            metrics.nat64_v6_to_v4_err_write_hdr == counter_total(values@.take(i as int), 10),
            metrics.nat64_v6_to_v4_err_csum == counter_total(values@.take(i as int), 11),
            metrics.nat64_v4_to_v6_ok == counter_total(values@.take(i as int), 12),
            metrics.nat64_v4_to_v6_udp_ok == counter_total(values@.take(i as int), 13),
            metrics.nat64_v4_to_v6_err_write_hdr == counter_total(values@.take(i as int), 14),
            metrics.nat64_v4_to_v6_err_csum == counter_total(values@.take(i as int), 15),
            metrics.nat64_v4_to_v6_udp_miss == counter_total(values@.take(i as int), 16),
            metrics.nat64_v4_to_v6_udp_tuple_mismatch == counter_total(values@.take(i as int), 17),
            metrics.nat_lookup_hit == counter_total(values@.take(i as int), 18),
            metrics.nat_lookup_miss == counter_total(values@.take(i as int), 19),
            metrics.nat_lookup_tuple_mismatch == counter_total(values@.take(i as int), 20),
            metrics.nat_hit_refresh_ok == counter_total(values@.take(i as int), 21),
            metrics.nat_hit_refresh_err == counter_total(values@.take(i as int), 22),
            metrics.fwd_nat_lookup_hit == counter_total(values@.take(i as int), 23),
            metrics.fwd_nat_lookup_miss == counter_total(values@.take(i as int), 24),
            metrics.fwd_nat_insert_ok == counter_total(values@.take(i as int), 25),
            metrics.fwd_nat_insert_err == counter_total(values@.take(i as int), 26),
            metrics.fwd_nat_refresh_ok == counter_total(values@.take(i as int), 27),
            metrics.fwd_nat_refresh_err == counter_total(values@.take(i as int), 28),
            metrics.port_alloc_ok == counter_total(values@.take(i as int), 29),
            metrics.port_alloc_err == counter_total(values@.take(i as int), 30),
            metrics.port_alloc_exhausted == counter_total(values@.take(i as int), 31),
            metrics.unsupported_ipv6_extension_headers == counter_total(values@.take(i as int), 32),
            metrics.unsupported_ipv6_non_tcp_udp == counter_total(values@.take(i as int), 33),
            metrics.unsupported_ipv4_fragments == counter_total(values@.take(i as int), 34),
            metrics.unsupported_ipv4_non_tcp_udp == counter_total(values@.take(i as int), 35),
            metrics.unsupported_ipv4_udp_zero_checksum == counter_total(values@.take(i as int), 36),
            metrics.fwd_redirect_ok == counter_total(values@.take(i as int), 37),
            metrics.fwd_redirect_err == counter_total(values@.take(i as int), 38),
            metrics.rev_redirect_ok == counter_total(values@.take(i as int), 39),
            metrics.rev_redirect_err == counter_total(values@.take(i as int), 40),
        decreases values.len() - i,
    {
        let value = values[i];
        proof {
            lemma_counter_total_step(values@, i as int, 0);
            lemma_counter_total_step(values@, i as int, 1);
            lemma_counter_total_step(values@, i as int, 2);
            lemma_counter_total_step(values@, i as int, 3);
            lemma_counter_total_step(values@, i as int, 4);
            lemma_counter_total_step(values@, i as int, 5);
            lemma_counter_total_step(values@, i as int, 6);
            lemma_counter_total_step(values@, i as int, 7);
            lemma_counter_total_step(values@, i as int, 8);
            lemma_counter_total_step(values@, i as int, 9);
            lemma_counter_total_step(values@, i as int, 10);
            lemma_counter_total_step(values@, i as int, 11);
            lemma_counter_total_step(values@, i as int, 12);
            lemma_counter_total_step(values@, i as int, 13);
            lemma_counter_total_step(values@, i as int, 14);
            lemma_counter_total_step(values@, i as int, 15);
            lemma_counter_total_step(values@, i as int, 16);
            lemma_counter_total_step(values@, i as int, 17);
            lemma_counter_total_step(values@, i as int, 18);
            lemma_counter_total_step(values@, i as int, 19);
            lemma_counter_total_step(values@, i as int, 20);
            lemma_counter_total_step(values@, i as int, 21);
            lemma_counter_total_step(values@, i as int, 22);
            lemma_counter_total_step(values@, i as int, 23);
            lemma_counter_total_step(values@, i as int, 24);
            lemma_counter_total_step(values@, i as int, 25);
            lemma_counter_total_step(values@, i as int, 26);
            lemma_counter_total_step(values@, i as int, 27);
            lemma_counter_total_step(values@, i as int, 28);
            lemma_counter_total_step(values@, i as int, 29);
            lemma_counter_total_step(values@, i as int, 30);
            lemma_counter_total_step(values@, i as int, 31);
            lemma_counter_total_step(values@, i as int, 32);
            lemma_counter_total_step(values@, i as int, 33);
            lemma_counter_total_step(values@, i as int, 34);
            lemma_counter_total_step(values@, i as int, 35);
            lemma_counter_total_step(values@, i as int, 36);
            lemma_counter_total_step(values@, i as int, 37);
            lemma_counter_total_step(values@, i as int, 38);
            lemma_counter_total_step(values@, i as int, 39);
            lemma_counter_total_step(values@, i as int, 40);
        }
        metrics.pkts_total = metrics.pkts_total.saturating_add(value.pkts_total);
        metrics.pkts_ipv6 = metrics.pkts_ipv6.saturating_add(value.pkts_ipv6);
        metrics.pkts_ipv4 = metrics.pkts_ipv4.saturating_add(value.pkts_ipv4);
        metrics.pkts_nat64_dst = metrics.pkts_nat64_dst.saturating_add(value.pkts_nat64_dst);
        metrics.pkts_nat64_tcp = metrics.pkts_nat64_tcp.saturating_add(value.pkts_nat64_tcp);
        metrics.pkts_nat64_udp = metrics.pkts_nat64_udp.saturating_add(value.pkts_nat64_udp);
        metrics.pkts_ipv4_tcp = metrics.pkts_ipv4_tcp.saturating_add(value.pkts_ipv4_tcp);
        metrics.pkts_ipv4_udp = metrics.pkts_ipv4_udp.saturating_add(value.pkts_ipv4_udp);
        metrics.nat64_v6_to_v4_ok = metrics.nat64_v6_to_v4_ok.saturating_add(value.nat64_v6_to_v4_ok);
        metrics.nat64_v6_to_v4_udp_ok = metrics.nat64_v6_to_v4_udp_ok.saturating_add(value.nat64_v6_to_v4_udp_ok);
        metrics.nat64_v6_to_v4_err_write_hdr = metrics.nat64_v6_to_v4_err_write_hdr.saturating_add(value.nat64_v6_to_v4_err_write_hdr);
        metrics.nat64_v6_to_v4_err_csum = metrics.nat64_v6_to_v4_err_csum.saturating_add(value.nat64_v6_to_v4_err_csum);
        metrics.nat64_v4_to_v6_ok = metrics.nat64_v4_to_v6_ok.saturating_add(value.nat64_v4_to_v6_ok);
        metrics.nat64_v4_to_v6_udp_ok = metrics.nat64_v4_to_v6_udp_ok.saturating_add(value.nat64_v4_to_v6_udp_ok);
        metrics.nat64_v4_to_v6_err_write_hdr = metrics.nat64_v4_to_v6_err_write_hdr.saturating_add(value.nat64_v4_to_v6_err_write_hdr);
        metrics.nat64_v4_to_v6_err_csum = metrics.nat64_v4_to_v6_err_csum.saturating_add(value.nat64_v4_to_v6_err_csum);
        metrics.nat64_v4_to_v6_udp_miss = metrics.nat64_v4_to_v6_udp_miss.saturating_add(value.nat64_v4_to_v6_udp_miss);
        metrics.nat64_v4_to_v6_udp_tuple_mismatch = metrics.nat64_v4_to_v6_udp_tuple_mismatch.saturating_add(value.nat64_v4_to_v6_udp_tuple_mismatch);
        metrics.nat_lookup_hit = metrics.nat_lookup_hit.saturating_add(value.nat_lookup_hit);
        metrics.nat_lookup_miss = metrics.nat_lookup_miss.saturating_add(value.nat_lookup_miss);
        metrics.nat_lookup_tuple_mismatch = metrics.nat_lookup_tuple_mismatch.saturating_add(value.nat_lookup_tuple_mismatch);
        metrics.nat_hit_refresh_ok = metrics.nat_hit_refresh_ok.saturating_add(value.nat_hit_refresh_ok);
        metrics.nat_hit_refresh_err = metrics.nat_hit_refresh_err.saturating_add(value.nat_hit_refresh_err);
        metrics.fwd_nat_lookup_hit = metrics.fwd_nat_lookup_hit.saturating_add(value.fwd_nat_lookup_hit);
        metrics.fwd_nat_lookup_miss = metrics.fwd_nat_lookup_miss.saturating_add(value.fwd_nat_lookup_miss);
        metrics.fwd_nat_insert_ok = metrics.fwd_nat_insert_ok.saturating_add(value.fwd_nat_insert_ok);
        metrics.fwd_nat_insert_err = metrics.fwd_nat_insert_err.saturating_add(value.fwd_nat_insert_err);
        metrics.fwd_nat_refresh_ok = metrics.fwd_nat_refresh_ok.saturating_add(value.fwd_nat_refresh_ok);
        metrics.fwd_nat_refresh_err = metrics.fwd_nat_refresh_err.saturating_add(value.fwd_nat_refresh_err);
        metrics.port_alloc_ok = metrics.port_alloc_ok.saturating_add(value.port_alloc_ok);
        metrics.port_alloc_err = metrics.port_alloc_err.saturating_add(value.port_alloc_err);
        metrics.port_alloc_exhausted = metrics.port_alloc_exhausted.saturating_add(value.port_alloc_exhausted);
        metrics.unsupported_ipv6_extension_headers = metrics.unsupported_ipv6_extension_headers.saturating_add(value.unsupported_ipv6_extension_headers);
        metrics.unsupported_ipv6_non_tcp_udp = metrics.unsupported_ipv6_non_tcp_udp.saturating_add(value.unsupported_ipv6_non_tcp_udp);
        metrics.unsupported_ipv4_fragments = metrics.unsupported_ipv4_fragments.saturating_add(value.unsupported_ipv4_fragments);
        metrics.unsupported_ipv4_non_tcp_udp = metrics.unsupported_ipv4_non_tcp_udp.saturating_add(value.unsupported_ipv4_non_tcp_udp);
        metrics.unsupported_ipv4_udp_zero_checksum = metrics.unsupported_ipv4_udp_zero_checksum.saturating_add(value.unsupported_ipv4_udp_zero_checksum);
        metrics.fwd_redirect_ok = metrics.fwd_redirect_ok.saturating_add(value.fwd_redirect_ok);
        metrics.fwd_redirect_err = metrics.fwd_redirect_err.saturating_add(value.fwd_redirect_err);
        metrics.rev_redirect_ok = metrics.rev_redirect_ok.saturating_add(value.rev_redirect_ok);
        metrics.rev_redirect_err = metrics.rev_redirect_err.saturating_add(value.rev_redirect_err);
        i += 1;
    }
    assert(values@.take(values.len() as int) =~= values@);
    assert forall|k: int| 0 <= k < counter_count() implies #[trigger] metric_field(metrics, k)
        == counter_total(values@, k) by {
        if k == 0 {
        } else if k == 1 {
        } else if k == 2 {
        } else if k == 3 {
        } else if k == 4 {
        } else if k == 5 {
        } else if k == 6 {
        } else if k == 7 {
        } else if k == 8 {
        } else if k == 9 {
        } else if k == 10 {
        } else if k == 11 {
        } else if k == 12 {
        } else if k == 13 {
        } else if k == 14 {
        } else if k == 15 {
        } else if k == 16 {
        } else if k == 17 {
        } else if k == 18 {
        } else if k == 19 {
        } else if k == 20 {
        } else if k == 21 {
        } else if k == 22 {
        } else if k == 23 {
        } else if k == 24 {
        } else if k == 25 {
        } else if k == 26 {
        } else if k == 27 {
        } else if k == 28 {
        } else if k == 29 {
        } else if k == 30 {
        } else if k == 31 {
        } else if k == 32 {
        } else if k == 33 {
        } else if k == 34 {
        } else if k == 35 {
        } else if k == 36 {
        } else if k == 37 {
        } else if k == 38 {
        } else if k == 39 {
        } else if k == 40 {
        }
    }
    metrics
}

} // verus!
