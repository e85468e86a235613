//! Data shared between the userspace control plane and the packet dataplane:
//! configuration, flow keys and values, counters, and the helpers that build
//! them.
use crate::checksum::{pseudo_header_v4, pseudo_header_v6};
use crate::wire::{be32, write_u16_be, write_u32_be};
use vstd::prelude::*;

verus! {

/// Maximum number of external IPv4 addresses in a NAT64 pool.
pub const V4_POOL_MAX: usize = 16;

/// Number of recently used ports retained by each cooldown ring.
pub const COOLDOWN_SIZE: usize = 64;

/// Key used for the single entry in the dataplane configuration map.
pub const CONFIG_KEY: u32 = 0;

/// Compatibility alias for [`CONFIG_KEY`].
pub const CONFIG_KEY_PREFIX: u32 = CONFIG_KEY;

/// Selects an external IPv4 address by hashing the originating IPv6 address.
pub const V4_SELECT_POLICY_HASH_VM_V6: u8 = 0;

/// Number of forward-destination samples retained for diagnostics.
pub const DBG_FWD_DST_SAMPLE_SLOTS: u32 = 8;

/// Number of forward TCP translation samples retained for diagnostics.
pub const DBG_FWD_TCP_SAMPLE_SLOTS: u32 = 8;

/// Number of forward TCP checksum samples retained for diagnostics.
pub const DBG_FWD_TCP_CSUM_SAMPLE_SLOTS: u32 = 8;

/// A 96-bit NAT64 prefix stored in wire byte order.
#[derive(Clone, Copy)]
pub struct Nat64Prefix {
    /// The first 96 bits of the NAT64 prefix in network byte order.
    pub bytes: [u8; 12],
}

/// Runtime configuration shared between userspace and the dataplane.
#[derive(Clone, Copy)]
pub struct Nat64Config {
    /// The /96 destination prefix recognized by the forward translator.
    pub prefix96: [u8; 12],
    /// External IPv4 addresses in big-endian numeric form.
    pub v4_pool: [u32; V4_POOL_MAX],
    /// Number of active entries in [`Self::v4_pool`].
    pub v4_pool_len: u32,
    /// Interface index used for reverse-path redirects toward IPv6 clients.
    pub bridge_ifindex: u32,
    /// Interface index used for forward-path redirects toward IPv4 networks.
    pub uplink_ifindex: u32,
    /// Lowest external transport port available to the allocator, inclusive.
    pub port_min: u16,
    /// Highest external transport port available to the allocator, inclusive.
    pub port_max: u16,
    /// Idle session timeout in seconds, or zero to disable expiration.
    pub session_timeout_secs: u32,
    /// External IPv4 selection policy identifier.
    pub v4_policy: u8,
    /// Reserved padding that must be initialized to zero.
    pub _pad: [u8; 3],
}

/// Diagnostic sample of a forward-path IPv6 destination.
#[derive(Clone, Copy, Default)]
pub struct DbgIpv6Sample {
    /// Monotonic sample sequence number.
    pub seq: u64,
    /// Observed IPv6 destination address in network byte order.
    pub dst: [u8; 16],
}

/// Diagnostic sample captured during a forward TCP translation.
#[derive(Clone, Copy, Default)]
pub struct DbgFwdTcpSample {
    /// Monotonic sample sequence number.
    pub seq: u64,
    /// Original IPv6 destination address.
    pub dst6: [u8; 16],
    /// IPv4 destination bytes extracted from the NAT64 address.
    pub dst4: [u8; 4],
    /// Extracted IPv4 destination in big-endian numeric form.
    pub dst4_be: u32,
    /// Selected external IPv4 source in big-endian numeric form.
    pub src4_be: u32,
    /// Original TCP source port in host byte order.
    pub tcp_sport: u16,
    /// Original TCP destination port in host byte order.
    pub tcp_dport: u16,
    /// Nonzero when the reverse NAT entry was inserted successfully.
    pub nat_insert_ok: u8,
    /// Nonzero when the packet header-size adjustment succeeded.
    pub adjust_room_ok: u8,
    /// Reserved padding that must be initialized to zero.
    pub _pad: [u8; 6],
}

/// Diagnostic sample of the incremental TCP checksum update stages.
#[derive(Clone, Copy, Default)]
pub struct DbgFwdTcpCsumSample {
    /// Monotonic sample sequence number.
    pub seq: u64,
    /// TCP checksum before translation, in wire byte order.
    pub old_check_be: u16,
    /// Checksum after replacing the IP pseudo-header contribution.
    pub after_pseudo_be: u16,
    /// Checksum after replacing the translated source port.
    pub after_port_be: u16,
    /// Checksum stored in the translated packet.
    pub final_check_be: u16,
    /// Original TCP source port in wire byte order.
    pub old_sport_be: u16,
    /// Translated TCP source port in wire byte order.
    pub new_sport_be: u16,
    /// Reserved padding that must be initialized to zero.
    pub _pad: u16,
    /// Translated IPv4 source address in big-endian numeric form.
    pub src_v4: u32,
    /// Translated IPv4 destination address in big-endian numeric form.
    pub dst_v4: u32,
}

/// Operational counters exported by the NAT64 dataplane.
#[derive(Clone, Copy, Default)]
pub struct ProdCounters {
    /// Packets that entered either NAT64 classifier.
    pub pkts_total: u64,
    /// IPv6 packets observed by the forward classifier.
    pub pkts_ipv6: u64,
    /// IPv4 packets observed by the reverse classifier.
    pub pkts_ipv4: u64,
    /// IPv6 packets whose destination matched the configured NAT64 prefix.
    pub pkts_nat64_dst: u64,
    /// Prefix-matching forward packets carrying TCP.
    pub pkts_nat64_tcp: u64,
    /// Prefix-matching forward packets carrying UDP.
    pub pkts_nat64_udp: u64,
    /// Reverse-path IPv4 packets carrying TCP.
    pub pkts_ipv4_tcp: u64,
    /// Reverse-path IPv4 packets carrying UDP.
    pub pkts_ipv4_udp: u64,
    /// Successful forward TCP translations.
    pub nat64_v6_to_v4_ok: u64,
    /// Successful forward UDP translations.
    pub nat64_v6_to_v4_udp_ok: u64,
    /// Forward translations that failed while writing an IPv4 header.
    pub nat64_v6_to_v4_err_write_hdr: u64,
    /// Forward translations that failed while updating a transport checksum.
    pub nat64_v6_to_v4_err_csum: u64,
    /// Successful reverse TCP translations.
    pub nat64_v4_to_v6_ok: u64,
    /// Successful reverse UDP translations.
    pub nat64_v4_to_v6_udp_ok: u64,
    /// Reverse translations that failed while writing an IPv6 header.
    pub nat64_v4_to_v6_err_write_hdr: u64,
    /// Reverse translations that failed while updating a transport checksum.
    pub nat64_v4_to_v6_err_csum: u64,
    /// Reverse UDP packets with no matching NAT entry.
    pub nat64_v4_to_v6_udp_miss: u64,
    /// Reverse UDP packets whose remote tuple did not match the NAT entry.
    pub nat64_v4_to_v6_udp_tuple_mismatch: u64,
    /// Successful reverse NAT lookups.
    pub nat_lookup_hit: u64,
    /// Reverse NAT lookups that did not produce a usable entry.
    pub nat_lookup_miss: u64,
    /// Reverse TCP lookups rejected because the remote tuple differed.
    pub nat_lookup_tuple_mismatch: u64,
    /// NAT entries successfully refreshed after a reverse-path hit.
    pub nat_hit_refresh_ok: u64,
    /// NAT entries that could not be refreshed after a reverse-path hit.
    pub nat_hit_refresh_err: u64,
    /// Forward flows that reused an existing mapping.
    pub fwd_nat_lookup_hit: u64,
    /// Forward flows that required a new mapping.
    pub fwd_nat_lookup_miss: u64,
    /// Forward-flow mappings inserted successfully.
    pub fwd_nat_insert_ok: u64,
    /// Forward-flow mappings that could not be inserted.
    pub fwd_nat_insert_err: u64,
    /// Forward-flow mappings refreshed successfully.
    pub fwd_nat_refresh_ok: u64,
    /// Forward-flow mappings that could not be refreshed.
    pub fwd_nat_refresh_err: u64,
    /// External port allocations that succeeded.
    pub port_alloc_ok: u64,
    /// External port allocations that failed.
    pub port_alloc_err: u64,
    /// Allocation attempts that exhausted the configured port range.
    pub port_alloc_exhausted: u64,
    /// NAT64-prefix IPv6 packets carrying an unsupported extension header.
    pub unsupported_ipv6_extension_headers: u64,
    /// NAT64-prefix IPv6 packets carrying a protocol other than TCP or UDP.
    pub unsupported_ipv6_non_tcp_udp: u64,
    /// IPv4 fragments addressed to the configured external IPv4 pool.
    pub unsupported_ipv4_fragments: u64,
    /// Pool-addressed IPv4 packets carrying a protocol other than TCP or UDP.
    pub unsupported_ipv4_non_tcp_udp: u64,
    /// Reverse IPv4 UDP packets with matching NAT state that cannot be translated because
    /// their checksum is zero.
    pub unsupported_ipv4_udp_zero_checksum: u64,
    /// Forward translations successfully redirected to the uplink.
    pub fwd_redirect_ok: u64,
    /// Forward redirects that failed or returned a non-redirect action.
    pub fwd_redirect_err: u64,
    /// Reverse translations successfully redirected to the bridge.
    pub rev_redirect_ok: u64,
    /// Reverse redirects that failed or returned a non-redirect action.
    pub rev_redirect_err: u64,
}

/// Detailed branch and error counters exported for diagnostics.
#[derive(Clone, Copy, Default)]
pub struct DebugCounters {
    /// Forward-classifier invocations.
    pub dbg_fwd_enter: u64,
    /// Forward packets with an IPv6 Ethernet type.
    pub dbg_fwd_eth_ipv6: u64,
    /// Forward IPv6 destinations matching the configured prefix.
    pub dbg_fwd_nat64_prefix_match: u64,
    /// Forward packets entering the TCP translation branch.
    pub dbg_fwd_tcp_branch: u64,
    /// Forward packets entering the UDP translation branch.
    pub dbg_fwd_udp_branch: u64,
    /// Forward packets ending in a successful redirect.
    pub dbg_fwd_return_ok: u64,
    /// Forward packets ending without a successful redirect.
    pub dbg_fwd_return_err: u64,
    /// Reverse-classifier invocations.
    pub dbg_rev_enter: u64,
    /// Reverse packets with an IPv4 Ethernet type.
    pub dbg_rev_eth_ipv4: u64,
    /// Reverse IPv4 destinations matching the configured address pool.
    pub dbg_rev_pool_match: u64,
    /// Reverse packets ending in a successful redirect.
    pub dbg_rev_return_ok: u64,
    /// Reverse packets ending without a successful redirect.
    pub dbg_rev_return_err: u64,
    /// IPv6 base headers parsed successfully.
    pub pkts_ipv6_parsed_ok: u64,
    /// IPv6 packets skipped because an extension header was present.
    pub pkts_ipv6_ext_hdr: u64,
    /// IPv6 packets skipped because the next header was not TCP or UDP.
    pub pkts_ipv6_non_tcp_udp: u64,
    /// Forward IPv6 packets identified as UDP.
    pub pkts_udp: u64,
    /// Reverse IPv4 TCP packets addressed to the external pool.
    pub pkts_ipv4_to_v4src: u64,
    /// Reverse NAT entries inserted successfully.
    pub nat_insert_ok: u64,
    /// Reverse NAT entries that could not be inserted.
    pub nat_insert_err: u64,
    /// Reverse UDP NAT entries inserted successfully.
    pub nat_insert_udp_ok: u64,
    /// Reverse UDP NAT entries that could not be inserted.
    pub nat_insert_udp_err: u64,
    /// External port candidates examined by the allocator.
    pub port_alloc_probe: u64,
    /// Port candidates rejected because a NAT entry already used them.
    pub port_alloc_collide: u64,
    /// Port candidates skipped because they were in the cooldown ring.
    pub cooldown_skip: u64,
    /// Cooldown matches that caused the allocator to continue probing.
    pub cooldown_probe_more: u64,
    /// Allocated ports added to the cooldown ring successfully.
    pub cooldown_push_ok: u64,
    /// Allocated ports that could not be added to the cooldown ring.
    pub cooldown_push_err: u64,
    /// Sampled destinations classified as matching the NAT64 prefix.
    pub dbg_fwd_dst_nat64_prefix: u64,
    /// Sampled global destinations outside the NAT64 prefix.
    pub dbg_fwd_dst_global_non_nat64: u64,
    /// Sampled link-local IPv6 destinations.
    pub dbg_fwd_dst_link_local: u64,
    /// Sampled multicast IPv6 destinations.
    pub dbg_fwd_dst_multicast: u64,
    /// Sampled IPv6 destinations not covered by another class.
    pub dbg_fwd_dst_other: u64,
    /// Forward TCP packets that failed transport-header parsing.
    pub dbg_fwd_tcp_parse_err: u64,
    /// Forward packets for which the embedded IPv4 address was unusable.
    pub dbg_fwd_embedded_v4_extract_err: u64,
    /// Forward TCP packets that failed reverse-entry insertion.
    pub dbg_fwd_nat_insert_err: u64,
    /// Forward packets that failed protocol or header-size adjustment.
    pub dbg_fwd_adjust_room_err: u64,
    /// Forward packets that failed a packet-byte write.
    pub dbg_fwd_store_bytes_err: u64,
    /// Forward packets that failed IPv4 header construction.
    pub dbg_fwd_write_ipv4_err: u64,
    /// Forward packets that failed a transport-checksum update.
    pub dbg_fwd_l4_csum_err: u64,
    /// Forward checksum updates that failed at the pseudo-header stage.
    pub dbg_fwd_l4_csum_pseudo_err: u64,
    /// Forward checksum updates that failed at the port-rewrite stage.
    pub dbg_fwd_l4_csum_port_err: u64,
    /// Forward TCP checksum samples recorded successfully.
    pub dbg_fwd_tcp_csum_sample_ok: u64,
    /// Forward TCP checksum samples that could not be recorded.
    pub dbg_fwd_tcp_csum_sample_err: u64,
    /// Forward packets that failed during final redirect handling.
    pub dbg_fwd_redirect_or_return_err: u64,
    /// Packet protocol-family changes that succeeded.
    pub proto_change_ok: u64,
    /// Packet protocol-family changes that failed.
    pub proto_change_err: u64,
    /// Forward TCP translations that failed changing to IPv4.
    pub nat64_v6_to_v4_err_change_proto: u64,
    /// Forward TCP translations that failed updating the Ethernet type.
    pub nat64_v6_to_v4_err_l2_store: u64,
    /// Forward UDP packets that failed header parsing.
    pub nat64_v6_to_v4_udp_err_parse: u64,
    /// Forward UDP packets rejected because of an invalid length.
    pub nat64_v6_to_v4_udp_err_len: u64,
    /// Forward UDP translations that failed changing to IPv4.
    pub nat64_v6_to_v4_udp_err_change_proto: u64,
    /// Forward UDP translations that failed updating the Ethernet type.
    pub nat64_v6_to_v4_udp_err_l2_store: u64,
    /// Forward UDP translations that failed writing the translated source port.
    pub nat64_v6_to_v4_udp_err_udp_store: u64,
    /// Forward UDP translations that failed updating the checksum.
    pub nat64_v6_to_v4_udp_err_csum: u64,
    /// IPv4 source-address rewrites that succeeded.
    pub rewrite_v4_src_ok: u64,
    /// IPv4 source-address rewrites that failed.
    pub rewrite_v4_src_err: u64,
    /// TCP source-port rewrites that succeeded.
    pub rewrite_tcp_sport_ok: u64,
    /// TCP source-port rewrites that failed.
    pub rewrite_tcp_sport_err: u64,
    /// Reverse TCP translations that failed changing to IPv6.
    pub nat64_v4_to_v6_err_change_proto: u64,
    /// Reverse TCP translations that failed updating the Ethernet type.
    pub nat64_v4_to_v6_err_l2_store: u64,
    /// Reverse UDP packets that failed IPv4 or UDP parsing.
    pub nat64_v4_to_v6_udp_err_parse: u64,
    /// Reverse UDP packets rejected because of an invalid length.
    pub nat64_v4_to_v6_udp_err_len: u64,
    /// Reverse UDP translations that failed changing to IPv6.
    pub nat64_v4_to_v6_udp_err_change_proto: u64,
    /// Reverse UDP translations that failed updating the Ethernet type.
    pub nat64_v4_to_v6_udp_err_l2_store: u64,
    /// Reverse UDP translations that failed restoring the destination port.
    pub nat64_v4_to_v6_udp_err_dport_store: u64,
    /// Reverse UDP translations that failed updating the checksum.
    pub nat64_v4_to_v6_udp_err_csum: u64,
    /// Reverse IPv4 UDP packets rejected because their checksum was zero.
    pub nat64_v4_to_v6_udp_zero_csum_unsupported: u64,
    /// TCP destination-port rewrites that succeeded.
    pub rewrite_tcp_dport_ok: u64,
    /// TCP destination-port rewrites that failed.
    pub rewrite_tcp_dport_err: u64,
    /// Attempts to capture a forward TCP checksum sample.
    pub dbg_fwd_tcp_csum_sample_attempt: u64,
    /// Forward packets fully rewritten before redirect processing.
    pub fwd_rewrite_ok_before_redirect: u64,
    /// Reverse packets fully rewritten before redirect processing.
    pub rev_rewrite_ok_before_redirect: u64,
}

/// Per-CPU ring of recently allocated external ports.
#[derive(Clone, Copy)]
pub struct PortCooldownRing {
    /// Index where the next allocated port will be written.
    pub idx: u32,
    /// Recently allocated external ports.
    pub ports: [u16; COOLDOWN_SIZE],
}

impl Default for PortCooldownRing {
    fn default() -> (ring: Self)
        ensures
            ring.idx == 0,
            forall|i: int| 0 <= i < COOLDOWN_SIZE ==> ring.ports@[i] == 0,
    {
        PortCooldownRing { idx: 0, ports: [0u16; 64] }
    }
}

/// Reverse-lookup key for a translated flow.
#[derive(Clone, Copy, Default, Debug, PartialEq, Eq, Structural)]
pub struct NatKey {
    /// External IPv4 address in big-endian numeric form.
    pub ext_v4: u32,
    /// External transport port in host byte order.
    pub ext_port: u16,
    /// IP protocol number, such as 6 for TCP or 17 for UDP.
    pub proto: u8,
    /// Reserved padding that must be initialized to zero.
    pub _pad: u8,
}

/// Reverse-lookup state for a translated flow.
#[derive(Clone, Copy, Default)]
pub struct NatVal {
    /// Original IPv6 client address.
    pub vm_v6: [u8; 16],
    /// Original client transport port in host byte order.
    pub vm_port: u16,
    /// Original remote IPv4 address in big-endian numeric form.
    pub remote_v4: u32,
    /// Original remote transport port in host byte order.
    pub remote_port: u16,
    /// Reserved padding that must be initialized to zero.
    pub _pad: u16,
    /// Random identifier that distinguishes reused external tuples.
    pub generation: u32,
    /// Monotonic timestamp of the most recent validated packet, in nanoseconds.
    pub last_seen_ns: u64,
}

/// Forward-flow key used to preserve an existing NAT mapping.
#[derive(Clone, Copy, Debug, Default, PartialEq, Eq, Hash)]
pub struct FwdNatKey {
    /// Originating IPv6 client address.
    pub vm_v6: [u8; 16],
    /// Remote IPv4 address in big-endian numeric form.
    pub remote_v4: u32,
    /// Originating client port in host byte order.
    pub vm_port: u16,
    /// Remote transport port in host byte order.
    pub remote_port: u16,
    /// IP protocol number, such as 6 for TCP or 17 for UDP.
    pub proto: u8,
    /// Reserved padding that must be initialized to zero.
    pub _pad: [u8; 3],
}

/// Forward-flow state associated with a [`FwdNatKey`].
#[derive(Clone, Copy, Debug, Default, PartialEq, Eq, Structural)]
pub struct FwdNatVal {
    /// Selected external IPv4 address in big-endian numeric form.
    pub ext_v4: u32,
    /// Allocated external transport port in host byte order.
    pub ext_port: u16,
    /// Reserved padding that must be initialized to zero.
    pub _pad: u16,
    /// Monotonic timestamp of the most recent forward packet, in nanoseconds.
    pub last_seen_ns: u64,
}

impl NatKey {
    /// Creates a reverse-lookup key from an external address, port, and IP protocol.
    pub fn new_forward(ext_v4_be: u32, ext_port_host: u16, proto: u8) -> (key: Self)
        ensures
            key == (NatKey { ext_v4: ext_v4_be, ext_port: ext_port_host, proto, _pad: 0 }),
    {
        Self { ext_v4: ext_v4_be, ext_port: ext_port_host, proto, _pad: 0 }
    }
}

impl NatVal {
    /// Creates reverse-lookup state for a newly translated forward flow.
    pub fn new_forward(
        vm_v6: [u8; 16],
        vm_port_host: u16,
        remote_v4_be: u32,
        remote_port_host: u16,
        last_seen_ns: u64,
    ) -> (val: Self)
        ensures
            val == (NatVal {
                vm_v6,
                vm_port: vm_port_host,
                remote_v4: remote_v4_be,
                remote_port: remote_port_host,
                _pad: 0,
                generation: 0,
                last_seen_ns,
            }),
    {
        Self {
            vm_v6,
            vm_port: vm_port_host,
            remote_v4: remote_v4_be,
            remote_port: remote_port_host,
            _pad: 0,
            generation: 0,
            last_seen_ns,
        }
    }

    /// Creates reverse-lookup state with an explicit session generation.
    pub fn new_forward_with_generation(
        vm_v6: [u8; 16],
        vm_port_host: u16,
        remote_v4_be: u32,
        remote_port_host: u16,
        generation: u32,
        last_seen_ns: u64,
    ) -> (val: Self)
        ensures
            val == (NatVal {
                vm_v6,
                vm_port: vm_port_host,
                remote_v4: remote_v4_be,
                remote_port: remote_port_host,
                _pad: 0,
                generation,
                last_seen_ns,
            }),
    {
        Self {
            vm_v6,
            vm_port: vm_port_host,
            remote_v4: remote_v4_be,
            remote_port: remote_port_host,
            _pad: 0,
            generation,
            last_seen_ns,
        }
    }
}

/// The IPv4 address embedded in the low 32 bits of an IPv6 address, in big-endian numeric form.
pub open spec fn embedded_v4(dst: Seq<u8>) -> int {
    be32(dst[12], dst[13], dst[14], dst[15])
}

/// Extracts the embedded IPv4 address from the low 32 bits of a /96 NAT64 destination.
pub fn nat64_embedded_v4_be(dst: &[u8; 16]) -> (v4: u32)
    ensures
        v4 == embedded_v4(dst@),
{
    (((dst[12] as u32) * 256 + (dst[13] as u32)) * 256 + (dst[14] as u32)) * 256 + (dst[15] as u32)
}

/// Extracts the embedded IPv4 address bytes from a /96 NAT64 destination.
pub fn nat64_embedded_v4_bytes(dst: &[u8; 16]) -> (bytes: [u8; 4])
    ensures
        bytes@ == dst@.subrange(12, 16),
{
    let bytes = [dst[12], dst[13], dst[14], dst[15]];
    assert(bytes@ =~= dst@.subrange(12, 16));
    bytes
}

/// Offset basis of the 32-bit FNV-1a hash.
pub open spec fn fnv1a_basis() -> u32 {
    0x811c_9dc5
}

/// Multiplier of the 32-bit FNV-1a hash.
pub open spec fn fnv1a_prime() -> u32 {
    0x0100_0193
}

/// 32-bit FNV-1a hash of a byte sequence.
pub open spec fn fnv1a(s: Seq<u8>) -> u32
    decreases s.len(),
{
    if s.len() == 0 {
        fnv1a_basis()
    } else {
        vstd::wrapping::u32_specs::wrapping_mul(fnv1a(s.drop_last()) ^ (s.last() as u32), fnv1a_prime())
    }
}

/// The external IPv4 address that the hash policy selects for a client, if the pool is usable.
pub open spec fn pool_selection(vm_v6: Seq<u8>, cfg: Nat64Config) -> Option<u32> {
    if cfg.v4_pool_len == 0 || cfg.v4_pool_len > V4_POOL_MAX {
        None
    } else {
        Some(cfg.v4_pool@[(fnv1a(vm_v6) % cfg.v4_pool_len) as int])
    }
}

pub(crate) fn fnv1a_hash(bytes: &[u8; 16]) -> (hash: u32)
    ensures
        hash == fnv1a(bytes@),
{
    let mut hash: u32 = 0x811c_9dc5;
    let mut i: usize = 0;
    while i < 16
        invariant
            i <= 16,
            hash == fnv1a(bytes@.take(i as int)),
        decreases 16 - i,
    {
        assert(bytes@.take(i + 1).drop_last() =~= bytes@.take(i as int));
        hash ^= bytes[i] as u32;
        hash = hash.wrapping_mul(0x0100_0193);
        i += 1;
    }
    assert(bytes@.take(16) =~= bytes@);
    hash
}

/// Selects an external IPv4 address deterministically for an originating IPv6 address.
pub fn select_v4_from_pool(vm_v6: &[u8; 16], cfg: &Nat64Config) -> (selected: Option<u32>)
    ensures
        selected == pool_selection(vm_v6@, *cfg),
{
    if cfg.v4_pool_len == 0 || cfg.v4_pool_len > V4_POOL_MAX as u32 {
        return None;
    }
    let hash = fnv1a_hash(vm_v6);
    let idx = (hash % cfg.v4_pool_len) as usize;
    Some(cfg.v4_pool[idx])
}

/// Whatever the hash policy selects is one of the active pool entries.
pub proof fn lemma_pool_selection_in_active_pool(vm_v6: Seq<u8>, cfg: Nat64Config)
    ensures
        pool_selection(vm_v6, cfg) matches Some(v4) ==> exists|i: int|
            0 <= i < cfg.v4_pool_len && cfg.v4_pool@[i] == v4,
{
    if let Some(v4) = pool_selection(vm_v6, cfg) {
        let i = (fnv1a(vm_v6) % cfg.v4_pool_len) as int;
        assert(0 <= i < cfg.v4_pool_len && cfg.v4_pool@[i] == v4);
    }
}

/// The last three bytes of a documentation-prefix client address
/// (`2001:db8::/32`) chosen so that its hash leaves remainder `j` modulo
/// 720720, the least common multiple of every pool length from 1 to
/// [`V4_POOL_MAX`].
pub open spec fn slot_client_tail(j: int) -> (u8, u8, u8) {
    if j == 0 {
        (3u8, 115u8, 195u8)
    } else if j == 1 {
        (2u8, 13u8, 163u8)
    } else if j == 2 {
        (44u8, 152u8, 159u8)
    } else if j == 3 {
        (43u8, 87u8, 166u8)
    } else if j == 4 {
        (5u8, 206u8, 214u8)
    } else if j == 5 {
        (13u8, 177u8, 252u8)
    } else if j == 6 {
        (11u8, 129u8, 115u8)
    } else if j == 7 {
        (0u8, 248u8, 248u8)
    } else if j == 8 {
        (8u8, 213u8, 222u8)
    } else if j == 9 {
        (7u8, 48u8, 193u8)
    } else if j == 10 {
        (15u8, 143u8, 253u8)
    } else if j == 11 {
        (16u8, 241u8, 19u8)
    } else if j == 12 {
        (2u8, 42u8, 249u8)
    } else if j == 13 {
        (10u8, 215u8, 193u8)
    } else if j == 14 {
        (1u8, 114u8, 208u8)
    } else if j == 15 {
        (1u8, 33u8, 66u8)
    } else {
        (0u8, 0u8, 0u8)
    }
}

/// A client address that the hash policy maps to pool slot `j` for every
/// pool length above `j`.
pub open spec fn slot_client(j: int) -> Seq<u8> {
    let (a, b, c) = slot_client_tail(j);
    seq![0x20u8, 0x01u8, 0x0du8, 0xb8u8, 0u8, 0u8, 0u8, 0u8, 0u8, 0u8, 0u8, 0u8, 0u8, a, b, c]
}

/// Exclusive or with a byte, written with arithmetic on the low eight bits.
proof fn lemma_xor_low_byte(h: u32, b: u32)
    by (bit_vector)
    requires
        b < 256,
    ensures
        h ^ b == (h - h % 256 + (h % 2 + b % 2) % 2 + (h / 2 % 2 + b / 2 % 2) % 2 * 2 + (h / 4 % 2
            + b / 4 % 2) % 2 * 4 + (h / 8 % 2 + b / 8 % 2) % 2 * 8 + (h / 16 % 2 + b / 16 % 2) % 2 * 16
            + (h / 32 % 2 + b / 32 % 2) % 2 * 32 + (h / 64 % 2 + b / 64 % 2) % 2 * 64 + (h / 128 % 2 + b
            / 128 % 2) % 2 * 128),
{
}

/// One round of the hash: mixing byte `b` into the state `h`.
spec fn fnv1a_round(h: u32, b: u8) -> u32 {
    vstd::wrapping::u32_specs::wrapping_mul(h ^ (b as u32), fnv1a_prime())
}

/// Appending a byte applies one round to the hash of what came before.
proof fn lemma_fnv1a_push(s: Seq<u8>, b: u8)
    ensures
        fnv1a(s.push(b)) == fnv1a_round(fnv1a(s), b),
{
    assert(s.push(b).drop_last() =~= s);
}

/// The value of one round, computed without bitwise operations.
proof fn lemma_fnv1a_round_value(h: u32, b: u8, next: u32)
    requires
        next as int == ((h - h % 256 + (h % 2 + b % 2) % 2 + (h / 2 % 2 + b / 2 % 2) % 2 * 2 + (h / 4 % 2
            + b / 4 % 2) % 2 * 4 + (h / 8 % 2 + b / 8 % 2) % 2 * 8 + (h / 16 % 2 + b / 16 % 2) % 2 * 16
            + (h / 32 % 2 + b / 32 % 2) % 2 * 32 + (h / 64 % 2 + b / 64 % 2) % 2 * 64 + (h / 128 % 2 + b
            / 128 % 2) % 2 * 128) * 16777619) % 0x1_0000_0000,
    ensures
        fnv1a_round(h, b) == next,
{
    lemma_xor_low_byte(h, b as u32);
}

/// The documentation-prefix bytes shared by every slot client.
spec fn slot_client_head() -> Seq<u8> {
    seq![0x20u8, 0x01u8, 0x0du8, 0xb8u8, 0u8, 0u8, 0u8, 0u8, 0u8, 0u8, 0u8, 0u8, 0u8]
}

#[verifier::spinoff_prover]
proof fn lemma_slot_client_head_hash_start()
    ensures
        fnv1a(seq![0x20u8, 0x01u8, 0x0du8, 0xb8u8, 0x00u8, 0x00u8, 0x00u8]) == 1669392669u32,
{
    let s0 = Seq::<u8>::empty();
    let s1 = s0.push(0x20u8);
    assert(fnv1a(s1) == 621580159u32) by {
        lemma_fnv1a_push(s0, 0x20u8);
        lemma_fnv1a_round_value(2166136261u32, 0x20u8, 621580159u32);
    }
    let s2 = s1.push(0x01u8);
    assert(fnv1a(s2) == 3502629722u32) by {
        lemma_fnv1a_push(s1, 0x01u8);
        lemma_fnv1a_round_value(621580159u32, 0x01u8, 3502629722u32);
    }
    let s3 = s2.push(0x0du8);
    assert(fnv1a(s3) == 4270121461u32) by {
        lemma_fnv1a_push(s2, 0x0du8);
        lemma_fnv1a_round_value(3502629722u32, 0x0du8, 4270121461u32);
    }
    let s4 = s3.push(0xb8u8);
    assert(fnv1a(s4) == 4163808311u32) by {
        lemma_fnv1a_push(s3, 0xb8u8);
        lemma_fnv1a_round_value(4270121461u32, 0xb8u8, 4163808311u32);
    }
    let s5 = s4.push(0x00u8);
    assert(fnv1a(s5) == 3900250773u32) by {
        lemma_fnv1a_push(s4, 0x00u8);
        lemma_fnv1a_round_value(4163808311u32, 0x00u8, 3900250773u32);
    }
    let s6 = s5.push(0x00u8);
    assert(fnv1a(s6) == 2342836367u32) by {
        lemma_fnv1a_push(s5, 0x00u8);
        lemma_fnv1a_round_value(3900250773u32, 0x00u8, 2342836367u32);
    }
    let s7 = s6.push(0x00u8);
    assert(fnv1a(s7) == 1669392669u32) by {
        lemma_fnv1a_push(s6, 0x00u8);
        lemma_fnv1a_round_value(2342836367u32, 0x00u8, 1669392669u32);
    }
    assert(s7 =~= seq![0x20u8, 0x01u8, 0x0du8, 0xb8u8, 0x00u8, 0x00u8, 0x00u8]);
}

#[verifier::spinoff_prover]
proof fn lemma_slot_client_head_hash_rest()
    ensures
        fnv1a(seq![0x20u8, 0x01u8, 0x0du8, 0xb8u8, 0x00u8, 0x00u8, 0x00u8, 0x00u8, 0x00u8, 0x00u8, 0x00u8, 0x00u8, 0x00u8]) == 468629557u32,
{
    lemma_slot_client_head_hash_start();
    let s7 = seq![0x20u8, 0x01u8, 0x0du8, 0xb8u8, 0x00u8, 0x00u8, 0x00u8];
    let s8 = s7.push(0x00u8);
    assert(fnv1a(s8) == 3236886695u32) by {
        lemma_fnv1a_push(s7, 0x00u8);
        lemma_fnv1a_round_value(1669392669u32, 0x00u8, 3236886695u32);
    }
    let s9 = s8.push(0x00u8);
    assert(fnv1a(s9) == 1597075173u32) by {
        lemma_fnv1a_push(s8, 0x00u8);
        lemma_fnv1a_round_value(3236886695u32, 0x00u8, 1597075173u32);
    }
    let s10 = s9.push(0x00u8);
    assert(fnv1a(s10) == 3218182783u32) by {
        lemma_fnv1a_push(s9, 0x00u8);
        lemma_fnv1a_round_value(1597075173u32, 0x00u8, 3218182783u32);
    }
    let s11 = s10.push(0x00u8);
    assert(fnv1a(s11) == 1978244589u32) by {
        lemma_fnv1a_push(s10, 0x00u8);
        lemma_fnv1a_round_value(3218182783u32, 0x00u8, 1978244589u32);
    }
    let s12 = s11.push(0x00u8);
    assert(fnv1a(s12) == 2344852503u32) by {
        lemma_fnv1a_push(s11, 0x00u8);
        lemma_fnv1a_round_value(1978244589u32, 0x00u8, 2344852503u32);
    }
    let s13 = s12.push(0x00u8);
    assert(fnv1a(s13) == 468629557u32) by {
        lemma_fnv1a_push(s12, 0x00u8);
        lemma_fnv1a_round_value(2344852503u32, 0x00u8, 468629557u32);
    }
    assert(s13 =~= seq![0x20u8, 0x01u8, 0x0du8, 0xb8u8, 0x00u8, 0x00u8, 0x00u8, 0x00u8, 0x00u8, 0x00u8, 0x00u8, 0x00u8, 0x00u8]);
}

proof fn lemma_slot_client_head_hash()
    ensures
        fnv1a(slot_client_head()) == 468629557u32,
{
    lemma_slot_client_head_hash_rest();
    assert(slot_client_head() =~= seq![0x20u8, 0x01u8, 0x0du8, 0xb8u8, 0x00u8, 0x00u8, 0x00u8, 0x00u8, 0x00u8, 0x00u8, 0x00u8, 0x00u8, 0x00u8]);
}

/// The hash of a slot client: three rounds over the hash of the shared head.
proof fn lemma_slot_client_rounds(j: int)
    ensures
        slot_client(j).len() == 16,
        fnv1a(slot_client(j)) == fnv1a_round(
            fnv1a_round(fnv1a_round(fnv1a(slot_client_head()), slot_client_tail(j).0), slot_client_tail(j).1),
            slot_client_tail(j).2,
        ),
{
    let (a, b, c) = slot_client_tail(j);
    let h = slot_client_head();
    assert(slot_client(j) =~= h.push(a).push(b).push(c));
    lemma_fnv1a_push(h, a);
    lemma_fnv1a_push(h.push(a), b);
    lemma_fnv1a_push(h.push(a).push(b), c);
}

proof fn lemma_slot_tail_rounds_0()
    ensures
        fnv1a_round(fnv1a_round(fnv1a_round(468629557u32, 3u8), 115u8), 195u8) == 1716755040u32,
{
    lemma_fnv1a_round_value(468629557u32, 3u8, 785120514u32);
    lemma_fnv1a_round_value(785120514u32, 115u8, 471857379u32);
    lemma_fnv1a_round_value(471857379u32, 195u8, 1716755040u32);
}

proof fn lemma_slot_tail_rounds_1()
    ensures
        fnv1a_round(fnv1a_round(fnv1a_round(468629557u32, 2u8), 13u8), 163u8) == 36756721u32,
{
    lemma_fnv1a_round_value(468629557u32, 2u8, 801898133u32);
    lemma_fnv1a_round_value(801898133u32, 13u8, 3592538440u32);
    lemma_fnv1a_round_value(3592538440u32, 163u8, 36756721u32);
}

proof fn lemma_slot_tail_rounds_2()
    ensures
        fnv1a_round(fnv1a_round(fnv1a_round(468629557u32, 44u8), 152u8), 159u8) == 1814052242u32,
{
    lemma_fnv1a_round_value(468629557u32, 44u8, 298569563u32);
    lemma_fnv1a_round_value(298569563u32, 152u8, 3336048633u32);
    lemma_fnv1a_round_value(3336048633u32, 159u8, 1814052242u32);
}

proof fn lemma_slot_tail_rounds_3()
    ensures
        fnv1a_round(fnv1a_round(fnv1a_round(468629557u32, 43u8), 87u8), 166u8) == 4112428323u32,
{
    lemma_fnv1a_round_value(468629557u32, 43u8, 382457658u32);
    lemma_fnv1a_round_value(382457658u32, 87u8, 1340350615u32);
    lemma_fnv1a_round_value(1340350615u32, 166u8, 4112428323u32);
}

proof fn lemma_slot_tail_rounds_4()
    ensures
        fnv1a_round(fnv1a_round(fnv1a_round(468629557u32, 5u8), 206u8), 214u8) == 4200356164u32,
{
    lemma_fnv1a_round_value(468629557u32, 5u8, 684454800u32);
    lemma_fnv1a_round_value(684454800u32, 206u8, 2534415610u32);
    lemma_fnv1a_round_value(2534415610u32, 214u8, 4200356164u32);
}

proof fn lemma_slot_tail_rounds_5()
    ensures
        fnv1a_round(fnv1a_round(fnv1a_round(468629557u32, 13u8), 177u8), 252u8) == 1059458405u32,
{
    lemma_fnv1a_round_value(468629557u32, 13u8, 818675752u32);
    lemma_fnv1a_round_value(818675752u32, 177u8, 1780805851u32);
    lemma_fnv1a_round_value(1780805851u32, 252u8, 1059458405u32);
}

proof fn lemma_slot_tail_rounds_6()
    ensures
        fnv1a_round(fnv1a_round(fnv1a_round(468629557u32, 11u8), 129u8), 115u8) == 993872886u32,
{
    lemma_fnv1a_round_value(468629557u32, 11u8, 919341466u32);
    lemma_fnv1a_round_value(919341466u32, 129u8, 1580356993u32);
    lemma_fnv1a_round_value(1580356993u32, 115u8, 993872886u32);
}

proof fn lemma_slot_tail_rounds_7()
    ensures
        fnv1a_round(fnv1a_round(fnv1a_round(468629557u32, 0u8), 248u8), 248u8) == 4156392247u32,
{
    lemma_fnv1a_round_value(468629557u32, 0u8, 768342895u32);
    lemma_fnv1a_round_value(768342895u32, 248u8, 2937917109u32);
    lemma_fnv1a_round_value(2937917109u32, 248u8, 4156392247u32);
}

proof fn lemma_slot_tail_rounds_8()
    ensures
        fnv1a_round(fnv1a_round(fnv1a_round(468629557u32, 8u8), 213u8), 222u8) == 1015494488u32,
{
    lemma_fnv1a_round_value(468629557u32, 8u8, 902563847u32);
    lemma_fnv1a_round_value(902563847u32, 213u8, 2184307350u32);
    lemma_fnv1a_round_value(2184307350u32, 222u8, 1015494488u32);
}

proof fn lemma_slot_tail_rounds_9()
    ensures
        fnv1a_round(fnv1a_round(fnv1a_round(468629557u32, 7u8), 48u8), 193u8) == 3543059529u32,
{
    lemma_fnv1a_round_value(468629557u32, 7u8, 718010038u32);
    lemma_fnv1a_round_value(718010038u32, 48u8, 3843364082u32);
    lemma_fnv1a_round_value(3843364082u32, 193u8, 3543059529u32);
}

proof fn lemma_slot_tail_rounds_10()
    ensures
        fnv1a_round(fnv1a_round(fnv1a_round(468629557u32, 15u8), 143u8), 253u8) == 402161770u32,
{
    lemma_fnv1a_round_value(468629557u32, 15u8, 852230990u32);
    lemma_fnv1a_round_value(852230990u32, 143u8, 3089754323u32);
    lemma_fnv1a_round_value(3089754323u32, 253u8, 402161770u32);
}

proof fn lemma_slot_tail_rounds_11()
    ensures
        fnv1a_round(fnv1a_round(fnv1a_round(468629557u32, 16u8), 241u8), 19u8) == 3411167771u32,
{
    lemma_fnv1a_round_value(468629557u32, 16u8, 499900991u32);
    lemma_fnv1a_round_value(499900991u32, 241u8, 3052800586u32);
    lemma_fnv1a_round_value(3052800586u32, 19u8, 3411167771u32);
}

proof fn lemma_slot_tail_rounds_12()
    ensures
        fnv1a_round(fnv1a_round(fnv1a_round(468629557u32, 2u8), 42u8), 249u8) == 3499095612u32,
{
    lemma_fnv1a_round_value(468629557u32, 2u8, 801898133u32);
    lemma_fnv1a_round_value(801898133u32, 42u8, 4246865581u32);
    lemma_fnv1a_round_value(4246865581u32, 249u8, 3499095612u32);
}

proof fn lemma_slot_tail_rounds_13()
    ensures
        fnv1a_round(fnv1a_round(fnv1a_round(468629557u32, 10u8), 215u8), 193u8) == 358197853u32,
{
    lemma_fnv1a_round_value(468629557u32, 10u8, 936119085u32);
    lemma_fnv1a_round_value(936119085u32, 215u8, 3493255822u32);
    lemma_fnv1a_round_value(3493255822u32, 193u8, 358197853u32);
}

proof fn lemma_slot_tail_rounds_14()
    ensures
        fnv1a_round(fnv1a_round(fnv1a_round(468629557u32, 1u8), 114u8), 208u8) == 2885762894u32,
{
    lemma_fnv1a_round_value(468629557u32, 1u8, 751565276u32);
    lemma_fnv1a_round_value(751565276u32, 114u8, 857345258u32);
    lemma_fnv1a_round_value(857345258u32, 208u8, 2885762894u32);
}

proof fn lemma_slot_tail_rounds_15()
    ensures
        fnv1a_round(fnv1a_round(fnv1a_round(468629557u32, 1u8), 33u8), 66u8) == 3569726175u32,
{
    lemma_fnv1a_round_value(468629557u32, 1u8, 751565276u32);
    lemma_fnv1a_round_value(751565276u32, 33u8, 2182777159u32);
    lemma_fnv1a_round_value(2182777159u32, 66u8, 3569726175u32);
}

proof fn lemma_slot_client_hash(j: int)
    requires
        0 <= j < V4_POOL_MAX,
    ensures
        slot_client(j).len() == 16,
        fnv1a(slot_client(j)) as int % 720720 == j,
{
    lemma_slot_client_head_hash();
    lemma_slot_client_rounds(j);
    if j == 0 {
        lemma_slot_tail_rounds_0();
        assert(1716755040int % 720720 == 0);
    } else if j == 1 {
        lemma_slot_tail_rounds_1();
        assert(36756721int % 720720 == 1);
    } else if j == 2 {
        lemma_slot_tail_rounds_2();
        assert(1814052242int % 720720 == 2);
    } else if j == 3 {
        lemma_slot_tail_rounds_3();
        assert(4112428323int % 720720 == 3);
    } else if j == 4 {
        lemma_slot_tail_rounds_4();
        assert(4200356164int % 720720 == 4);
    } else if j == 5 {
        lemma_slot_tail_rounds_5();
        assert(1059458405int % 720720 == 5);
    } else if j == 6 {
        lemma_slot_tail_rounds_6();
        assert(993872886int % 720720 == 6);
    } else if j == 7 {
        lemma_slot_tail_rounds_7();
        assert(4156392247int % 720720 == 7);
    } else if j == 8 {
        lemma_slot_tail_rounds_8();
        assert(1015494488int % 720720 == 8);
    } else if j == 9 {
        lemma_slot_tail_rounds_9();
        assert(3543059529int % 720720 == 9);
    } else if j == 10 {
        lemma_slot_tail_rounds_10();
        assert(402161770int % 720720 == 10);
    } else if j == 11 {
        lemma_slot_tail_rounds_11();
        assert(3411167771int % 720720 == 11);
    } else if j == 12 {
        lemma_slot_tail_rounds_12();
        assert(3499095612int % 720720 == 12);
    } else if j == 13 {
        lemma_slot_tail_rounds_13();
        assert(358197853int % 720720 == 13);
    } else if j == 14 {
        lemma_slot_tail_rounds_14();
        assert(2885762894int % 720720 == 14);
    } else if j == 15 {
        lemma_slot_tail_rounds_15();
        assert(3569726175int % 720720 == 15);
    }
}

/// The client hash is 32-bit FNV-1a: the empty sequence hashes to the
/// offset basis `0x811c9dc5`, and each appended byte is mixed in by exclusive
/// or and a multiplication by the prime `0x01000193` modulo 2^32.
pub proof fn lemma_fnv1a_is_32_bit_fnv1a(s: Seq<u8>, b: u8)
    ensures
        fnv1a(Seq::<u8>::empty()) == 0x811c_9dc5u32,
        fnv1a(s.push(b)) as int == ((fnv1a(s) ^ (b as u32)) as int * 0x0100_0193) % 0x1_0000_0000,
{
    lemma_fnv1a_push(s, b);
}

/// Every pool length divides 720720.
proof fn lemma_pool_len_divides(n: int)
    requires
        1 <= n <= V4_POOL_MAX,
    ensures
        n * (720720int / n) == 720720,
{
    if n == 1 {
        assert(1 * (720720int / 1) == 720720);
    } else if n == 2 {
        assert(2 * (720720int / 2) == 720720);
    } else if n == 3 {
        assert(3 * (720720int / 3) == 720720);
    } else if n == 4 {
        assert(4 * (720720int / 4) == 720720);
    } else if n == 5 {
        assert(5 * (720720int / 5) == 720720);
    } else if n == 6 {
        assert(6 * (720720int / 6) == 720720);
    } else if n == 7 {
        assert(7 * (720720int / 7) == 720720);
    } else if n == 8 {
        assert(8 * (720720int / 8) == 720720);
    } else if n == 9 {
        assert(9 * (720720int / 9) == 720720);
    } else if n == 10 {
        assert(10 * (720720int / 10) == 720720);
    } else if n == 11 {
        assert(11 * (720720int / 11) == 720720);
    } else if n == 12 {
        assert(12 * (720720int / 12) == 720720);
    } else if n == 13 {
        assert(13 * (720720int / 13) == 720720);
    } else if n == 14 {
        assert(14 * (720720int / 14) == 720720);
    } else if n == 15 {
        assert(15 * (720720int / 15) == 720720);
    } else if n == 16 {
        assert(16 * (720720int / 16) == 720720);
    }
}

/// Every active pool address serves some client: with a usable pool of
/// `v4_pool_len` addresses, each slot `i` below that length is the address
/// the hash policy hands to some IPv6 client, so no part of the pool is left
/// unused.
#[verifier::spinoff_prover]
pub proof fn lemma_every_pool_slot_serves_a_client(cfg: Nat64Config, i: int)
    requires
        1 <= cfg.v4_pool_len <= V4_POOL_MAX,
        0 <= i < cfg.v4_pool_len,
    ensures
        exists|vm_v6: Seq<u8>| vm_v6.len() == 16 && #[trigger] pool_selection(vm_v6, cfg) == Some(cfg.v4_pool@[i]),
{
    let vm_v6 = slot_client(i);
    lemma_slot_client_hash(i);
    let n: int = cfg.v4_pool_len as int;
    let h: int = fnv1a(vm_v6) as int;
    let k: int = 720720int / n;
    lemma_pool_len_divides(n);
    vstd::arithmetic::div_mod::lemma_mod_mod(h, n, k);
    vstd::arithmetic::div_mod::lemma_small_mod(i as nat, n as nat);
    assert(h % n == i);
    assert(pool_selection(vm_v6, cfg) == Some(cfg.v4_pool@[i]));
}

/// Builds a reverse-lookup key from a translated destination tuple.
pub fn nat_key(ext_v4: u32, ext_port: u16, proto: u8) -> (key: NatKey)
    ensures
        key == (NatKey { ext_v4, ext_port, proto, _pad: 0 }),
{
    NatKey::new_forward(ext_v4, ext_port, proto)
}

/// Builds the NAT lookup key for an incoming IPv4 packet.
pub fn nat_lookup_key_from_ipv4(dst_v4: u32, dst_port: u16, proto: u8) -> (key: NatKey)
    ensures
        key == (NatKey { ext_v4: dst_v4, ext_port: dst_port, proto, _pad: 0 }),
{
    nat_key(dst_v4, dst_port, proto)
}

/// Builds the NAT lookup key from an IPv4 return tuple.
pub fn nat_key_from_return_tuple(dst_v4: u32, dst_port: u16, proto: u8) -> (key: NatKey)
    ensures
        key == (NatKey { ext_v4: dst_v4, ext_port: dst_port, proto, _pad: 0 }),
{
    nat_lookup_key_from_ipv4(dst_v4, dst_port, proto)
}

/// Builds the reverse-lookup key and value for a translated flow.
pub fn nat_make_entry(
    ext_v4: u32,
    ext_port: u16,
    proto: u8,
    vm_v6: [u8; 16],
    vm_port: u16,
    remote_v4: u32,
    remote_port: u16,
    last_seen_ns: u64,
) -> (entry: (NatKey, NatVal))
    ensures
        entry.0 == (NatKey { ext_v4, ext_port, proto, _pad: 0 }),
        entry.1 == (NatVal {
            vm_v6,
            vm_port,
            remote_v4,
            remote_port,
            _pad: 0,
            generation: 0,
            last_seen_ns,
        }),
{
    (
        nat_key(ext_v4, ext_port, proto),
        NatVal::new_forward(vm_v6, vm_port, remote_v4, remote_port, last_seen_ns),
    )
}

/// Returns whether an IPv4 source address and source port match the recorded remote tuple.
pub fn nat_tuple_matches(nat_val: &NatVal, ipv4_src: u32, tcp_sport: u16) -> (matches: bool)
    ensures
        matches == (nat_val.remote_v4 == ipv4_src && nat_val.remote_port == tcp_sport),
{
    nat_val.remote_v4 == ipv4_src && nat_val.remote_port == tcp_sport
}

/// Builds a forward-flow key from the complete transport five-tuple.
pub fn fwd_nat_key(
    vm_v6: [u8; 16],
    remote_v4: u32,
    vm_port: u16,
    remote_port: u16,
    proto: u8,
) -> (key: FwdNatKey)
    ensures
        key.vm_v6 == vm_v6,
        key.remote_v4 == remote_v4,
        key.vm_port == vm_port,
        key.remote_port == remote_port,
        key.proto == proto,
        key._pad@ == seq![0u8, 0u8, 0u8],
{
    let key = FwdNatKey { vm_v6, remote_v4, vm_port, remote_port, proto, _pad: [0, 0, 0] };
    assert(key._pad@ =~= seq![0u8, 0u8, 0u8]);
    key
}

/// Builds the 12-byte IPv4 pseudo-header used by TCP and UDP checksums.
pub fn build_ipv4_pseudo_header_bytes(
    src_v4_be: u32,
    dst_v4_be: u32,
    l4_len: u16,
    proto: u8,
) -> (pseudo: [u8; 12])
    ensures
        pseudo@ == pseudo_header_v4(src_v4_be, dst_v4_be, l4_len as int, proto),
{
    let s = write_u32_be(src_v4_be);
    let d = write_u32_be(dst_v4_be);
    let l = write_u16_be(l4_len);
    let pseudo = [s[0], s[1], s[2], s[3], d[0], d[1], d[2], d[3], 0, proto, l[0], l[1]];
    assert(pseudo@ =~= pseudo_header_v4(src_v4_be, dst_v4_be, l4_len as int, proto));
    pseudo
}

/// Builds the 40-byte IPv6 pseudo-header used by TCP and UDP checksums.
pub fn build_ipv6_pseudo_header_bytes(
    src_v6: &[u8; 16],
    dst_v6: &[u8; 16],
    l4_len: u16,
    next_header: u8,
) -> (pseudo: [u8; 40])
    ensures
        pseudo@ == pseudo_header_v6(src_v6@, dst_v6@, l4_len as int, next_header),
{
    let l = write_u32_be(l4_len as u32);
    let s = src_v6;
    let d = dst_v6;
    let pseudo = [
        s[0], s[1], s[2], s[3], s[4], s[5], s[6], s[7], s[8], s[9], s[10], s[11], s[12], s[13],
        s[14], s[15], d[0], d[1], d[2], d[3], d[4], d[5], d[6], d[7], d[8], d[9], d[10], d[11],
        d[12], d[13], d[14], d[15], l[0], l[1], l[2], l[3], 0, 0, 0, next_header,
    ];
    assert(pseudo@ =~= pseudo_header_v6(src_v6@, dst_v6@, l4_len as int, next_header));
    pseudo
}

} // verus!
