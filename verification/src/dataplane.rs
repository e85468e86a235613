//! Decisions of the packet dataplane, kept apart from packet access and map
//! storage: fixed-width checksum folding, header images, destination
//! classification, external-address pool membership and selection, the
//! port-cooldown ring and external port allocation.
use crate::abi::{
    NatKey, COOLDOWN_SIZE, Nat64Config, PortCooldownRing, V4_POOL_MAX, V4_SELECT_POLICY_HASH_VM_V6, pool_selection,
};
use crate::checksum::ipv4_header_checksum_spec;
use crate::headers::{ipv4_header, ipv6_header};
use crate::ones_complement::{
    lemma_carry_step, lemma_ones_fold_congruent, lemma_ones_fold_props, nth_word, ones_fold,
    pair_sum, word_at, word_count, word_sum,
};
use crate::wire::{be32_bytes, write_u16_be, write_u32_be};
use vstd::prelude::*;

verus! {

/// Length of an Ethernet header in bytes.
pub const ETH_HDR_LEN: usize = 14;

/// Length of an option-less IPv4 header in bytes.
pub const IPV4_HDR_LEN: usize = 20;

/// Ethernet type of IPv4.
pub const ETH_P_IP: u16 = 0x0800;

/// Ethernet type of IPv6.
pub const ETH_P_IPV6: u16 = 0x86DD;

/// IP protocol number of TCP.
pub const IPPROTO_TCP: u8 = 6;

/// IP protocol number of UDP.
pub const IPPROTO_UDP: u8 = 17;

/// Length of a UDP header in bytes.
pub const UDP_HDR_LEN: usize = 8;

/// Length of a TCP header without options.
pub const TCP_HDR_LEN: usize = 20;

/// Largest transport segment the dataplane translates.
pub const MAX_L4_LEN: usize = 1500;

/// Hop limit and TTL written into translated headers.
pub const TRANSLATED_HOP_LIMIT: u8 = 64;

/// Fold a 32-bit sum to 16 bits with three fixed end-around-carry steps.
pub fn fold_u32_fixed(sum: u32) -> (folded: u16)
    ensures
        folded == ones_fold(sum as int),
{
    let mut s = sum;
    assert(s >> 16u32 == s / 65536) by (bit_vector);
    assert(s & 0xffffu32 == s % 65536) by (bit_vector);
    proof {
        lemma_carry_step(s as int);
    }
    s = (s & 0xffff) + (s >> 16);
    let ghost s1 = s;
    assert(s >> 16u32 == s / 65536) by (bit_vector);
    assert(s & 0xffffu32 == s % 65536) by (bit_vector);
    proof {
        lemma_carry_step(s as int);
    }
    s = (s & 0xffff) + (s >> 16);
    assert(s < 65536);
    assert(s >> 16u32 == s / 65536) by (bit_vector);
    assert(s & 0xffffu32 == s % 65536) by (bit_vector);
    proof {
        lemma_carry_step(s as int);
    }
    s = (s & 0xffff) + (s >> 16);
    proof {
        lemma_ones_fold_props(sum as int);
        lemma_ones_fold_props(s as int);
        if sum != 0 {
            lemma_ones_fold_congruent(s as int, sum as int);
        }
    }
    s as u16
}

/// IPv4 header checksum computed with the fixed-width fold; the checksum field
/// must read as zero.
pub fn ipv4_header_checksum_20b_local(hdr: &[u8; 20]) -> (checksum: u16)
    ensures
        checksum == ipv4_header_checksum_spec(hdr@),
{
    let mut sum: u32 = 0;
    let mut i: usize = 0;
    while i < 20
        invariant
            i % 2 == 0,
            i <= 20,
            sum == pair_sum(hdr@, (i / 2) as nat),
            sum <= 65535 * (i / 2),
        decreases 20 - i,
    {
        let word = (hdr[i] as u32) * 256 + (hdr[i + 1] as u32);
        assert(word == nth_word(hdr@, (i / 2) as int));
        assert(((i + 2) / 2) as nat == (i / 2 + 1) as nat);
        sum = sum + word;
        i = i + 2;
    }
    assert(word_count(hdr@) == 10);
    let folded = fold_u32_fixed(sum);
    assert(!folded == 0xffffu16 - folded) by (bit_vector);
    !folded
}

/// The translated IPv4 header placed in front of a transport segment of
/// `payload_len` bytes, or `None` when the total length does not fit in 16 bits.
pub fn ipv4_header_for_payload(payload_len: u16, src_v4: u32, dst_v4: u32, l4_proto: u8) -> (hdr:
    Option<[u8; 20]>)
    ensures
        match hdr {
            Some(h) => payload_len + IPV4_HDR_LEN <= u16::MAX && h@ == ipv4_header(
                be32_bytes(src_v4 as int),
                be32_bytes(dst_v4 as int),
                (payload_len + IPV4_HDR_LEN) as u16,
                TRANSLATED_HOP_LIMIT,
                0,
                l4_proto,
            ),
            None => payload_len + IPV4_HDR_LEN > u16::MAX,
        },
{
    let total_len = match payload_len.checked_add(IPV4_HDR_LEN as u16) {
        Some(total) => total,
        None => return None,
    };
    let len = write_u16_be(total_len);
    let src = write_u32_be(src_v4);
    let dst = write_u32_be(dst_v4);
    let mut hdr: [u8; 20] = [
        0x45,
        0,
        len[0],
        len[1],
        0,
        0,
        0,
        0,
        TRANSLATED_HOP_LIMIT,
        l4_proto,
        0,
        0,
        src[0],
        src[1],
        src[2],
        src[3],
        dst[0],
        dst[1],
        dst[2],
        dst[3],
    ];
    let ghost raw = crate::headers::ipv4_header_unchecked(
        src@,
        dst@,
        total_len,
        TRANSLATED_HOP_LIMIT,
        0,
        l4_proto,
    );
    assert(hdr@ =~= raw);
    let checksum = ipv4_header_checksum_20b_local(&hdr);
    let bytes = write_u16_be(checksum);
    hdr[10] = bytes[0];
    hdr[11] = bytes[1];
    assert(hdr@ =~= crate::checksum::with_checksum(raw, 10, ipv4_header_checksum_spec(raw)));
    Some(hdr)
}

/// The translated IPv6 base header placed in front of a transport segment.
pub fn ipv6_header_for_payload(
    payload_len: u16,
    next_header: u8,
    src_v6: &[u8; 16],
    dst_v6: &[u8; 16],
) -> (hdr: [u8; 40])
    ensures
        hdr@ == ipv6_header(src_v6@, dst_v6@, payload_len, next_header, TRANSLATED_HOP_LIMIT),
{
    crate::headers::build_ipv6_header(*src_v6, *dst_v6, payload_len, next_header, TRANSLATED_HOP_LIMIT)
}

/// The configuration the classifiers fall back to while userspace has not
/// written one: the well-known prefix, the single external address
/// `203.0.113.10`, ports `20000..=60000`, no session timeout, and no
/// interfaces to redirect to.
pub fn fallback_config() -> (cfg: Nat64Config)
    ensures
        cfg.prefix96@ == wkpf_prefix(),
        cfg.v4_pool@[0] == 0xcb00_710au32,
        forall|i: int| 1 <= i < V4_POOL_MAX ==> cfg.v4_pool@[i] == 0u32,
        cfg.v4_pool_len == 1,
        cfg.port_min == 20_000,
        cfg.port_max == 60_000,
        cfg.session_timeout_secs == 0,
        cfg.v4_policy == V4_SELECT_POLICY_HASH_VM_V6,
        cfg.bridge_ifindex == 0,
        cfg.uplink_ifindex == 0,
        cfg._pad@ == seq![0u8, 0u8, 0u8],
{
    let cfg = Nat64Config {
        prefix96: [0x00, 0x64, 0xff, 0x9b, 0, 0, 0, 0, 0, 0, 0, 0],
        v4_pool: [0xcb00_710a, 0, 0, 0, 0, 0, 0, 0, 0, 0, 0, 0, 0, 0, 0, 0],
        v4_pool_len: 1,
        bridge_ifindex: 0,
        uplink_ifindex: 0,
        port_min: 20_000,
        port_max: 60_000,
        session_timeout_secs: 0,
        v4_policy: V4_SELECT_POLICY_HASH_VM_V6,
        _pad: [0u8; 3],
    };
    assert(cfg.prefix96@ =~= wkpf_prefix());
    assert(cfg._pad@ =~= seq![0u8, 0u8, 0u8]);
    cfg
}

/// The RFC 6052 well-known NAT64 prefix `64:ff9b::/96` in network byte order.
pub open spec fn wkpf_prefix() -> Seq<u8> {
    seq![0x00u8, 0x64u8, 0xffu8, 0x9bu8, 0u8, 0u8, 0u8, 0u8, 0u8, 0u8, 0u8, 0u8]
}

/// Diagnostic class of a forward-path IPv6 destination.
#[derive(Clone, Copy, Debug, PartialEq, Eq, Structural)]
pub enum FwdDstClass {
    /// The destination lies in the well-known NAT64 prefix.
    Nat64Prefix,
    /// A multicast destination.
    Multicast,
    /// A link-local unicast destination.
    LinkLocal,
    /// A global unicast destination outside the NAT64 prefix.
    GlobalNonNat64,
    /// Any other destination.
    Other,
}

/// The class of a forward-path destination, checked in the order listed by [`FwdDstClass`].
pub open spec fn fwd_dst_class(dst: Seq<u8>) -> FwdDstClass {
    if dst.subrange(0, 12) == wkpf_prefix() {
        FwdDstClass::Nat64Prefix
    } else if dst[0] == 0xff {
        FwdDstClass::Multicast
    } else if dst[0] == 0xfe && (dst[1] & 0xc0) == 0x80 {
        FwdDstClass::LinkLocal
    } else if (dst[0] & 0xe0) == 0x20 {
        FwdDstClass::GlobalNonNat64
    } else {
        FwdDstClass::Other
    }
}

/// Whether the first 12 bytes of `addr` equal `prefix`.
pub fn prefix96_matches(addr: &[u8; 16], prefix: &[u8; 12]) -> (matches: bool)
    ensures
        matches == (addr@.subrange(0, 12) == prefix@),
{
    let mut i: usize = 0;
    while i < 12
        invariant
            i <= 12,
            forall|j: int| 0 <= j < i ==> addr@[j] == prefix@[j],
        decreases 12 - i,
    {
        if addr[i] != prefix[i] {
            assert(addr@.subrange(0, 12)[i as int] != prefix@[i as int]);
            return false;
        }
        i += 1;
    }
    assert(addr@.subrange(0, 12) =~= prefix@);
    true
}

/// Classifies a forward-path IPv6 destination for the diagnostic counters.
pub fn classify_fwd_dst(dst: &[u8; 16]) -> (class: FwdDstClass)
    ensures
        class == fwd_dst_class(dst@),
{
    let wkpf: [u8; 12] = [0x00, 0x64, 0xff, 0x9b, 0, 0, 0, 0, 0, 0, 0, 0];
    assert(wkpf@ =~= wkpf_prefix());
    if prefix96_matches(dst, &wkpf) {
        return FwdDstClass::Nat64Prefix;
    }
    if dst[0] == 0xff {
        return FwdDstClass::Multicast;
    }
    if dst[0] == 0xfe && (dst[1] & 0xc0) == 0x80 {
        return FwdDstClass::LinkLocal;
    }
    if (dst[0] & 0xe0) == 0x20 {
        return FwdDstClass::GlobalNonNat64;
    }
    FwdDstClass::Other
}

/// Whether `v4` is one of the active entries of the configured external pool;
/// an empty or oversized pool contains nothing.
pub open spec fn in_active_pool(v4: u32, cfg: Nat64Config) -> bool {
    1 <= cfg.v4_pool_len <= V4_POOL_MAX && exists|i: int|
        0 <= i < cfg.v4_pool_len && cfg.v4_pool@[i] == v4
}

/// Returns whether an IPv4 destination belongs to the configured external pool.
pub fn v4_in_pool(v4: u32, cfg: &Nat64Config) -> (found: bool)
    ensures
        found == in_active_pool(v4, *cfg),
{
    let len = cfg.v4_pool_len;
    if len == 0 || len > V4_POOL_MAX as u32 {
        return false;
    }
    let mut i: u32 = 0;
    while i < len
        invariant
            len == cfg.v4_pool_len,
            1 <= len <= V4_POOL_MAX,
            i <= len,
            forall|j: int| 0 <= j < i ==> cfg.v4_pool@[j] != v4,
        decreases len - i,
    {
        if cfg.v4_pool[i as usize] == v4 {
            return true;
        }
        i += 1;
    }
    false
}

/// Selects an external IPv4 address by hashing the client address, reading
/// the pool only at fixed positions.
pub fn select_v4_from_pool_fixed(vm_v6: &[u8; 16], cfg: &Nat64Config) -> (selected: Option<u32>)
    ensures
        selected == pool_selection(vm_v6@, *cfg),
{
    let len = cfg.v4_pool_len;
    if len == 0 || len > V4_POOL_MAX as u32 {
        return None;
    }
    let hash = crate::abi::fnv1a_hash(vm_v6);
    let idx = hash % len;
    let out = match idx {
        0 => cfg.v4_pool[0],
        1 => cfg.v4_pool[1],
        2 => cfg.v4_pool[2],
        3 => cfg.v4_pool[3],
        4 => cfg.v4_pool[4],
        5 => cfg.v4_pool[5],
        6 => cfg.v4_pool[6],
        7 => cfg.v4_pool[7],
        8 => cfg.v4_pool[8],
        9 => cfg.v4_pool[9],
        10 => cfg.v4_pool[10],
        11 => cfg.v4_pool[11],
        12 => cfg.v4_pool[12],
        13 => cfg.v4_pool[13],
        14 => cfg.v4_pool[14],
        15 => cfg.v4_pool[15],
        _ => return None,
    };
    Some(out)
}

/// The hash policy in terms of its inputs: with an active pool of one to
/// [`V4_POOL_MAX`] addresses, a client gets the pool slot whose index is the
/// client's FNV-1a hash modulo the pool length; with an empty or oversized
/// pool length, no address.
pub proof fn lemma_selection_is_hash_slot(vm_v6: Seq<u8>, cfg: Nat64Config)
    ensures
        1 <= cfg.v4_pool_len <= V4_POOL_MAX ==> pool_selection(vm_v6, cfg) == Some(
            cfg.v4_pool@[crate::abi::fnv1a(vm_v6) as int % cfg.v4_pool_len as int],
        ),
        (cfg.v4_pool_len == 0 || cfg.v4_pool_len > V4_POOL_MAX) ==> pool_selection(vm_v6, cfg) is None,
{
}

/// Returns whether `port` is in the cooldown ring.
pub fn cooldown_contains(ring: &PortCooldownRing, port: u16) -> (found: bool)
    ensures
        found == ring.ports@.contains(port),
{
    let mut i: usize = 0;
    while i < COOLDOWN_SIZE
        invariant
            i <= COOLDOWN_SIZE,
            forall|j: int| 0 <= j < i ==> ring.ports@[j] != port,
        decreases COOLDOWN_SIZE - i,
    {
        if ring.ports[i] == port {
            return true;
        }
        i += 1;
    }
    false
}

/// Records `port` in the cooldown ring, overwriting the oldest slot.
pub fn cooldown_push(ring: &mut PortCooldownRing, port: u16)
    ensures
        final(ring).ports@ == old(ring).ports@.update(old(ring).idx as int % COOLDOWN_SIZE as int, port),
        final(ring).idx == vstd::wrapping::u32_specs::wrapping_add(old(ring).idx, 1),
{
    let slot = (ring.idx as usize) % COOLDOWN_SIZE;
    ring.ports[slot] = port;
    ring.idx = ring.idx.wrapping_add(1);
}

/// Number of candidate ports examined by one allocation.
pub const PORT_ALLOC_PROBES: u32 = 16;

/// Outcome of an external port allocation.
#[derive(Clone, Copy, Debug, PartialEq, Eq, Structural)]
pub enum PortAllocation {
    /// A free port was found and recorded in the cooldown ring.
    Allocated(u16),
    /// The configured range is empty: its lower bound exceeds its upper bound.
    InvalidRange,
    /// Every examined candidate was cooling down or already in use.
    Exhausted,
}

/// The allocation cursor after `j` probes starting from `cursor`.
pub open spec fn probe_cursor(cursor: u32, j: int) -> u32 {
    ((cursor + j) % 0x1_0000_0000) as u32
}

/// The candidate port examined by probe `j` (counting from 1).
pub open spec fn probe_port(port_min: u16, port_max: u16, cursor: u32, j: int) -> u16 {
    (port_min + probe_cursor(cursor, j) as int % (port_max - port_min + 1)) as u16
}

/// Every candidate the allocator examines lies in the configured range.
pub proof fn lemma_probe_port_in_range(port_min: u16, port_max: u16, cursor: u32, j: int)
    requires
        port_min <= port_max,
    ensures
        port_min <= probe_port(port_min, port_max, cursor, j) <= port_max,
{
    let span = port_max - port_min + 1;
    let r = probe_cursor(cursor, j) as int % span;
    assert(0 <= r < span);
}

/// Whether the optional cooldown ring holds `port`.
pub open spec fn ring_has(ring: Option<PortCooldownRing>, port: u16) -> bool {
    ring matches Some(r) && r.ports@.contains(port)
}

/// Whether `after` is `before` with `port` recorded, or both are absent.
pub open spec fn ring_pushed(
    before: Option<PortCooldownRing>,
    after: Option<PortCooldownRing>,
    port: u16,
) -> bool {
    match before {
        None => after is None,
        Some(b) => after matches Some(a) && a.ports@ == b.ports@.update(
            b.idx as int % COOLDOWN_SIZE as int,
            port,
        ) && a.idx == vstd::wrapping::u32_specs::wrapping_add(b.idx, 1),
    }
}

/// The reverse-table key under which external port `port` of `ext_v4` is
/// mapped for protocol `proto`.
pub open spec fn port_key(ext_v4: u32, port: u16, proto: u8) -> NatKey {
    NatKey { ext_v4, ext_port: port, proto, _pad: 0 }
}

/// A candidate is rejected when it is cooling down or reported as in use.
pub open spec fn probe_rejected<F: Fn(NatKey) -> bool>(
    ring: Option<PortCooldownRing>,
    in_use: F,
    ext_v4: u32,
    proto: u8,
    port: u16,
) -> bool {
    ring_has(ring, port) || in_use.ensures((port_key(ext_v4, port, proto),), true)
}

/// Whether `outcome`, with the cursor going from `cursor0` to `cursor1` and
/// the ring from `ring0` to `ring1`, is what allocating an external port of
/// `ext_v4` for `proto` in `port_min..=port_max` gives, when `in_use` says
/// which reverse keys are taken.
pub open spec fn allocation_of<F: Fn(NatKey) -> bool>(
    port_min: u16,
    port_max: u16,
    ext_v4: u32,
    proto: u8,
    cursor0: u32,
    cursor1: u32,
    ring0: Option<PortCooldownRing>,
    ring1: Option<PortCooldownRing>,
    in_use: F,
    outcome: PortAllocation,
) -> bool {
    &&& port_min > port_max ==> outcome == PortAllocation::InvalidRange && cursor1 == cursor0
        && ring1 == ring0
    &&& port_min <= port_max ==> match outcome {
        PortAllocation::InvalidRange => false,
        PortAllocation::Allocated(port) => exists|j: int|
            #![trigger probe_cursor(cursor0, j)]
            {
                &&& 1 <= j <= PORT_ALLOC_PROBES
                &&& port == probe_port(port_min, port_max, cursor0, j)
                &&& cursor1 == probe_cursor(cursor0, j)
                &&& forall|k: int|
                    1 <= k < j ==> probe_rejected(
                        ring0,
                        in_use,
                        ext_v4,
                        proto,
                        #[trigger] probe_port(port_min, port_max, cursor0, k),
                    )
                &&& !ring_has(ring0, port)
                &&& in_use.ensures((port_key(ext_v4, port, proto),), false)
                &&& ring_pushed(ring0, ring1, port)
            },
        PortAllocation::Exhausted => {
            &&& cursor1 == probe_cursor(cursor0, PORT_ALLOC_PROBES as int)
            &&& ring1 == ring0
            &&& forall|k: int|
                1 <= k <= PORT_ALLOC_PROBES ==> probe_rejected(
                    ring0,
                    in_use,
                    ext_v4,
                    proto,
                    #[trigger] probe_port(port_min, port_max, cursor0, k),
                )
        },
    }
}

/// Allocates an external port of `ext_v4` for `proto` in
/// `port_min..=port_max` by advancing `cursor` through at most
/// [`PORT_ALLOC_PROBES`] candidates, skipping those in the cooldown ring and
/// those whose reverse key `in_use` reports as taken, and records the chosen
/// port in the ring.
pub fn alloc_port<F: Fn(NatKey) -> bool>(
    port_min: u16,
    port_max: u16,
    ext_v4: u32,
    proto: u8,
    cursor: &mut u32,
    ring: &mut Option<PortCooldownRing>,
    in_use: &F,
) -> (outcome: PortAllocation)
    requires
        forall|k: NatKey| #[trigger] in_use.requires((k,)),
    ensures
        allocation_of(
            port_min,
            port_max,
            ext_v4,
            proto,
            *old(cursor),
            *final(cursor),
            *old(ring),
            *final(ring),
            *in_use,
            outcome,
        ),
{
    if port_min > port_max {
        return PortAllocation::InvalidRange;
    }
    let ghost cursor0 = *cursor;
    let ghost ring0 = *ring;
    let span: u32 = (port_max - port_min) as u32 + 1;
    let mut c: u32 = *cursor;
    let mut n: u32 = 0;
    while n < PORT_ALLOC_PROBES
        invariant
            port_min <= port_max,
            cursor0 == *old(cursor),
            ring0 == *old(ring),
            span == port_max - port_min + 1,
            n <= PORT_ALLOC_PROBES,
            c == probe_cursor(cursor0, n as int),
            *cursor == c || n == 0,
            *cursor == cursor0 || n > 0,
            *ring == ring0,
            forall|k: NatKey| #[trigger] in_use.requires((k,)),
            forall|k: int|
                1 <= k <= n ==> probe_rejected(
                    ring0,
                    *in_use,
                    ext_v4,
                    proto,
                    #[trigger] probe_port(port_min, port_max, cursor0, k),
                ),
        decreases PORT_ALLOC_PROBES - n,
    {
        c = c.wrapping_add(1);
        n += 1;
        assert(c == probe_cursor(cursor0, n as int)) by {
            vstd::arithmetic::div_mod::lemma_add_mod_noop(cursor0 + n - 1, 1, 0x1_0000_0000);
        }
        let candidate: u32 = port_min as u32 + c % span;
        *cursor = c;
        let port = candidate as u16;
        assert(port == probe_port(port_min, port_max, cursor0, n as int));
        let cooling = match ring {
            Some(r) => cooldown_contains(r, port),
            None => false,
        };
        if cooling {
            continue;
        }
        let taken = in_use(crate::abi::nat_key(ext_v4, port, proto));
        if taken {
            continue;
        }
        match ring {
            Some(r) => cooldown_push(r, port),
            None => {},
        }
        let ghost j = n as int;
        assert({
            &&& 1 <= j <= PORT_ALLOC_PROBES
            &&& port == probe_port(port_min, port_max, cursor0, j)
            &&& *cursor == probe_cursor(cursor0, j)
            &&& forall|k: int|
                1 <= k < j ==> probe_rejected(
                    ring0,
                    *in_use,
                    ext_v4,
                    proto,
                    #[trigger] probe_port(port_min, port_max, cursor0, k),
                )
            &&& !ring_has(ring0, port)
            &&& in_use.ensures((port_key(ext_v4, port, proto),), false)
            &&& ring_pushed(ring0, *ring, port)
        });
        return PortAllocation::Allocated(port);
    }
    *cursor = c;
    PortAllocation::Exhausted
}

/// Quiet interval between the first and the confirming expiry check of a session.
pub const EXPIRY_CONFIRMATION_NS: u64 = 10_000_000;

/// The idle session timeout in nanoseconds; zero disables expiration.
pub fn session_timeout_ns(session_timeout_secs: u32) -> (ns: u64)
    ensures
        ns == session_timeout_secs * 1_000_000_000,
{
    session_timeout_secs as u64 * 1_000_000_000
}

/// Delay actually programmed into a session timer: never less than one nanosecond.
pub fn timer_delay(delay_ns: u64) -> (armed: u64)
    ensures
        armed == if delay_ns == 0 { 1 } else { delay_ns },
{
    if delay_ns < 1 {
        1
    } else {
        delay_ns
    }
}

/// Last activity recorded by the reverse entry of a session, counted only
/// when the entry belongs to the same session generation.
pub fn reverse_activity(reverse: Option<(u32, u64)>, generation: u32) -> (last_seen_ns: u64)
    ensures
        last_seen_ns == match reverse {
            Some((g, seen)) => if g == generation { seen } else { 0 },
            None => 0,
        },
{
    match reverse {
        Some((g, seen)) => if g == generation {
            seen
        } else {
            0
        },
        None => 0,
    }
}

/// Most recent activity of a session in either direction.
pub fn latest_activity(forward_ns: u64, reverse_ns: u64) -> (latest_ns: u64)
    ensures
        latest_ns == if forward_ns >= reverse_ns { forward_ns } else { reverse_ns },
{
    if forward_ns >= reverse_ns {
        forward_ns
    } else {
        reverse_ns
    }
}

/// Time elapsed since `since_ns`, or zero when the clock reads earlier.
pub open spec fn elapsed_since(now_ns: u64, since_ns: u64) -> int {
    if now_ns >= since_ns {
        now_ns - since_ns
    } else {
        0
    }
}

/// What a session timer does when it fires.
#[derive(Clone, Copy, Debug, PartialEq, Eq, Structural)]
pub enum SessionTimerCheck {
    /// Expiration is disabled; the timer stops.
    Disabled,
    /// The session was active within the timeout: forget any pending
    /// confirmation and fire again after `delay_ns`.
    Active { delay_ns: u64 },
    /// The session looks idle for the first time at `latest_ns`: remember it
    /// and fire again after the confirmation interval.
    Confirm { latest_ns: u64 },
    /// The session was already seen idle at the same activity time: re-read
    /// the activity and decide with [`session_expiry_recheck`].
    Recheck,
}

/// First decision of a firing session timer, as a function of its inputs.
pub open spec fn session_timer_check_spec(
    timeout_ns: u64,
    now_ns: u64,
    latest_ns: u64,
    observed_ns: u64,
) -> SessionTimerCheck {
    if timeout_ns == 0 {
        SessionTimerCheck::Disabled
    } else if elapsed_since(now_ns, latest_ns) < timeout_ns {
        SessionTimerCheck::Active { delay_ns: (timeout_ns - elapsed_since(now_ns, latest_ns)) as u64 }
    } else if observed_ns != latest_ns {
        SessionTimerCheck::Confirm { latest_ns }
    } else {
        SessionTimerCheck::Recheck
    }
}

/// Final decision of a session timer, as a function of its inputs.
pub open spec fn session_expiry_spec(
    timeout_ns: u64,
    now_ns: u64,
    latest_ns: u64,
    final_latest_ns: u64,
) -> Option<u64> {
    if final_latest_ns != latest_ns || elapsed_since(now_ns, final_latest_ns) < timeout_ns {
        Some(
            (if timeout_ns >= elapsed_since(now_ns, final_latest_ns) {
                timeout_ns - elapsed_since(now_ns, final_latest_ns)
            } else {
                0
            }) as u64,
        )
    } else {
        None
    }
}

/// First decision of a firing session timer, from the timeout, the clock, the
/// latest activity in both directions and the activity time remembered by a
/// previous idle observation.
pub fn session_timer_check(timeout_ns: u64, now_ns: u64, latest_ns: u64, observed_ns: u64) -> (check:
    SessionTimerCheck)
    ensures
        check == session_timer_check_spec(timeout_ns, now_ns, latest_ns, observed_ns),
{
    if timeout_ns == 0 {
        return SessionTimerCheck::Disabled;
    }
    let elapsed = now_ns.saturating_sub(latest_ns);
    if elapsed < timeout_ns {
        return SessionTimerCheck::Active { delay_ns: timeout_ns - elapsed };
    }
    if observed_ns != latest_ns {
        return SessionTimerCheck::Confirm { latest_ns };
    }
    SessionTimerCheck::Recheck
}

/// Final decision of a session timer after re-reading the activity: `None`
/// expires the session, `Some(delay)` keeps it and fires again after `delay`.
pub fn session_expiry_recheck(timeout_ns: u64, now_ns: u64, latest_ns: u64, final_latest_ns: u64) -> (keep:
    Option<u64>)
    ensures
        keep == session_expiry_spec(timeout_ns, now_ns, latest_ns, final_latest_ns),
{
    let elapsed = now_ns.saturating_sub(final_latest_ns);
    if final_latest_ns != latest_ns || elapsed < timeout_ns {
        return Some(timeout_ns.saturating_sub(elapsed));
    }
    None
}

/// A session expires only when both reads of its activity agree, the
/// activity was already seen idle by an earlier firing, and it has been idle
/// for at least the whole timeout.
pub proof fn lemma_session_expires_only_when_idle(
    timeout_ns: u64,
    now_ns: u64,
    latest_ns: u64,
    observed_ns: u64,
    final_latest_ns: u64,
)
    ensures
        session_timer_check_spec(timeout_ns, now_ns, latest_ns, observed_ns)
            == SessionTimerCheck::Recheck && session_expiry_spec(
            timeout_ns,
            now_ns,
            latest_ns,
            final_latest_ns,
        ) is None ==> {
            &&& observed_ns == latest_ns
            &&& final_latest_ns == latest_ns
            &&& now_ns >= latest_ns + timeout_ns
        },
        session_timer_check_spec(timeout_ns, now_ns, latest_ns, observed_ns) matches SessionTimerCheck::Active {
            delay_ns,
        } ==> 0 < delay_ns <= timeout_ns,
{
}

} // verus!
