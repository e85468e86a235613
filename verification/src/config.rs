//! User-facing translation policy, its validation, and its lowering into the
//! fixed-size dataplane configuration record.
use vstd::prelude::*;
use crate::abi;
use crate::abi::{V4_POOL_MAX, V4_SELECT_POLICY_HASH_VM_V6};
use crate::error::Error;

verus! {

/// The RFC 6052 well-known NAT64 `/96` prefix (`64:ff9b::/96`) in network byte order.
pub const RFC_6052_WELL_KNOWN_PREFIX: [u8; 12] = [0x00, 0x64, 0xff, 0x9b, 0, 0, 0, 0, 0, 0, 0, 0];

/// An idle-session timeout: whole seconds plus a sub-second remainder in nanoseconds.
#[derive(Clone, Copy, Debug, PartialEq, Eq, Structural)]
pub struct SessionTimeout {
    /// Whole seconds.
    pub secs: u64,
    /// Nanoseconds beyond the whole seconds.
    pub subsec_nanos: u32,
}

impl SessionTimeout {
    /// A timeout of `secs` whole seconds.
    pub fn from_secs(secs: u64) -> (t: Self)
        ensures
            t.secs == secs,
            t.subsec_nanos == 0,
    {
        SessionTimeout { secs, subsec_nanos: 0 }
    }

    /// A timeout of `millis` milliseconds.
    pub fn from_millis(millis: u64) -> (t: Self)
        ensures
            t.secs == millis / 1000,
            t.subsec_nanos == (millis % 1000) * 1_000_000,
    {
        let rem = (millis % 1000) as u32;
        SessionTimeout { secs: millis / 1000, subsec_nanos: rem * 1_000_000 }
    }

    /// Whether the timeout is zero.
    pub fn is_zero(&self) -> (z: bool)
        ensures
            z == (self.secs == 0 && self.subsec_nanos == 0),
    {
        self.secs == 0 && self.subsec_nanos == 0
    }
}

/// User-facing NAT64 translation policy.
#[derive(Clone, Debug)]
pub struct Nat64Config {
    /// The first 12 bytes of the `/96` IPv6 prefix handled by NAT64.
    pub prefix96: [u8; 12],
    /// External IPv4 source addresses, each in big-endian numeric form.
    pub v4_pool: Vec<u32>,
    /// Lowest external TCP or UDP source port available to the allocator, inclusive.
    pub port_min: u16,
    /// Highest external TCP or UDP source port available to the allocator, inclusive.
    pub port_max: u16,
    /// Idle session timeout. `None` disables expiration.
    pub session_timeout: Option<SessionTimeout>,
}

/// The outcome of validating a policy: the first rule it breaks, in the
/// order pool emptiness, pool size, port range, timeout.
pub open spec fn validation_outcome(c: Nat64Config) -> Result<(), Error> {
    let n = c.v4_pool@.len();
    if n == 0 {
        Err(Error::EmptyV4Pool)
    } else if n > V4_POOL_MAX {
        Err(Error::V4PoolTooLarge { actual: n as usize, maximum: V4_POOL_MAX })
    } else if c.port_min == 0 || c.port_min > c.port_max {
        Err(Error::InvalidPortRange { port_min: c.port_min, port_max: c.port_max })
    } else if c.session_timeout matches Some(t) && t.secs == 0 && t.subsec_nanos == 0 {
        Err(Error::InvalidSessionTimeout)
    } else {
        Ok(())
    }
}

/// The dataplane timeout in whole seconds: the timeout rounded up to a whole
/// second and capped at `u32::MAX`, or zero when expiration is disabled.
pub open spec fn timeout_secs(t: Option<SessionTimeout>) -> u32 {
    match t {
        None => 0,
        Some(t) => {
            let up: int = t.secs + if t.subsec_nanos != 0 { 1int } else { 0int };
            if up > u32::MAX {
                u32::MAX
            } else {
                up as u32
            }
        },
    }
}

/// The dataplane record that `c` lowers to for the given interfaces.
pub open spec fn lowered(c: Nat64Config, bridge_ifindex: u32, uplink_ifindex: u32, d: abi::Nat64Config) -> bool {
    &&& d.prefix96 == c.prefix96
    &&& forall|i: int|
        0 <= i < V4_POOL_MAX ==> #[trigger] d.v4_pool@[i] == if i < c.v4_pool@.len() {
            c.v4_pool@[i]
        } else {
            0u32
        }
    &&& d.v4_pool_len == c.v4_pool@.len() as u32
    &&& d.bridge_ifindex == bridge_ifindex
    &&& d.uplink_ifindex == uplink_ifindex
    &&& d.port_min == c.port_min
    &&& d.port_max == c.port_max
    &&& d.session_timeout_secs == timeout_secs(c.session_timeout)
    &&& d.v4_policy == V4_SELECT_POLICY_HASH_VM_V6
    &&& d._pad@ == seq![0u8, 0u8, 0u8]
}

impl Nat64Config {
    /// Checks the policy against the dataplane's limits.
    pub fn validate(&self) -> (r: Result<(), Error>)
        ensures
            r == validation_outcome(*self),
    {
        let n = self.v4_pool.len();
        if n == 0 {
            return Err(Error::EmptyV4Pool);
        }
        if n > V4_POOL_MAX {
            return Err(Error::V4PoolTooLarge { actual: n, maximum: V4_POOL_MAX });
        }
        if self.port_min == 0 || self.port_min > self.port_max {
            return Err(Error::InvalidPortRange { port_min: self.port_min, port_max: self.port_max });
        }
        match self.session_timeout {
            Some(t) => {
                if t.is_zero() {
                    return Err(Error::InvalidSessionTimeout);
                }
            },
            None => {},
        }
        Ok(())
    }

    /// Lowers the policy into the dataplane's fixed-size configuration record.
    ///
    /// At most [`V4_POOL_MAX`] pool addresses are copied; the remaining slots
    /// are zero.
    pub fn dataplane_config(&self, bridge_ifindex: u32, uplink_ifindex: u32) -> (d: abi::Nat64Config)
        ensures
            lowered(*self, bridge_ifindex, uplink_ifindex, d),
    {
        let mut v4_pool = [0u32; 16];
        let n = self.v4_pool.len();
        let mut i: usize = 0;
        while i < V4_POOL_MAX && i < n
            invariant
                n == self.v4_pool@.len(),
                i <= V4_POOL_MAX,
                i <= n,
                v4_pool@.len() == V4_POOL_MAX,
                forall|j: int| 0 <= j < i ==> #[trigger] v4_pool@[j] == self.v4_pool@[j],
                forall|j: int| i <= j < V4_POOL_MAX ==> #[trigger] v4_pool@[j] == 0u32,
            decreases V4_POOL_MAX - i,
        {
            v4_pool[i] = self.v4_pool[i];
            i = i + 1;
        }
        let session_timeout_secs = match self.session_timeout {
            None => 0u32,
            Some(t) => {
                let up: u64 = t.secs.saturating_add(if t.subsec_nanos != 0 { 1u64 } else { 0u64 });
                if up > 0xffff_ffffu64 {
                    0xffff_ffffu32
                } else {
                    up as u32
                }
            },
        };
        let d = abi::Nat64Config {
            prefix96: self.prefix96,
            v4_pool,
            v4_pool_len: n as u32,
            bridge_ifindex,
            uplink_ifindex,
            port_min: self.port_min,
            port_max: self.port_max,
            session_timeout_secs,
            v4_policy: V4_SELECT_POLICY_HASH_VM_V6,
            _pad: [0u8; 3],
        };
        assert(d._pad@ =~= seq![0u8, 0u8, 0u8]);
        d
    }
}

/// A policy that validates lowers to a record under which every client is
/// given an external address, and whose active pool holds exactly the
/// policy's addresses: those the forward path selects are the ones the
/// reverse path accepts.
pub proof fn lemma_validated_policy_lowers_to_usable_pool(
    c: Nat64Config,
    bridge_ifindex: u32,
    uplink_ifindex: u32,
    d: abi::Nat64Config,
    client: Seq<u8>,
    v4: u32,
)
    requires
        validation_outcome(c) is Ok,
        lowered(c, bridge_ifindex, uplink_ifindex, d),
    ensures
        abi::pool_selection(client, d) is Some,
        crate::dataplane::in_active_pool(v4, d) <==> c.v4_pool@.contains(v4),
        abi::pool_selection(client, d) matches Some(s) ==> c.v4_pool@.contains(s),
{
    let n = c.v4_pool@.len();
    assert(d.v4_pool_len == n) by {
        vstd::arithmetic::div_mod::lemma_small_mod(n as nat, 0x1_0000_0000);
    }
    if crate::dataplane::in_active_pool(v4, d) {
        let i = choose|i: int| 0 <= i < d.v4_pool_len && d.v4_pool@[i] == v4;
        assert(d.v4_pool@[i] == c.v4_pool@[i]);
    }
    if c.v4_pool@.contains(v4) {
        let i = choose|i: int| 0 <= i < c.v4_pool@.len() && c.v4_pool@[i] == v4;
        assert(d.v4_pool@[i] == v4);
    }
    let k = (abi::fnv1a(client) % d.v4_pool_len) as int;
    assert(d.v4_pool@[k] == c.v4_pool@[k]);
}

/// A policy is accepted exactly when it lies within the dataplane's limits:
/// one to [`V4_POOL_MAX`] pool addresses, a port range that starts above
/// zero and does not run backwards, and no zero timeout. An empty pool is
/// the only reason for `EmptyV4Pool`, and a pool is refused as too large
/// exactly when it holds more than [`V4_POOL_MAX`] addresses, the refusal
/// reporting that count and that limit.
pub proof fn lemma_validation_accepts_exactly_policies_within_limits(c: Nat64Config)
    ensures
        validation_outcome(c) is Ok <==> {
            &&& 1 <= c.v4_pool@.len() <= V4_POOL_MAX
            &&& 1 <= c.port_min <= c.port_max
            &&& c.session_timeout matches Some(t) ==> t.secs != 0 || t.subsec_nanos != 0
        },
        (validation_outcome(c) matches Err(e) && e is EmptyV4Pool) <==> c.v4_pool@.len() == 0,
        (validation_outcome(c) matches Err(e) && e is V4PoolTooLarge) <==> c.v4_pool@.len()
            > V4_POOL_MAX,
        validation_outcome(c) matches Err(Error::V4PoolTooLarge { actual, maximum }) ==> actual
            == c.v4_pool@.len() && maximum == V4_POOL_MAX,
{
    assert(c.v4_pool.len() == c.v4_pool@.len());
}

/// Under an accepted policy every pool address is put to use: each address
/// of the policy's pool is the external address the lowered record hands to
/// some IPv6 client.
pub proof fn lemma_accepted_pool_addresses_all_serve_clients(
    c: Nat64Config,
    bridge_ifindex: u32,
    uplink_ifindex: u32,
    d: abi::Nat64Config,
    v4: u32,
)
    requires
        validation_outcome(c) is Ok,
        lowered(c, bridge_ifindex, uplink_ifindex, d),
        c.v4_pool@.contains(v4),
    ensures
        exists|client: Seq<u8>| client.len() == 16 && #[trigger] abi::pool_selection(client, d) == Some(v4),
{
    let n = c.v4_pool@.len();
    assert(d.v4_pool_len == n) by {
        vstd::arithmetic::div_mod::lemma_small_mod(n as nat, 0x1_0000_0000);
    }
    let i = choose|i: int| 0 <= i < c.v4_pool@.len() && c.v4_pool@[i] == v4;
    assert(d.v4_pool@[i] == v4);
    abi::lemma_every_pool_slot_serves_a_client(d, i);
}

} // verus!
