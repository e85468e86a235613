//! A reusable builder that collects a translation policy and the location of
//! the eBPF object that each dataplane instance is loaded from.
use vstd::prelude::*;
use crate::config::{Nat64Config, SessionTimeout, RFC_6052_WELL_KNOWN_PREFIX};

verus! {

/// Default lowest external source port.
pub const DEFAULT_PORT_MIN: u16 = 20_000;

/// Default highest external source port.
pub const DEFAULT_PORT_MAX: u16 = 60_000;

/// Primary configuration interface for independent dataplanes.
///
/// The standard prefix and port range are selected by default; only the
/// external IPv4 pool has to be supplied.
#[derive(Clone, Debug)]
pub struct Nat64Builder {
    ebpf_object: String,
    prefix96: [u8; 12],
    v4_pool: Vec<u32>,
    port_min: u16,
    port_max: u16,
    session_timeout: Option<SessionTimeout>,
}

/// Creates a builder for dataplanes loaded from `ebpf_object`, with the
/// RFC 6052 well-known prefix, the port range `20000..=60000`, an empty pool
/// and no session timeout.
pub fn builder(ebpf_object: &str) -> (b: Nat64Builder)
    ensures
        b.ebpf_object_spec() == ebpf_object@,
        b.prefix96_spec() == RFC_6052_WELL_KNOWN_PREFIX,
        b.v4_pool_spec() == Seq::<u32>::empty(),
        b.port_min_spec() == DEFAULT_PORT_MIN,
        b.port_max_spec() == DEFAULT_PORT_MAX,
        b.session_timeout_spec() is None,
{
    Nat64Builder {
        ebpf_object: ebpf_object.to_owned(),
        prefix96: RFC_6052_WELL_KNOWN_PREFIX,
        v4_pool: Vec::new(),
        port_min: DEFAULT_PORT_MIN,
        port_max: DEFAULT_PORT_MAX,
        session_timeout: None,
    }
}

impl Nat64Builder {
    /// Path of the eBPF object.
    pub closed spec fn ebpf_object_spec(&self) -> Seq<char> {
        self.ebpf_object@
    }

    /// The `/96` prefix.
    pub closed spec fn prefix96_spec(&self) -> [u8; 12] {
        self.prefix96
    }

    /// The external IPv4 pool.
    pub closed spec fn v4_pool_spec(&self) -> Seq<u32> {
        self.v4_pool@
    }

    /// The lowest external port.
    pub closed spec fn port_min_spec(&self) -> u16 {
        self.port_min
    }

    /// The highest external port.
    pub closed spec fn port_max_spec(&self) -> u16 {
        self.port_max
    }

    /// The idle session timeout.
    pub closed spec fn session_timeout_spec(&self) -> Option<SessionTimeout> {
        self.session_timeout
    }

    /// Overrides the `/96` IPv6 prefix translated by each dataplane.
    pub fn with_prefix96(self, prefix96: [u8; 12]) -> (b: Self)
        ensures
            b.prefix96_spec() == prefix96,
            b.ebpf_object_spec() == self.ebpf_object_spec(),
            b.v4_pool_spec() == self.v4_pool_spec(),
            b.port_min_spec() == self.port_min_spec(),
            b.port_max_spec() == self.port_max_spec(),
            b.session_timeout_spec() == self.session_timeout_spec(),
    {
        Nat64Builder { prefix96, ..self }
    }

    /// Sets the external IPv4 addresses available to translated connections.
    ///
    /// At least one and at most [`crate::abi::V4_POOL_MAX`] addresses are
    /// accepted when a dataplane is configured.
    pub fn with_v4_pool(self, v4_pool: Vec<u32>) -> (b: Self)
        ensures
            b.v4_pool_spec() == v4_pool@,
            b.ebpf_object_spec() == self.ebpf_object_spec(),
            b.prefix96_spec() == self.prefix96_spec(),
            b.port_min_spec() == self.port_min_spec(),
            b.port_max_spec() == self.port_max_spec(),
            b.session_timeout_spec() == self.session_timeout_spec(),
    {
        Nat64Builder { v4_pool, ..self }
    }

    /// Overrides the lowest external TCP or UDP source port, inclusive.
    pub fn with_port_min(self, port_min: u16) -> (b: Self)
        ensures
            b.port_min_spec() == port_min,
            b.ebpf_object_spec() == self.ebpf_object_spec(),
            b.prefix96_spec() == self.prefix96_spec(),
            b.v4_pool_spec() == self.v4_pool_spec(),
            b.port_max_spec() == self.port_max_spec(),
            b.session_timeout_spec() == self.session_timeout_spec(),
    {
        Nat64Builder { port_min, ..self }
    }

    /// Overrides the highest external TCP or UDP source port, inclusive.
    pub fn with_port_max(self, port_max: u16) -> (b: Self)
        ensures
            b.port_max_spec() == port_max,
            b.ebpf_object_spec() == self.ebpf_object_spec(),
            b.prefix96_spec() == self.prefix96_spec(),
            b.v4_pool_spec() == self.v4_pool_spec(),
            b.port_min_spec() == self.port_min_spec(),
            b.session_timeout_spec() == self.session_timeout_spec(),
    {
        Nat64Builder { port_max, ..self }
    }

    /// Sets the idle timeout enforced by per-session kernel timers; `None`
    /// disables expiration. Durations are rounded up to whole seconds when a
    /// dataplane is configured.
    pub fn with_session_timeouts(self, session_timeout: Option<SessionTimeout>) -> (b: Self)
        ensures
            b.session_timeout_spec() == session_timeout,
            b.ebpf_object_spec() == self.ebpf_object_spec(),
            b.prefix96_spec() == self.prefix96_spec(),
            b.v4_pool_spec() == self.v4_pool_spec(),
            b.port_min_spec() == self.port_min_spec(),
            b.port_max_spec() == self.port_max_spec(),
    {
        Nat64Builder { session_timeout, ..self }
    }

    /// Path of the eBPF object that each dataplane is loaded from.
    pub fn ebpf_object(&self) -> (p: &str)
        ensures
            p@ == self.ebpf_object_spec(),
    {
        self.ebpf_object.as_str()
    }

    /// The configured idle session timeout.
    pub fn session_timeout(&self) -> (t: Option<SessionTimeout>)
        ensures
            t == self.session_timeout_spec(),
    {
        self.session_timeout
    }

    /// The translation policy that each built dataplane is configured with.
    pub fn config(&self) -> (c: Nat64Config)
        ensures
            c.prefix96 == self.prefix96_spec(),
            c.v4_pool@ == self.v4_pool_spec(),
            c.port_min == self.port_min_spec(),
            c.port_max == self.port_max_spec(),
            c.session_timeout == self.session_timeout_spec(),
    {
        let mut v4_pool: Vec<u32> = Vec::new();
        let mut i: usize = 0;
        while i < self.v4_pool.len()
            invariant
                i <= self.v4_pool@.len(),
                v4_pool@ == self.v4_pool@.subrange(0, i as int),
            decreases self.v4_pool@.len() - i,
        {
            v4_pool.push(self.v4_pool[i]);
            i = i + 1;
            assert(v4_pool@ =~= self.v4_pool@.subrange(0, i as int));
        }
        assert(v4_pool@ =~= self.v4_pool@);
        Nat64Config {
            prefix96: self.prefix96,
            v4_pool,
            port_min: self.port_min,
            port_max: self.port_max,
            session_timeout: self.session_timeout,
        }
    }
}

} // verus!
