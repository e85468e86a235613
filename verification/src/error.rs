//! Errors raised while validating, configuring or attaching a NAT64 dataplane.
use vstd::prelude::*;

verus! {

/// A refusal decided by the library's own rules.
///
/// Failures of the surrounding system (reading the eBPF object, loader,
/// map and traffic-control errors) belong to the embedding program.
#[derive(Clone, Debug)]
pub enum Error {
    /// The external IPv4 pool was empty.
    EmptyV4Pool,
    /// The external IPv4 pool exceeded the dataplane ABI capacity.
    V4PoolTooLarge {
        /// Number of addresses supplied by the caller.
        actual: usize,
        /// Maximum number of addresses supported by the dataplane.
        maximum: usize,
    },
    /// The configured external port range was invalid.
    InvalidPortRange {
        /// Supplied lower bound.
        port_min: u16,
        /// Supplied upper bound.
        port_max: u16,
    },
    /// The configured session timeout was zero.
    InvalidSessionTimeout,
    /// Attachment was requested before a policy was configured.
    NotConfigured,
    /// The dataplane was already attached.
    AlreadyAttached,
    /// An invalid Linux interface name was supplied.
    InvalidInterfaceName {
        /// Invalid interface name.
        interface: String,
    },
}

} // verus!
