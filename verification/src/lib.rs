//! Packet translation primitives, flow-state bookkeeping and configuration
//! rules for a stateful NAT64 translator that lets IPv6 clients reach IPv4
//! servers.
pub mod wire;
pub mod ones_complement;
pub mod checksum;
pub mod headers;
pub mod abi;
pub mod metrics;
pub mod ipv6;
pub mod dataplane;
pub mod verdict;
pub mod error;
pub mod config;
pub mod lifecycle;
pub mod builder;
pub mod translate;
pub mod diagnostics;
pub mod accounting;
pub mod steps;
