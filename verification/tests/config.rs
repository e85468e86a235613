use natto64::abi::{V4_POOL_MAX, V4_SELECT_POLICY_HASH_VM_V6};
use natto64::builder::builder;
use natto64::config::{Nat64Config, RFC_6052_WELL_KNOWN_PREFIX, SessionTimeout};
use natto64::error::Error;

fn v4(a: u8, b: u8, c: u8, d: u8) -> u32 {
    u32::from_be_bytes([a, b, c, d])
}

fn config() -> Nat64Config {
    Nat64Config {
        prefix96: RFC_6052_WELL_KNOWN_PREFIX,
        v4_pool: vec![v4(203, 0, 113, 10)],
        port_min: 20_000,
        port_max: 60_000,
        session_timeout: None,
    }
}

#[test]
fn accepts_valid_configuration() {
    assert!(config().validate().is_ok());
}

#[test]
fn rejects_empty_ipv4_pool() {
    let mut config = config();
    config.v4_pool.clear();
    assert!(matches!(config.validate(), Err(Error::EmptyV4Pool)));
}

#[test]
fn rejects_oversized_ipv4_pool() {
    let mut config = config();
    config.v4_pool = vec![v4(127, 0, 0, 1); V4_POOL_MAX + 1];
    assert!(matches!(
        config.validate(),
        Err(Error::V4PoolTooLarge { .. })
    ));
}

#[test]
fn rejects_zero_or_reversed_port_ranges() {
    let mut zero = config();
    zero.port_min = 0;
    assert!(matches!(
        zero.validate(),
        Err(Error::InvalidPortRange { .. })
    ));

    let mut reversed = config();
    reversed.port_min = 60_000;
    reversed.port_max = 20_000;
    assert!(matches!(
        reversed.validate(),
        Err(Error::InvalidPortRange { .. })
    ));
}

#[test]
fn rejects_zero_session_timeout() {
    let mut value = config();
    value.session_timeout = Some(SessionTimeout::from_secs(0));
    assert!(matches!(
        value.validate(),
        Err(Error::InvalidSessionTimeout)
    ));
}

#[test]
fn rounds_session_timeout_up_for_the_dataplane() {
    let mut value = config();
    value.session_timeout = Some(SessionTimeout::from_millis(1_001));
    assert_eq!(value.dataplane_config(7, 9).session_timeout_secs, 2);
}

#[test]
fn derives_dataplane_only_fields_internally() {
    let raw = config().dataplane_config(7, 9);
    assert_eq!(raw.bridge_ifindex, 7);
    assert_eq!(raw.uplink_ifindex, 9);
    assert_eq!(raw.v4_pool_len, 1);
    assert_eq!(raw.v4_pool[0].to_be_bytes(), [203, 0, 113, 10]);
    assert_eq!(raw.session_timeout_secs, 0);
    assert_eq!(raw._pad, [0; 3]);
}

#[test]
fn uses_standard_defaults() {
    let v4_pool = vec![v4(203, 0, 113, 10)];
    let builder = builder("libnatto64_ebpf.so").with_v4_pool(v4_pool);
    let config = builder.config();

    assert_eq!(config.prefix96, RFC_6052_WELL_KNOWN_PREFIX);
    assert_eq!(config.port_min, 20_000);
    assert_eq!(config.port_max, 60_000);
    assert_eq!(builder.session_timeout(), None);
}

#[test]
fn supports_policy_overrides() {
    let prefix96 = [0xfd, 0x00, 0, 0, 0, 0, 0, 0, 0, 0, 0, 0];
    let v4_pool = vec![v4(198, 51, 100, 20)];
    let builder = builder("libnatto64_ebpf.so")
        .with_prefix96(prefix96)
        .with_v4_pool(v4_pool.clone())
        .with_port_min(30_000)
        .with_port_max(40_000)
        .with_session_timeouts(Some(SessionTimeout::from_secs(300)));
    let config = builder.config();

    assert_eq!(config.prefix96, prefix96);
    assert_eq!(config.v4_pool, v4_pool);
    assert_eq!(config.port_min, 30_000);
    assert_eq!(config.port_max, 40_000);
    assert_eq!(builder.session_timeout(), Some(SessionTimeout::from_secs(300)));
}

#[test]
fn builder_keeps_ebpf_object_path() {
    let b = builder("objects/libnatto64_ebpf.so");
    assert_eq!(b.ebpf_object(), "objects/libnatto64_ebpf.so");
    assert!(b.config().v4_pool.is_empty());
    assert!(matches!(b.config().validate(), Err(Error::EmptyV4Pool)));
}

#[test]
fn oversized_pool_reports_actual_and_maximum() {
    let mut value = config();
    value.v4_pool = vec![v4(192, 0, 2, 1); 17];
    match value.validate() {
        Err(Error::V4PoolTooLarge { actual, maximum }) => {
            assert_eq!(actual, 17);
            assert_eq!(maximum, 16);
        }
        other => panic!("unexpected {other:?}"),
    }
}

#[test]
fn port_range_error_reports_bounds() {
    let mut value = config();
    value.port_min = 5;
    value.port_max = 4;
    match value.validate() {
        Err(Error::InvalidPortRange { port_min, port_max }) => {
            assert_eq!(port_min, 5);
            assert_eq!(port_max, 4);
        }
        other => panic!("unexpected {other:?}"),
    }
}

#[test]
fn single_port_range_is_accepted() {
    let mut value = config();
    value.port_min = 1;
    value.port_max = 1;
    assert!(value.validate().is_ok());
}

#[test]
fn pool_rule_is_checked_before_port_rule() {
    let mut value = config();
    value.v4_pool.clear();
    value.port_min = 0;
    assert!(matches!(value.validate(), Err(Error::EmptyV4Pool)));
}

#[test]
fn sub_second_timeout_is_valid_and_rounds_to_one_second() {
    let mut value = config();
    value.session_timeout = Some(SessionTimeout::from_millis(1));
    assert!(value.validate().is_ok());
    assert_eq!(value.dataplane_config(1, 2).session_timeout_secs, 1);
}

#[test]
fn whole_second_timeout_is_not_rounded() {
    let mut value = config();
    value.session_timeout = Some(SessionTimeout::from_secs(300));
    assert_eq!(value.dataplane_config(1, 2).session_timeout_secs, 300);
}

#[test]
fn huge_timeout_is_capped_to_u32_max_seconds() {
    let mut value = config();
    value.session_timeout = Some(SessionTimeout { secs: u64::MAX, subsec_nanos: 5 });
    assert_eq!(value.dataplane_config(1, 2).session_timeout_secs, u32::MAX);
    value.session_timeout = Some(SessionTimeout::from_secs(u64::from(u32::MAX) + 1));
    assert_eq!(value.dataplane_config(1, 2).session_timeout_secs, u32::MAX);
}

#[test]
fn dataplane_config_copies_pool_and_policy() {
    let mut value = config();
    value.v4_pool = vec![v4(192, 0, 2, 1), v4(192, 0, 2, 2), v4(192, 0, 2, 3)];
    value.prefix96 = [0xfd, 0, 0, 0, 0, 0, 0, 0, 0, 0, 0, 1];
    let raw = value.dataplane_config(3, 4);
    assert_eq!(raw.prefix96, value.prefix96);
    assert_eq!(raw.v4_pool_len, 3);
    assert_eq!(&raw.v4_pool[..3], &value.v4_pool[..]);
    assert!(raw.v4_pool[3..].iter().all(|a| *a == 0));
    assert_eq!(raw.port_min, 20_000);
    assert_eq!(raw.port_max, 60_000);
    assert_eq!(raw.v4_policy, V4_SELECT_POLICY_HASH_VM_V6);
}

#[test]
fn from_millis_splits_seconds_and_nanoseconds() {
    let t = SessionTimeout::from_millis(2_345);
    assert_eq!(t.secs, 2);
    assert_eq!(t.subsec_nanos, 345_000_000);
    assert!(!t.is_zero());
    assert!(SessionTimeout::from_millis(0).is_zero());
}
