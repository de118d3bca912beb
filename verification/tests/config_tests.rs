use lnetm::{FailureCounter, MonitorConfig, MonitorKind, u64_to_dec};

#[test]
fn kind_keywords_select_their_checker() {
    assert_eq!(MonitorKind::from_text("latency"), MonitorKind::Latency);
    assert_eq!(MonitorKind::from_text("l"), MonitorKind::Latency);
    assert_eq!(
        MonitorKind::from_text("availability"),
        MonitorKind::Availability
    );
    assert_eq!(MonitorKind::from_text("a"), MonitorKind::Availability);
}

#[test]
fn kind_is_selected_without_regard_to_case() {
    assert_eq!(MonitorKind::from_text("LATENCY"), MonitorKind::Latency);
    assert_eq!(MonitorKind::from_text("Latency"), MonitorKind::Latency);
    assert_eq!(MonitorKind::from_text("L"), MonitorKind::Latency);
    assert_eq!(
        MonitorKind::from_text("Availability"),
        MonitorKind::Availability
    );
    assert_eq!(MonitorKind::from_text("A"), MonitorKind::Availability);
}

#[test]
fn unrecognized_kind_defaults_to_all() {
    assert_eq!(MonitorKind::from_text("all"), MonitorKind::All);
    assert_eq!(MonitorKind::from_text(""), MonitorKind::All);
    assert_eq!(MonitorKind::from_text("bogus"), MonitorKind::All);
    assert_eq!(MonitorKind::from_text("latency "), MonitorKind::All);
    assert_eq!(MonitorKind::from_text("lat"), MonitorKind::All);
}

#[test]
fn config_keeps_its_fields() {
    let config = MonitorConfig::new(
        MonitorKind::All,
        "192.168.1.1".to_string(),
        vec![1u8, 2, 3],
        7,
        3,
        250,
        true,
        false,
    );
    assert_eq!(config.address, "192.168.1.1");
    assert_eq!(config.payload, vec![1u8, 2, 3]);
    assert_eq!(config.interval_secs, 7);
    assert_eq!(config.timeout_secs, 3);
    assert_eq!(config.threshold_ms, 250);
    assert!(config.daemonize);
    assert!(!config.stop);
}

#[test]
fn default_payload_is_fifty_six_bytes() {
    assert_eq!(MonitorConfig::default_payload().len(), 56);
}

#[test]
fn decimal_rendering_is_exact() {
    assert_eq!(u64_to_dec(0), "0");
    assert_eq!(u64_to_dec(7), "7");
    assert_eq!(u64_to_dec(42), "42");
    assert_eq!(u64_to_dec(1000), "1000");
    assert_eq!(u64_to_dec(u64::MAX), "18446744073709551615");
}

#[test]
fn counter_counts_and_reads_back() {
    let mut c = FailureCounter::new();
    assert_eq!(c.read(), 0);
    assert_eq!(c.increment(), 1);
    assert_eq!(c.increment(), 2);
    assert_eq!(c.read(), 2);
}

#[test]
fn reading_a_counter_twice_returns_the_same_value() {
    let mut c = FailureCounter::new();
    c.increment();
    let first = c.read();
    let second = c.read();
    assert_eq!(first, second);
}
