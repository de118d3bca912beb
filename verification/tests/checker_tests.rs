use lnetm::{
    AvailLog, AvailProbe, AvailabilityChecker, LatLog, LatencyChecker, LatencyProbe,
    MonitorConfig, MonitorKind, NotifyError, ProbeTransportError,
};

fn test_config(kind: MonitorKind, timeout_secs: u64) -> MonitorConfig {
    MonitorConfig::new(
        kind,
        "10.0.0.1".to_string(),
        MonitorConfig::default_payload(),
        10,
        timeout_secs,
        100,
        false,
        false,
    )
}

fn unreachable_probe() -> AvailProbe {
    AvailProbe::Unreachable("no echo reply".to_string())
}

#[test]
fn availability_counter_counts_each_unreachable_cycle() {
    let mut checker = AvailabilityChecker::new();
    let probes = vec![
        unreachable_probe(),
        unreachable_probe(),
        unreachable_probe(),
        unreachable_probe(),
        unreachable_probe(),
    ];
    let (logs, notes) = checker.run_cycles(&probes);
    assert_eq!(checker.failure_count(), 5);
    assert_eq!(logs.len(), 5);
    assert_eq!(notes.len(), 5);
}

#[test]
fn availability_reachable_cycle_is_quiet() {
    let mut checker = AvailabilityChecker::new();
    let (log, note) = checker.observe(&AvailProbe::Reachable);
    assert!(matches!(log, AvailLog::CycleUp));
    assert!(note.is_none());
    assert_eq!(checker.failure_count(), 0);
}

#[test]
fn availability_alert_carries_cumulative_count() {
    let mut checker = AvailabilityChecker::new();
    let (log, note) = checker.observe(&unreachable_probe());
    match log {
        AvailLog::CycleDown { reason, failures } => {
            assert_eq!(reason, "no echo reply");
            assert_eq!(failures, 1);
        }
        AvailLog::CycleUp => panic!("an unreachable probe must log a down cycle"),
    }
    let note = note.expect("an unreachable probe must raise an alert");
    assert_eq!(note.summary, "Network device is unavailable");
    assert_eq!(
        note.body,
        "The network device is not responding to pings - failure count: 1"
    );
}

#[test]
fn availability_transport_error_is_surfaced_and_not_counted() {
    let mut checker = AvailabilityChecker::new();
    let outcome = Err(ProbeTransportError {
        reason: "failed to execute process".to_string(),
    });
    let r = checker.cycle(outcome);
    match r {
        Err(e) => assert_eq!(e.reason, "failed to execute process"),
        Ok(_) => panic!("a transport error must stop the cycle"),
    }
    assert_eq!(checker.failure_count(), 0);

    let r = checker.cycle(Ok(unreachable_probe()));
    assert!(r.is_ok());
    assert_eq!(checker.failure_count(), 1);
}

#[test]
fn end_to_end_three_down_then_up() {
    let config = test_config(MonitorKind::Availability, 1);
    assert!(matches!(config.kind, MonitorKind::Availability));
    assert_eq!(config.timeout_secs, 1);

    let mut checker = AvailabilityChecker::new();
    let probes = vec![
        unreachable_probe(),
        unreachable_probe(),
        unreachable_probe(),
        AvailProbe::Reachable,
    ];
    let (logs, notes) = checker.run_cycles(&probes);
    assert_eq!(checker.failure_count(), 3);
    assert_eq!(logs.len(), 4, "every cycle logs its outcome");
    assert_eq!(notes.len(), 3, "one notification attempt per failure");
    for (i, note) in notes.iter().enumerate() {
        assert_eq!(note.summary, "Network device is unavailable");
        assert_eq!(
            note.body,
            format!(
                "The network device is not responding to pings - failure count: {}",
                i + 1
            )
        );
    }
    assert!(matches!(logs[3], AvailLog::CycleUp));
}

#[test]
fn latency_below_threshold_is_quiet() {
    let config = test_config(MonitorKind::Latency, 10);
    let mut checker = LatencyChecker::new();
    let (log, note) = checker.observe(&config, &LatencyProbe::Rtt(40));
    assert!(matches!(
        log,
        LatLog::RttMeasured {
            rtt_ms: 40,
            breached: false
        }
    ));
    assert!(note.is_none());
    assert_eq!(checker.failure_count(), 0);
}

#[test]
fn latency_at_threshold_is_quiet() {
    let config = test_config(MonitorKind::Latency, 10);
    let mut checker = LatencyChecker::new();
    let (_, note) = checker.observe(&config, &LatencyProbe::Rtt(100));
    assert!(note.is_none());
    assert_eq!(checker.failure_count(), 0);
}

#[test]
fn latency_breach_counts_and_alerts_once() {
    let config = test_config(MonitorKind::Latency, 10);
    let mut checker = LatencyChecker::new();
    let (log, note) = checker.observe(&config, &LatencyProbe::Rtt(101));
    assert!(matches!(
        log,
        LatLog::RttMeasured {
            rtt_ms: 101,
            breached: true
        }
    ));
    let note = note.expect("a breach must raise an alert");
    assert_eq!(note.summary, "High latency detected!");
    assert_eq!(
        note.body,
        "High latency was detected while monitoring 10.0.0.1 - count: 1"
    );
    assert_eq!(checker.failure_count(), 1);
}

#[test]
fn latency_unreachable_is_logged_but_not_counted() {
    let config = test_config(MonitorKind::Latency, 10);
    let mut checker = LatencyChecker::new();
    let (log, note) = checker.observe(&config, &LatencyProbe::Unreachable);
    assert!(matches!(log, LatLog::PeerUnreachable));
    assert!(note.is_none());
    assert_eq!(checker.failure_count(), 0);
}

#[test]
fn latency_probe_error_skips_the_cycle() {
    let config = test_config(MonitorKind::Latency, 10);
    let mut checker = LatencyChecker::new();
    let (log, note) = checker.observe(&config, &LatencyProbe::ProbeError("socket".to_string()));
    match log {
        LatLog::ProbeFault { reason } => assert_eq!(reason, "socket"),
        _ => panic!("a probe error must log a fault"),
    }
    assert!(note.is_none());
    assert_eq!(checker.failure_count(), 0);
}

#[test]
fn latency_run_counts_exactly_the_breaches() {
    let config = test_config(MonitorKind::Latency, 10);
    let mut checker = LatencyChecker::new();
    let probes = vec![
        LatencyProbe::Rtt(250),
        LatencyProbe::Rtt(50),
        LatencyProbe::Unreachable,
        LatencyProbe::Rtt(101),
        LatencyProbe::ProbeError("socket".to_string()),
        LatencyProbe::Rtt(100),
    ];
    let (logs, notes) = checker.run_cycles(&config, &probes);
    assert_eq!(checker.failure_count(), 2);
    assert_eq!(logs.len(), 6);
    assert_eq!(notes.len(), 2);
    assert_eq!(
        notes[0].body,
        "High latency was detected while monitoring 10.0.0.1 - count: 1"
    );
    assert_eq!(
        notes[1].body,
        "High latency was detected while monitoring 10.0.0.1 - count: 2"
    );
}

#[test]
fn a_failed_delivery_does_not_stop_the_next_cycle() {
    let config = test_config(MonitorKind::Latency, 10);
    let mut checker = LatencyChecker::new();

    let (_, note) = checker.observe(&config, &LatencyProbe::Rtt(500));
    assert!(note.is_some());
    // The sink rejects the delivery; the error is logged and discarded.
    let err = NotifyError {
        reason: "no notification service".to_string(),
    };
    assert_eq!(err.reason, "no notification service");

    // The next cycle still probes, still counts and still alerts.
    let (_, note) = checker.observe(&config, &LatencyProbe::Rtt(600));
    let note = note.expect("the next breach must still raise its own alert");
    assert_eq!(
        note.body,
        "High latency was detected while monitoring 10.0.0.1 - count: 2"
    );
    assert_eq!(checker.failure_count(), 2);
}
