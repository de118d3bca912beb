use lnetm::{parse_pid, pid_file_path, plan_stop, signal_outcome, start_outcome, DaemonError};

#[test]
fn stop_without_a_pid_file_reports_not_found() {
    let r = plan_stop(None);
    assert_eq!(r.err(), Some(DaemonError::NotFound));
}

#[test]
fn stop_with_non_numeric_pid_file_reports_invalid_pid() {
    let content = b"not a pid".to_vec();
    let r = plan_stop(Some(&content));
    assert_eq!(r.err(), Some(DaemonError::InvalidPid));
}

#[test]
fn stop_with_a_valid_pid_file_plans_the_signal() {
    let content = b"4321\n".to_vec();
    let plan = plan_stop(Some(&content)).expect("a numeric PID file yields a plan");
    assert_eq!(plan.pid, 4321);
}

#[test]
fn pid_parsing_accepts_surrounding_whitespace() {
    assert_eq!(parse_pid(b"123"), Some(123));
    assert_eq!(parse_pid(b"  123  "), Some(123));
    assert_eq!(parse_pid(b"\t123\r\n"), Some(123));
    assert_eq!(parse_pid(b"007"), Some(7));
}

#[test]
fn pid_parsing_rejects_what_is_no_process_id() {
    assert_eq!(parse_pid(b""), None);
    assert_eq!(parse_pid(b"   "), None);
    assert_eq!(parse_pid(b"12a"), None);
    assert_eq!(parse_pid(b"-5"), None);
    assert_eq!(parse_pid(b"1 2"), None);
}

#[test]
fn pid_parsing_observes_the_id_width() {
    assert_eq!(parse_pid(b"2147483647"), Some(i32::MAX));
    assert_eq!(parse_pid(b"2147483648"), None);
    assert_eq!(parse_pid(b"99999999999999999999"), None);
}

#[test]
fn signal_and_start_outcomes_carry_their_errors() {
    assert!(signal_outcome(true).is_ok());
    assert_eq!(signal_outcome(false).err(), Some(DaemonError::SignalFailed));
    assert!(start_outcome(true).is_ok());
    assert_eq!(start_outcome(false).err(), Some(DaemonError::StartFailed));
}

#[test]
fn the_pid_file_lives_at_its_well_known_path() {
    assert_eq!(pid_file_path(), "/tmp/lnetm.pid");
}
