//! A verified core for a network-monitoring daemon.
//!
//! The library holds the monitoring engine's logic: failure accounting,
//! classification of probe results, the decisions each checker cycle makes
//! (count, alert, log), the orchestrator's dispatch, and the PID-file stop
//! protocol. Probing, notification delivery, daemonisation and logging are
//! I/O and live with the embedding program, which feeds plain values in and
//! carries the decided actions out.

pub mod avail;
pub mod config;
pub mod counter;
pub mod daemon;
pub mod format;
pub mod latency;
pub mod notify;
pub mod orchestrator;
pub mod probe;

pub use avail::{AvailLog, AvailabilityChecker};
pub use config::{MonitorConfig, MonitorKind};
pub use counter::FailureCounter;
pub use daemon::{
    parse_pid, pid_file_path, plan_stop, signal_outcome, start_outcome, DaemonError, StopPlan,
};
pub use format::u64_to_dec;
pub use latency::{LatLog, LatencyChecker};
pub use notify::{Notification, NotifyError};
pub use orchestrator::{CheckerSelection, MonitorEvent, run_interleaved, select_checkers};
pub use probe::{AvailProbe, LatencyProbe, ProbeTransportError};
