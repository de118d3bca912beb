use vstd::prelude::*;

verus! {

/// Outcome of one reachability probe against the monitored address.
pub enum AvailProbe {
    /// The target answered.
    Reachable,
    /// The target did not answer; the reason is carried into the cycle log.
    Unreachable(String),
}

/// Outcome of one echo probe against the monitored address.
pub enum LatencyProbe {
    /// A reply arrived after the given round-trip time, in milliseconds.
    Rtt(u64),
    /// The target did not answer within the deadline.
    Unreachable,
    /// The probe itself misfired this cycle; the cycle is skipped.
    ProbeError(String),
}

/// The probing mechanism itself failed to run — not a silent target but a
/// broken capability. Fatal to the owning checker's loop: the loop stops
/// and surfaces the error instead of spinning silently.
pub struct ProbeTransportError {
    pub reason: String,
}

} // verus!
