use vstd::prelude::*;
use crate::format::{dec_of, push_dec};

verus! {

/// One alert to be delivered to the user, exactly one delivery attempt per
/// qualifying event. Delivery itself is I/O and is carried out by the
/// embedding program; a failed delivery is reported as a `NotifyError`,
/// logged and discarded, never fatal to a checker.
pub struct Notification {
    pub summary: String,
    pub body: String,
}

/// A notification could not be delivered. Recovered locally by the caller:
/// the checker loop goes on regardless.
pub struct NotifyError {
    pub reason: String,
}

/// Summary line of an availability alert.
pub open spec fn availability_alert_summary() -> Seq<char> {
    "Network device is unavailable"@
}

/// Body of an availability alert carrying the cumulative failure count.
pub open spec fn availability_alert_body(failures: nat) -> Seq<char> {
    "The network device is not responding to pings - failure count: "@ + dec_of(failures)
}

/// Summary line of a high-latency alert.
pub open spec fn latency_alert_summary() -> Seq<char> {
    "High latency detected!"@
}

/// Body of a high-latency alert carrying the monitored address and the
/// cumulative breach count.
pub open spec fn latency_alert_body(address: Seq<char>, failures: nat) -> Seq<char> {
    "High latency was detected while monitoring "@ + address + " - count: "@ + dec_of(failures)
}

/// Build the alert for an unreachable device, `failures` being the
/// cumulative count after the present failure.
pub fn availability_alert(failures: u64) -> (n: Notification)
    ensures
        n.summary@ == availability_alert_summary(),
        n.body@ == availability_alert_body(failures as nat),
{
    let summary = String::from_str("Network device is unavailable");
    let mut body = String::from_str(
        "The network device is not responding to pings - failure count: ",
    );
    push_dec(&mut body, failures);
    Notification { summary, body }
}

/// Build the alert for a round-trip time over the threshold, `failures`
/// being the cumulative count after the present breach.
pub fn latency_alert(address: &str, failures: u64) -> (n: Notification)
    ensures
        n.summary@ == latency_alert_summary(),
        n.body@ == latency_alert_body(address@, failures as nat),
{
    let summary = String::from_str("High latency detected!");
    let mut body = String::from_str("High latency was detected while monitoring ");
    body.append(address);
    body.append(" - count: ");
    push_dec(&mut body, failures);
    Notification { summary, body }
}

} // verus!
