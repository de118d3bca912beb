use vstd::prelude::*;
use crate::config::MonitorConfig;
use crate::counter::FailureCounter;
use crate::notify::{latency_alert, latency_alert_body, latency_alert_summary, Notification};
use crate::probe::LatencyProbe;

verus! {

/// The log line one latency cycle emits: every cycle logs its outcome.
pub enum LatLog {
    /// A reply arrived; `breached` says whether it was over the threshold.
    RttMeasured { rtt_ms: u64, breached: bool },
    /// The target did not answer. Logged at elevated severity; counting
    /// unreachability is the availability checker's task, not this one's.
    PeerUnreachable,
    /// The probe misfired this cycle and the cycle was skipped.
    ProbeFault { reason: String },
}

/// A probe result breaches when it measured a round-trip time above the
/// threshold.
pub open spec fn breaches(probe: LatencyProbe, threshold_ms: u32) -> bool {
    probe matches LatencyProbe::Rtt(d) && d > threshold_ms as u64
}

/// The log line that fits a probe result.
pub open spec fn lat_log_for(probe: LatencyProbe, threshold_ms: u32, log: LatLog) -> bool {
    match probe {
        LatencyProbe::Rtt(d) => log matches LatLog::RttMeasured { rtt_ms, breached }
            && rtt_ms == d && breached == (d > threshold_ms as u64),
        LatencyProbe::Unreachable => log is PeerUnreachable,
        LatencyProbe::ProbeError(reason) => log matches LatLog::ProbeFault { reason: lr }
            && lr@ == reason@,
    }
}

/// Everything one latency cycle decides, as a relation between the counter
/// before (`pre`) and after (`post`), the probe's outcome, the log line and
/// the notification attempt. Exactly the breaching results count and alert;
/// everything else is logged only.
pub open spec fn latency_cycle_post(
    pre: nat,
    post: nat,
    address: Seq<char>,
    threshold_ms: u32,
    probe: LatencyProbe,
    log: LatLog,
    note: Option<Notification>,
) -> bool {
    &&& breaches(probe, threshold_ms) ==> {
        &&& post == pre + 1
        &&& (note matches Some(n) && n.summary@ == latency_alert_summary() && n.body@
            == latency_alert_body(address, post))
    }
    &&& !breaches(probe, threshold_ms) ==> post == pre && note is None
    &&& lat_log_for(probe, threshold_ms, log)
}

/// What a cycle decides is a function of the counter, the configuration and
/// the probe alone: any two outcomes the cycle contract admits for the same
/// starting count and probe agree on the new count and on whether and what
/// to alert. In particular, whether an earlier notification was delivered
/// or failed is not an input, so a delivery failure cannot alter any later
/// cycle.
pub proof fn lemma_latency_cycle_depends_on_probe_alone(
    pre: nat,
    address: Seq<char>,
    threshold_ms: u32,
    probe: LatencyProbe,
    post1: nat,
    log1: LatLog,
    note1: Option<Notification>,
    post2: nat,
    log2: LatLog,
    note2: Option<Notification>,
)
    requires
        latency_cycle_post(pre, post1, address, threshold_ms, probe, log1, note1),
        latency_cycle_post(pre, post2, address, threshold_ms, probe, log2, note2),
    ensures
        post1 == post2,
        note1 is Some <==> note2 is Some,
        note1 matches Some(n1) ==> (note2 matches Some(n2) && n1.summary@ == n2.summary@
            && n1.body@ == n2.body@),
{
}

/// How many probes of a sequence breached the threshold.
pub open spec fn count_breaches(probes: Seq<LatencyProbe>, threshold_ms: u32) -> nat
    decreases probes.len(),
{
    if probes.len() == 0 {
        0
    } else {
        count_breaches(probes.drop_last(), threshold_ms) + if breaches(
            probes.last(),
            threshold_ms,
        ) {
            1nat
        } else {
            0nat
        }
    }
}

/// No more probes breach than there are probes.
pub proof fn lemma_count_breaches_le_len(probes: Seq<LatencyProbe>, threshold_ms: u32)
    ensures
        count_breaches(probes, threshold_ms) <= probes.len(),
    decreases probes.len(),
{
    if probes.len() > 0 {
        lemma_count_breaches_le_len(probes.drop_last(), threshold_ms);
    }
}

/// Polls round-trip responsiveness and accounts for threshold breaches: a
/// reply slower than the threshold increments this checker's own counter
/// and asks for one notification; an unreachable target or a misfired probe
/// is logged and skipped, never counted here.
pub struct LatencyChecker {
    counter: FailureCounter,
}

impl LatencyChecker {
    /// The cumulative breach count this checker has recorded.
    pub closed spec fn failures(&self) -> nat {
        self.counter@
    }

    /// A fresh checker has recorded no breaches.
    pub fn new() -> (c: LatencyChecker)
        ensures
            c.failures() == 0,
    {
        LatencyChecker { counter: FailureCounter::new() }
    }

    /// Read the cumulative breach count.
    pub fn failure_count(&self) -> (n: u64)
        ensures
            n as nat == self.failures(),
    {
        self.counter.read()
    }

    /// Decide one cycle from the probe's outcome: count and alert exactly
    /// on a breach, log every outcome.
    pub fn observe(&mut self, config: &MonitorConfig, probe: &LatencyProbe) -> (r: (
        LatLog,
        Option<Notification>,
    ))
        requires
            old(self).failures() < u64::MAX,
        ensures
            latency_cycle_post(
                old(self).failures(),
                final(self).failures(),
                config.address@,
                config.threshold_ms,
                *probe,
                r.0,
                r.1,
            ),
    {
        match probe {
            LatencyProbe::Rtt(d) => {
                if *d > config.threshold_ms as u64 {
                    let total = self.counter.increment();
                    let note = latency_alert(config.address.as_str(), total);
                    (LatLog::RttMeasured { rtt_ms: *d, breached: true }, Some(note))
                } else {
                    (LatLog::RttMeasured { rtt_ms: *d, breached: false }, None)
                }
            },
            LatencyProbe::Unreachable => (LatLog::PeerUnreachable, None),
            LatencyProbe::ProbeError(reason) => (
                LatLog::ProbeFault { reason: reason.clone() },
                None,
            ),
        }
    }

    /// Run one cycle per probe result, in order. The counter rises by
    /// exactly the number of breaching results, one log line is emitted per
    /// cycle, and one notification is attempted per breach, the j-th
    /// carrying cumulative count j+1 above the starting point.
    pub fn run_cycles(&mut self, config: &MonitorConfig, probes: &Vec<LatencyProbe>) -> (r: (
        Vec<LatLog>,
        Vec<Notification>,
    ))
        requires
            old(self).failures() + probes@.len() <= u64::MAX,
        ensures
            final(self).failures() == old(self).failures() + count_breaches(
                probes@,
                config.threshold_ms,
            ),
            r.0@.len() == probes@.len(),
            forall|i: int|
                0 <= i < probes@.len() ==> lat_log_for(
                    probes@[i],
                    config.threshold_ms,
                    #[trigger] r.0@[i],
                ),
            r.1@.len() == count_breaches(probes@, config.threshold_ms),
            forall|j: int|
                0 <= j < r.1@.len() ==> ((#[trigger] r.1@[j]).summary@ == latency_alert_summary()
                    && r.1@[j].body@ == latency_alert_body(
                    config.address@,
                    (old(self).failures() + j + 1) as nat,
                )),
    {
        let ghost pre = self.failures();
        let mut logs: Vec<LatLog> = Vec::new();
        let mut notes: Vec<Notification> = Vec::new();
        let mut i: usize = 0;
        while i < probes.len()
            invariant
                i <= probes@.len(),
                pre + probes@.len() <= u64::MAX,
                self.failures() == pre + count_breaches(
                    probes@.subrange(0, i as int),
                    config.threshold_ms,
                ),
                logs@.len() == i,
                forall|k: int|
                    0 <= k < i ==> lat_log_for(probes@[k], config.threshold_ms, #[trigger] logs@[k]),
                notes@.len() == count_breaches(probes@.subrange(0, i as int), config.threshold_ms),
                forall|j: int|
                    0 <= j < notes@.len() ==> ((#[trigger] notes@[j]).summary@
                        == latency_alert_summary()
                        && notes@[j].body@ == latency_alert_body(
                        config.address@,
                        (pre + j + 1) as nat,
                    )),
            decreases probes@.len() - i,
        {
            proof {
                lemma_count_breaches_le_len(probes@.subrange(0, i as int), config.threshold_ms);
                assert(probes@.subrange(0, i as int + 1).drop_last() =~= probes@.subrange(
                    0,
                    i as int,
                ));
            }
            let (log, note) = self.observe(config, &probes[i]);
            logs.push(log);
            match note {
                Some(n) => notes.push(n),
                None => (),
            }
            i = i + 1;
        }
        proof {
            assert(probes@.subrange(0, probes@.len() as int) =~= probes@);
        }
        (logs, notes)
    }
}

} // verus!
