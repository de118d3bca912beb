use vstd::prelude::*;
use crate::counter::FailureCounter;
use crate::notify::{
    availability_alert, availability_alert_body, availability_alert_summary, Notification,
};
use crate::probe::{AvailProbe, ProbeTransportError};

verus! {

/// The log line one availability cycle emits: every cycle logs its outcome.
pub enum AvailLog {
    /// The target answered this cycle.
    CycleUp,
    /// The target did not answer; `failures` is the cumulative count after
    /// this cycle.
    CycleDown { reason: String, failures: u64 },
}

/// How many probes of a sequence found the target unreachable.
pub open spec fn count_unreachable(probes: Seq<AvailProbe>) -> nat
    decreases probes.len(),
{
    if probes.len() == 0 {
        0
    } else {
        count_unreachable(probes.drop_last()) + if probes.last() is Unreachable {
            1nat
        } else {
            0nat
        }
    }
}

/// No more probes find the target unreachable than there are probes.
pub proof fn lemma_count_unreachable_le_len(probes: Seq<AvailProbe>)
    ensures
        count_unreachable(probes) <= probes.len(),
    decreases probes.len(),
{
    if probes.len() > 0 {
        lemma_count_unreachable_le_len(probes.drop_last());
    }
}

/// In a sequence of consecutive unreachable results, every probe counts:
/// a run over N such cycles raises the counter by exactly N and attempts
/// exactly N notifications (see the contract of
/// [`AvailabilityChecker::run_cycles`]).
pub proof fn lemma_consecutive_unreachable(probes: Seq<AvailProbe>)
    requires
        forall|i: int| 0 <= i < probes.len() ==> (#[trigger] probes[i]) is Unreachable,
    ensures
        count_unreachable(probes) == probes.len(),
    decreases probes.len(),
{
    if probes.len() > 0 {
        assert forall|i: int| 0 <= i < probes.drop_last().len() implies (#[trigger] probes.drop_last()[i]) is Unreachable by {
            assert(probes.drop_last()[i] == probes[i]);
        }
        lemma_consecutive_unreachable(probes.drop_last());
    }
}

/// What a cycle decides is a function of the counter and the probe alone:
/// any two outcomes the cycle contract admits for the same starting count
/// and probe agree on the new count and on whether and what to alert. In
/// particular, whether an earlier notification was delivered or failed is
/// not an input, so a delivery failure cannot alter any later cycle.
pub proof fn lemma_avail_cycle_depends_on_probe_alone(
    pre: nat,
    probe: AvailProbe,
    post1: nat,
    log1: AvailLog,
    note1: Option<Notification>,
    post2: nat,
    log2: AvailLog,
    note2: Option<Notification>,
)
    requires
        avail_cycle_post(pre, post1, probe, log1, note1),
        avail_cycle_post(pre, post2, probe, log2, note2),
    ensures
        post1 == post2,
        note1 is Some <==> note2 is Some,
        note1 matches Some(n1) ==> (note2 matches Some(n2) && n1.summary@ == n2.summary@
            && n1.body@ == n2.body@),
{
}

/// The log line that fits a probe result, `failures_after` being the
/// cumulative count once the cycle is accounted.
pub open spec fn avail_log_for(probe: AvailProbe, failures_after: nat, log: AvailLog) -> bool {
    match probe {
        AvailProbe::Reachable => log is CycleUp,
        AvailProbe::Unreachable(reason) => log matches AvailLog::CycleDown { reason: lr, failures: f }
            && lr@ == reason@ && f as nat == failures_after,
    }
}

/// Everything one availability cycle decides, as a relation between the
/// counter before (`pre`) and after (`post`), the probe's outcome, the log
/// line and the notification attempt.
pub open spec fn avail_cycle_post(
    pre: nat,
    post: nat,
    probe: AvailProbe,
    log: AvailLog,
    note: Option<Notification>,
) -> bool {
    &&& avail_log_for(probe, post, log)
    &&& match probe {
        AvailProbe::Reachable => post == pre && note is None,
        AvailProbe::Unreachable(_) => {
            &&& post == pre + 1
            &&& (note matches Some(n)
                && n.summary@ == availability_alert_summary()
                && n.body@ == availability_alert_body(post))
        },
    }
}

/// Polls reachability and accounts for failures: on an unreachable result
/// it increments its own counter and asks for one notification carrying the
/// new cumulative count; on a reachable result it only logs.
pub struct AvailabilityChecker {
    counter: FailureCounter,
}

impl AvailabilityChecker {
    /// The cumulative failure count this checker has recorded.
    pub closed spec fn failures(&self) -> nat {
        self.counter@
    }

    /// A fresh checker has recorded no failures.
    pub fn new() -> (c: AvailabilityChecker)
        ensures
            c.failures() == 0,
    {
        AvailabilityChecker { counter: FailureCounter::new() }
    }

    /// Read the cumulative failure count.
    pub fn failure_count(&self) -> (n: u64)
        ensures
            n as nat == self.failures(),
    {
        self.counter.read()
    }

    /// Decide one cycle from the probe's outcome: count and alert on an
    /// unreachable target, log either way.
    pub fn observe(&mut self, probe: &AvailProbe) -> (r: (AvailLog, Option<Notification>))
        requires
            old(self).failures() < u64::MAX,
        ensures
            avail_cycle_post(old(self).failures(), final(self).failures(), *probe, r.0, r.1),
    {
        match probe {
            AvailProbe::Reachable => (AvailLog::CycleUp, None),
            AvailProbe::Unreachable(reason) => {
                let total = self.counter.increment();
                let note = availability_alert(total);
                (AvailLog::CycleDown { reason: reason.clone(), failures: total }, Some(note))
            },
        }
    }

    /// One full cycle, taking the probe attempt's result as handed in by
    /// the probing mechanism. A transport error — the mechanism itself
    /// failed to run — is fatal: it is surfaced unchanged and the counter
    /// does not move. Any probe outcome is handled as in [`Self::observe`].
    pub fn cycle(&mut self, outcome: Result<AvailProbe, ProbeTransportError>) -> (r: Result<
        (AvailLog, Option<Notification>),
        ProbeTransportError,
    >)
        requires
            old(self).failures() < u64::MAX,
        ensures
            outcome matches Ok(probe) ==> (r matches Ok(step) && avail_cycle_post(
                old(self).failures(),
                final(self).failures(),
                probe,
                step.0,
                step.1,
            )),
            outcome matches Err(e) ==> (final(self).failures() == old(self).failures()
                && (r matches Err(surfaced) && surfaced.reason@ == e.reason@)),
    {
        match outcome {
            Ok(probe) => Ok(self.observe(&probe)),
            Err(e) => Err(e),
        }
    }

    /// Run one cycle per probe result, in order. The counter rises by
    /// exactly the number of unreachable results, one log line is emitted
    /// per cycle, and one notification is attempted per unreachable result,
    /// the j-th carrying cumulative count j+1 above the starting point.
    pub fn run_cycles(&mut self, probes: &Vec<AvailProbe>) -> (r: (Vec<AvailLog>, Vec<Notification>))
        requires
            old(self).failures() + probes@.len() <= u64::MAX,
        ensures
            final(self).failures() == old(self).failures() + count_unreachable(probes@),
            r.0@.len() == probes@.len(),
            forall|i: int|
                0 <= i < probes@.len() ==> avail_log_for(
                    probes@[i],
                    old(self).failures() + count_unreachable(probes@.subrange(0, i + 1)),
                    #[trigger] r.0@[i],
                ),
            r.1@.len() == count_unreachable(probes@),
            forall|j: int|
                0 <= j < r.1@.len() ==> ((#[trigger] r.1@[j]).summary@ == availability_alert_summary()
                    && r.1@[j].body@ == availability_alert_body((old(self).failures() + j + 1) as nat)),
    {
        let ghost pre = self.failures();
        let mut logs: Vec<AvailLog> = Vec::new();
        let mut notes: Vec<Notification> = Vec::new();
        let mut i: usize = 0;
        while i < probes.len()
            invariant
                i <= probes@.len(),
                pre + probes@.len() <= u64::MAX,
                self.failures() == pre + count_unreachable(probes@.subrange(0, i as int)),
                logs@.len() == i,
                forall|k: int|
                    0 <= k < i ==> avail_log_for(
                        probes@[k],
                        pre + count_unreachable(probes@.subrange(0, k + 1)),
                        #[trigger] logs@[k],
                    ),
                notes@.len() == count_unreachable(probes@.subrange(0, i as int)),
                forall|j: int|
                    0 <= j < notes@.len() ==> ((#[trigger] notes@[j]).summary@
                        == availability_alert_summary()
                        && notes@[j].body@ == availability_alert_body((pre + j + 1) as nat)),
            decreases probes@.len() - i,
        {
            proof {
                lemma_count_unreachable_le_len(probes@.subrange(0, i as int));
                assert(probes@.subrange(0, i as int + 1).drop_last() =~= probes@.subrange(
                    0,
                    i as int,
                ));
            }
            let (log, note) = self.observe(&probes[i]);
            logs.push(log);
            match note {
                Some(n) => notes.push(n),
                None => (),
            }
            i = i + 1;
        }
        proof {
            assert(probes@.subrange(0, probes@.len() as int) =~= probes@);
        }
        (logs, notes)
    }
}

} // verus!
