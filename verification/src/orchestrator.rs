use vstd::prelude::*;
use crate::avail::{
    count_unreachable, lemma_count_unreachable_le_len, AvailabilityChecker,
};
use crate::config::{MonitorConfig, MonitorKind};
use crate::latency::{count_breaches, lemma_count_breaches_le_len, LatencyChecker};
use crate::notify::{
    availability_alert_body, availability_alert_summary, latency_alert_body,
    latency_alert_summary, Notification,
};
use crate::probe::{AvailProbe, LatencyProbe};

verus! {

/// Which checkers a monitor kind makes the orchestrator run.
pub struct CheckerSelection {
    pub availability: bool,
    pub latency: bool,
}

/// The orchestrator's dispatch: `Availability` and `Latency` each run their
/// own checker alone, `All` runs both concurrently.
pub fn select_checkers(kind: MonitorKind) -> (s: CheckerSelection)
    ensures
        s.availability == (kind is All || kind is Availability),
        s.latency == (kind is All || kind is Latency),
{
    match kind {
        MonitorKind::All => CheckerSelection { availability: true, latency: true },
        MonitorKind::Availability => CheckerSelection { availability: true, latency: false },
        MonitorKind::Latency => CheckerSelection { availability: false, latency: true },
    }
}

/// One scheduled cycle of either checker, as seen in some interleaving of
/// the two concurrent loops.
pub enum MonitorEvent {
    Availability(AvailProbe),
    Latency(LatencyProbe),
}

/// The availability probes of an interleaving, in order.
pub open spec fn avail_part(events: Seq<MonitorEvent>) -> Seq<AvailProbe>
    decreases events.len(),
{
    if events.len() == 0 {
        Seq::empty()
    } else {
        match events.last() {
            MonitorEvent::Availability(p) => avail_part(events.drop_last()).push(p),
            MonitorEvent::Latency(_) => avail_part(events.drop_last()),
        }
    }
}

/// The latency probes of an interleaving, in order.
pub open spec fn lat_part(events: Seq<MonitorEvent>) -> Seq<LatencyProbe>
    decreases events.len(),
{
    if events.len() == 0 {
        Seq::empty()
    } else {
        match events.last() {
            MonitorEvent::Availability(_) => lat_part(events.drop_last()),
            MonitorEvent::Latency(p) => lat_part(events.drop_last()).push(p),
        }
    }
}

/// An interleaving holds no more probes of one kind than events.
pub proof fn lemma_parts_len(events: Seq<MonitorEvent>)
    ensures
        avail_part(events).len() <= events.len(),
        lat_part(events).len() <= events.len(),
    decreases events.len(),
{
    if events.len() > 0 {
        lemma_parts_len(events.drop_last());
    }
}

/// Latency cycles never touch the availability checker: an interleaving of
/// latency events alone carries no availability probe at all.
pub proof fn lemma_latency_only_leaves_availability_idle(events: Seq<MonitorEvent>)
    requires
        forall|i: int| 0 <= i < events.len() ==> (#[trigger] events[i]) is Latency,
    ensures
        avail_part(events) =~= Seq::<AvailProbe>::empty(),
    decreases events.len(),
{
    if events.len() > 0 {
        assert forall|i: int|
            0 <= i < events.drop_last().len() implies (#[trigger] events.drop_last()[i])
            is Latency by {
            assert(events.drop_last()[i] == events[i]);
        }
        lemma_latency_only_leaves_availability_idle(events.drop_last());
    }
}

/// Availability cycles never touch the latency checker: an interleaving of
/// availability events alone carries no latency probe at all.
pub proof fn lemma_availability_only_leaves_latency_idle(events: Seq<MonitorEvent>)
    requires
        forall|i: int| 0 <= i < events.len() ==> (#[trigger] events[i]) is Availability,
    ensures
        lat_part(events) =~= Seq::<LatencyProbe>::empty(),
    decreases events.len(),
{
    if events.len() > 0 {
        assert forall|i: int|
            0 <= i < events.drop_last().len() implies (#[trigger] events.drop_last()[i])
            is Availability by {
            assert(events.drop_last()[i] == events[i]);
        }
        lemma_availability_only_leaves_latency_idle(events.drop_last());
    }
}

/// Run both checkers over one interleaving of their cycles, as the `All`
/// mode schedules them. Each counter moves exactly with its own checker's
/// probes — the availability count depends only on the availability part
/// of the interleaving and the latency count only on the latency part, so
/// neither checker's state leaks into the other's, whatever the schedule.
pub fn run_interleaved(
    avail: &mut AvailabilityChecker,
    lat: &mut LatencyChecker,
    config: &MonitorConfig,
    events: &Vec<MonitorEvent>,
) -> (r: (Vec<Notification>, Vec<Notification>))
    requires
        old(avail).failures() + events@.len() <= u64::MAX,
        old(lat).failures() + events@.len() <= u64::MAX,
    ensures
        final(avail).failures() == old(avail).failures() + count_unreachable(avail_part(events@)),
        final(lat).failures() == old(lat).failures() + count_breaches(
            lat_part(events@),
            config.threshold_ms,
        ),
        r.0@.len() == count_unreachable(avail_part(events@)),
        forall|j: int|
            0 <= j < r.0@.len() ==> ((#[trigger] r.0@[j]).summary@ == availability_alert_summary()
                && r.0@[j].body@ == availability_alert_body(
                (old(avail).failures() + j + 1) as nat,
            )),
        r.1@.len() == count_breaches(lat_part(events@), config.threshold_ms),
        forall|j: int|
            0 <= j < r.1@.len() ==> ((#[trigger] r.1@[j]).summary@ == latency_alert_summary()
                && r.1@[j].body@ == latency_alert_body(
                config.address@,
                (old(lat).failures() + j + 1) as nat,
            )),
{
    let ghost pre_a = avail.failures();
    let ghost pre_l = lat.failures();
    let mut notes_a: Vec<Notification> = Vec::new();
    let mut notes_l: Vec<Notification> = Vec::new();
    let mut i: usize = 0;
    while i < events.len()
        invariant
            i <= events@.len(),
            pre_a + events@.len() <= u64::MAX,
            pre_l + events@.len() <= u64::MAX,
            avail.failures() == pre_a + count_unreachable(
                avail_part(events@.subrange(0, i as int)),
            ),
            lat.failures() == pre_l + count_breaches(
                lat_part(events@.subrange(0, i as int)),
                config.threshold_ms,
            ),
            notes_a@.len() == count_unreachable(avail_part(events@.subrange(0, i as int))),
            forall|j: int|
                0 <= j < notes_a@.len() ==> ((#[trigger] notes_a@[j]).summary@
                    == availability_alert_summary()
                    && notes_a@[j].body@ == availability_alert_body((pre_a + j + 1) as nat)),
            notes_l@.len() == count_breaches(
                lat_part(events@.subrange(0, i as int)),
                config.threshold_ms,
            ),
            forall|j: int|
                0 <= j < notes_l@.len() ==> ((#[trigger] notes_l@[j]).summary@
                    == latency_alert_summary()
                    && notes_l@[j].body@ == latency_alert_body(
                    config.address@,
                    (pre_l + j + 1) as nat,
                )),
        decreases events@.len() - i,
    {
        proof {
            lemma_parts_len(events@.subrange(0, i as int));
            lemma_count_unreachable_le_len(avail_part(events@.subrange(0, i as int)));
            lemma_count_breaches_le_len(
                lat_part(events@.subrange(0, i as int)),
                config.threshold_ms,
            );
            assert(events@.subrange(0, i as int + 1).drop_last() =~= events@.subrange(0, i as int));
            assert(events@.subrange(0, i as int + 1).last() == events@[i as int]);
        }
        match &events[i] {
            MonitorEvent::Availability(p) => {
                proof {
                    let prev = avail_part(events@.subrange(0, i as int));
                    assert(avail_part(events@.subrange(0, i as int + 1)) == prev.push(*p));
                    assert(prev.push(*p).drop_last() =~= prev);
                    assert(prev.push(*p).last() == *p);
                }
                let (_log, note) = avail.observe(p);
                match note {
                    Some(n) => notes_a.push(n),
                    None => (),
                }
            },
            MonitorEvent::Latency(p) => {
                proof {
                    let prev = lat_part(events@.subrange(0, i as int));
                    assert(lat_part(events@.subrange(0, i as int + 1)) == prev.push(*p));
                    assert(prev.push(*p).drop_last() =~= prev);
                    assert(prev.push(*p).last() == *p);
                }
                let (_log, note) = lat.observe(config, p);
                match note {
                    Some(n) => notes_l.push(n),
                    None => (),
                }
            },
        }
        i = i + 1;
    }
    proof {
        assert(events@.subrange(0, events@.len() as int) =~= events@);
    }
    (notes_a, notes_l)
}

} // verus!
