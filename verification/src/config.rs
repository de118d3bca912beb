use vstd::prelude::*;
use vstd::string::StringSliceAdditionalSpecFns;

verus! {

/// Which checker(s) the orchestrator runs.
#[derive(Clone, Copy, Debug, PartialEq, Eq, Structural)]
pub enum MonitorKind {
    All,
    Availability,
    Latency,
}

/// ASCII lower-casing of one byte: upper-case letters fold, all else stays.
pub open spec fn lower_byte(b: u8) -> u8 {
    if 65 <= b && b <= 90 {
        (b + 32) as u8
    } else {
        b
    }
}

/// ASCII lower-casing of a byte sequence.
pub open spec fn lower_bytes(s: Seq<u8>) -> Seq<u8> {
    s.map_values(|b: u8| lower_byte(b))
}

/// The bytes of the keyword `latency`.
pub open spec fn latency_bytes() -> Seq<u8> {
    seq![108u8, 97u8, 116u8, 101u8, 110u8, 99u8, 121u8]
}

/// The bytes of the keyword `availability`.
pub open spec fn availability_bytes() -> Seq<u8> {
    seq![97u8, 118u8, 97u8, 105u8, 108u8, 97u8, 98u8, 105u8, 108u8, 105u8, 116u8, 121u8]
}

/// The monitor kind a piece of text selects, compared without regard to
/// ASCII case: `latency` or `l` and `availability` or `a` select their
/// checker; anything else falls back to `All`. The fallback is a documented
/// default, not an error.
pub open spec fn kind_of_bytes(s: Seq<u8>) -> MonitorKind {
    if lower_bytes(s) == latency_bytes() || lower_bytes(s) == seq![108u8] {
        MonitorKind::Latency
    } else if lower_bytes(s) == availability_bytes() || lower_bytes(s) == seq![97u8] {
        MonitorKind::Availability
    } else {
        MonitorKind::All
    }
}

fn lower_byte_exec(b: u8) -> (r: u8)
    ensures
        r == lower_byte(b),
{
    if b >= 65 && b <= 90 {
        b + 32
    } else {
        b
    }
}

fn lowered_matches(b: &[u8], kw: &[u8]) -> (r: bool)
    ensures
        r == (lower_bytes(b@) == kw@),
{
    if b.len() != kw.len() {
        proof {
            assert(lower_bytes(b@).len() == b@.len());
        }
        return false;
    }
    let mut i: usize = 0;
    while i < b.len()
        invariant
            i <= b@.len(),
            b@.len() == kw@.len(),
            forall|k: int| 0 <= k < i ==> lower_bytes(b@)[k] == kw@[k],
        decreases b@.len() - i,
    {
        let lb = lower_byte_exec(b[i]);
        proof {
            assert(lower_bytes(b@)[i as int] == lower_byte(b@[i as int]));
        }
        if lb != kw[i] {
            proof {
                assert(lower_bytes(b@)[i as int] != kw@[i as int]);
            }
            return false;
        }
        i = i + 1;
    }
    proof {
        assert(lower_bytes(b@) =~= kw@);
    }
    true
}

fn keyword_latency() -> (v: Vec<u8>)
    ensures
        v@ == latency_bytes(),
{
    let mut v: Vec<u8> = Vec::new();
    v.push(108);
    v.push(97);
    v.push(116);
    v.push(101);
    v.push(110);
    v.push(99);
    v.push(121);
    proof {
        assert(v@ =~= latency_bytes());
    }
    v
}

fn keyword_availability() -> (v: Vec<u8>)
    ensures
        v@ == availability_bytes(),
{
    let mut v: Vec<u8> = Vec::new();
    v.push(97);
    v.push(118);
    v.push(97);
    v.push(105);
    v.push(108);
    v.push(97);
    v.push(98);
    v.push(105);
    v.push(108);
    v.push(105);
    v.push(116);
    v.push(121);
    proof {
        assert(v@ =~= availability_bytes());
    }
    v
}

impl MonitorKind {
    /// Select a monitor kind from text: `latency`/`l` and `availability`/`a`
    /// in any ASCII case pick their checker, anything else defaults to
    /// running everything.
    pub fn from_text(s: &str) -> (k: MonitorKind)
        ensures
            k == kind_of_bytes(s.spec_bytes()),
    {
        let b = s.as_bytes();
        let lat = keyword_latency();
        let avail = keyword_availability();
        let mut lat_short: Vec<u8> = Vec::new();
        lat_short.push(108);
        let mut avail_short: Vec<u8> = Vec::new();
        avail_short.push(97);
        proof {
            assert(lat_short@ =~= seq![108u8]);
            assert(avail_short@ =~= seq![97u8]);
        }
        if lowered_matches(b, lat.as_slice()) || lowered_matches(b, lat_short.as_slice()) {
            MonitorKind::Latency
        } else if lowered_matches(b, avail.as_slice()) || lowered_matches(
            b,
            avail_short.as_slice(),
        ) {
            MonitorKind::Availability
        } else {
            MonitorKind::All
        }
    }
}

/// The finished configuration record the monitoring engine consumes,
/// constructed once per process run from external input.
#[derive(Clone, Debug)]
pub struct MonitorConfig {
    /// Which checker(s) to run.
    pub kind: MonitorKind,
    /// The probe target for both checkers; never empty.
    pub address: String,
    /// The bytes sent on echo probes; never empty.
    pub payload: Vec<u8>,
    /// Sleep period between latency-checker cycles, in seconds.
    pub interval_secs: u64,
    /// Sleep period between availability-checker cycles and the per-probe
    /// deadline, in seconds.
    pub timeout_secs: u64,
    /// The round-trip-time ceiling above which latency alerts fire, in
    /// milliseconds.
    pub threshold_ms: u32,
    /// Route through the daemon controller's start path.
    pub daemonize: bool,
    /// Route through the daemon controller's stop path and exit.
    pub stop: bool,
}

impl MonitorConfig {
    /// A configuration is well formed when its address and payload are
    /// non-empty.
    pub open spec fn wf(&self) -> bool {
        &&& self.address@.len() > 0
        &&& self.payload@.len() > 0
    }

    /// Assemble a configuration from finished field values.
    pub fn new(
        kind: MonitorKind,
        address: String,
        payload: Vec<u8>,
        interval_secs: u64,
        timeout_secs: u64,
        threshold_ms: u32,
        daemonize: bool,
        stop: bool,
    ) -> (c: MonitorConfig)
        requires
            address@.len() > 0,
            payload@.len() > 0,
        ensures
            c.wf(),
            c.kind == kind,
            c.address == address,
            c.payload == payload,
            c.interval_secs == interval_secs,
            c.timeout_secs == timeout_secs,
            c.threshold_ms == threshold_ms,
            c.daemonize == daemonize,
            c.stop == stop,
    {
        MonitorConfig {
            kind,
            address,
            payload,
            interval_secs,
            timeout_secs,
            threshold_ms,
            daemonize,
            stop,
        }
    }

    /// The default echo payload: 56 zero bytes, the customary echo size.
    pub fn default_payload() -> (p: Vec<u8>)
        ensures
            p@.len() == 56,
    {
        let mut p: Vec<u8> = Vec::new();
        let mut i: usize = 0;
        while i < 56
            invariant
                p@.len() == i,
                i <= 56,
            decreases 56 - i,
        {
            p.push(0);
            i = i + 1;
        }
        p
    }
}

} // verus!
