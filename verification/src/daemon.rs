use vstd::prelude::*;

verus! {

/// Process-lifecycle failures. `StartFailed` is fatal before monitoring
/// begins; the stop-path errors are reported to the caller, never a panic.
#[derive(Clone, Copy, Debug, PartialEq, Eq, Structural)]
pub enum DaemonError {
    /// No PID file was present when a stop was requested.
    NotFound,
    /// The PID file's contents do not parse as a process id.
    InvalidPid,
    /// The termination signal could not be sent.
    SignalFailed,
    /// The transition into a background process failed.
    StartFailed,
}

/// ASCII whitespace, as trimmed from around the PID file's text.
pub open spec fn is_ascii_space(b: u8) -> bool {
    b == 32 || b == 9 || b == 10 || b == 11 || b == 12 || b == 13
}

/// `s` without its leading whitespace.
pub open spec fn trim_front(s: Seq<u8>) -> Seq<u8>
    decreases s.len(),
{
    if s.len() > 0 && is_ascii_space(s.first()) {
        trim_front(s.drop_first())
    } else {
        s
    }
}

/// `s` without its trailing whitespace.
pub open spec fn trim_back(s: Seq<u8>) -> Seq<u8>
    decreases s.len(),
{
    if s.len() > 0 && is_ascii_space(s.last()) {
        trim_back(s.drop_last())
    } else {
        s
    }
}

/// `s` without leading and trailing whitespace.
pub open spec fn trimmed(s: Seq<u8>) -> Seq<u8> {
    trim_back(trim_front(s))
}

/// An ASCII decimal digit.
pub open spec fn is_digit(b: u8) -> bool {
    48 <= b && b <= 57
}

/// A non-empty run of decimal digits.
pub open spec fn all_digits(s: Seq<u8>) -> bool {
    s.len() > 0 && forall|i: int| 0 <= i < s.len() ==> is_digit(#[trigger] s[i])
}

/// The numeric value of one digit byte; zero on anything else.
pub open spec fn digit_val(b: u8) -> nat {
    if is_digit(b) {
        (b - 48) as nat
    } else {
        0
    }
}

/// The number a run of digit bytes denotes, most significant first.
pub open spec fn dec_value(s: Seq<u8>) -> nat
    decreases s.len(),
{
    if s.len() == 0 {
        0
    } else {
        dec_value(s.drop_last()) * 10 + digit_val(s.last())
    }
}

/// PID file text that parses as a process id: digits, optionally surrounded
/// by whitespace, with a value that fits the id's width.
pub open spec fn valid_pid_text(s: Seq<u8>) -> bool {
    all_digits(trimmed(s)) && dec_value(trimmed(s)) <= i32::MAX as nat
}

/// The process id the text denotes.
pub open spec fn pid_of_text(s: Seq<u8>) -> nat {
    dec_value(trimmed(s))
}

proof fn lemma_trim_front_at(s: Seq<u8>, k: int)
    requires
        0 <= k <= s.len(),
        forall|j: int| 0 <= j < k ==> is_ascii_space(#[trigger] s[j]),
        k == s.len() || !is_ascii_space(s[k]),
    ensures
        trim_front(s) =~= s.subrange(k, s.len() as int),
    decreases k,
{
    if k == 0 {
        assert(s.subrange(0, s.len() as int) =~= s);
    } else {
        let t = s.drop_first();
        assert forall|j: int| 0 <= j < k - 1 implies is_ascii_space(#[trigger] t[j]) by {
            assert(t[j] == s[j + 1]);
        }
        lemma_trim_front_at(t, k - 1);
        assert(t.subrange(k - 1, t.len() as int) =~= s.subrange(k, s.len() as int));
    }
}

proof fn lemma_trim_back_at(s: Seq<u8>, m: int)
    requires
        0 <= m <= s.len(),
        forall|j: int| m <= j < s.len() ==> is_ascii_space(#[trigger] s[j]),
        m == 0 || !is_ascii_space(s[m - 1]),
    ensures
        trim_back(s) =~= s.subrange(0, m),
    decreases s.len(),
{
    if m == s.len() {
        assert(s.subrange(0, m) =~= s);
    } else {
        lemma_trim_back_at(s.drop_last(), m);
        assert(s.drop_last().subrange(0, m) =~= s.subrange(0, m));
    }
}

proof fn lemma_dec_value_prefix(s: Seq<u8>, k: int)
    requires
        0 <= k <= s.len(),
    ensures
        dec_value(s) >= dec_value(s.subrange(0, k)),
    decreases s.len(),
{
    if k < s.len() {
        lemma_dec_value_prefix(s.drop_last(), k);
        assert(s.drop_last().subrange(0, k) =~= s.subrange(0, k));
    } else {
        assert(s.subrange(0, k) =~= s);
    }
}

fn is_space_exec(b: u8) -> (r: bool)
    ensures
        r == is_ascii_space(b),
{
    b == 32 || b == 9 || b == 10 || b == 11 || b == 12 || b == 13
}

/// Parse the contents of a PID file as a process id: decimal digits,
/// optionally surrounded by whitespace. Anything else — empty or
/// non-numeric text, or a value too wide for a process id — is rejected.
pub fn parse_pid(content: &[u8]) -> (r: Option<i32>)
    ensures
        valid_pid_text(content@) ==> (r matches Some(p) && p >= 0 && p as nat == pid_of_text(
            content@,
        )),
        !valid_pid_text(content@) ==> r is None,
{
    let n = content.len();
    let mut start: usize = 0;
    while start < n && is_space_exec(content[start])
        invariant
            start <= n,
            n == content@.len(),
            forall|j: int| 0 <= j < start ==> is_ascii_space(#[trigger] content@[j]),
        decreases n - start,
    {
        start = start + 1;
    }
    let mut end: usize = n;
    while end > start && is_space_exec(content[end - 1])
        invariant
            start <= end <= n,
            n == content@.len(),
            forall|j: int| end <= j < n ==> is_ascii_space(#[trigger] content@[j]),
        decreases end,
    {
        end = end - 1;
    }
    proof {
        lemma_trim_front_at(content@, start as int);
        let s2 = content@.subrange(start as int, n as int);
        assert forall|j: int| end - start <= j < s2.len() implies is_ascii_space(
            #[trigger] s2[j],
        ) by {
            assert(s2[j] == content@[start + j]);
        }
        lemma_trim_back_at(s2, end as int - start as int);
        assert(trimmed(content@) =~= content@.subrange(start as int, end as int));
    }
    if start == end {
        // nothing but whitespace: no digits at all
        return None;
    }
    let ghost t = trimmed(content@);
    let mut value: u64 = 0;
    let mut i: usize = start;
    while i < end
        invariant
            start <= i <= end <= n,
            n == content@.len(),
            start < end,
            t == trimmed(content@),
            t =~= content@.subrange(start as int, end as int),
            value <= i32::MAX as u64,
            value as nat == dec_value(t.subrange(0, i - start)),
            forall|j: int| 0 <= j < i - start ==> is_digit(#[trigger] t[j]),
        decreases end - i,
    {
        let b = content[i];
        proof {
            assert(t[i - start] == content@[i as int]);
        }
        if b < 48 || b > 57 {
            // a non-digit inside the trimmed text: not a process id
            proof {
                assert(!is_digit(t[i - start]));
                assert(!all_digits(t));
            }
            return None;
        }
        let d = b - 48;
        let next = value * 10 + d as u64;
        proof {
            let k = i - start;
            assert(t.subrange(0, k + 1).drop_last() =~= t.subrange(0, k as int));
            assert(t.subrange(0, k + 1).last() == t[k as int]);
        }
        if next > i32::MAX as u64 {
            // the value has outgrown a process id: reject
            proof {
                let k = i - start;
                assert(digit_val(t[k]) == (b - 48) as nat);
                assert(dec_value(t.subrange(0, k + 1)) == dec_value(t.subrange(0, k)) * 10
                    + digit_val(t[k]));
                assert(dec_value(t.subrange(0, k + 1)) == next as nat);
                lemma_dec_value_prefix(t, k + 1);
                assert(dec_value(t) > i32::MAX as nat);
            }
            return None;
        }
        value = next;
        i = i + 1;
    }
    proof {
        assert(t.subrange(0, (end - start) as int) =~= t);
    }
    Some(value as i32)
}

/// The decided stop action: send the graceful termination signal to `pid`,
/// then remove the PID file. Fire-and-forget: nothing waits for the target
/// to exit.
pub struct StopPlan {
    pub pid: i32,
}

/// Decide the stop path from what the PID file held: `None` when no file
/// was present. A missing file reports `NotFound` and a file that does not
/// parse reports `InvalidPid`; in both cases there is no plan, so no signal
/// is sent and no file is deleted. Only a parsed id yields a plan.
pub fn plan_stop(pid_file: Option<&Vec<u8>>) -> (r: Result<StopPlan, DaemonError>)
    ensures
        pid_file is None <==> r == Err::<StopPlan, DaemonError>(DaemonError::NotFound),
        pid_file matches Some(content) ==> {
            &&& (valid_pid_text(content@) <==> r is Ok)
            &&& (r matches Ok(plan) ==> plan.pid >= 0 && plan.pid as nat == pid_of_text(content@))
            &&& (!valid_pid_text(content@) ==> r == Err::<StopPlan, DaemonError>(
                DaemonError::InvalidPid,
            ))
        },
{
    match pid_file {
        None => Err(DaemonError::NotFound),
        Some(content) => match parse_pid(content.as_slice()) {
            Some(pid) => Ok(StopPlan { pid }),
            None => Err(DaemonError::InvalidPid),
        },
    }
}

/// Classify the outcome of sending the termination signal: a failed send is
/// reported as `SignalFailed`, never a panic.
pub fn signal_outcome(delivered: bool) -> (r: Result<(), DaemonError>)
    ensures
        delivered <==> r is Ok,
        !delivered ==> r == Err::<(), DaemonError>(DaemonError::SignalFailed),
{
    if delivered {
        Ok(())
    } else {
        Err(DaemonError::SignalFailed)
    }
}

/// Classify the outcome of the transition into a background process: a
/// failure is `StartFailed`, fatal before monitoring begins.
pub fn start_outcome(started: bool) -> (r: Result<(), DaemonError>)
    ensures
        started <==> r is Ok,
        !started ==> r == Err::<(), DaemonError>(DaemonError::StartFailed),
{
    if started {
        Ok(())
    } else {
        Err(DaemonError::StartFailed)
    }
}

/// The fixed well-known path of the daemon's PID file.
pub fn pid_file_path() -> (p: String)
    ensures
        p@ == "/tmp/lnetm.pid"@,
{
    String::from_str("/tmp/lnetm.pid")
}

} // verus!
