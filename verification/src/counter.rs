use vstd::prelude::*;

verus! {

/// A monotonically increasing tally of failure events, one per checker.
///
/// The counter is owned by the checker that updates it; exclusive access is
/// expressed through `&mut`, so no two parties can race on the same counter.
/// There is no decrement and no reset: the value only grows, for the life of
/// the process.
pub struct FailureCounter {
    count: u64,
}

impl View for FailureCounter {
    type V = nat;

    closed spec fn view(&self) -> nat {
        self.count as nat
    }
}

impl FailureCounter {
    /// A fresh counter reads zero.
    pub fn new() -> (c: FailureCounter)
        ensures
            c@ == 0,
    {
        FailureCounter { count: 0 }
    }

    /// Record one failure and return the new cumulative total.
    pub fn increment(&mut self) -> (total: u64)
        requires
            old(self)@ < u64::MAX,
        ensures
            final(self)@ == old(self)@ + 1,
            total as nat == final(self)@,
    {
        self.count = self.count + 1;
        self.count
    }

    /// Read the cumulative total without changing it.
    pub fn read(&self) -> (total: u64)
        ensures
            total as nat == self@,
    {
        self.count
    }
}

/// Reading a counter is deterministic: two reads of the same counter state
/// return the same total. `read` ensures its result equals the counter's
/// abstract value, so any two results obtained without an intervening
/// `increment` coincide.
pub proof fn lemma_read_idempotent(c: FailureCounter, first: u64, second: u64)
    requires
        first as nat == c@,
        second as nat == c@,
    ensures
        first == second,
{
}

} // verus!
