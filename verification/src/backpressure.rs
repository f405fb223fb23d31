use vstd::prelude::*;

verus! {

/// Whether a bounded queue is running hot: more than half of its capacity
/// is in use, so the sender should log a backpressure warning.
pub fn should_warn(len: usize, capacity: usize) -> (r: bool)
    ensures
        r == (len > capacity / 2),
{
    len > capacity / 2
}

/// How a non-blocking send on a bounded queue came out.
#[derive(Clone, Copy, Debug, PartialEq, Eq, Structural)]
pub enum TrySendOutcome {
    Sent,
    Full,
    Closed,
}

/// The discard-on-full policy for a non-blocking send: a send into a full
/// queue discards the value and counts as success (after a warning — the
/// first component says whether to warn about the discarded value); only a
/// closed queue is an error.
pub fn discard_full_disposition(outcome: TrySendOutcome) -> (r: (bool, Result<(), ()>))
    ensures
        outcome is Sent ==> r == (false, Ok::<(), ()>(())),
        outcome is Full ==> r == (true, Ok::<(), ()>(())),
        outcome is Closed ==> r == (false, Err::<(), ()>(())),
{
    match outcome {
        TrySendOutcome::Sent => (false, Ok(())),
        TrySendOutcome::Full => (true, Ok(())),
        TrySendOutcome::Closed => (false, Err(())),
    }
}

} // verus!
