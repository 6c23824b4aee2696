//! The codes under which the state and the verdict of a submission are kept.

use vstd::prelude::*;

verus! {

/// The submission waits for a judge slot.
pub const QUEUEING: i32 = 0;

/// The submission is being judged.
pub const RUNNING: i32 = 1;

/// The submission passed every case.
pub const AC: i32 = 2;

/// What a status code says of an attempt.
#[derive(Debug, Clone, Copy, PartialEq, Eq, Structural)]
pub enum Verdict {
    /// Not judged yet: queueing or running.
    Waiting,
    Accepted,
    Rejected,
}

/// What a status code says of an attempt.
pub open spec fn verdict(status: i32) -> Verdict {
    if status == QUEUEING || status == RUNNING {
        Verdict::Waiting
    } else if status == AC {
        Verdict::Accepted
    } else {
        Verdict::Rejected
    }
}

/// What a status code says of an attempt.
pub fn verdict_of(status: i32) -> (v: Verdict)
    ensures
        v == verdict(status),
{
    if status == QUEUEING || status == RUNNING {
        Verdict::Waiting
    } else if status == AC {
        Verdict::Accepted
    } else {
        Verdict::Rejected
    }
}

} // verus!
