use vstd::prelude::*;
use crate::registers::{MAX_POLL_ATTEMPTS, TEMP_READY_BIT};

verus! {

/// What to do after one read of the status register.
#[derive(Clone, Copy, Debug, PartialEq, Eq, Structural)]
pub enum PollStep {
    /// The result registers hold a finished conversion.
    Ready,
    /// Not ready yet: wait the back-off and read the status again. Carries the
    /// number of status reads made so far.
    Retry(u8),
    /// The attempt cap was reached without the result becoming ready.
    TimedOut,
}

/// Whether a status byte reports a readable temperature result.
pub open spec fn temperature_ready(status: u8) -> bool {
    status & 0x20u8 != 0
}

/// The decision after the status read number `attempts + 1` returned `status`.
pub open spec fn poll_step_of(attempts: u8, status: u8) -> PollStep {
    if temperature_ready(status) {
        PollStep::Ready
    } else if attempts + 1 >= 5 {
        PollStep::TimedOut
    } else {
        PollStep::Retry((attempts + 1) as u8)
    }
}

/// How a poll that has made `a` status reads ends when the sensor answers the
/// read number `k + 1` with `statuses[k]`: the final decision and the number
/// of status reads made in all.
pub open spec fn poll_run(statuses: Seq<u8>, a: u8) -> (PollStep, nat)
    decreases 5 - a,
{
    if a >= 5 {
        (PollStep::TimedOut, a as nat)
    } else {
        match poll_step_of(a, statuses[a as int]) {
            PollStep::Retry(n) => poll_run(statuses, n),
            step => (step, (a + 1) as nat),
        }
    }
}

/// A poll started afresh ends `Ready` right after the first of the first
/// five status reads that reports the result ready; when none of them does,
/// it ends `TimedOut` after exactly five reads and never reads a sixth time.
pub proof fn lemma_poll_is_bounded(statuses: Seq<u8>)
    requires
        statuses.len() >= 5,
    ensures
        forall|i: int|
            0 <= i < 5 && temperature_ready(statuses[i])
                && (forall|j: int| 0 <= j < i ==> !temperature_ready(#[trigger] statuses[j]))
                ==> poll_run(statuses, 0) == (PollStep::Ready, (i + 1) as nat),
        (forall|j: int| 0 <= j < 5 ==> !temperature_ready(#[trigger] statuses[j]))
            ==> poll_run(statuses, 0) == (PollStep::TimedOut, 5nat),
        poll_run(statuses, 0).1 <= 5,
{
    lemma_poll_from(statuses, 0);
}

proof fn lemma_poll_from(statuses: Seq<u8>, a: u8)
    requires
        statuses.len() >= 5,
        a < 5,
    ensures
        forall|i: int|
            a <= i < 5 && temperature_ready(statuses[i])
                && (forall|j: int| a <= j < i ==> !temperature_ready(#[trigger] statuses[j]))
                ==> poll_run(statuses, a) == (PollStep::Ready, (i + 1) as nat),
        (forall|j: int| a <= j < 5 ==> !temperature_ready(#[trigger] statuses[j]))
            ==> poll_run(statuses, a) == (PollStep::TimedOut, 5nat),
        a < poll_run(statuses, a).1 <= 5,
    decreases 5 - a,
{
    if !temperature_ready(statuses[a as int]) && a + 1 < 5 {
        lemma_poll_from(statuses, (a + 1) as u8);
    }
}

/// Decides how a measurement poll goes on, given the number of status reads
/// made before this one and the status byte this one returned.
pub fn check_temperature_status(attempts: u8, status: u8) -> (r: PollStep)
    requires
        attempts < 5,
    ensures
        r == poll_step_of(attempts, status),
{
    if status & TEMP_READY_BIT != 0 {
        PollStep::Ready
    } else if attempts + 1 >= MAX_POLL_ATTEMPTS {
        PollStep::TimedOut
    } else {
        PollStep::Retry(attempts + 1)
    }
}

} // verus!
