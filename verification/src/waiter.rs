//! Polling-based waiting for a server-side state transition.

use vstd::prelude::*;

use crate::Error;

verus! {

/// What one status check reports to the waiter.
#[derive(Debug)]
pub enum PollStatus {
    /// The target condition is reached; the wait succeeds.
    Ready,
    /// The condition is not yet met; poll again after the interval.
    Pending,
    /// An unexpected failure; the wait surfaces it at once, with no
    /// further polling.
    Failed(Error),
}

/// Classify a status lookup for the deletion-confirmation use case:
/// "not found" means the resource is gone (the target condition), a
/// still-successful lookup means "not yet", and any other failure is
/// fatal.
pub fn deletion_status<T>(lookup: Result<T, Error>) -> (s: PollStatus)
    ensures
        match lookup {
            Ok(_) => s is Pending,
            Err(e) => if e is NotFound {
                s is Ready
            } else {
                s == PollStatus::Failed(e)
            },
        },
{
    match lookup {
        Ok(_) => PollStatus::Pending,
        Err(e) => if e.is_not_found() {
            PollStatus::Ready
        } else {
            PollStatus::Failed(e)
        },
    }
}

/// Blocks until a status check reports the target condition, an
/// unexpected failure, or a deadline passes.
///
/// Interval and deadline are caller configuration; tests can use very
/// small values. The waiter owns no persistent state: it is created for
/// one wait and discarded at its return.
#[derive(Clone, Copy, Debug)]
pub struct PollingWaiter {
    /// How long to suspend between checks, in milliseconds.
    pub poll_interval_ms: u64,
    /// Overall time budget, in milliseconds.
    pub deadline_ms: u64,
}

impl PollingWaiter {
    /// Poll `check` until it reports `Ready`, fail fast on `Failed`, and
    /// give up with [`Error::Timeout`] once the deadline is reached.
    ///
    /// Between pending checks the waiter suspends through `pause`, a
    /// capability the caller supplies (a thread sleep, a cooperative
    /// yield). Elapsed time is accounted as one interval per pause, so
    /// the number of checks is bounded by `deadline / interval + 1`.
    /// `Failed` is never retried; only "condition not yet met" is.
    pub fn wait<F: Fn() -> PollStatus, S: Fn(u64)>(&self, check: &F, pause: &S) -> (r: Result<
        (),
        Error,
    >)
        requires
            self.poll_interval_ms >= 1,
            forall|u: ()| call_requires(*check, u),
            forall|ms: u64| call_requires(*pause, (ms,)),
        ensures
            match r {
                Ok(u) => exists|s: PollStatus| #[trigger] call_ensures(*check, (), s) && s is Ready,
                Err(e) => (exists|s: PollStatus|
                    #[trigger] call_ensures(*check, (), s) && s == PollStatus::Failed(e)) || (
                e is Timeout && exists|s: PollStatus|
                    #[trigger] call_ensures(*check, (), s) && s is Pending),
            },
    {
        let mut elapsed_ms: u64 = 0;
        loop
            invariant
                self.poll_interval_ms >= 1,
                elapsed_ms <= self.deadline_ms,
                forall|u: ()| call_requires(*check, u),
                forall|ms: u64| call_requires(*pause, (ms,)),
            decreases self.deadline_ms - elapsed_ms,
        {
            match (*check)() {
                PollStatus::Ready => {
                    return Ok(());
                },
                PollStatus::Failed(e) => {
                    return Err(e);
                },
                PollStatus::Pending => {
                    if elapsed_ms >= self.deadline_ms {
                        return Err(Error::Timeout);
                    }
                    (*pause)(self.poll_interval_ms);
                    elapsed_ms = if self.deadline_ms - elapsed_ms <= self.poll_interval_ms {
                        self.deadline_ms
                    } else {
                        elapsed_ms + self.poll_interval_ms
                    };
                },
            }
        }
    }
}

} // verus!
