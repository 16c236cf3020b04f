//! The dispatch loop's decisions: when a tick fires a submission, and what
//! becomes of the outcome. The caller owns the clock and the network; it hands
//! each tick and each outcome to a `Dispatcher` and does what comes back.
//!
//! Time is a count of units since the loop started, in whatever unit the
//! caller's clock and the interval share.

use vstd::prelude::*;
use crate::submission::{SubmissionError, SubmissionOutcome, TxHash};

verus! {

/// The interval between two submissions that the loop is started with.
pub const DEFAULT_INTERVAL: u64 = 6;

/// Where the loop stands.
#[derive(Clone, Copy, Debug, PartialEq, Eq, Structural)]
pub enum Phase {
    /// Waiting for the next tick.
    Idle,
    /// A submission is in flight and its outcome not yet known.
    Dispatching,
}

/// The state of the dispatch loop.
#[derive(Clone, Copy, Debug)]
pub struct Dispatcher {
    /// The interval between two submissions; positive.
    pub interval: u64,
    /// The earliest time at which the next submission may start.
    pub next_due: u64,
    /// Whether a submission is in flight.
    pub phase: Phase,
    /// Submissions started so far.
    pub submissions: u64,
    /// Submissions that came back with a transaction identifier.
    pub successes: u64,
    /// Submissions that came back with an error.
    pub failures: u64,
}

/// When the submission after one that started at `now` becomes due, if the
/// current one was due at `due`: one interval after `due`, unless that time has
/// already passed, in which case one interval after `now`. Missed ticks are
/// dropped, never caught up.
pub open spec fn due_after(due: int, interval: int, now: int) -> int {
    if now < due + interval {
        due + interval
    } else {
        now + interval
    }
}

impl Dispatcher {
    /// The state's invariant: the next submission is due no earlier than one
    /// interval per submission already started, and each started submission has
    /// either come back or is the one in flight.
    pub open spec fn wf(self) -> bool {
        &&& self.interval > 0
        &&& self.next_due >= (self.submissions + 1) * self.interval
        &&& self.successes + self.failures + (if self.phase == Phase::Dispatching {
            1int
        } else {
            0int
        }) == self.submissions
    }

    /// Whether a tick at `now` starts a submission: none is in flight, the
    /// next one is due, and the time after it is still on the clock.
    pub open spec fn fires(self, now: u64) -> bool {
        &&& self.phase == Phase::Idle
        &&& now >= self.next_due
        &&& due_after(self.next_due as int, self.interval as int, now as int) <= u64::MAX
    }

    /// The state after a tick at `now`.
    pub open spec fn after_tick(self, now: u64) -> Dispatcher {
        if self.fires(now) {
            Dispatcher {
                next_due: due_after(self.next_due as int, self.interval as int, now as int) as u64,
                phase: Phase::Dispatching,
                submissions: (self.submissions + 1) as u64,
                ..self
            }
        } else {
            self
        }
    }

    /// The state after an outcome comes back. The loop returns to `Idle`
    /// whatever the outcome; an outcome with no submission in flight changes
    /// nothing.
    pub open spec fn after_outcome(self, outcome: SubmissionOutcome) -> Dispatcher {
        if self.phase == Phase::Dispatching {
            match outcome {
                Ok(_) => Dispatcher {
                    phase: Phase::Idle,
                    successes: (self.successes + 1) as u64,
                    ..self
                },
                Err(_) => Dispatcher {
                    phase: Phase::Idle,
                    failures: (self.failures + 1) as u64,
                    ..self
                },
            }
        } else {
            self
        }
    }

    /// A loop that has just started: idle, with the first submission due one
    /// full interval after the start.
    pub fn new(interval: u64) -> (r: Dispatcher)
        requires
            interval > 0,
        ensures
            r.wf(),
            r.interval == interval,
            r.next_due == interval,
            r.phase == Phase::Idle,
            r.submissions == 0,
            r.successes == 0,
            r.failures == 0,
    {
        assert((0 + 1) * interval == interval) by (nonlinear_arith);
        Dispatcher {
            interval,
            next_due: interval,
            phase: Phase::Idle,
            submissions: 0,
            successes: 0,
            failures: 0,
        }
    }

    /// Handles a tick of the clock at `now`, with `name` as the name of the
    /// task to submit should one start. Returns the name to submit, or `None`
    /// where the tick starts nothing.
    pub fn tick(&mut self, now: u64, name: String) -> (r: Option<String>)
        requires
            old(self).wf(),
        ensures
            final(self).wf(),
            *final(self) == old(self).after_tick(now),
            old(self).fires(now) ==> r == Some(name),
            !old(self).fires(now) ==> r is None,
    {
        if self.phase == Phase::Dispatching || now < self.next_due {
            return None;
        }
        let candidate = self.next_due.checked_add(self.interval);
        let due = match candidate {
            Some(d) if now < d => Some(d),
            _ => now.checked_add(self.interval),
        };
        match due {
            None => None,
            Some(d) => {
                proof {
                    assert((self.submissions + 2) * self.interval == (self.submissions + 1)
                        * self.interval + self.interval) by (nonlinear_arith);
                    assert(self.submissions + 1 <= (self.submissions + 1) * self.interval)
                        by (nonlinear_arith)
                        requires
                            self.interval > 0,
                    ;
                }
                self.next_due = d;
                self.phase = Phase::Dispatching;
                self.submissions = self.submissions + 1;
                Some(name)
            },
        }
    }

    /// Handles the outcome of the submission in flight, which ends it whatever
    /// it is. Returns the outcome to report, unchanged, or `None` where no
    /// submission was in flight.
    pub fn complete(&mut self, outcome: SubmissionOutcome) -> (r: Option<SubmissionOutcome>)
        requires
            old(self).wf(),
        ensures
            final(self).wf(),
            *final(self) == old(self).after_outcome(outcome),
            old(self).phase == Phase::Dispatching ==> r == Some(outcome),
            old(self).phase == Phase::Idle ==> r is None,
    {
        if self.phase == Phase::Idle {
            return None;
        }
        match &outcome {
            Ok(_) => {
                self.successes = self.successes + 1;
            },
            Err(_) => {
                self.failures = self.failures + 1;
            },
        }
        self.phase = Phase::Idle;
        Some(outcome)
    }
}

/// A submission starts at most once per elapsed interval: when a tick at `now`
/// starts one, the submissions started so far, that one included, take up no
/// more than `now` in whole intervals.
pub proof fn lemma_at_most_once_per_interval(d: Dispatcher, now: u64)
    requires
        d.wf(),
        d.fires(now),
    ensures
        d.after_tick(now).submissions * d.interval <= now,
{
    assert(d.submissions + 1 <= (d.submissions + 1) * d.interval) by (nonlinear_arith)
        requires
            d.interval > 0,
    ;
    assert(d.after_tick(now).submissions == d.submissions + 1);
}

/// A second submission never starts before the outcome of the first is known:
/// once a tick has started one, no later tick starts another until an outcome
/// comes back.
pub proof fn lemma_one_in_flight(d: Dispatcher, now: u64, later: u64)
    requires
        d.wf(),
        d.fires(now),
    ensures
        d.after_tick(now).phase == Phase::Dispatching,
        !d.after_tick(now).fires(later),
        d.after_tick(now).after_tick(later) == d.after_tick(now),
{
}

/// A failed submission does not stop the loop: the loop is idle again, and the
/// next tick at or after the due time starts the next submission (as long as
/// the clock has room for the interval after it).
pub proof fn lemma_failure_keeps_loop_running(d: Dispatcher, error: SubmissionError, now: u64)
    requires
        d.wf(),
        d.phase == Phase::Dispatching,
        now >= d.after_outcome(Err(error)).next_due,
        now + d.interval <= u64::MAX,
    ensures
        d.after_outcome(Err(error)).wf(),
        d.after_outcome(Err(error)).phase == Phase::Idle,
        d.after_outcome(Err(error)).fires(now),
{
}

/// Every kind of failure is handled alike: whether the deployment record could
/// not be resolved or the network failed, the loop ends up in the same state.
pub proof fn lemma_failures_alike(d: Dispatcher, e1: SubmissionError, e2: SubmissionError)
    ensures
        d.after_outcome(Err(e1)) == d.after_outcome(Err(e2)),
{
}

/// A success ends the submission in flight like a failure does: the loop is
/// idle again and counts one more success. (What `complete` reports for it is
/// exactly the outcome that came back.)
pub proof fn lemma_success_returns_to_idle(d: Dispatcher, tx: TxHash)
    requires
        d.wf(),
        d.phase == Phase::Dispatching,
    ensures
        d.after_outcome(Ok(tx)).wf(),
        d.after_outcome(Ok(tx)).phase == Phase::Idle,
        d.after_outcome(Ok(tx)).successes == d.successes + 1,
{
}

} // verus!
