//! Racing a single computation against a `Deadline`.
//!
//! On every resume the deadline is checked first; only if it has not been
//! reached is the computation polled. The race ends in exactly one of two
//! outcomes: the computation's output, or `TimedOutError`.

use vstd::prelude::*;

use crate::deadline::{Deadline, TimedOutError};

verus! {

/// Where a race stands.
#[derive(Clone, Copy, Debug, PartialEq, Eq, Structural)]
pub enum RaceState {
    /// Neither outcome has been reported yet.
    Running,
    /// The computation's output was reported.
    Completed,
    /// The deadline was reached first and the timeout was reported.
    TimedOut,
}

/// What the driver of a race does on this resume, once the deadline has been
/// checked.
#[derive(Clone, Copy, Debug, PartialEq, Eq, Structural)]
pub enum Turn {
    /// Poll the computation and hand its poll result to `finish_poll`.
    PollInner,
    /// Report `TimedOutError`; the computation is not polled again.
    TimedOut,
    /// The computation's output has already been reported.
    Finished,
}

/// The state after the deadline check of a resume that found the deadline
/// reached (`elapsed`) or not.
pub open spec fn state_after_check(s: RaceState, elapsed: bool) -> RaceState {
    match s {
        RaceState::Running => if elapsed {
            RaceState::TimedOut
        } else {
            RaceState::Running
        },
        _ => s,
    }
}

/// What a resume does after its deadline check.
pub open spec fn turn_for(s: RaceState, elapsed: bool) -> Turn {
    match s {
        RaceState::Running => if elapsed {
            Turn::TimedOut
        } else {
            Turn::PollInner
        },
        RaceState::TimedOut => Turn::TimedOut,
        RaceState::Completed => Turn::Finished,
    }
}

/// The state after the computation was polled and was `ready` or not.
pub open spec fn state_after_output(s: RaceState, ready: bool) -> RaceState {
    match s {
        RaceState::Running => if ready {
            RaceState::Completed
        } else {
            RaceState::Running
        },
        _ => s,
    }
}

/// The state after one whole resume: the deadline check, then the poll of the
/// computation where the check allows it.
pub open spec fn state_after_resume(s: RaceState, elapsed: bool, ready: bool) -> RaceState {
    if turn_for(s, elapsed) == Turn::PollInner {
        state_after_output(state_after_check(s, elapsed), ready)
    } else {
        state_after_check(s, elapsed)
    }
}

/// The state after a series of resumes, each given as (deadline reached,
/// computation ready).
pub open spec fn state_after_resumes(s: RaceState, resumes: Seq<(bool, bool)>) -> RaceState
    decreases resumes.len(),
{
    if resumes.len() == 0 {
        s
    } else {
        let r = resumes.last();
        state_after_resume(state_after_resumes(s, resumes.drop_last()), r.0, r.1)
    }
}

pub open spec fn is_terminal(s: RaceState) -> bool {
    s != RaceState::Running
}

/// Once a race has reported an outcome, no resume reports the other one: a
/// completed race never times out and a timed-out race never completes, and
/// within one resume a reached deadline keeps the computation from being
/// polled.
pub proof fn lemma_single_outcome(s: RaceState, resumes: Seq<(bool, bool)>)
    requires
        is_terminal(s),
    ensures
        state_after_resumes(s, resumes) == s,
        s == RaceState::Completed ==> forall|e: bool| turn_for(s, e) == Turn::Finished,
        s == RaceState::TimedOut ==> forall|e: bool| turn_for(s, e) == Turn::TimedOut,
        forall|e: bool, r: bool| #[trigger] state_after_resume(RaceState::Running, e, r)
            == RaceState::Completed ==> !e && r,
    decreases resumes.len(),
{
    if resumes.len() > 0 {
        lemma_single_outcome(s, resumes.drop_last());
    }
}

/// Runs a future until it resolves, or until a deadline is reached.
pub struct Stop<F> {
    future: F,
    deadline: Deadline,
    state: RaceState,
}

impl<F> Stop<F> {
    pub closed spec fn state(&self) -> RaceState {
        self.state
    }

    pub closed spec fn deadline(&self) -> Deadline {
        self.deadline
    }

    pub closed spec fn future(&self) -> F {
        self.future
    }

    /// A race of `future` against `deadline` that has not started.
    pub fn new(future: F, deadline: Deadline) -> (s: Stop<F>)
        ensures
            s.state() == RaceState::Running,
            s.future() == future,
            s.deadline() == deadline,
    {
        Stop { future, deadline, state: RaceState::Running }
    }

    /// Where the race stands.
    pub fn state_now(&self) -> (s: RaceState)
        ensures
            s == self.state(),
    {
        self.state
    }

    /// Starts a resume: checks the deadline (only while the race runs) and
    /// says what to do next.
    pub fn begin_poll(&mut self, cx: &mut std::task::Context<'_>) -> (t: Turn)
        ensures
            t == turn_for(old(self).state(), final(self).deadline().has_elapsed()),
            final(self).state() == state_after_check(
                old(self).state(),
                final(self).deadline().has_elapsed(),
            ),
            old(self).deadline().has_elapsed() ==> final(self).deadline().has_elapsed(),
            old(self).state() != RaceState::Running ==> final(self).deadline() == old(self).deadline(),
            final(self).future() == old(self).future(),
    {
        match self.state {
            RaceState::Running => {
                if self.deadline.poll_elapsed(cx) {
                    self.state = RaceState::TimedOut;
                    Turn::TimedOut
                } else {
                    Turn::PollInner
                }
            },
            RaceState::TimedOut => Turn::TimedOut,
            RaceState::Completed => Turn::Finished,
        }
    }

    /// The future, to be polled by the driver on `Turn::PollInner`.
    pub fn future_mut(&mut self) -> (f: &mut F)
        ensures
            *f == old(self).future(),
            final(self).future() == *final(f),
            final(self).state() == old(self).state(),
            final(self).deadline() == old(self).deadline(),
    {
        &mut self.future
    }

    /// Ends a resume with the computation's poll result (`None` for pending).
    /// While the race runs, an output completes it and is reported as `Ok`;
    /// once the race has ended, nothing more is reported.
    pub fn finish_poll<T>(&mut self, output: Option<T>) -> (r: Option<Result<T, TimedOutError>>)
        ensures
            final(self).state() == state_after_output(old(self).state(), output is Some),
            final(self).deadline() == old(self).deadline(),
            final(self).future() == old(self).future(),
            old(self).state() == RaceState::Running ==> r == match output {
                Some(v) => Some(Ok::<T, TimedOutError>(v)),
                None => None::<Result<T, TimedOutError>>,
            },
            old(self).state() != RaceState::Running ==> r is None,
    {
        if self.state != RaceState::Running {
            return None;
        }
        match output {
            Some(v) => {
                self.state = RaceState::Completed;
                Some(Ok(v))
            },
            None => None,
        }
    }

    /// Gives back the raced future.
    pub fn into_inner(self) -> (f: F)
        ensures
            f == self.future(),
    {
        self.future
    }
}

/// Extends every future with the `until` method.
pub trait FutureExt: Sized {
    /// Runs the future until it resolves, or until `deadline` is reached.
    fn until(self, deadline: Deadline) -> (s: Stop<Self>)
        ensures
            s.state() == RaceState::Running,
            s.future() == self,
            s.deadline() == deadline,
    {
        Stop::new(self, deadline)
    }
}

impl<F: std::future::Future> FutureExt for F {
}

} // verus!
