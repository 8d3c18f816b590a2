//! The outcome of losing a race, and the `Deadline` that the combinators race
//! against: either a `StopToken` or a point in time.

use vstd::prelude::*;

use crate::stop_source::StopToken;
use crate::time::{Anchor, TimerDeadline};

verus! {

/// An error returned when a future or a stream times out.
#[derive(Clone, Copy, Debug, PartialEq, Eq, PartialOrd, Ord)]
pub struct TimedOutError {
    _private: (),
}

impl TimedOutError {
    /// The value of this type: it has only one.
    pub closed spec fn timed_out() -> TimedOutError {
        TimedOutError { _private: () }
    }

    /// The (only) timed-out outcome.
    pub fn new() -> (e: TimedOutError)
        ensures
            e == TimedOutError::timed_out(),
    {
        TimedOutError { _private: () }
    }

    /// The text that describes this error.
    pub fn message(&self) -> (s: String)
        ensures
            s@ == "Future has timed out"@,
    {
        let s = "Future has timed out".to_owned();
        proof {
            reveal_strlit("Future has timed out");
        }
        s
    }
}

/// What a `Deadline` waits for.
pub enum DeadlineKind {
    /// The stop of a `StopToken`.
    Token(StopToken),
    /// A timer that fires at or after an instant.
    Timer(TimerDeadline),
}

/// A signal with no payload that becomes ready once, and never before its
/// target: a stopped token or a reached instant.
pub struct Deadline {
    kind: DeadlineKind,
}

impl Deadline {
    /// Whether this deadline waits for a token.
    pub open spec fn is_token(&self) -> bool {
        self.kind() is Token
    }

    /// Whether this deadline waits for a timer anchored to a fixed instant.
    pub open spec fn is_at_instant(&self) -> bool {
        self.kind() is Timer && self.kind()->Timer_0.is_at_instant()
    }

    /// Whether this deadline waits for a timer that was given as a duration.
    pub open spec fn is_after_duration(&self) -> bool {
        self.kind() is Timer && !self.kind()->Timer_0.is_at_instant()
    }

    pub closed spec fn kind(&self) -> DeadlineKind {
        self.kind
    }

    /// Whether this deadline has been observed as reached.
    pub open spec fn has_elapsed(&self) -> bool {
        match self.kind() {
            DeadlineKind::Token(t) => t.has_seen_stop(),
            DeadlineKind::Timer(t) => t.has_fired(),
        }
    }

    /// A deadline that is reached when `token` is stopped.
    pub fn from_token(token: StopToken) -> (d: Deadline)
        ensures
            d.kind() == DeadlineKind::Token(token),
            d.is_token(),
            d.has_elapsed() == token.has_seen_stop(),
    {
        Deadline { kind: DeadlineKind::Token(token) }
    }

    /// A deadline that is reached at `instant`.
    pub fn at(instant: std::time::Instant) -> (d: Deadline)
        ensures
            d.is_at_instant(),
            d.kind() is Timer && d.kind()->Timer_0.target() == Anchor::At(instant),
            !d.has_elapsed(),
    {
        Deadline { kind: DeadlineKind::Timer(TimerDeadline::at(instant)) }
    }

    /// A deadline that is reached once `duration` has passed from now.
    pub fn after(duration: std::time::Duration) -> (d: Deadline)
        ensures
            d.is_after_duration(),
            d.kind() is Timer && d.kind()->Timer_0.target() == Anchor::After(duration),
            !d.has_elapsed(),
    {
        Deadline { kind: DeadlineKind::Timer(TimerDeadline::after(duration)) }
    }

    /// Polls the deadline: `true` once it is reached, and from then on. On
    /// `false` the context's waker is registered with what the deadline waits
    /// for.
    pub fn poll_elapsed(&mut self, cx: &mut std::task::Context<'_>) -> (elapsed: bool)
        ensures
            old(self).has_elapsed() ==> elapsed,
            final(self).has_elapsed() == elapsed,
            final(self).is_token() == old(self).is_token(),
            final(self).is_at_instant() == old(self).is_at_instant(),
            final(self).is_after_duration() == old(self).is_after_duration(),
    {
        match &mut self.kind {
            DeadlineKind::Token(t) => t.poll_stop(cx),
            DeadlineKind::Timer(t) => t.poll_fired(cx),
        }
    }
}

impl Clone for Deadline {
    /// A fresh deadline for the same target: a token deadline shares the
    /// signal, an instant deadline keeps its instant, and a duration deadline
    /// is anchored anew to the time of the clone.
    fn clone(&self) -> (c: Deadline)
        ensures
            c.is_token() == self.is_token(),
            c.is_at_instant() == self.is_at_instant(),
            c.is_after_duration() == self.is_after_duration(),
            c.has_elapsed() == (self.has_elapsed() && !self.is_after_duration()),
            self.kind() is Timer ==> c.kind() is Timer && c.kind()->Timer_0.target()
                == self.kind()->Timer_0.target(),
    {
        match &self.kind {
            DeadlineKind::Token(t) => Deadline { kind: DeadlineKind::Token(t.clone()) },
            DeadlineKind::Timer(t) => Deadline { kind: DeadlineKind::Timer(t.rederive()) },
        }
    }
}

} // verus!
