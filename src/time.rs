//! Deadlines from `Instant` and `Duration` values, on `async_io`'s timers.

use vstd::prelude::*;

verus! {

/// `async_io::Timer`, carried as an opaque value.
#[verifier::external_type_specification]
#[verifier::external_body]
pub struct ExTimer(async_io::Timer);

/// `std::time::Instant`, carried as an opaque value.
#[verifier::external_type_specification]
#[verifier::external_body]
pub struct ExInstant(std::time::Instant);

/// Relies on `async_io::Timer::at`: a timer that fires at `instant`.
#[verifier::external_body]
fn timer_at(instant: std::time::Instant) -> (t: async_io::Timer) {
    async_io::Timer::at(instant)
}

/// Relies on `async_io::Timer::after`: a timer that fires once `duration`
/// has passed from now (one that never fires where that instant overflows).
#[verifier::external_body]
fn timer_after(duration: std::time::Duration) -> (t: async_io::Timer) {
    async_io::Timer::after(duration)
}

/// Relies on `Future::poll for async_io::Timer`: `true` for `Ready`, which it
/// returns only once the timer's instant has been reached; on `Pending` the
/// context's waker is registered with the reactor.
#[verifier::external_body]
fn poll_timer(t: &mut async_io::Timer, cx: &mut std::task::Context<'_>) -> (ready: bool) {
    std::future::Future::poll(std::pin::Pin::new(t), cx).is_ready()
}

/// The target of a timer deadline, kept so that the deadline can be derived
/// anew.
pub enum Anchor {
    /// A fixed instant.
    At(std::time::Instant),
    /// A duration from the moment the deadline is derived.
    After(std::time::Duration),
}

/// A deadline on a timer, with the target it was made from.
pub struct TimerDeadline {
    timer: async_io::Timer,
    anchor: Anchor,
    fired: bool,
}

impl TimerDeadline {
    pub closed spec fn is_at_instant(&self) -> bool {
        self.anchor is At
    }

    /// The instant, or the duration from the moment of derivation, that this
    /// deadline waits for.
    pub closed spec fn target(&self) -> Anchor {
        self.anchor
    }

    /// Whether the timer has been observed to fire.
    pub closed spec fn has_fired(&self) -> bool {
        self.fired
    }

    /// A deadline at `instant`.
    pub fn at(instant: std::time::Instant) -> (d: TimerDeadline)
        ensures
            d.is_at_instant(),
            d.target() == Anchor::At(instant),
            !d.has_fired(),
    {
        TimerDeadline { timer: timer_at(instant), anchor: Anchor::At(instant), fired: false }
    }

    /// A deadline once `duration` has passed from now.
    pub fn after(duration: std::time::Duration) -> (d: TimerDeadline)
        ensures
            !d.is_at_instant(),
            d.target() == Anchor::After(duration),
            !d.has_fired(),
    {
        TimerDeadline { timer: timer_after(duration), anchor: Anchor::After(duration), fired: false }
    }

    /// `true` once the timer has fired, and from then on.
    pub fn poll_fired(&mut self, cx: &mut std::task::Context<'_>) -> (fired: bool)
        ensures
            old(self).has_fired() ==> fired,
            final(self).has_fired() == fired,
            final(self).is_at_instant() == old(self).is_at_instant(),
    {
        if self.fired {
            return true;
        }
        self.fired = poll_timer(&mut self.timer, cx);
        self.fired
    }

    /// A fresh deadline for the same target: the same instant, or the same
    /// duration counted from now. A reached instant stays reached.
    pub fn rederive(&self) -> (d: TimerDeadline)
        ensures
            d.is_at_instant() == self.is_at_instant(),
            d.target() == self.target(),
            d.has_fired() == (self.has_fired() && self.is_at_instant()),
    {
        match &self.anchor {
            Anchor::At(instant) => TimerDeadline {
                timer: timer_at(*instant),
                anchor: Anchor::At(*instant),
                fired: self.fired,
            },
            Anchor::After(duration) => TimerDeadline {
                timer: timer_after(*duration),
                anchor: Anchor::After(*duration),
                fired: false,
            },
        }
    }
}

} // verus!
