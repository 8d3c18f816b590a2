//! The owner handle (`StopSource`) and its observer handles (`StopToken`).
//!
//! The source holds the only sender of a bounded channel on which nothing is
//! ever sent; every token holds a receiver of it. Dropping the source closes
//! the channel, and every token then sees the stop.

use vstd::prelude::*;

use crate::deadline::{Deadline, DeadlineKind};

verus! {

/// The message type of the stop channel. It has no public constructor and
/// nothing ever sends one: the channel only ever gets closed.
pub struct Never {
    _private: (),
}

/// `async_channel::Receiver`, carried as an opaque value: a token's end of the channel.
#[verifier::external_type_specification]
#[verifier::external_body]
#[verifier::reject_recursive_types(T)]
pub struct ExReceiver<T>(async_channel::Receiver<T>);

/// `async_channel::Sender`, carried as an opaque value: the source's end of the channel.
#[verifier::external_type_specification]
#[verifier::external_body]
#[verifier::reject_recursive_types(T)]
pub struct ExSender<T>(async_channel::Sender<T>);

/// `std::task::Context`, handed through to the polls that register a waker.
#[verifier::external_type_specification]
#[verifier::external_body]
pub struct ExContext<'a>(std::task::Context<'a>);

/// Relies on `async_channel::bounded`: a fresh channel with one sender and
/// one receiver (it panics on a capacity of zero, hence the `requires`).
#[verifier::external_body]
fn open_channel(cap: usize) -> (r: (async_channel::Sender<Never>, async_channel::Receiver<Never>))
    requires
        cap > 0,
{
    async_channel::bounded::<Never>(cap)
}

/// Relies on `Clone for async_channel::Receiver`: another receiver of the
/// same channel, with no listener of its own. (It aborts the process only past
/// `usize::MAX / 2` live receivers.)
#[verifier::external_body]
fn clone_receiver(r: &async_channel::Receiver<Never>) -> (c: async_channel::Receiver<Never>) {
    r.clone()
}

/// Relies on `async_channel::Receiver::is_closed`: whether the channel has been
/// closed. That depends on the other handles, so nothing is promised of it.
#[verifier::external_body]
fn channel_closed(r: &async_channel::Receiver<Never>) -> (closed: bool) {
    r.is_closed()
}

/// Relies on `Stream::poll_next for async_channel::Receiver`: `true` for
/// `Ready`, which (as no message is ever sent) means that the channel is
/// closed; on `Pending` the receiver has registered the context's waker.
#[verifier::external_body]
fn poll_channel(r: &mut async_channel::Receiver<Never>, cx: &mut std::task::Context<'_>) -> (ready: bool) {
    match futures_core::Stream::poll_next(std::pin::Pin::new(r), cx) {
        std::task::Poll::Ready(_) => true,
        std::task::Poll::Pending => false,
    }
}

/// `StopSource` produces `StopToken`s and stops all of them when it is dropped.
pub struct StopSource {
    /// Held only so that dropping the source closes the channel.
    chan: async_channel::Sender<Never>,
    stop_token: StopToken,
}

/// `StopToken` completes once its `StopSource` has been dropped.
pub struct StopToken {
    chan: async_channel::Receiver<Never>,
    seen: bool,
}

impl StopToken {
    /// Whether this handle has already observed the stop.
    pub closed spec fn has_seen_stop(&self) -> bool {
        self.seen
    }

    /// Polls the token: `true` once the source is gone. On `false` the
    /// context's waker is registered and will be woken on the stop.
    pub fn poll_stop(&mut self, cx: &mut std::task::Context<'_>) -> (stopped: bool)
        ensures
            old(self).has_seen_stop() ==> stopped,
            final(self).has_seen_stop() == stopped,
    {
        if self.seen {
            return true;
        }
        let reported = poll_channel(&mut self.chan, cx);
        self.seen = reported;
        self.seen
    }

    /// Reads the stop state without suspending or registering anything.
    pub fn is_stopped(&mut self) -> (stopped: bool)
        ensures
            old(self).has_seen_stop() ==> stopped,
            final(self).has_seen_stop() == stopped,
    {
        if self.seen {
            return true;
        }
        let reported = channel_closed(&self.chan);
        self.seen = reported;
        self.seen
    }

    /// A deadline that is reached when this token is stopped.
    pub fn into_deadline(self) -> (d: Deadline)
        ensures
            d.kind() == DeadlineKind::Token(self),
            d.is_token(),
            d.has_elapsed() == self.has_seen_stop(),
    {
        Deadline::from_token(self)
    }
}

impl Clone for StopToken {
    /// Another handle on the same signal, with its own registration; it
    /// starts out knowing whatever this one has seen.
    fn clone(&self) -> (c: StopToken)
        ensures
            c.has_seen_stop() == self.has_seen_stop(),
    {
        StopToken { chan: clone_receiver(&self.chan), seen: self.seen }
    }
}

impl Default for StopSource {
    fn default() -> (s: StopSource)
        ensures
            !s.kept_token().has_seen_stop(),
    {
        StopSource::new()
    }
}

impl StopSource {
    /// The token kept by a live source has not seen the stop: only dropping
    /// the source stops it, and nothing polls the kept token.
    /// The token that the source keeps and clones for `token`.
    pub closed spec fn kept_token(&self) -> StopToken {
        self.stop_token
    }

    #[verifier::type_invariant]
    spec fn inv(&self) -> bool {
        !self.stop_token.seen
    }

    /// Creates a new `StopSource`, with a fresh signal that is not stopped.
    pub fn new() -> (s: StopSource)
        ensures
            !s.kept_token().has_seen_stop(),
    {
        let (sender, receiver) = open_channel(1);
        StopSource { chan: sender, stop_token: StopToken { chan: receiver, seen: false } }
    }

    /// Produces a new `StopToken` on this source's signal. It completes once
    /// the source is dropped.
    pub fn token(&self) -> (t: StopToken)
        ensures
            !t.has_seen_stop(),
    {
        proof {
            use_type_invariant(self);
        }
        self.stop_token.clone()
    }
}

} // verus!
