//! Racing a sequence of items against a `Deadline`.
//!
//! Before each item is requested the deadline is checked; once it has been
//! reached, every request reports `TimedOutError` and the wrapped stream is
//! not asked for more. An item the wrapped stream has handed over is always
//! passed on unchanged.

use vstd::prelude::*;

use crate::deadline::{Deadline, TimedOutError};

verus! {

/// What one request of the combinator yields: the timeout marker once the
/// deadline has been reached, otherwise the wrapped stream's answer (an item,
/// or `None` at its end) as it came.
pub open spec fn race_item<T>(elapsed: bool, next: Option<T>) -> Option<Result<T, TimedOutError>> {
    if elapsed {
        Some(Err(TimedOutError::timed_out()))
    } else {
        match next {
            Some(v) => Some(Ok(v)),
            None => None,
        }
    }
}

/// Runs a stream until it is exhausted, or until a deadline is reached.
pub struct TimeoutAt<S> {
    stream: S,
    deadline: Deadline,
}

impl<S> TimeoutAt<S> {
    pub closed spec fn stream(&self) -> S {
        self.stream
    }

    pub closed spec fn deadline(&self) -> Deadline {
        self.deadline
    }

    /// `stream`, bounded by `deadline`.
    pub fn new(stream: S, deadline: Deadline) -> (t: TimeoutAt<S>)
        ensures
            t.stream() == stream,
            t.deadline() == deadline,
    {
        TimeoutAt { stream, deadline }
    }

    /// Starts a request: checks the deadline. `true` means the request reports
    /// the timeout and the stream is not polled; on `false` the driver polls
    /// the stream and hands its answer to `finish_poll_next`.
    pub fn begin_poll_next(&mut self, cx: &mut std::task::Context<'_>) -> (elapsed: bool)
        ensures
            elapsed == final(self).deadline().has_elapsed(),
            old(self).deadline().has_elapsed() ==> elapsed,
            final(self).stream() == old(self).stream(),
    {
        self.deadline.poll_elapsed(cx)
    }

    /// The wrapped stream, to be polled by the driver.
    pub fn stream_mut(&mut self) -> (s: &mut S)
        ensures
            *s == old(self).stream(),
            final(self).stream() == *final(s),
            final(self).deadline() == old(self).deadline(),
    {
        &mut self.stream
    }

    /// Unwraps this combinator, returning the underlying stream.
    pub fn into_inner(self) -> (s: S)
        ensures
            s == self.stream(),
    {
        self.stream
    }
}

/// The answer to one request, from the deadline check and, where the check
/// let the stream be polled, the stream's answer.
pub fn finish_poll_next<T>(elapsed: bool, next: Option<T>) -> (r: Option<Result<T, TimedOutError>>)
    ensures
        r == race_item(elapsed, next),
{
    if elapsed {
        Some(Err(TimedOutError::new()))
    } else {
        match next {
            Some(v) => Some(Ok(v)),
            None => None,
        }
    }
}

/// One event in the life of a buffered source that feeds a `TimeoutAt` whose
/// deadline is a `StopToken`.
pub enum SourceEvent<T> {
    /// An item is enqueued into the source.
    Push(T),
    /// The `StopSource` is released.
    Stop,
    /// The consumer requests the next item from the combinator.
    Request,
}

/// Whether the stop occurs among `events`.
pub open spec fn stopped_in<T>(events: Seq<SourceEvent<T>>) -> bool
    decreases events.len(),
{
    if events.len() == 0 {
        false
    } else {
        stopped_in(events.drop_last()) || events.last() is Stop
    }
}

/// The items enqueued strictly before the stop, in order.
pub open spec fn pushed_before_stop<T>(events: Seq<SourceEvent<T>>) -> Seq<T>
    decreases events.len(),
{
    if events.len() == 0 {
        Seq::empty()
    } else {
        let prev = pushed_before_stop(events.drop_last());
        if stopped_in(events.drop_last()) {
            prev
        } else {
            match events.last() {
                SourceEvent::Push(v) => prev.push(v),
                _ => prev,
            }
        }
    }
}

/// The state after `events`: the items still buffered in the source, whether
/// the combinator's deadline has been seen, and the items delivered to the
/// consumer. A request checks the deadline first (it is reached once the stop
/// has happened, and stays reached) and takes an item from the source only if
/// the deadline is not reached.
pub open spec fn replay<T>(events: Seq<SourceEvent<T>>) -> (Seq<T>, bool, Seq<T>)
    decreases events.len(),
{
    if events.len() == 0 {
        (Seq::empty(), false, Seq::empty())
    } else {
        let prev = events.drop_last();
        let (buffered, seen, delivered) = replay(prev);
        match events.last() {
            SourceEvent::Push(v) => (buffered.push(v), seen, delivered),
            SourceEvent::Stop => (buffered, seen, delivered),
            SourceEvent::Request => {
                let elapsed = seen || stopped_in(prev);
                let next = if buffered.len() > 0 {
                    Some(buffered[0])
                } else {
                    None
                };
                match race_item(elapsed, next) {
                    Some(Ok(v)) => (buffered.drop_first(), elapsed, delivered.push(v)),
                    _ => (buffered, elapsed, delivered),
                }
            },
        }
    }
}

proof fn lemma_replay_inv<T>(events: Seq<SourceEvent<T>>)
    ensures
        replay(events).1 ==> stopped_in(events),
        !stopped_in(events) ==> replay(events).2 + replay(events).0 == pushed_before_stop(events),
        stopped_in(events) ==> replay(events).2.is_prefix_of(pushed_before_stop(events)),
    decreases events.len(),
{
    if events.len() > 0 {
        let prev = events.drop_last();
        lemma_replay_inv(prev);
        let (buffered, seen, delivered) = replay(prev);
        match events.last() {
            SourceEvent::Push(v) => {
                if !stopped_in(prev) {
                    assert(delivered + buffered.push(v) =~= (delivered + buffered).push(v));
                }
            },
            SourceEvent::Stop => {
                if !stopped_in(prev) {
                    assert(delivered =~= (delivered + buffered).subrange(0, delivered.len() as int));
                }
            },
            SourceEvent::Request => {
                if !stopped_in(prev) && buffered.len() > 0 {
                    assert(delivered.push(buffered[0]) + buffered.drop_first() =~= delivered
                        + buffered);
                }
            },
        }
    }
}

/// Sequence boundary: what the consumer receives is always a prefix of the
/// items enqueued strictly before the stop, in their order. No item enqueued
/// after the stop is ever delivered, none is reordered or repeated.
pub proof fn lemma_sequence_boundary<T>(events: Seq<SourceEvent<T>>)
    ensures
        replay(events).2.is_prefix_of(pushed_before_stop(events)),
{
    lemma_replay_inv(events);
    if !stopped_in(events) {
        let (buffered, _, delivered) = replay(events);
        assert(delivered =~= (delivered + buffered).subrange(0, delivered.len() as int));
    }
}

/// `n` requests in a row.
pub open spec fn requests<T>(n: nat) -> Seq<SourceEvent<T>> {
    Seq::new(n, |i: int| SourceEvent::Request)
}

/// Before the stop, a request with an item buffered delivers that item, so
/// that as many requests as there are items buffered deliver every item
/// enqueued so far.
pub proof fn lemma_items_before_stop_delivered<T>(events: Seq<SourceEvent<T>>, n: nat)
    requires
        !stopped_in(events),
        n >= replay(events).0.len(),
    ensures
        replay(events + requests(n)).2 == pushed_before_stop(events),
    decreases n,
{
    lemma_replay_inv(events);
    if n == 0 {
        assert(events + requests(0) =~= events);
    } else {
        let m = (n - 1) as nat;
        let longer = events.push(SourceEvent::Request);
        assert(events + requests(n) =~= longer + requests(m));
        assert(longer.drop_last() =~= events);
        assert(!stopped_in(longer));
        assert(pushed_before_stop(longer) == pushed_before_stop(events));
        let (buffered, _, delivered) = replay(events);
        if buffered.len() == 0 {
            assert(delivered + buffered =~= delivered);
        }
        lemma_items_before_stop_delivered(longer, m);
    }
}

/// Extends every stream with the `timeout_at` method. (It is given to every
/// type; only a stream can drive the result.)
pub trait StreamExt: Sized {
    /// Applies the deadline to the stream, such that the resulting stream
    /// produces no more items once the deadline is reached.
    fn timeout_at(self, deadline: Deadline) -> (t: TimeoutAt<Self>)
        ensures
            t.stream() == self,
            t.deadline() == deadline,
    {
        TimeoutAt::new(self, deadline)
    }
}

impl<S> StreamExt for S {
}

} // verus!
