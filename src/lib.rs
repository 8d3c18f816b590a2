//! Cooperative cancellation: a `StopSource` broadcasts a one-time stop to any
//! number of `StopToken`s, and the `until` / `timeout_at` combinators bound a
//! computation or a sequence of items by such a signal or by a point in time.
//!
//! The library states and proves the decisions these combinators make on each
//! poll; the executor and the timer reactor are outside collaborators.

pub mod deadline;
pub mod future;
pub mod signal;
pub mod stop_source;
pub mod stream;
pub mod time;

pub use deadline::{Deadline, TimedOutError};
pub use stop_source::{StopSource, StopToken};
