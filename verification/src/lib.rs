//! A compatibility layer between two generations of poll-driven futures.
//!
//! A generation-0.1 value advances through a no-argument-style poll that
//! reports ready, not-ready, or an error, and relies on an ambient,
//! thread-scoped task handle, installed by the driving executor, for
//! wakeups. A generation-0.2 value threads an explicit per-call context
//! through its poll, carrying a waker and a spawner. The adapters here
//! let a value written for either generation be driven by an executor
//! written for the other, translating outcomes losslessly and keeping
//! the ambient installation strictly scoped to each call.

pub mod futures_01;
pub mod futures_02;
pub mod poll;
pub mod sample;
pub mod task;
