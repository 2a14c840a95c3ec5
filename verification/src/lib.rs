//! Refresh coordination and view-model building for pull statistics.
//!
//! - [`tally`]: the counters of one category, with the tier invariant.
//! - [`snapshot`]: one tally per category, in insertion order.
//! - [`status`]: the user-facing status of a refresh.
//! - [`coordinator`]: the background task's control loop as a state machine.
//! - [`trace`]: what holds of every run of the coordinator.
//! - [`view_model`]: render units, their cache, labels and row layout.
//! - [`consumer`]: what the polling side keeps between frames.
//!
//! The library performs no I/O and never blocks. Channels, the shutdown
//! flag, the async runtime and the drawing belong to the program around it.

pub mod consumer;
pub mod coordinator;
pub mod snapshot;
pub mod status;
pub mod tally;
pub mod trace;
pub mod view_model;
