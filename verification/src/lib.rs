//! A media buffer aggregation and lifecycle controller.
//!
//! The library manages a collection of append-only media buffers feeding a
//! playback pipeline, tracks their activity, and drives a source-level
//! readiness state machine with duration and end-of-stream transitions.
//! Every state-changing operation validates its preconditions against the
//! current readiness state, mutates state, and appends zero or more
//! notification records to an outgoing queue for asynchronous, in-order
//! delivery by a separate drain loop.

#![allow(non_snake_case)]

pub mod errors;
pub mod events;
pub mod media_source;
pub mod source_buffer_list;
pub mod source_buffer;
pub mod time;
pub mod time_ranges;
