//! Asynchronous log-forwarding core.
//!
//! Log records are encoded on the caller's side, handed to a single worker
//! as queued events, post-processed (a path marker embedded in the text is
//! reduced to its leaf name), and written to one destination. The queueing,
//! the worker's state machine, the post-processing and the per-destination
//! framing live here; the threads and the actual I/O are left to the caller
//! of this library.

pub mod appender;
pub mod config;
pub mod event;
pub mod rewrite;
pub mod sink;
pub mod utf8;
pub mod worker;
