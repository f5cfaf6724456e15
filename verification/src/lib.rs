//! Core of a framed request/response dispatcher.
//!
//! The dispatcher sits between a bidirectional byte transport and a
//! request-processing service: it admits decoded frames to the service while
//! the service reports readiness, lets each admitted request run as an
//! independent task, and writes completed responses back onto the transport
//! in completion order, under the transport's write-buffer backpressure.
//!
//! This crate holds the dispatcher's decision logic: the termination state
//! machine, the per-event decisions of the read and write stages, and the
//! resolution of the terminal states. The surrounding runtime (the transport,
//! the service, the task scheduler and the result channel) reports what
//! happened at each suspension point as a plain event value; every decision
//! taken on such an event is a verified function here.

pub mod dispatch;
pub mod error;
pub mod read;
pub mod state;
pub mod write;
