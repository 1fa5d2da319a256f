//! Core of a cooperative, suspendable task driven by a single-threaded
//! readiness reactor.
//!
//! A blocking worker thread hands results to the cooperative domain through a
//! single-producer/single-consumer channel bridge; a drain task forwards every
//! message, in production order, to an output stream that carries a one-time
//! acknowledgement followed by the messages. The reactor multiplexes readiness
//! over registered resources and is the only entity that resumes a suspended
//! task.
//!
//! The modules split along the component lines: [`event`] holds the
//! observations and actions the components exchange, [`bridge`] models the
//! channel bridge, [`task`] the suspension state machine, [`reactor`] the
//! registration table, [`stream`] the output conduit, and [`session`] ties
//! one task's bridge, machine and stream together and proves the end-to-end
//! forwarding guarantees. [`live`] drives the same state machine against a
//! real `mio_extras` channel endpoint.

pub mod bridge;
pub mod event;
pub mod live;
pub mod reactor;
pub mod session;
pub mod stream;
pub mod task;
