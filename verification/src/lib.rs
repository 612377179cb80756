//! Core of a MIDI-to-script control bridge: a real-time audio callback feeds
//! note events and parameter values to a worker thread that runs a
//! user-editable WLambda program, without ever blocking the real-time side.
//!
//! The pieces, leaves first:
//! - [`mirror::AtomicFloatVec`]: a fixed-size parameter mirror, written once
//!   per processing block and read by scripts.
//! - [`queue::TaskQueue`]: a bounded FIFO queue of [`task::M2WTask`] values,
//!   backed by an `rtrb` ring buffer; `push` never blocks and fails on
//!   overflow instead of stalling the producer.
//! - [`bridge::TaskBridge`]: the pair of queues (real-time events, control
//!   tasks) of the current worker generation, with the restart protocol that
//!   swaps in fresh queues and makes stale producer handles inert.
//! - [`worker`]: the worker loop's state machine, bootstrap and task dispatch
//!   against the embedded WLambda interpreter, and the report lines it
//!   publishes for an observer.
//! - [`report`]: the asynchronous log/report channel that the worker (and
//!   script code) writes and a UI poller drains.
//! - [`script`]: the trusted boundary with the interpreter itself — evaluate
//!   source, look up and call a named value, install host bindings.
//! - [`features`]: the category keywords a plugin advertises to its host.

pub mod features;
pub mod task;
pub mod mirror;
pub mod queue;
pub mod bridge;
pub mod report;
pub mod script;
pub mod worker;
