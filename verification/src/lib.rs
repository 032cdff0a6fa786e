//! Typed access to the host's thread-scheduling facility.
//!
//! The `sched` module models scheduling policies, their native integer
//! identifiers, priority-bound validation, and the interpretation of the
//! host's call results. The `thread` module holds the configuration for
//! spawning a thread that applies a scheduling request before running the
//! caller's work. The host calls themselves are issued by the surrounding
//! application code, which feeds their raw outcomes to the functions here.

pub mod sched;
pub mod thread;
