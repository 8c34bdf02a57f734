//! Signal-driven shutdown coordination for a long-running host process.
//!
//! The library models the decision core of a graceful-shutdown monitor: a
//! fixed set of platform-specific signal sources race to produce a single
//! shutdown outcome; the coordinator then releases every externally supplied
//! subprocess handle exactly once and selects the platform policy's
//! termination action. The asynchronous plumbing that subscribes to OS
//! signals lives outside the library and feeds plain events in.

pub mod signal;
pub mod race;
pub mod coordinator;
