//! Supervision of a single external worker process.
//!
//! A desktop shell launches one backend worker process at startup, answers
//! liveness and host-identity queries for its UI layer, and guarantees that
//! the worker is signaled to stop when the shell's window closes. This crate
//! holds the decision logic of that shell, verified: the lifecycle state
//! machine of the one supervised child handle, the choice of launcher command
//! and script path, the mapping from a network probe's outcome to a health
//! boolean, and the host-identity snapshot. The surrounding process spawning,
//! HTTP probing and event-loop plumbing are left to an unverified shell that
//! feeds plain values into these functions.

pub mod health;
pub mod launch;
pub mod platform;
pub mod supervisor;
