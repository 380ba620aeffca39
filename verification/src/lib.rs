//! Replay planning for the mocker's trace and concurrency workloads.
//!
//! Each workload entry point decides, from its arguments alone, which steps
//! a replay performs and in which order: normalising the engine arguments,
//! validating them for the chosen replay kind, building the request driver,
//! choosing and running a runtime, and reporting. Those decisions are
//! computed here as a [`plan::ReplayPlan`] and proved against their
//! specifications, as is what follows each step given how it ended; the
//! steps themselves are carried out by the simulator.

pub mod plan;
pub mod offline;
pub mod workload;
pub mod laws;
pub mod execution;
