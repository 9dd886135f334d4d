//! Intake and orchestration of proof-generation jobs.
//!
//! Jobs arrive as broker messages. An admission gate bounds how many prove
//! at once; each message is acknowledged before its job runs, so that a job
//! that outlasts the broker's redelivery window is not delivered twice. Each
//! job works in a workspace of its own, links the shared setup artifacts
//! into it, runs the proving engine under a deadline, and reports success,
//! failure or timeout. The workspace is removed whatever the outcome.
//!
//! The decisions are state machines (`orchestrator`, `intake`) whose callers
//! perform the actions they ask for; `job_laws` and `intake_laws` state
//! what holds of every run of them.
use vstd::prelude::*;

pub mod artifacts;
pub mod config;
pub mod error;
pub mod gate;
pub mod human_index;
pub mod intake;
pub mod intake_laws;
pub mod job_laws;
pub mod messages;
pub mod metrics;
pub mod orchestrator;
pub mod prover;
pub mod text;

verus! {

} // verus!
