//! Run a batch program as a machine of discrete, resumable steps.
//!
//! The work is a sequence of steps. The engine takes the current step,
//! attempts its transition, and writes a checkpoint to a durable store after
//! every attempt. When a step fails the checkpoint keeps the step as it was
//! before the attempt, together with the failure text, so that a later launch
//! resumes at the failed step once the failure has been acknowledged.

pub mod engine;
pub mod error;
pub mod failure;
pub mod json;
pub mod json_store;
pub mod laws;
pub mod record;
pub mod state;
pub mod step;
pub mod store;

pub use engine::{concluded, settled, Engine, Settled};
pub use error::Error;
pub use failure::{error_chain, Failure};
pub use json_store::JsonStore;
pub use state::{Checkpoint, State};
pub use step::{Measure, Step, StepResult, Text};
pub use store::{Store, Writes};
