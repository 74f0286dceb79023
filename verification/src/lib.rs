//! An embeddable durable execution engine.
//!
//! Workflows recover by key-based memoisation: the result of each step is kept
//! in a row of its own, and a step whose row says that it completed is not
//! executed again. This library holds what the engine decides, as functions
//! from what is known (an operation, the rows that are kept for it, the outcome
//! of an attempt) to what is done (rows to write, states to announce, results
//! to return). It reads no store and spawns no task: its caller does, and makes
//! the changes that the library hands out, each batch in one transaction.
//!
//! - [`engine`] and [`builder`]: registration, invocation, resumption, signals
//!   and queries; [`invocation`], [`workflow`] and [`stream`]: their handles,
//!   outputs and status streams.
//! - [`context`] and [`run`]: the durable operations of a running workflow:
//!   steps with timeout and retry ([`retry`]), suspend points and timers.
//! - [`execution`], [`poll`], [`fan_out`] and [`retention`]: the end of a run,
//!   the claim of a suspended step, the wake-up by timers, child workflows, and
//!   the deletion of old instances; [`progress`]: what a run reports of itself.
//! - [`step`], [`metadata`], [`timer`], [`keys`], [`codec`] and [`store`]: the
//!   rows, their keys, and the tables that they stand in.
//! - [`guarantees`]: what the parts guarantee together, such as memoisation and
//!   the delivery of every signal at most once.

use vstd::prelude::*;

pub mod builder;
pub mod clock;
pub mod codec;
pub mod context;
pub mod duration;
pub mod engine;
pub mod error;
pub mod execution;
pub mod fan_out;
pub mod guarantees;
pub mod invocation;
pub mod keys;
pub mod metadata;
pub mod poll;
pub mod progress;
pub mod retention;
pub mod retry;
pub mod run;
mod seqs;
pub mod state;
pub mod step;
pub mod store;
pub mod stream;
pub mod text;
pub mod textmap;
pub mod timer;
pub mod workflow;

pub use builder::{EngineBuilder, HasStore, NoStore};
pub use context::{
    ArmedTimer, Context, StatusUpdate, SuspendBuilder, SuspendOutcome, SuspendPoint, TimerStatus,
    WorkflowDef,
};
pub use duration::Duration;
pub use engine::{Delivery, Engine, Registration, Spawn, StartPlan};
pub use error::{ChildError, EngineError, StateError, StepError, SubscribeError};
pub use invocation::{Completed, Invocation, InvocationBuilder, WaitResult};
pub use metadata::{MetadataStatus, WorkflowMetadata};
pub use poll::{PollAction, PollEvent, TimerPoll};
pub use progress::RunLog;
pub use retry::RetryPolicy;
pub use run::{AttemptOutcome, RunStart, RunStep, StepBuilder, StepRun};
pub use state::WorkflowState;
pub use step::{StepData, StepEnvelope, StepFrame, StepState};
pub use store::Write;
pub use stream::{ChangePoll, StatusStream, StreamStep};
pub use textmap::TextMap;
pub use timer::TimerEntry;
pub use workflow::{NoInput, WithInput};

verus! {

} // verus!
