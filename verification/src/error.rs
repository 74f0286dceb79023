//! The errors of the engine, of step closures and of the engine's queries.
//!
//! Where an error wraps another one, it holds that error's text.

use crate::duration;
use crate::duration::Duration;
use crate::text;
use crate::text::{concat2, concat3, concat4};
use vstd::prelude::*;

verus! {

/// Errors originating from the engine itself.
///
/// Covers storage failures, serialization failures, and step execution
/// failures propagated from user closures.
#[derive(Debug, PartialEq, Eq)]
pub enum EngineError {
    /// A storage operation failed.
    Storage(String),
    /// Serialization or deserialization of a step result failed.
    Serialization {
        /// The step key that failed.
        key: String,
        /// The underlying serialization error.
        source: String,
    },
    /// A step closure returned an error.
    StepFailed {
        /// The step key that failed.
        key: String,
        /// The underlying error from the step closure.
        source: String,
        /// Whether the original error was marked as retryable.
        retryable: bool,
    },
    /// The engine has not been started.
    NotStarted,
    /// No workflow is registered under the given name.
    WorkflowNotFound(String),
    /// A step exceeded its configured timeout.
    StepTimeout {
        /// The step key that timed out.
        key: String,
        /// The timeout duration that was exceeded.
        duration: Duration,
    },
    /// A key component contains the `/` delimiter.
    InvalidKey {
        /// Which component was invalid (e.g. `"workflow_name"`,
        /// `"instance_id"`, `"step_key"`).
        label: &'static str,
        /// The invalid value.
        value: String,
    },
    /// The stored payload type does not match the expected type.
    TypeMismatch {
        /// The step key where the mismatch occurred.
        key: String,
        /// The type name expected by the deserializing code.
        expected: String,
        /// The type name found in the stored envelope.
        found: String,
    },
    /// A signal was rejected because the target step is not suspended.
    SignalRejected {
        /// The step key the signal targeted.
        key: String,
        /// Why the signal was rejected.
        reason: String,
    },
    /// A signal was superseded because another caller already claimed the
    /// suspended step.
    SignalSuperseded {
        /// The step key that was already claimed.
        key: String,
    },
    /// A regular step found a suspended entry in the step table: the step key
    /// was a suspend or timer point before the workflow code changed.
    SuspendedStepConflict {
        /// The step key with the conflicting entry.
        key: String,
    },
    /// All retry attempts for a step were exhausted.
    RetriesExhausted {
        /// The step key that exhausted its retries.
        key: String,
        /// Total number of attempts (initial + retries).
        attempts: u32,
        /// The last error from the step closure.
        source: String,
    },
    /// The workflow suspended at a step, awaiting an external signal.
    Suspended {
        /// The step key where the workflow suspended.
        key: String,
    },
    /// A workflow that takes input was run without any.
    InputMissing {
        /// The workflow name.
        workflow: String,
    },
}

/// What an [`EngineError`] says.
pub enum ErrorView {
    Storage(Seq<char>),
    Serialization { key: Seq<char>, source: Seq<char> },
    StepFailed { key: Seq<char>, source: Seq<char>, retryable: bool },
    NotStarted,
    WorkflowNotFound(Seq<char>),
    StepTimeout { key: Seq<char>, duration: nat },
    InvalidKey { label: Seq<char>, value: Seq<char> },
    TypeMismatch { key: Seq<char>, expected: Seq<char>, found: Seq<char> },
    SignalRejected { key: Seq<char>, reason: Seq<char> },
    SignalSuperseded { key: Seq<char> },
    SuspendedStepConflict { key: Seq<char> },
    RetriesExhausted { key: Seq<char>, attempts: nat, source: Seq<char> },
    Suspended { key: Seq<char> },
    InputMissing { workflow: Seq<char> },
}

impl View for EngineError {
    type V = ErrorView;

    open spec fn view(&self) -> ErrorView {
        match *self {
            EngineError::Storage(s) => ErrorView::Storage(s@),
            EngineError::Serialization { key, source } => ErrorView::Serialization {
                key: key@,
                source: source@,
            },
            EngineError::StepFailed { key, source, retryable } => ErrorView::StepFailed {
                key: key@,
                source: source@,
                retryable,
            },
            EngineError::NotStarted => ErrorView::NotStarted,
            EngineError::WorkflowNotFound(name) => ErrorView::WorkflowNotFound(name@),
            EngineError::StepTimeout { key, duration } => ErrorView::StepTimeout {
                key: key@,
                duration: duration@,
            },
            EngineError::InvalidKey { label, value } => ErrorView::InvalidKey {
                label: label@,
                value: value@,
            },
            EngineError::TypeMismatch { key, expected, found } => ErrorView::TypeMismatch {
                key: key@,
                expected: expected@,
                found: found@,
            },
            EngineError::SignalRejected { key, reason } => ErrorView::SignalRejected {
                key: key@,
                reason: reason@,
            },
            EngineError::SignalSuperseded { key } => ErrorView::SignalSuperseded { key: key@ },
            EngineError::SuspendedStepConflict { key } => ErrorView::SuspendedStepConflict {
                key: key@,
            },
            EngineError::RetriesExhausted { key, attempts, source } => ErrorView::RetriesExhausted {
                key: key@,
                attempts: attempts as nat,
                source: source@,
            },
            EngineError::Suspended { key } => ErrorView::Suspended { key: key@ },
            EngineError::InputMissing { workflow } => ErrorView::InputMissing {
                workflow: workflow@,
            },
        }
    }
}

/// The text that `{:?}` writes for the span of `secs` seconds and `nanos`
/// nanoseconds.
pub uninterp spec fn span_debug_text(secs: u64, nanos: u32) -> Seq<char>;

/// Writes a span as `{:?}` does, through the `Debug` impl of
/// `std::time::Duration` (`100ms`, `1.5s`): the text is fixed by the two
/// parts. What the text is for given parts is not stated.
#[verifier::external_body]
fn span_debug(secs: u64, nanos: u32) -> (s: String)
    requires
        nanos < 1_000_000_000,
    ensures
        s@ == span_debug_text(secs, nanos),
{
    format!("{:?}", std::time::Duration::new(secs, nanos))
}

/// The message of an engine error.
pub open spec fn error_text(e: ErrorView) -> Seq<char> {
    match e {
        ErrorView::Storage(s) => "storage error: "@ + s,
        ErrorView::Serialization { key, source } => "serialization error for step '"@ + key
            + "': "@ + source,
        ErrorView::StepFailed { key, source, .. } => "step '"@ + key + "' failed: "@ + source,
        ErrorView::NotStarted => "engine has not been started"@,
        ErrorView::WorkflowNotFound(name) => "workflow '"@ + name + "' is not registered"@,
        ErrorView::StepTimeout { key, duration } => "step '"@ + key + "' timed out after "@
            + span_debug_text(
            (duration / duration::NANOS_PER_SEC as nat) as u64,
            (duration % duration::NANOS_PER_SEC as nat) as u32,
        ),
        ErrorView::InvalidKey { label, value } => "invalid key component ("@ + label + "): '"@
            + value + "' must not contain '/'"@,
        ErrorView::TypeMismatch { key, expected, found } => "type mismatch for step '"@ + key
            + "': expected `"@ + expected + "`, found `"@ + found + "`"@,
        ErrorView::SignalRejected { key, reason } => "signal rejected for step '"@ + key + "': "@
            + reason,
        ErrorView::SignalSuperseded { key } => "signal superseded for step '"@ + key
            + "': another caller already claimed it"@,
        ErrorView::SuspendedStepConflict { key } => "step '"@ + key
            + "' has a suspended entry but was called as a regular step — the workflow code likely changed while an instance was suspended"@,
        ErrorView::RetriesExhausted { key, attempts, source } => "step '"@ + key
            + "' failed after "@ + text::digits(attempts, 10) + " attempts: "@ + source,
        ErrorView::Suspended { key } => "workflow suspended at step '"@ + key + "'"@,
        ErrorView::InputMissing { workflow } => "workflow '"@ + workflow
            + "' was run without input"@,
    }
}

impl EngineError {
    /// Creates a [`StepFailed`](EngineError::StepFailed) error.
    pub fn step_failed(key: &str, source: &str, retryable: bool) -> (e: Self)
        ensures
            e@ == (ErrorView::StepFailed { key: key@, source: source@, retryable }),
    {
        Self::StepFailed { key: key.to_owned(), source: source.to_owned(), retryable }
    }

    /// Creates a [`RetriesExhausted`](EngineError::RetriesExhausted) error.
    pub fn retries_exhausted(key: &str, attempts: u32, source: &str) -> (e: Self)
        ensures
            e@ == (ErrorView::RetriesExhausted {
                key: key@,
                attempts: attempts as nat,
                source: source@,
            }),
    {
        Self::RetriesExhausted { key: key.to_owned(), attempts, source: source.to_owned() }
    }

    /// The error's message.
    #[must_use]
    pub fn to_string(&self) -> (s: String)
        ensures
            s@ == error_text(self@),
    {
        match self {
            EngineError::Storage(e) => concat2("storage error: ", e),
            EngineError::Serialization { key, source } => concat4(
                "serialization error for step '",
                key,
                "': ",
                source,
            ),
            EngineError::StepFailed { key, source, .. } => concat4(
                "step '",
                key,
                "' failed: ",
                source,
            ),
            EngineError::NotStarted => "engine has not been started".to_owned(),
            EngineError::WorkflowNotFound(name) => concat3(
                "workflow '",
                name,
                "' is not registered",
            ),
            EngineError::StepTimeout { key, duration } => {
                let span = span_debug(duration.as_secs(), duration.subsec_nanos());
                concat4("step '", key, "' timed out after ", &span)
            },
            EngineError::InvalidKey { label, value } => {
                let head = concat3("invalid key component (", label, "): '");
                concat3(&head, value, "' must not contain '/'")
            },
            EngineError::TypeMismatch { key, expected, found } => {
                let head = concat4("type mismatch for step '", key, "': expected `", expected);
                concat4(&head, "`, found `", found, "`")
            },
            EngineError::SignalRejected { key, reason } => concat4(
                "signal rejected for step '",
                key,
                "': ",
                reason,
            ),
            EngineError::SignalSuperseded { key } => concat3(
                "signal superseded for step '",
                key,
                "': another caller already claimed it",
            ),
            EngineError::SuspendedStepConflict { key } => concat3(
                "step '",
                key,
                "' has a suspended entry but was called as a regular step — the workflow code likely changed while an instance was suspended",
            ),
            EngineError::RetriesExhausted { key, attempts, source } => {
                let count = text::decimal(*attempts as u64);
                let head = concat4("step '", key, "' failed after ", &count);
                concat3(&head, " attempts: ", source)
            },
            EngineError::Suspended { key } => concat3("workflow suspended at step '", key, "'"),
            EngineError::InputMissing { workflow } => concat3(
                "workflow '",
                workflow,
                "' was run without input",
            ),
        }
    }
}

/// Error returned when subscribing to a workflow instance.
///
/// Distinguishes between an instance that never existed and one that has
/// stale `Running` metadata from a crash (no live task backing it).
#[derive(Debug, PartialEq, Eq)]
pub enum SubscribeError {
    /// No instance with this workflow name and ID exists.
    NotFound {
        /// The workflow name that was queried.
        workflow_name: String,
        /// The instance ID that was queried.
        instance_id: String,
    },
    /// The instance has persisted `Running` metadata but no live task.
    StaleRunning {
        /// The workflow name.
        workflow_name: String,
        /// The instance ID with stale state.
        instance_id: String,
    },
    /// A storage operation failed while reading metadata.
    Storage(String),
}

/// What a [`SubscribeError`] says.
pub enum SubscribeErrorView {
    NotFound { workflow_name: Seq<char>, instance_id: Seq<char> },
    StaleRunning { workflow_name: Seq<char>, instance_id: Seq<char> },
    Storage(Seq<char>),
}

impl View for SubscribeError {
    type V = SubscribeErrorView;

    open spec fn view(&self) -> SubscribeErrorView {
        match *self {
            SubscribeError::NotFound { workflow_name, instance_id } => SubscribeErrorView::NotFound {
                workflow_name: workflow_name@,
                instance_id: instance_id@,
            },
            SubscribeError::StaleRunning { workflow_name, instance_id } =>
                SubscribeErrorView::StaleRunning {
                workflow_name: workflow_name@,
                instance_id: instance_id@,
            },
            SubscribeError::Storage(s) => SubscribeErrorView::Storage(s@),
        }
    }
}

impl SubscribeError {
    /// The error's message.
    #[must_use]
    pub fn to_string(&self) -> (s: String)
        ensures
            s@ == (match self@ {
                SubscribeErrorView::NotFound { workflow_name, instance_id } =>
                    "no instance found for workflow '"@ + workflow_name + "' with id '"@
                    + instance_id + "'"@,
                SubscribeErrorView::StaleRunning { workflow_name, instance_id } => "instance '"@
                    + instance_id + "' of workflow '"@ + workflow_name
                    + "' has stale Running metadata (likely crashed) — consider calling resume()"@,
                SubscribeErrorView::Storage(e) => "storage error: "@ + e,
            }),
    {
        match self {
            SubscribeError::NotFound { workflow_name, instance_id } => {
                let head = concat3("no instance found for workflow '", workflow_name, "' with id '");
                concat3(&head, instance_id, "'")
            },
            SubscribeError::StaleRunning { workflow_name, instance_id } => {
                let head = concat3("instance '", instance_id, "' of workflow '");
                concat3(
                    &head,
                    workflow_name,
                    "' has stale Running metadata (likely crashed) — consider calling resume()",
                )
            },
            SubscribeError::Storage(e) => concat2("storage error: ", e),
        }
    }
}

/// Error returned when asking for the current state of a workflow instance.
#[derive(Debug, PartialEq, Eq)]
pub enum StateError {
    /// No instance with this workflow name and ID exists.
    NotFound {
        /// The workflow name that was queried.
        workflow_name: String,
        /// The instance ID that was queried.
        instance_id: String,
    },
    /// A storage operation failed while reading metadata.
    Storage(String),
}

/// What a [`StateError`] says.
pub enum StateErrorView {
    NotFound { workflow_name: Seq<char>, instance_id: Seq<char> },
    Storage(Seq<char>),
}

impl View for StateError {
    type V = StateErrorView;

    open spec fn view(&self) -> StateErrorView {
        match *self {
            StateError::NotFound { workflow_name, instance_id } => StateErrorView::NotFound {
                workflow_name: workflow_name@,
                instance_id: instance_id@,
            },
            StateError::Storage(s) => StateErrorView::Storage(s@),
        }
    }
}

impl StateError {
    /// The error's message.
    #[must_use]
    pub fn to_string(&self) -> (s: String)
        ensures
            s@ == (match self@ {
                StateErrorView::NotFound { workflow_name, instance_id } =>
                    "no instance found for workflow '"@ + workflow_name + "' with id '"@
                    + instance_id + "'"@,
                StateErrorView::Storage(e) => "storage error: "@ + e,
            }),
    {
        match self {
            StateError::NotFound { workflow_name, instance_id } => {
                let head = concat3("no instance found for workflow '", workflow_name, "' with id '");
                concat3(&head, instance_id, "'")
            },
            StateError::Storage(e) => concat2("storage error: ", e),
        }
    }
}

/// Error returned by step closures.
///
/// The variant communicates retry intent to the engine: a
/// [`Retryable`](StepError::Retryable) failure is retried according to the
/// step's [`RetryPolicy`](crate::RetryPolicy), a
/// [`Permanent`](StepError::Permanent) one is propagated immediately.
#[derive(Debug, PartialEq, Eq)]
pub enum StepError {
    /// A transient failure that may succeed on retry.
    Retryable(String),
    /// An unrecoverable failure.
    Permanent(String),
}

/// What a [`StepError`] says.
pub enum StepErrorView {
    Retryable(Seq<char>),
    Permanent(Seq<char>),
}

impl View for StepError {
    type V = StepErrorView;

    open spec fn view(&self) -> StepErrorView {
        match *self {
            StepError::Retryable(s) => StepErrorView::Retryable(s@),
            StepError::Permanent(s) => StepErrorView::Permanent(s@),
        }
    }
}

impl StepError {
    /// Creates a [`Retryable`](StepError::Retryable) error.
    pub fn retryable(source: &str) -> (e: Self)
        ensures
            e@ == StepErrorView::Retryable(source@),
    {
        Self::Retryable(source.to_owned())
    }

    /// Creates a [`Permanent`](StepError::Permanent) error.
    pub fn permanent(source: &str) -> (e: Self)
        ensures
            e@ == StepErrorView::Permanent(source@),
    {
        Self::Permanent(source.to_owned())
    }

    /// The error's message.
    #[must_use]
    pub fn to_string(&self) -> (s: String)
        ensures
            s@ == (match self@ {
                StepErrorView::Retryable(e) => "retryable: "@ + e,
                StepErrorView::Permanent(e) => "permanent: "@ + e,
            }),
    {
        match self {
            StepError::Retryable(e) => concat2("retryable: ", e),
            StepError::Permanent(e) => concat2("permanent: ", e),
        }
    }
}

/// The failure of one child of a fan-out that runs every child to completion.
#[derive(Debug, PartialEq, Eq)]
pub struct ChildError {
    instance_id: String,
    message: String,
}

/// What a [`ChildError`] says.
pub struct ChildErrorView {
    pub instance_id: Seq<char>,
    pub message: Seq<char>,
}

impl View for ChildError {
    type V = ChildErrorView;

    closed spec fn view(&self) -> ChildErrorView {
        ChildErrorView { instance_id: self.instance_id@, message: self.message@ }
    }
}

impl ChildError {
    /// The failure of the child with the given instance ID.
    #[must_use]
    pub fn new(instance_id: &str, message: String) -> (e: Self)
        ensures
            e@ == (ChildErrorView { instance_id: instance_id@, message: message@ }),
    {
        Self { instance_id: instance_id.to_owned(), message }
    }

    /// The child's instance ID.
    #[must_use]
    pub fn instance_id(&self) -> (id: &str)
        ensures
            id@ == self@.instance_id,
    {
        self.instance_id.as_str()
    }

    /// The message of the error that the child failed with.
    #[must_use]
    pub fn message(&self) -> (m: &str)
        ensures
            m@ == self@.message,
    {
        self.message.as_str()
    }
}

/// Whether a text tells a part: the part stands in it somewhere.
pub open spec fn tells(s: Seq<char>, part: Seq<char>) -> bool {
    exists|i: int|
        0 <= i <= s.len() - part.len() && #[trigger] s.subrange(i, i + part.len()) == part
}

proof fn told_between(s: Seq<char>, a: Seq<char>, part: Seq<char>, b: Seq<char>)
    requires
        s =~= a + part + b,
    ensures
        tells(s, part),
{
    let i = a.len() as int;
    assert(s.subrange(i, i + part.len()) =~= part);
}

/// The message of an error tells what the error holds: the key of the step or
/// the name of the workflow, and the source or reason; whether a failure can be
/// retried is not in it.
pub proof fn messages_tell_their_parts(e: ErrorView, key: Seq<char>, source: Seq<char>)
    ensures
        match e {
            ErrorView::Storage(s) => tells(error_text(e), s),
            ErrorView::Serialization { key, source } => tells(error_text(e), key) && tells(
                error_text(e),
                source,
            ),
            ErrorView::StepFailed { key, source, .. } => tells(error_text(e), key) && tells(
                error_text(e),
                source,
            ),
            ErrorView::NotStarted => true,
            ErrorView::WorkflowNotFound(name) => tells(error_text(e), name),
            ErrorView::StepTimeout { key, .. } => tells(error_text(e), key),
            ErrorView::InvalidKey { label, value } => tells(error_text(e), label) && tells(
                error_text(e),
                value,
            ),
            ErrorView::TypeMismatch { key, expected, found } => tells(error_text(e), key) && tells(
                error_text(e),
                expected,
            ) && tells(error_text(e), found),
            ErrorView::SignalRejected { key, reason } => tells(error_text(e), key) && tells(
                error_text(e),
                reason,
            ),
            ErrorView::SignalSuperseded { key } => tells(error_text(e), key),
            ErrorView::SuspendedStepConflict { key } => tells(error_text(e), key),
            ErrorView::RetriesExhausted { key, attempts, source } => tells(error_text(e), key)
                && tells(error_text(e), text::digits(attempts, 10)) && tells(error_text(e), source),
            ErrorView::Suspended { key } => tells(error_text(e), key),
            ErrorView::InputMissing { workflow } => tells(error_text(e), workflow),
        },
        error_text(ErrorView::StepFailed { key, source, retryable: true }) == error_text(
            ErrorView::StepFailed { key, source, retryable: false },
        ),
{
    let s = error_text(e);
    let none = Seq::<char>::empty();
    match e {
        ErrorView::Storage(t) => {
            told_between(s, "storage error: "@, t, none);
        },
        ErrorView::Serialization { key, source } => {
            told_between(s, "serialization error for step '"@, key, "': "@ + source);
            told_between(s, "serialization error for step '"@ + key + "': "@, source, none);
        },
        ErrorView::StepFailed { key, source, .. } => {
            told_between(s, "step '"@, key, "' failed: "@ + source);
            told_between(s, "step '"@ + key + "' failed: "@, source, none);
        },
        ErrorView::NotStarted => {},
        ErrorView::WorkflowNotFound(name) => {
            told_between(s, "workflow '"@, name, "' is not registered"@);
        },
        ErrorView::StepTimeout { key, .. } => {
            let head = "step '"@ + key;
            told_between(s, "step '"@, key, s.skip(head.len() as int));
        },
        ErrorView::InvalidKey { label, value } => {
            told_between(
                s,
                "invalid key component ("@,
                label,
                "): '"@ + value + "' must not contain '/'"@,
            );
            told_between(
                s,
                "invalid key component ("@ + label + "): '"@,
                value,
                "' must not contain '/'"@,
            );
        },
        ErrorView::TypeMismatch { key, expected, found } => {
            let head = "type mismatch for step '"@ + key + "': expected `"@;
            told_between(
                s,
                "type mismatch for step '"@,
                key,
                "': expected `"@ + expected + "`, found `"@ + found + "`"@,
            );
            told_between(s, head, expected, "`, found `"@ + found + "`"@);
            told_between(s, head + expected + "`, found `"@, found, "`"@);
        },
        ErrorView::SignalRejected { key, reason } => {
            told_between(s, "signal rejected for step '"@, key, "': "@ + reason);
            told_between(s, "signal rejected for step '"@ + key + "': "@, reason, none);
        },
        ErrorView::SignalSuperseded { key } => {
            let head = "signal superseded for step '"@ + key;
            told_between(s, "signal superseded for step '"@, key, s.skip(head.len() as int));
        },
        ErrorView::SuspendedStepConflict { key } => {
            let head = "step '"@ + key;
            told_between(s, "step '"@, key, s.skip(head.len() as int));
        },
        ErrorView::RetriesExhausted { key, attempts, source } => {
            let count = text::digits(attempts, 10);
            let head = "step '"@ + key + "' failed after "@;
            told_between(
                s,
                "step '"@,
                key,
                "' failed after "@ + count + " attempts: "@ + source,
            );
            told_between(s, head, count, " attempts: "@ + source);
            told_between(s, head + count + " attempts: "@, source, none);
        },
        ErrorView::Suspended { key } => {
            told_between(s, "workflow suspended at step '"@, key, "'"@);
        },
        ErrorView::InputMissing { workflow } => {
            told_between(s, "workflow '"@, workflow, "' was run without input"@);
        },
    }
}

} // verus!
