//! Handles of workflow instances, and what waiting for one gives.

use crate::codec;
use crate::error::{EngineError, ErrorView};
use crate::keys;
use crate::state;
use crate::state::{StateView, WorkflowState};
use crate::step;
use crate::step::{StepData, StepView};
use crate::store;
use crate::text::{concat2, concat4};
use crate::workflow;
use core::marker::PhantomData;
use vstd::prelude::*;

verus! {

/// Handle for a running workflow instance with output `O`.
#[derive(Debug)]
pub struct Invocation<O> {
    instance_id: String,
    workflow_name: String,
    output: PhantomData<O>,
}

/// Which instance a handle is for.
pub struct InstanceView {
    pub workflow_name: Seq<char>,
    pub instance_id: Seq<char>,
}

impl<O> View for Invocation<O> {
    type V = InstanceView;

    closed spec fn view(&self) -> InstanceView {
        InstanceView { workflow_name: self.workflow_name@, instance_id: self.instance_id@ }
    }
}

/// Whether waiting ends in the given state: it is terminal or suspended.
pub open spec fn ends_wait(s: StateView) -> bool {
    state::is_terminal(s) || s is Suspended
}

impl<O> Invocation<O> {
    /// The handle of an instance.
    #[must_use]
    pub fn new(workflow_name: String, instance_id: String) -> (i: Self)
        ensures
            i@ == (InstanceView { workflow_name: workflow_name@, instance_id: instance_id@ }),
    {
        Invocation { instance_id, workflow_name, output: PhantomData }
    }

    /// Returns the instance ID for this invocation.
    #[must_use]
    pub fn instance_id(&self) -> (id: &str)
        ensures
            id@ == self@.instance_id,
    {
        self.instance_id.as_str()
    }

    /// Whether waiting ends in the given state.
    #[must_use]
    pub fn is_settled(&self, state: &WorkflowState) -> (r: bool)
        ensures
            r == ends_wait(state@),
    {
        state.is_terminal() || matches!(state, WorkflowState::Suspended { .. })
    }

    /// Ends the wait in a terminal or suspended state, consuming the handle.
    #[must_use]
    pub fn wait(self, state: WorkflowState) -> (r: WaitResult<O>)
        requires
            ends_wait(state@),
        ensures
            match state@ {
                StateView::Completed(status) => r matches WaitResult::Completed(c) && c@ == (
                CompletedView { instance: self@, status }),
                StateView::Suspended { key, status } => r matches WaitResult::Suspended {
                    key: k,
                    status: s,
                } && k@ == key && s@ == status,
                StateView::Failed(msg) => r matches WaitResult::Failed(m) && m@ == msg,
                _ => true,
            },
    {
        match state {
            WorkflowState::Completed(status) => WaitResult::Completed(
                Completed {
                    instance_id: self.instance_id,
                    status,
                    workflow_name: self.workflow_name,
                    output: PhantomData,
                },
            ),
            WorkflowState::Suspended { key, status } => WaitResult::Suspended { key, status },
            WorkflowState::Failed(msg) => WaitResult::Failed(msg),
            WorkflowState::Started => vstd::pervasive::unreached(),
            WorkflowState::InProgress(_) => vstd::pervasive::unreached(),
        }
    }

    /// Decomposes into the workflow's name and the instance ID.
    #[must_use]
    pub fn into_parts(self) -> (parts: (String, String))
        ensures
            parts.0@ == self@.workflow_name,
            parts.1@ == self@.instance_id,
    {
        (self.workflow_name, self.instance_id)
    }
}

/// Result of waiting for a workflow to reach a terminal or suspended state.
///
/// The [`Completed`] variant provides typed access to the output.
#[derive(Debug)]
pub enum WaitResult<O> {
    /// The workflow completed successfully.
    Completed(Completed<O>),
    /// The workflow suspended, awaiting an external signal.
    Suspended {
        /// The step key identifying this suspend point.
        key: String,
        /// Human-readable status message.
        status: String,
    },
    /// The workflow failed with an error message.
    Failed(String),
}

/// The state in which a wait ended.
pub open spec fn wait_state<O>(r: WaitResult<O>) -> StateView {
    match r {
        WaitResult::Completed(c) => StateView::Completed(c@.status),
        WaitResult::Suspended { key, status } => StateView::Suspended { key: key@, status: status@ },
        WaitResult::Failed(msg) => StateView::Failed(msg@),
    }
}

impl<O> WaitResult<O> {
    /// Returns `true` if the workflow completed successfully.
    #[must_use]
    pub fn is_completed(&self) -> (r: bool)
        ensures
            r == (wait_state(*self) is Completed),
    {
        matches!(self, WaitResult::Completed(_))
    }

    /// Returns `true` if the workflow is suspended.
    #[must_use]
    pub fn is_suspended(&self) -> (r: bool)
        ensures
            r == (wait_state(*self) is Suspended),
    {
        matches!(self, WaitResult::Suspended { .. })
    }

    /// Returns `true` if the workflow failed.
    #[must_use]
    pub fn is_failed(&self) -> (r: bool)
        ensures
            r == (wait_state(*self) is Failed),
    {
        matches!(self, WaitResult::Failed(_))
    }

    /// Unwraps the [`Completed`] variant of a wait that ended in it.
    #[must_use]
    pub fn unwrap_completed(self) -> (c: Completed<O>)
        requires
            self is Completed,
        ensures
            self == WaitResult::Completed(c),
    {
        match self {
            WaitResult::Completed(c) => c,
            WaitResult::Suspended { .. } => vstd::pervasive::unreached(),
            WaitResult::Failed(_) => vstd::pervasive::unreached(),
        }
    }

    /// The result in words.
    #[must_use]
    pub fn to_string(&self) -> (s: String)
        ensures
            s@ == state::state_text(wait_state(*self)),
    {
        match self {
            WaitResult::Completed(c) => match &c.status {
                None => "completed".to_owned(),
                Some(msg) => concat2("completed: ", msg),
            },
            WaitResult::Suspended { key, status } => concat4("suspended (", key, "): ", status),
            WaitResult::Failed(msg) => concat2("failed: ", msg),
        }
    }
}

/// A completed workflow invocation with typed output access.
#[derive(Debug)]
pub struct Completed<O> {
    instance_id: String,
    status: Option<String>,
    workflow_name: String,
    output: PhantomData<O>,
}

/// What a [`Completed`] invocation says.
pub struct CompletedView {
    pub instance: InstanceView,
    pub status: Option<Seq<char>>,
}

impl<O> View for Completed<O> {
    type V = CompletedView;

    closed spec fn view(&self) -> CompletedView {
        CompletedView {
            instance: InstanceView {
                workflow_name: self.workflow_name@,
                instance_id: self.instance_id@,
            },
            status: codec::opt_text(self.status),
        }
    }
}

impl<O> Completed<O> {
    /// Returns the instance ID for this invocation.
    #[must_use]
    pub fn instance_id(&self) -> (id: &str)
        ensures
            id@ == self@.instance.instance_id,
    {
        self.instance_id.as_str()
    }

    /// Returns the last status message set before the workflow completed.
    #[must_use]
    pub fn status(&self) -> (s: Option<&str>)
        ensures
            match s {
                Some(msg) => self@.status == Some(msg@),
                None => self@.status is None,
            },
    {
        match &self.status {
            Some(msg) => Some(msg.as_str()),
            None => None,
        }
    }

    /// The key of the row that keeps the output.
    #[must_use]
    pub fn output_key(&self) -> (key: String)
        ensures
            key@ == keys::step_key(
                self@.instance.workflow_name,
                self@.instance.instance_id,
                keys::OUTPUT_KEY@,
            ),
    {
        keys::composite_key(&self.workflow_name, &self.instance_id, keys::OUTPUT_KEY)
    }

    /// Reads the workflow output from the row that keeps it.
    ///
    /// # Errors
    ///
    /// As [`workflow::read_output`] on the row.
    pub fn output<F: FnOnce(Vec<u8>) -> Result<(O, Option<String>), String>>(
        &self,
        row: Option<Vec<u8>>,
        tag: &str,
        parse: F,
    ) -> (r: Result<O, EngineError>)
        requires
            forall|body: Vec<u8>| #[trigger] call_requires(parse, (body,)),
        ensures
            exists|read: Result<Option<StepData<O>>, EngineError>| #[trigger]
                step::row_reads_as(store::opt_row(row), tag@, keys::OUTPUT_KEY@, parse, read)
                    && match read {
                    Err(e) => r == Err::<O, EngineError>(e),
                    Ok(entry) => match step::result_in(entry) {
                        Some(output) => r == Ok::<O, EngineError>(output),
                        None => r matches Err(e) && e@ == ErrorView::Storage(
                            workflow::OUTPUT_MISSING@,
                        ),
                    },
                },
    {
        workflow::read_output(row, tag, parse)
    }
}

/// Builder for invoking a workflow with input `I` and output `O`.
#[derive(Debug)]
pub struct InvocationBuilder<I, O> {
    workflow_name: String,
    input_payload: Result<Option<Vec<u8>>, EngineError>,
    types: PhantomData<(I, O)>,
}

/// What an [`InvocationBuilder`] says.
pub struct InvocationBuilderView {
    pub workflow_name: Seq<char>,
    /// The row of the input, none, or the error of encoding it.
    pub input: Result<Option<Seq<u8>>, ErrorView>,
}

/// What an encoded input says.
pub open spec fn input_view(input: Result<Option<Vec<u8>>, EngineError>) -> Result<
    Option<Seq<u8>>,
    ErrorView,
> {
    match input {
        Ok(row) => Ok(store::opt_row(row)),
        Err(e) => Err(e@),
    }
}

impl<I, O> View for InvocationBuilder<I, O> {
    type V = InvocationBuilderView;

    closed spec fn view(&self) -> InvocationBuilderView {
        InvocationBuilderView {
            workflow_name: self.workflow_name@,
            input: input_view(self.input_payload),
        }
    }
}

/// The entry in which the input of an instance is kept.
pub open spec fn input_entry(payload: Seq<u8>) -> StepView {
    step::own_entry(payload, None)
}

impl<I, O> InvocationBuilder<I, O> {
    /// A builder without input.
    #[must_use]
    pub fn new(workflow_name: &str) -> (b: Self)
        ensures
            b@ == (InvocationBuilderView { workflow_name: workflow_name@, input: Ok(None) }),
    {
        InvocationBuilder {
            workflow_name: workflow_name.to_owned(),
            input_payload: Ok(None),
            types: PhantomData,
        }
    }

    /// Attaches a typed input payload to the workflow invocation. The payload
    /// comes as what encoding it gave: its bytes, or the text of the error,
    /// which the invocation then fails with.
    #[must_use]
    pub fn input(self, payload: Result<Vec<u8>, String>, tag: &str) -> (b: InvocationBuilder<
        (),
        O,
    >)
        ensures
            b@.workflow_name == self@.workflow_name,
            match payload {
                Ok(bytes) => {
                    let row = step::step_bytes(input_entry(bytes@), tag@);
                    &&& b@.input == Ok::<Option<Seq<u8>>, ErrorView>(Some(row))
                    &&& step::holds(row, input_entry(bytes@), tag@)
                    &&& step::status_reads_back(input_entry(bytes@))
                },
                Err(source) => b@.input == Err::<Option<Seq<u8>>, ErrorView>(
                    ErrorView::Serialization { key: keys::INPUT_KEY@, source: source@ },
                ),
            },
    {
        let input_payload = match step::serialize_step(
            StepData::Completed { result: payload, status: None },
            tag,
            keys::INPUT_KEY,
        ) {
            Ok(row) => Ok(Some(row)),
            Err(e) => Err(e),
        };
        InvocationBuilder { workflow_name: self.workflow_name, input_payload, types: PhantomData }
    }

    /// The workflow's name and the row of its input.
    ///
    /// # Errors
    ///
    /// The error of encoding the input.
    pub fn into_request(self) -> (r: Result<(String, Option<Vec<u8>>), EngineError>)
        ensures
            match r {
                Ok((name, row)) => name@ == self@.workflow_name && self@.input == Ok::<
                    Option<Seq<u8>>,
                    ErrorView,
                >(store::opt_row(row)),
                Err(e) => self@.input == Err::<Option<Seq<u8>>, ErrorView>(e@),
            },
    {
        match self.input_payload {
            Ok(row) => Ok((self.workflow_name, row)),
            Err(e) => Err(e),
        }
    }
}

/// Waiting for an instance ends exactly when it has completed, failed or
/// suspended.
pub proof fn wait_ends_exactly_when_settled(s: StateView)
    ensures
        ends_wait(s) <==> !(s is Started || s is InProgress),
{
}

/// The input of an instance is kept as a completed entry with the encoded
/// payload and without status, which no claim wrote.
pub proof fn input_is_kept_as_given(payload: Seq<u8>)
    ensures
        input_entry(payload) == (StepView::Completed { payload, status: None, claimed: false }),
{
}

/// The state in which a wait ended tells how it ended, and an encoded input is
/// told as it is.
pub proof fn waits_and_inputs_are_faithful<O>(
    r: WaitResult<O>,
    row: Option<Vec<u8>>,
    e: EngineError,
)
    ensures
        wait_state(r) is Completed <==> r is Completed,
        wait_state(r) is Suspended <==> r is Suspended,
        wait_state(r) is Failed <==> r is Failed,
        input_view(Ok(row)) == Ok::<Option<Seq<u8>>, ErrorView>(store::opt_row(row)),
        input_view(Err(e)) == Err::<Option<Seq<u8>>, ErrorView>(e@),
{
}

} // verus!
