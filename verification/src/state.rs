//! The observable state of a workflow instance.

use crate::codec;
use crate::text::{concat2, concat4};
use vstd::prelude::*;

verus! {

/// Observable state of a workflow instance.
#[derive(Debug, PartialEq, Eq)]
pub enum WorkflowState {
    /// The workflow has been submitted but has not yet started executing.
    Started,
    /// The workflow is executing and has reported a status message.
    InProgress(String),
    /// The workflow is suspended, awaiting an external signal.
    Suspended {
        /// The step key identifying this suspend point.
        key: String,
        /// Human-readable status message; the key itself if no custom status
        /// was provided.
        status: String,
    },
    /// The workflow completed successfully, with the last status message set
    /// before it returned, if any.
    Completed(Option<String>),
    /// The workflow failed with an error message.
    Failed(String),
}

/// What a [`WorkflowState`] says.
pub enum StateView {
    Started,
    InProgress(Seq<char>),
    Suspended { key: Seq<char>, status: Seq<char> },
    Completed(Option<Seq<char>>),
    Failed(Seq<char>),
}

impl View for WorkflowState {
    type V = StateView;

    open spec fn view(&self) -> StateView {
        match *self {
            WorkflowState::Started => StateView::Started,
            WorkflowState::InProgress(msg) => StateView::InProgress(msg@),
            WorkflowState::Suspended { key, status } => StateView::Suspended {
                key: key@,
                status: status@,
            },
            WorkflowState::Completed(msg) => StateView::Completed(codec::opt_text(msg)),
            WorkflowState::Failed(msg) => StateView::Failed(msg@),
        }
    }
}

/// Whether a state is terminal: `Completed` or `Failed`.
pub open spec fn is_terminal(s: StateView) -> bool {
    s is Completed || s is Failed
}

/// The message that a state carries.
pub open spec fn message(s: StateView) -> Option<Seq<char>> {
    match s {
        StateView::Started => None,
        StateView::InProgress(msg) => Some(msg),
        StateView::Suspended { status, .. } => Some(status),
        StateView::Completed(msg) => msg,
        StateView::Failed(msg) => Some(msg),
    }
}

/// The text of a state.
pub open spec fn state_text(s: StateView) -> Seq<char> {
    match s {
        StateView::Started => "started"@,
        StateView::InProgress(msg) => "in progress: "@ + msg,
        StateView::Suspended { key, status } => "suspended ("@ + key + "): "@ + status,
        StateView::Completed(None) => "completed"@,
        StateView::Completed(Some(msg)) => "completed: "@ + msg,
        StateView::Failed(msg) => "failed: "@ + msg,
    }
}

/// A copy of an optional string.
pub(crate) fn clone_opt(v: &Option<String>) -> (r: Option<String>)
    ensures
        r == *v,
{
    match v {
        Some(s) => Some(s.clone()),
        None => None,
    }
}

impl Clone for WorkflowState {
    fn clone(&self) -> (r: Self)
        ensures
            r == *self,
    {
        match self {
            WorkflowState::Started => WorkflowState::Started,
            WorkflowState::InProgress(msg) => WorkflowState::InProgress(msg.clone()),
            WorkflowState::Suspended { key, status } => WorkflowState::Suspended {
                key: key.clone(),
                status: status.clone(),
            },
            WorkflowState::Completed(msg) => WorkflowState::Completed(clone_opt(msg)),
            WorkflowState::Failed(msg) => WorkflowState::Failed(msg.clone()),
        }
    }
}

impl WorkflowState {
    /// Returns `true` if this is a terminal state (`Completed` or `Failed`).
    #[must_use]
    pub fn is_terminal(&self) -> (r: bool)
        ensures
            r == is_terminal(self@),
    {
        matches!(self, WorkflowState::Completed(_) | WorkflowState::Failed(_))
    }

    /// Returns the message carried by this state, if any.
    ///
    /// [`Started`](Self::Started) carries no message.
    #[must_use]
    pub fn message(&self) -> (r: Option<&str>)
        ensures
            match r {
                Some(m) => message(self@) == Some(m@),
                None => message(self@) is None,
            },
    {
        match self {
            WorkflowState::Started => None,
            WorkflowState::InProgress(msg) => Some(msg.as_str()),
            WorkflowState::Suspended { status, .. } => Some(status.as_str()),
            WorkflowState::Completed(msg) => match msg {
                Some(m) => Some(m.as_str()),
                None => None,
            },
            WorkflowState::Failed(msg) => Some(msg.as_str()),
        }
    }

    /// The state in words.
    #[must_use]
    pub fn to_string(&self) -> (s: String)
        ensures
            s@ == state_text(self@),
    {
        match self {
            WorkflowState::Started => "started".to_owned(),
            WorkflowState::InProgress(msg) => concat2("in progress: ", msg),
            WorkflowState::Suspended { key, status } => concat4("suspended (", key, "): ", status),
            WorkflowState::Completed(msg) => match msg {
                None => "completed".to_owned(),
                Some(m) => concat2("completed: ", m),
            },
            WorkflowState::Failed(msg) => concat2("failed: ", msg),
        }
    }
}

/// A state is terminal exactly if the workflow completed or failed.
pub proof fn terminal_states(s: StateView)
    ensures
        is_terminal(s) <==> !(s is Started || s is InProgress || s is Suspended),
{
}

/// A state carries the message that it was made with: a suspended one its
/// status, not its key, and one that only started none.
pub proof fn states_carry_their_messages(key: Seq<char>, msg: Seq<char>, last: Option<Seq<char>>)
    ensures
        message(StateView::InProgress(msg)) == Some(msg),
        message(StateView::Failed(msg)) == Some(msg),
        message(StateView::Suspended { key, status: msg }) == Some(msg),
        message(StateView::Completed(last)) == last,
        message(StateView::Started) is None,
{
}

/// The words for a state tell which it is, with its message at their end and
/// the key of a suspended one.
pub proof fn states_are_told_in_words(key: Seq<char>, msg: Seq<char>)
    ensures
        state_text(StateView::Started) == "started"@,
        state_text(StateView::InProgress(msg)) == "in progress: "@ + msg,
        state_text(StateView::Suspended { key, status: msg }) == "suspended ("@ + key + "): "@ + msg,
        state_text(StateView::Completed(None)) == "completed"@,
        state_text(StateView::Completed(Some(msg))) == "completed: "@ + msg,
        state_text(StateView::Failed(msg)) == "failed: "@ + msg,
{
}

} // verus!
