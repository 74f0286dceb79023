//! What a run reports of itself, and what of it is left at its end.

use crate::codec;
use crate::context::{StatusUpdate, UpdateView};
use crate::error::ErrorView;
use crate::execution;
use crate::metadata::StatusView;
use crate::state;
use crate::state::{StateView, WorkflowState};
use crate::textmap::TextMap;
use vstd::prelude::*;

verus! {

/// What a run has reported: the last status message, and the messages of the
/// points at which it suspended. A status channel shows only the newest state,
/// and may be shared with another run of the instance.
#[derive(Debug)]
pub struct RunLog {
    message: Option<String>,
    waits: TextMap<String>,
}

/// What a [`RunLog`] says.
#[verifier::ext_equal]
pub struct LogView {
    /// The last status message, if any.
    pub message: Option<Seq<char>>,
    /// The last message of each suspend point and timer, by step key.
    pub waits: Map<Seq<char>, Seq<char>>,
}

impl View for RunLog {
    type V = LogView;

    closed spec fn view(&self) -> LogView {
        LogView {
            message: codec::opt_text(self.message),
            waits: self.waits@.map_values(|s: String| s@),
        }
    }
}

/// The log of a run that has reported nothing.
pub open spec fn empty_log() -> LogView {
    LogView { message: None, waits: Map::empty() }
}

/// A log after its run has reported the given state.
pub open spec fn log_after(log: LogView, s: StateView) -> LogView {
    match s {
        StateView::InProgress(msg) => LogView { message: Some(msg), ..log },
        StateView::Suspended { key, status } => LogView {
            waits: log.waits.insert(key, status),
            ..log
        },
        _ => log,
    }
}

impl RunLog {
    /// The log of a run that has reported nothing.
    #[must_use]
    pub fn new() -> (log: Self)
        ensures
            log@ == empty_log(),
    {
        let log = RunLog { message: None, waits: TextMap::new() };
        assert(log@ =~= empty_log());
        log
    }

    /// Keeps what an update reports.
    pub fn record(&mut self, update: &StatusUpdate)
        ensures
            final(self)@ == log_after(old(self)@, update@.state),
    {
        match &update.state {
            WorkflowState::InProgress(msg) => {
                self.message = Some(msg.clone());
            },
            WorkflowState::Suspended { key, status } => {
                self.waits.insert(key, status.clone());
            },
            _ => {},
        }
        assert(self@ =~= log_after(old(self)@, update@.state));
    }

    /// The last status message, if any.
    #[must_use]
    pub fn message(&self) -> (msg: Option<String>)
        ensures
            codec::opt_text(msg) == self@.message,
    {
        state::clone_opt(&self.message)
    }

    /// The last message of the suspend point or timer with the given step key,
    /// if the run suspended there.
    #[must_use]
    pub fn waiting(&self, key: &str) -> (msg: Option<String>)
        ensures
            match msg {
                Some(msg) => self@.waits.contains_key(key@) && self@.waits[key@] == msg@,
                None => !self@.waits.contains_key(key@),
            },
    {
        match self.waits.get(key) {
            Some(msg) => Some(msg.clone()),
            None => None,
        }
    }
}

/// The state that a run shows after the given updates.
pub open spec fn shown(updates: Seq<UpdateView>) -> StateView {
    if updates.len() == 0 {
        StateView::Started
    } else {
        updates.last().state
    }
}

/// The log of a run after the given updates.
pub open spec fn logged(updates: Seq<UpdateView>) -> LogView
    decreases updates.len(),
{
    if updates.len() == 0 {
        empty_log()
    } else {
        log_after(logged(updates.drop_last()), updates.last().state)
    }
}

/// The last status message among the given updates, if any.
pub open spec fn last_message(updates: Seq<UpdateView>) -> Option<Seq<char>>
    decreases updates.len(),
{
    if updates.len() == 0 {
        None
    } else {
        match updates.last().state {
            StateView::InProgress(msg) => Some(msg),
            _ => last_message(updates.drop_last()),
        }
    }
}

/// The last message of the given suspend point or timer among the given
/// updates, if any.
pub open spec fn last_wait(updates: Seq<UpdateView>, key: Seq<char>) -> Option<Seq<char>>
    decreases updates.len(),
{
    if updates.len() == 0 {
        None
    } else {
        match updates.last().state {
            StateView::Suspended { key: at, status } if at == key => Some(status),
            _ => last_wait(updates.drop_last(), key),
        }
    }
}

/// A log keeps the last status message and the last message of each suspend
/// point.
proof fn log_keeps_last(updates: Seq<UpdateView>, key: Seq<char>)
    ensures
        logged(updates).message == last_message(updates),
        match last_wait(updates, key) {
            Some(msg) => logged(updates).waits.contains_key(key) && logged(updates).waits[key]
                == msg,
            None => !logged(updates).waits.contains_key(key),
        },
    decreases updates.len(),
{
    if updates.len() > 0 {
        log_keeps_last(updates.drop_last(), key);
    }
}

/// Whether the updates are such as a run makes: each reports progress or a
/// suspension.
pub open spec fn are_reports(updates: Seq<UpdateView>) -> bool {
    forall|i: int|
        0 <= i < updates.len() ==> (#[trigger] updates[i]).state is InProgress
            || updates[i].state is Suspended
}

/// A workflow that succeeds completes with the last status message that it set,
/// or none if it set none, also where it passed over a suspension since.
pub proof fn completion_keeps_last_message(updates: Seq<UpdateView>)
    requires
        are_reports(updates),
    ensures
        execution::final_status(Ok(()), shown(updates), logged(updates)) == StatusView::Completed(
            last_message(updates),
        ),
{
    log_keeps_last(updates, Seq::empty());
    if updates.len() > 0 {
        assert(updates.last() == updates[updates.len() - 1]);
    }
}

/// A workflow that suspends does so with the last message of the point at which
/// it suspends, or its key if it has none, whatever it reported since.
pub proof fn suspension_keeps_last_message(updates: Seq<UpdateView>, key: Seq<char>)
    requires
        are_reports(updates),
    ensures
        execution::final_status(
            Err(ErrorView::Suspended { key }),
            shown(updates),
            logged(updates),
        ) == (StatusView::Suspended {
            key,
            status: match last_wait(updates, key) {
                Some(msg) => msg,
                None => key,
            },
        }),
{
    log_keeps_last(updates, key);
}

/// A log takes up progress and suspensions, each without touching the other,
/// and nothing else.
pub proof fn log_takes_up_reports(
    log: LogView,
    s: StateView,
    msg: Seq<char>,
    key: Seq<char>,
    other: Seq<char>,
)
    requires
        other != key,
    ensures
        ({
            let told = log_after(log, StateView::InProgress(msg));
            let waits = log_after(log, StateView::Suspended { key, status: msg });
            &&& told.message == Some(msg) && told.waits == log.waits
            &&& waits.message == log.message
            &&& waits.waits.contains_key(key) && waits.waits[key] == msg
            &&& waits.waits.contains_key(other) <==> log.waits.contains_key(other)
            &&& log.waits.contains_key(other) ==> waits.waits[other] == log.waits[other]
            &&& s is Started || s is Completed || s is Failed ==> log_after(log, s) == log
            &&& empty_log().message is None && !empty_log().waits.contains_key(key)
        }),
{
}

} // verus!
