//! Streams of status updates.

use crate::state::{StateView, WorkflowState};
use vstd::prelude::*;

verus! {

/// A stream of [`WorkflowState`] updates for a workflow instance.
///
/// A live stream immediately yields the current state, then each subsequent
/// change, and ends when the instance's status channel closes. A snapshot
/// yields one state.
#[derive(Debug)]
pub struct StatusStream {
    inner: Inner,
}

#[derive(Debug)]
enum Inner {
    Live(LiveState),
    Snapshot(Option<WorkflowState>),
}

#[derive(Clone, Copy, Debug, PartialEq, Eq)]
enum LiveState {
    Initial,
    Idle,
    Waiting,
    Ended,
}

/// Where a [`StatusStream`] stands.
pub enum StreamView {
    /// A live stream that has not yielded the current state yet.
    Initial,
    /// A live stream that has yielded the newest state it knows.
    Idle,
    /// A live stream that waits for a change.
    Waiting,
    /// A live stream that has ended.
    Ended,
    /// A snapshot and the state that it is yet to yield.
    Snapshot(Option<StateView>),
}

/// What an optional state says.
pub open spec fn opt_state(s: Option<WorkflowState>) -> Option<StateView> {
    match s {
        Some(s) => Some(s@),
        None => None,
    }
}

impl View for StatusStream {
    type V = StreamView;

    closed spec fn view(&self) -> StreamView {
        match self.inner {
            Inner::Live(LiveState::Initial) => StreamView::Initial,
            Inner::Live(LiveState::Idle) => StreamView::Idle,
            Inner::Live(LiveState::Waiting) => StreamView::Waiting,
            Inner::Live(LiveState::Ended) => StreamView::Ended,
            Inner::Snapshot(s) => StreamView::Snapshot(opt_state(s)),
        }
    }
}

/// What a stream does next when it is polled.
#[derive(Debug)]
pub enum StreamStep {
    /// The stream yields the state that the channel holds.
    YieldCurrent,
    /// The stream starts to wait for a change of the channel.
    AwaitChange,
    /// The stream goes on waiting for the change.
    PollChange,
    /// The stream has nothing to yield yet.
    Pending,
    /// The stream yields the given state, or ends.
    Ready(Option<WorkflowState>),
}

/// What a [`StreamStep`] says.
pub enum StreamStepView {
    YieldCurrent,
    AwaitChange,
    PollChange,
    Pending,
    Ready(Option<StateView>),
}

impl View for StreamStep {
    type V = StreamStepView;

    open spec fn view(&self) -> StreamStepView {
        match *self {
            StreamStep::YieldCurrent => StreamStepView::YieldCurrent,
            StreamStep::AwaitChange => StreamStepView::AwaitChange,
            StreamStep::PollChange => StreamStepView::PollChange,
            StreamStep::Pending => StreamStepView::Pending,
            StreamStep::Ready(s) => StreamStepView::Ready(opt_state(s)),
        }
    }
}

/// What polling the channel for a change gave.
#[derive(Clone, Copy, Debug, PartialEq, Eq)]
pub enum ChangePoll {
    /// The channel holds a new state.
    Changed,
    /// The channel is closed and holds nothing new.
    Closed,
    /// Neither yet.
    Pending,
}

/// What a stream does when it is polled, and where it then stands.
pub open spec fn poll_decision(s: StreamView) -> (StreamView, StreamStepView) {
    match s {
        StreamView::Initial => (StreamView::Idle, StreamStepView::YieldCurrent),
        StreamView::Idle => (StreamView::Waiting, StreamStepView::AwaitChange),
        StreamView::Waiting => (StreamView::Waiting, StreamStepView::PollChange),
        StreamView::Ended => (StreamView::Ended, StreamStepView::Ready(None)),
        StreamView::Snapshot(state) => (StreamView::Snapshot(None), StreamStepView::Ready(state)),
    }
}

/// What a stream that waits for a change does, given what polling the channel
/// gave, and where it then stands.
pub open spec fn change_decision(poll: ChangePoll) -> (StreamView, StreamStepView) {
    match poll {
        ChangePoll::Changed => (StreamView::Idle, StreamStepView::YieldCurrent),
        ChangePoll::Closed => (StreamView::Ended, StreamStepView::Ready(None)),
        ChangePoll::Pending => (StreamView::Waiting, StreamStepView::Pending),
    }
}

impl StatusStream {
    /// A stream that follows the instance's status channel.
    #[must_use]
    pub fn live() -> (s: Self)
        ensures
            s@ == StreamView::Initial,
    {
        StatusStream { inner: Inner::Live(LiveState::Initial) }
    }

    /// A stream of one state.
    #[must_use]
    pub fn snapshot(state: WorkflowState) -> (s: Self)
        ensures
            s@ == StreamView::Snapshot(Some(state@)),
    {
        StatusStream { inner: Inner::Snapshot(Some(state)) }
    }

    /// Polls the stream, which has not ended.
    pub fn poll_next(&mut self) -> (step: StreamStep)
        requires
            old(self)@ != StreamView::Ended,
        ensures
            (final(self)@, step@) == poll_decision(old(self)@),
    {
        match &mut self.inner {
            Inner::Live(state) => match *state {
                LiveState::Initial => {
                    *state = LiveState::Idle;
                    StreamStep::YieldCurrent
                },
                LiveState::Idle => {
                    *state = LiveState::Waiting;
                    StreamStep::AwaitChange
                },
                LiveState::Waiting => StreamStep::PollChange,
                LiveState::Ended => StreamStep::Ready(None),
            },
            Inner::Snapshot(state) => StreamStep::Ready(state.take()),
        }
    }

    /// Goes on after the channel was polled for a change that the stream waits
    /// for.
    pub fn change_polled(&mut self, poll: ChangePoll) -> (step: StreamStep)
        requires
            old(self)@ == StreamView::Waiting,
        ensures
            (final(self)@, step@) == change_decision(poll),
    {
        match poll {
            ChangePoll::Changed => {
                self.inner = Inner::Live(LiveState::Idle);
                StreamStep::YieldCurrent
            },
            ChangePoll::Closed => {
                self.inner = Inner::Live(LiveState::Ended);
                StreamStep::Ready(None)
            },
            ChangePoll::Pending => StreamStep::Pending,
        }
    }
}

/// How many states a live stream yields from where it stands, while the
/// channel is polled with the given answers, and whether it then has ended.
pub open spec fn live_course(s: StreamView, polls: Seq<ChangePoll>) -> (nat, bool)
    decreases polls.len(), if s == StreamView::Initial { 1nat } else { 0nat },
{
    if s == StreamView::Initial {
        let (n, ended) = live_course(poll_decision(s).0, polls);
        (n + 1, ended)
    } else if polls.len() == 0 {
        (0, false)
    } else {
        match change_decision(polls[0]) {
            (next, StreamStepView::YieldCurrent) => {
                let (n, ended) = live_course(next, polls.skip(1));
                (n + 1, ended)
            },
            (next, StreamStepView::Pending) => live_course(next, polls.skip(1)),
            _ => (0, true),
        }
    }
}

/// How many changes a channel shows before it closes.
pub open spec fn changes(polls: Seq<ChangePoll>) -> nat
    decreases polls.len(),
{
    if polls.len() == 0 || polls[0] == ChangePoll::Closed {
        0
    } else {
        changes(polls.skip(1)) + if polls[0] == ChangePoll::Changed {
            1nat
        } else {
            0nat
        }
    }
}

proof fn course_from_idle(s: StreamView, polls: Seq<ChangePoll>)
    requires
        s == StreamView::Idle || s == StreamView::Waiting,
    ensures
        live_course(s, polls) == (changes(polls), polls.contains(ChangePoll::Closed)),
    decreases polls.len(),
{
    if polls.len() > 0 {
        if polls[0] == ChangePoll::Closed {
            assert(polls.contains(polls[0]));
        } else {
            let rest = polls.skip(1);
            course_from_idle(change_decision(polls[0]).0, rest);
            if rest.contains(ChangePoll::Closed) {
                let i = choose|i: int| 0 <= i < rest.len() && rest[i] == ChangePoll::Closed;
                assert(polls[i + 1] == ChangePoll::Closed);
            }
            if polls.contains(ChangePoll::Closed) {
                let i = choose|i: int| 0 <= i < polls.len() && polls[i] == ChangePoll::Closed;
                assert(rest[i - 1] == ChangePoll::Closed);
            }
        }
    }
}

/// A live stream yields the current state and then each change, and ends
/// exactly when the channel closes.
pub proof fn live_stream_yields_every_change(polls: Seq<ChangePoll>)
    ensures
        live_course(StreamView::Initial, polls) == (
            changes(polls) + 1,
            polls.contains(ChangePoll::Closed),
        ),
{
    course_from_idle(StreamView::Idle, polls);
}

/// A snapshot yields its state once and then ends.
pub proof fn snapshot_yields_once(state: StateView)
    ensures
        ({
            let (once, first) = poll_decision(StreamView::Snapshot(Some(state)));
            &&& first == StreamStepView::Ready(Some(state))
            &&& poll_decision(once) == (once, StreamStepView::Ready(None))
        }),
{
}

/// A live stream yields what the channel holds at once, then waits for a
/// change, however often it is polled, and yields what the channel holds after
/// each one; only a closed channel ends it.
pub proof fn live_stream_steps(poll: ChangePoll)
    ensures
        poll_decision(StreamView::Initial) == (StreamView::Idle, StreamStepView::YieldCurrent),
        poll_decision(StreamView::Idle) == (StreamView::Waiting, StreamStepView::AwaitChange),
        poll_decision(StreamView::Waiting) == (StreamView::Waiting, StreamStepView::PollChange),
        change_decision(poll).0 == StreamView::Ended <==> poll == ChangePoll::Closed,
        change_decision(poll).1 == StreamStepView::YieldCurrent <==> poll == ChangePoll::Changed,
        change_decision(poll).1 == StreamStepView::Pending <==> poll == ChangePoll::Pending,
        poll == ChangePoll::Closed ==> change_decision(poll).1 == StreamStepView::Ready(None),
        poll == ChangePoll::Pending ==> change_decision(poll).0 == StreamView::Waiting,
        poll == ChangePoll::Changed ==> change_decision(poll).0 == StreamView::Idle,
{
}

} // verus!
