//! The execution context of a workflow instance: what each durable operation
//! does, given the row that is kept for it.

use crate::codec;
use crate::duration;
use crate::duration::Duration;
use crate::error::{EngineError, ErrorView};
use crate::keys;
use crate::retry::{PolicyView, RetryPolicy};
use crate::run::StepBuilder;
use crate::state::{StateView, WorkflowState};
use crate::step;
use crate::step::{FrameView, StepData, StepView};
use crate::store;
use crate::store::{Write, WriteView};
use crate::text;
use crate::timer;
use crate::timer::{TimerEntry, TimerView};
use core::marker::PhantomData;
use vstd::prelude::*;

verus! {

/// A typed suspend point: the key of a step at which a workflow waits for a
/// payload of type `T`.
#[derive(Debug)]
pub struct SuspendPoint<T> {
    key: &'static str,
    payload: PhantomData<T>,
}

impl<T> SuspendPoint<T> {
    /// The key of the point.
    pub closed spec fn spec_key(&self) -> Seq<char> {
        self.key@
    }

    /// Defines a suspend point under the given key.
    pub fn new(key: &'static str) -> (p: Self)
        requires
            keys::is_step_key(key@),
        ensures
            p.spec_key() == key@,
    {
        SuspendPoint { key, payload: PhantomData }
    }

    /// The key of the point.
    #[must_use]
    pub fn key(&self) -> (key: &'static str)
        ensures
            key@ == self.spec_key(),
    {
        self.key
    }
}

/// A typed workflow definition: the name under which a workflow with input `I`
/// and output `O` is registered.
#[derive(Debug)]
pub struct WorkflowDef<I, O> {
    name: &'static str,
    types: PhantomData<(I, O)>,
}

impl<I, O> WorkflowDef<I, O> {
    /// The name of the workflow.
    pub closed spec fn spec_name(&self) -> Seq<char> {
        self.name@
    }

    /// Defines a workflow under the given name.
    pub fn new(name: &'static str) -> (d: Self)
        requires
            keys::is_component(name@),
        ensures
            d.spec_name() == name@,
    {
        WorkflowDef { name, types: PhantomData }
    }

    /// The name of the workflow.
    #[must_use]
    pub fn name(&self) -> (name: &'static str)
        ensures
            name@ == self.spec_name(),
    {
        self.name
    }
}

/// A change of an instance's observable state.
#[derive(Debug, PartialEq, Eq)]
pub struct StatusUpdate {
    /// The new state.
    pub state: WorkflowState,
    /// Whether subscribers are told.
    pub notify: bool,
}

/// What a [`StatusUpdate`] says.
pub struct UpdateView {
    pub state: StateView,
    pub notify: bool,
}

impl View for StatusUpdate {
    type V = UpdateView;

    open spec fn view(&self) -> UpdateView {
        UpdateView { state: self.state@, notify: self.notify }
    }
}

/// What an optional update says.
pub open spec fn opt_update(u: Option<StatusUpdate>) -> Option<UpdateView> {
    match u {
        Some(u) => Some(u@),
        None => None,
    }
}

/// The silent update that restores the status kept with a completed entry.
pub open spec fn restored(status: Option<Seq<char>>) -> Option<UpdateView> {
    match status {
        Some(msg) => Some(UpdateView { state: StateView::InProgress(msg), notify: false }),
        None => None,
    }
}

/// Makes the silent update that restores a status.
pub(crate) fn restore(status: Option<String>) -> (u: Option<StatusUpdate>)
    ensures
        opt_update(u) == restored(codec::opt_text(status)),
{
    match status {
        Some(msg) => Some(StatusUpdate { state: WorkflowState::InProgress(msg), notify: false }),
        None => None,
    }
}

/// The status message kept with a step that completes in the given state: that
/// of an instance in progress.
pub open spec fn status_message(s: StateView) -> Option<Seq<char>> {
    match s {
        StateView::InProgress(msg) => Some(msg),
        _ => None,
    }
}

/// The status message kept with a step that completes in the given state.
#[must_use]
pub fn current_status_string(state: &WorkflowState) -> (msg: Option<String>)
    ensures
        codec::opt_text(msg) == status_message(state@),
{
    match state {
        WorkflowState::InProgress(msg) => Some(msg.clone()),
        _ => None,
    }
}

/// Workflow execution context.
///
/// Knows which instance is executing, and whether it is still replaying steps
/// that completed in an earlier run.
#[derive(Debug)]
pub struct Context {
    workflow_name: String,
    instance_id: String,
    replaying: bool,
    default_retry: Option<RetryPolicy>,
}

/// What a [`Context`] knows.
pub struct ContextView {
    pub workflow_name: Seq<char>,
    pub instance_id: Seq<char>,
    pub replaying: bool,
    pub default_retry: Option<PolicyView>,
}

impl View for Context {
    type V = ContextView;

    closed spec fn view(&self) -> ContextView {
        ContextView {
            workflow_name: self.workflow_name@,
            instance_id: self.instance_id@,
            replaying: self.replaying,
            default_retry: match self.default_retry {
                Some(p) => Some(p@),
                None => None,
            },
        }
    }
}

/// A context that is no longer replaying.
pub open spec fn live(ctx: ContextView) -> ContextView {
    ContextView { replaying: false, ..ctx }
}

/// What comes of a suspend point.
#[derive(Debug)]
pub enum SuspendOutcome<T> {
    /// The signal was received: execution continues with its payload.
    Resumed {
        /// The payload.
        result: T,
        /// The status to restore, if one was kept.
        restore: Option<StatusUpdate>,
    },
    /// The workflow suspends: the entry is written, the state updated, and the
    /// error ends the run.
    Entered {
        /// The suspended entry.
        write: Write,
        /// The suspended state.
        update: StatusUpdate,
        /// What the suspend point returns.
        error: EngineError,
    },
    /// The workflow still waits for its signal: the entry stays, the state is
    /// updated as when it was written, and the error ends the run.
    Waiting {
        /// The suspended state.
        update: StatusUpdate,
        /// What the suspend point returns.
        error: EngineError,
    },
}

/// What comes of a suspend point, errors included.
pub enum SuspendView<T> {
    Resumed { result: T, restore: Option<UpdateView> },
    Entered { write: WriteView, update: UpdateView, error: ErrorView },
    Waiting { update: UpdateView, error: ErrorView },
    Failed(ErrorView),
}

/// What a suspend point's result says.
pub open spec fn suspend_view<T>(r: Result<SuspendOutcome<T>, EngineError>) -> SuspendView<T> {
    match r {
        Ok(SuspendOutcome::Resumed { result, restore }) => SuspendView::Resumed {
            result,
            restore: opt_update(restore),
        },
        Ok(SuspendOutcome::Entered { write, update, error }) => SuspendView::Entered {
            write: write@,
            update: update@,
            error: error@,
        },
        Ok(SuspendOutcome::Waiting { update, error }) => SuspendView::Waiting {
            update: update@,
            error: error@,
        },
        Err(e) => SuspendView::Failed(e@),
    }
}

/// The status message of a suspend point: the one that was set, or the step
/// key.
pub open spec fn suspend_message(key: Seq<char>, status: Option<Seq<char>>) -> Seq<char> {
    match status {
        Some(msg) => msg,
        None => key,
    }
}

/// The silent update to the suspended state of a suspend point.
pub open spec fn suspended_update(key: Seq<char>, status: Option<Seq<char>>) -> UpdateView {
    UpdateView {
        state: StateView::Suspended { key, status: suspend_message(key, status) },
        notify: false,
    }
}

/// What a suspend point does, given the entry that is kept for it: return the
/// payload of a completed one, end the run on one that still waits, and write
/// one where there is none, or one that failed. The suspended state is reported
/// by the run that enters it and by every run that finds it again.
pub open spec fn suspend_decision<T>(
    ctx: ContextView,
    key: Seq<char>,
    status: Option<Seq<char>>,
    tag: Seq<char>,
    entry: Option<StepData<T>>,
) -> (ContextView, SuspendView<T>) {
    match entry {
        Some(StepData::Completed { result, status }) => (
            live(ctx),
            SuspendView::Resumed { result, restore: restored(codec::opt_text(status)) },
        ),
        Some(StepData::Suspended) => (
            ctx,
            SuspendView::Waiting {
                update: suspended_update(key, status),
                error: ErrorView::Suspended { key },
            },
        ),
        _ => (
            ctx,
            SuspendView::Entered {
                write: WriteView::PutStep {
                    key: keys::step_key(ctx.workflow_name, ctx.instance_id, key),
                    value: step::step_bytes(StepView::Suspended, tag),
                },
                update: suspended_update(key, status),
                error: ErrorView::Suspended { key },
            },
        ),
    }
}

/// A suspend point with an optional status message.
#[derive(Debug)]
pub struct SuspendBuilder {
    key: String,
    status_msg: Option<String>,
}

/// What a [`SuspendBuilder`] says.
pub struct SuspendBuilderView {
    pub key: Seq<char>,
    pub status: Option<Seq<char>>,
}

impl View for SuspendBuilder {
    type V = SuspendBuilderView;

    closed spec fn view(&self) -> SuspendBuilderView {
        SuspendBuilderView { key: self.key@, status: codec::opt_text(self.status_msg) }
    }
}

impl SuspendBuilder {
    /// Sets a custom status message for the suspended state. Without one, the
    /// status is the step key.
    #[must_use]
    pub fn status(self, msg: &str) -> (b: Self)
        ensures
            b@ == (SuspendBuilderView { key: self@.key, status: Some(msg@) }),
    {
        SuspendBuilder { key: self.key, status_msg: Some(msg.to_owned()) }
    }

    /// The step key.
    #[must_use]
    pub fn key(&self) -> (key: &str)
        ensures
            key@ == self@.key,
    {
        self.key.as_str()
    }

    /// The silent update to the suspended state.
    fn update(&self) -> (u: StatusUpdate)
        ensures
            u@ == suspended_update(self@.key, self@.status),
    {
        let status = match &self.status_msg {
            Some(msg) => msg.clone(),
            None => self.key.clone(),
        };
        StatusUpdate {
            state: WorkflowState::Suspended { key: self.key.clone(), status },
            notify: false,
        }
    }
}

/// What is known of a timer before it is set.
#[derive(Clone, Copy, Debug, PartialEq, Eq, Structural)]
pub enum TimerStatus {
    /// The timer has fired: execution continues.
    Fired,
    /// The timer is to be set.
    Unset,
}

/// A timer that is set: both rows are written in one transaction, the state
/// updated, and the error ends the run.
#[derive(Debug)]
pub struct ArmedTimer {
    /// The suspended entry and the timer row.
    pub writes: Vec<Write>,
    /// The suspended state.
    pub update: StatusUpdate,
    /// What the timer returns.
    pub error: EngineError,
}

/// The entry in the row of a timer: its result is `()`, which takes no bytes.
pub open spec fn read_timer_entry(bytes: Seq<u8>, key: Seq<char>) -> Result<
    FrameView,
    ErrorView,
> {
    match step::open_row(bytes, step::UNIT_TYPE@, key) {
        Ok(FrameView::Completed(body)) => match codec::opt_text_read(body) {
            Ok(_) => Ok(FrameView::Completed(body)),
            Err(source) => Err(ErrorView::Serialization { key, source }),
        },
        other => other,
    }
}

/// What is known of a timer, given its key and the row that is kept for it.
pub open spec fn timer_decision(key: Seq<char>, row: Option<Seq<u8>>) -> Result<
    TimerStatus,
    ErrorView,
> {
    if !keys::is_step_key(key) {
        Err(ErrorView::InvalidKey { label: "step_key"@, value: key })
    } else {
        match row {
            None => Ok(TimerStatus::Unset),
            Some(bytes) => match read_timer_entry(bytes, key) {
                Err(e) => Err(e),
                Ok(FrameView::Completed(_)) => Ok(TimerStatus::Fired),
                Ok(FrameView::Suspended) => Err(ErrorView::Suspended { key }),
                Ok(FrameView::Failed(_)) => Ok(TimerStatus::Unset),
            },
        }
    }
}

/// The deadline of a timer that is set at `now_ms`, in milliseconds.
pub open spec fn deadline(now_ms: nat, duration: nat) -> nat {
    now_ms + duration / duration::NANOS_PER_MILLI as nat
}

impl Context {
    /// Creates the context of an instance that starts to execute. It replays
    /// until a step is found that did not complete before.
    #[must_use]
    pub fn new(
        workflow_name: String,
        instance_id: String,
        default_retry: Option<RetryPolicy>,
    ) -> (ctx: Self)
        ensures
            ctx@ == (ContextView {
                workflow_name: workflow_name@,
                instance_id: instance_id@,
                replaying: true,
                default_retry: match default_retry {
                    Some(p) => Some(p@),
                    None => None,
                },
            }),
    {
        Context { workflow_name, instance_id, replaying: true, default_retry }
    }

    /// Returns the registered workflow definition name.
    #[must_use]
    pub fn workflow_name(&self) -> (name: &str)
        ensures
            name@ == self@.workflow_name,
    {
        self.workflow_name.as_str()
    }

    /// Returns the unique instance ID for this workflow invocation.
    #[must_use]
    pub fn instance_id(&self) -> (id: &str)
        ensures
            id@ == self@.instance_id,
    {
        self.instance_id.as_str()
    }

    /// The engine-wide retry policy, if there is one.
    pub(crate) fn default_retry(&self) -> (p: Option<RetryPolicy>)
        ensures
            match p {
                Some(p) => self@.default_retry == Some(p@),
                None => self@.default_retry is None,
            },
    {
        match &self.default_retry {
            Some(p) => Some(p.clone()),
            None => None,
        }
    }

    /// Ends the replay.
    pub(crate) fn end_replay(&mut self)
        ensures
            final(self)@ == live(old(self)@),
    {
        self.replaying = false;
    }

    /// The key of the row that is kept for a step of this instance.
    #[must_use]
    pub fn row_key(&self, step: &str) -> (key: String)
        ensures
            key@ == keys::step_key(self@.workflow_name, self@.instance_id, step@),
    {
        keys::composite_key(&self.workflow_name, &self.instance_id, step)
    }

    /// Reads the typed input payload provided at invocation time, from the row
    /// under [`keys::INPUT_KEY`].
    ///
    /// # Errors
    ///
    /// [`EngineError::TypeMismatch`] if the stored type is not the one tagged
    /// `tag`, [`EngineError::Serialization`] on deserialization failure.
    pub fn input<T, F: FnOnce(Vec<u8>) -> Result<(T, Option<String>), String>>(
        &self,
        row: Option<Vec<u8>>,
        tag: &str,
        parse: F,
    ) -> (r: Result<Option<T>, EngineError>)
        requires
            forall|body: Vec<u8>| #[trigger] call_requires(parse, (body,)),
        ensures
            exists|read: Result<Option<StepData<T>>, EngineError>| #[trigger]
                step::row_reads_as(store::opt_row(row), tag@, keys::INPUT_KEY@, parse, read)
                    && match read {
                    Err(e) => r == Err::<Option<T>, EngineError>(e),
                    Ok(entry) => r == Ok::<Option<T>, EngineError>(step::result_in(entry)),
                },
    {
        step::kept_result(row, tag, keys::INPUT_KEY, parse)
    }

    /// Updates the workflow's observable status. During a replay subscribers
    /// are not told.
    #[must_use]
    pub fn set_status(&self, msg: &str) -> (u: StatusUpdate)
        ensures
            u@ == (UpdateView {
                state: StateView::InProgress(msg@),
                notify: !self@.replaying,
            }),
    {
        StatusUpdate { state: WorkflowState::InProgress(msg.to_owned()), notify: !self.replaying }
    }

    /// Creates a durable step builder.
    #[must_use]
    pub fn step(&self, key: &str) -> (b: StepBuilder)
        requires
            keys::is_step_key(key@),
        ensures
            b@ == (crate::run::BuilderView {
                key: key@,
                timeout: None,
                retry: crate::run::RetryChoice::Default,
            }),
    {
        StepBuilder::new(key)
    }

    /// Creates the builder of a suspend point.
    #[must_use]
    pub fn suspend<T>(&self, point: &SuspendPoint<T>) -> (b: SuspendBuilder)
        ensures
            b@ == (SuspendBuilderView { key: point.spec_key(), status: None }),
    {
        SuspendBuilder { key: point.key().to_owned(), status_msg: None }
    }

    /// What a suspend point does, given the entry that is kept for it.
    #[must_use]
    pub fn resolve_suspend<T>(
        &mut self,
        point: &SuspendBuilder,
        tag: &str,
        entry: Option<StepData<T>>,
    ) -> (r: SuspendOutcome<T>)
        ensures
            ({
                let (ctx, outcome) = suspend_decision(
                    old(self)@,
                    point@.key,
                    point@.status,
                    tag@,
                    entry,
                );
                &&& final(self)@ == ctx
                &&& suspend_view(Ok(r)) == outcome
                &&& outcome is Entered ==> step::holds(
                    step::step_bytes(StepView::Suspended, tag@),
                    StepView::Suspended,
                    tag@,
                )
            }),
    {
        match entry {
            Some(StepData::Completed { result, status }) => {
                self.replaying = false;
                SuspendOutcome::Resumed { result, restore: restore(status) }
            },
            Some(StepData::Suspended) => SuspendOutcome::Waiting {
                update: point.update(),
                error: EngineError::Suspended { key: point.key.clone() },
            },
            _ => {
                let value = step::encode_step(StepData::Suspended, tag);
                SuspendOutcome::Entered {
                    write: Write::PutStep { key: self.row_key(&point.key), value },
                    update: point.update(),
                    error: EngineError::Suspended { key: point.key.clone() },
                }
            },
        }
    }

    /// Suspends the workflow, awaiting an external signal, or resumes it with
    /// the payload of the signal, given the row that is kept for the suspend
    /// point.
    ///
    /// # Errors
    ///
    /// The errors of [`step::deserialize_step`] on the row.
    pub fn execute_suspend<T, F: FnOnce(Vec<u8>) -> Result<(T, Option<String>), String>>(
        &mut self,
        point: &SuspendBuilder,
        row: Option<Vec<u8>>,
        tag: &str,
        parse: F,
    ) -> (r: Result<SuspendOutcome<T>, EngineError>)
        requires
            forall|body: Vec<u8>| #[trigger] call_requires(parse, (body,)),
        ensures
            exists|read: Result<Option<StepData<T>>, EngineError>| #[trigger]
                step::row_reads_as(store::opt_row(row), tag@, point@.key, parse, read)
                    && match read {
                    Err(e) => r == Err::<SuspendOutcome<T>, EngineError>(e) && final(self)@
                        == old(self)@,
                    Ok(entry) => {
                        let (ctx, outcome) = suspend_decision(
                            old(self)@,
                            point@.key,
                            point@.status,
                            tag@,
                            entry,
                        );
                        &&& final(self)@ == ctx
                        &&& suspend_view(r) == outcome
                        &&& outcome is Entered ==> step::holds(
                            step::step_bytes(StepView::Suspended, tag@),
                            StepView::Suspended,
                            tag@,
                        )
                    },
                },
    {
        let read = step::read_row(row, tag, &point.key, parse);
        assert(step::row_reads_as(store::opt_row(row), tag@, point@.key, parse, read));
        match read {
            Err(e) => Err(e),
            Ok(entry) => Ok(self.resolve_suspend(point, tag, entry)),
        }
    }

    /// What is known of a timer, given the row that is kept for it: it has
    /// fired, or it is to be set.
    ///
    /// # Errors
    ///
    /// [`EngineError::InvalidKey`] if `key` contains `/` or starts with `_`,
    /// [`EngineError::Suspended`] while the timer is pending, and
    /// [`EngineError::TypeMismatch`] or [`EngineError::Serialization`] where
    /// the row is not that of a timer.
    pub fn timer(&self, key: &str, row: Option<Vec<u8>>) -> (r: Result<TimerStatus, EngineError>)
        ensures
            match timer_decision(key@, store::opt_row(row)) {
                Ok(status) => r == Ok::<TimerStatus, EngineError>(status),
                Err(error) => r matches Err(e) && e@ == error,
            },
    {
        if !keys::is_valid_step_key(key) {
            return Err(EngineError::InvalidKey { label: "step_key", value: key.to_owned() });
        }
        match row {
            None => Ok(TimerStatus::Unset),
            Some(bytes) => match step::open_step(bytes.as_slice(), step::UNIT_TYPE, key) {
                Err(e) => Err(e),
                Ok(step::StepFrame::Completed(body)) => match codec::take_opt_text(
                    body.as_slice(),
                ) {
                    Ok(_) => Ok(TimerStatus::Fired),
                    Err(source) => Err(EngineError::Serialization { key: key.to_owned(), source }),
                },
                Ok(step::StepFrame::Suspended) => Err(
                    EngineError::Suspended { key: key.to_owned() },
                ),
                Ok(step::StepFrame::Failed(_)) => Ok(TimerStatus::Unset),
            },
        }
    }

    /// Sets a timer that fires `duration` after `now_ms`, in milliseconds
    /// since the Unix epoch. `serial` tells timers with one deadline apart.
    #[must_use]
    pub fn arm_timer(&self, key: &str, duration: Duration, now_ms: u64, serial: u64) -> (t:
        ArmedTimer)
        requires
            deadline(now_ms as nat, duration@) <= u64::MAX,
        ensures
            ({
                let at = deadline(now_ms as nat, duration@);
                let entry = TimerView {
                    workflow_name: self@.workflow_name,
                    instance_id: self@.instance_id,
                    step_key: key@,
                };
                &&& store::batch_view(t.writes@) == seq![
                    WriteView::PutStep {
                        key: keys::step_key(self@.workflow_name, self@.instance_id, key@),
                        value: step::step_bytes(StepView::Suspended, step::UNIT_TYPE@),
                    },
                    WriteView::PutTimer {
                        deadline: at as u64,
                        serial,
                        value: timer::timer_bytes(entry),
                    },
                ]
                &&& step::holds(
                    step::step_bytes(StepView::Suspended, step::UNIT_TYPE@),
                    StepView::Suspended,
                    step::UNIT_TYPE@,
                )
                &&& timer::read_timer(timer::timer_bytes(entry)) == Ok::<TimerView, Seq<char>>(
                    entry,
                )
                &&& t.update@ == (UpdateView {
                    state: StateView::Suspended {
                        key: key@,
                        status: "timer "@ + key@ + " (deadline "@ + text::digits(at, 10) + ")"@,
                    },
                    notify: false,
                })
                &&& t.error@ == (ErrorView::Suspended { key: key@ })
            }),
    {
        let millis: u128 = duration.as_millis();
        let at: u64 = now_ms + millis as u64;
        let step_bytes = step::encode_step(StepData::Suspended, step::UNIT_TYPE);
        let entry = TimerEntry {
            workflow_name: self.workflow_name.clone(),
            instance_id: self.instance_id.clone(),
            step_key: key.to_owned(),
        };
        let timer_bytes = entry.encode();
        let mut writes: Vec<Write> = Vec::new();
        writes.push(Write::PutStep { key: self.row_key(key), value: step_bytes });
        writes.push(Write::PutTimer { deadline: at, serial, value: timer_bytes });
        let digits = text::decimal(at);
        let head = text::concat4("timer ", key, " (deadline ", &digits);
        let status = text::concat2(&head, ")");
        ArmedTimer {
            writes,
            update: StatusUpdate {
                state: WorkflowState::Suspended { key: key.to_owned(), status },
                notify: false,
            },
            error: EngineError::Suspended { key: key.to_owned() },
        }
    }
}

/// A suspend point that is not known, or failed, is entered: its entry is
/// written in the row of this instance and key, the instance reports that it is
/// suspended there, with the message that was set or the key, subscribers are
/// not told, and the run ends. The replay goes on.
pub proof fn unknown_point_is_entered<T>(
    ctx: ContextView,
    key: Seq<char>,
    status: Option<Seq<char>>,
    tag: Seq<char>,
    entry: Option<StepData<T>>,
)
    ensures
        suspend_decision(ctx, key, status, tag, entry).1 is Entered <==> (entry is None
            || entry->0 is Failed),
        entry is None || entry->0 is Failed ==> suspend_decision(ctx, key, status, tag, entry) == (
            ctx,
            SuspendView::<T>::Entered {
                write: WriteView::PutStep {
                    key: ctx.workflow_name + seq!['/'] + ctx.instance_id + seq!['/'] + key,
                    value: step::step_bytes(StepView::Suspended, tag),
                },
                update: UpdateView {
                    state: StateView::Suspended {
                        key,
                        status: if status is Some {
                            status->0
                        } else {
                            key
                        },
                    },
                    notify: false,
                },
                error: ErrorView::Suspended { key },
            },
        ),
{
}

/// A suspend point that waits ends the run, reports the same suspended state
/// again, and writes nothing; one that was signalled returns the payload, ends
/// the replay, and restores a status that was kept, silently.
pub proof fn known_point_waits_or_resumes<T>(
    ctx: ContextView,
    key: Seq<char>,
    status: Option<Seq<char>>,
    tag: Seq<char>,
    result: T,
    kept: Option<String>,
)
    ensures
        suspend_decision::<T>(ctx, key, status, tag, Some(StepData::Suspended)) == (
            ctx,
            SuspendView::<T>::Waiting {
                update: UpdateView {
                    state: StateView::Suspended {
                        key,
                        status: if status is Some {
                            status->0
                        } else {
                            key
                        },
                    },
                    notify: false,
                },
                error: ErrorView::Suspended { key },
            },
        ),
        ({
            let (after, outcome) = suspend_decision(
                ctx,
                key,
                status,
                tag,
                Some(StepData::Completed { result, status: kept }),
            );
            &&& !after.replaying
            &&& after.workflow_name == ctx.workflow_name && after.instance_id == ctx.instance_id
                && after.default_retry == ctx.default_retry
            &&& outcome matches SuspendView::Resumed { result: r, restore } && r == result
                && match kept {
                Some(msg) => restore == Some(
                    UpdateView { state: StateView::InProgress(msg@), notify: false },
                ),
                None => restore is None,
            }
        }),
{
}

/// A timer is refused exactly for a key that contains the delimiter or starts
/// with `_`, before its row is looked at.
pub proof fn timer_refuses_exactly_invalid_keys(key: Seq<char>, row: Option<Seq<u8>>)
    ensures
        timer_decision(key, row) == Err::<TimerStatus, ErrorView>(
            ErrorView::InvalidKey { label: "step_key"@, value: key },
        ) <==> (key.contains('/') || (key.len() > 0 && key[0] == '_')),
{
}

/// A timer under a valid key is set where it is not known, or failed.
pub proof fn unknown_timer_is_set(key: Seq<char>, row: Seq<u8>, error: Seq<char>, tag: Seq<char>)
    requires
        !key.contains('/'),
        key.len() > 0 ==> key[0] != '_',
        step::holds(row, StepView::Failed { error }, tag),
    ensures
        timer_decision(key, None) == Ok::<TimerStatus, ErrorView>(TimerStatus::Unset),
        timer_decision(key, Some(row)) == Ok::<TimerStatus, ErrorView>(TimerStatus::Unset),
{
    if tag == step::UNIT_TYPE@ {
        step::row_reads_back(row, StepView::Failed { error }, tag, key);
    } else {
        step::other_type_is_mismatch(row, StepView::Failed { error }, tag, step::UNIT_TYPE@, key);
    }
}

/// A timer refuses the row of a completed step with another type of result, and
/// one that cannot be read.
pub proof fn timer_refuses_foreign_rows(
    key: Seq<char>,
    row: Seq<u8>,
    payload: Seq<u8>,
    status: Option<Seq<char>>,
    claimed: bool,
    tag: Seq<char>,
    broken: Seq<u8>,
)
    requires
        !key.contains('/'),
        key.len() > 0 ==> key[0] != '_',
        step::holds(row, StepView::Completed { payload, status, claimed }, tag),
        tag != "()"@,
    ensures
        timer_decision(key, Some(row)) == Err::<TimerStatus, ErrorView>(
            ErrorView::TypeMismatch { key, expected: "()"@, found: tag },
        ),
        step::read_envelope(broken) matches Err(source) ==> timer_decision(key, Some(broken))
            == Err::<TimerStatus, ErrorView>(ErrorView::Serialization { key, source }),
{
    step::other_type_is_mismatch(
        row,
        StepView::Completed { payload, status, claimed },
        tag,
        step::UNIT_TYPE@,
        key,
    );
}

/// A timer's deadline is not before its duration has passed, but for less than
/// a millisecond.
pub proof fn deadline_is_when_the_duration_ends(now_ms: nat, duration: nat)
    ensures
        (deadline(now_ms, duration) - now_ms) * 1_000_000 <= duration,
        duration < (deadline(now_ms, duration) - now_ms + 1) * 1_000_000,
{
}

/// What becomes of a suspend point, and an optional update, are told as they
/// are.
pub proof fn suspend_outcomes_are_faithful<T>(
    result: T,
    update: StatusUpdate,
    write: Write,
    error: EngineError,
)
    ensures
        opt_update(Some(update)) == Some(update@),
        opt_update(None) is None,
        suspend_view(Ok(SuspendOutcome::Resumed { result, restore: Some(update) }))
            == (SuspendView::Resumed { result, restore: Some(update@) }),
        suspend_view(Ok(SuspendOutcome::Resumed { result, restore: None }))
            == (SuspendView::Resumed { result, restore: None::<UpdateView> }),
        suspend_view::<T>(Ok(SuspendOutcome::Entered { write, update, error }))
            == (SuspendView::<T>::Entered { write: write@, update: update@, error: error@ }),
        suspend_view::<T>(Ok(SuspendOutcome::Waiting { update, error }))
            == (SuspendView::<T>::Waiting { update: update@, error: error@ }),
        suspend_view::<T>(Err(error)) == SuspendView::<T>::Failed(error@),
{
}

} // verus!
