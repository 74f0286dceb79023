//! Regular steps: memoised execution with timeout and retry.

use crate::codec;
use crate::context;
use crate::context::{Context, ContextView, StatusUpdate, UpdateView};
use crate::duration::Duration;
use crate::error::{EngineError, ErrorView, StepError, StepErrorView};
use crate::keys;
use crate::retry;
use crate::retry::{PolicyView, RetryPolicy};
use crate::state::{StateView, WorkflowState};
use crate::step;
use crate::step::{StepData, StepView};
use crate::store;
use crate::store::{Write, WriteView};
use vstd::prelude::*;

verus! {

/// The choice of a step's retry policy.
#[derive(Debug)]
enum RetryOverride {
    Disabled,
    Custom(RetryPolicy),
}

/// The choice of a step's retry policy.
pub enum RetryChoice {
    /// The engine's default.
    Default,
    /// No retry.
    Disabled,
    /// The given policy.
    Custom(PolicyView),
}

/// Builder for a durable step with optional timeout and retry policy.
#[derive(Debug)]
pub struct StepBuilder {
    key: String,
    timeout: Option<Duration>,
    retry_override: Option<RetryOverride>,
}

/// What a [`StepBuilder`] says.
pub struct BuilderView {
    pub key: Seq<char>,
    pub timeout: Option<nat>,
    pub retry: RetryChoice,
}

/// An optional span in nanoseconds.
pub open spec fn opt_span(d: Option<Duration>) -> Option<nat> {
    match d {
        Some(d) => Some(d@),
        None => None,
    }
}

impl View for StepBuilder {
    type V = BuilderView;

    closed spec fn view(&self) -> BuilderView {
        BuilderView {
            key: self.key@,
            timeout: opt_span(self.timeout),
            retry: match self.retry_override {
                None => RetryChoice::Default,
                Some(RetryOverride::Disabled) => RetryChoice::Disabled,
                Some(RetryOverride::Custom(p)) => RetryChoice::Custom(p@),
            },
        }
    }
}

/// The retry policy in effect: the step's own choice, then the engine's
/// default, then none.
pub open spec fn effective_policy(b: BuilderView, ctx: ContextView) -> Option<PolicyView> {
    match b.retry {
        RetryChoice::Default => ctx.default_retry,
        RetryChoice::Disabled => None,
        RetryChoice::Custom(p) => Some(p),
    }
}

/// How many retries a policy allows: none without one.
pub open spec fn retries(policy: Option<PolicyView>) -> nat {
    match policy {
        Some(p) => p.max_retries,
        None => 0,
    }
}

/// A step in execution: the attempt that is under way, out of as many as its
/// policy allows.
#[derive(Debug)]
pub struct StepRun {
    row_key: String,
    key: String,
    timeout: Option<Duration>,
    policy: Option<RetryPolicy>,
    attempt: u32,
}

/// What a [`StepRun`] says.
pub struct RunView {
    /// The key of the step's row.
    pub row_key: Seq<char>,
    /// The step key.
    pub key: Seq<char>,
    /// The timeout of each attempt.
    pub timeout: Option<nat>,
    /// The retry policy in effect.
    pub policy: Option<PolicyView>,
    /// The number of the attempt that is under way, from 0.
    pub attempt: nat,
}

impl View for StepRun {
    type V = RunView;

    closed spec fn view(&self) -> RunView {
        RunView {
            row_key: self.row_key@,
            key: self.key@,
            timeout: opt_span(self.timeout),
            policy: match self.policy {
                Some(p) => Some(p@),
                None => None,
            },
            attempt: self.attempt as nat,
        }
    }
}

/// How many attempts a run makes at most: the first, and its retries.
pub open spec fn total_attempts(run: RunView) -> nat {
    retries(run.policy) + 1
}

/// Whether a run can be under way: the attempt is one that its policy allows,
/// and 32 bits hold their number.
pub open spec fn run_valid(run: RunView) -> bool {
    run.attempt < total_attempts(run) <= u32::MAX
}

/// The run of a step from its first attempt.
pub open spec fn first_attempt(b: BuilderView, ctx: ContextView) -> RunView {
    RunView {
        row_key: keys::step_key(ctx.workflow_name, ctx.instance_id, b.key),
        key: b.key,
        timeout: b.timeout,
        policy: effective_policy(b, ctx),
        attempt: 0,
    }
}

/// What a step does first.
#[derive(Debug)]
pub enum RunStart<T> {
    /// The step completed before: its result is returned without executing the
    /// closure.
    Cached {
        /// The result.
        result: T,
        /// The status to restore, if one was kept.
        update: Option<StatusUpdate>,
    },
    /// The closure is executed.
    Execute(StepRun),
}

/// What a step does first, errors included.
pub enum StartView<T> {
    Cached { result: T, update: Option<UpdateView> },
    Execute(RunView),
    Failed(ErrorView),
}

/// What the start of a step says.
pub open spec fn start_view<T>(r: Result<RunStart<T>, EngineError>) -> StartView<T> {
    match r {
        Ok(RunStart::Cached { result, update }) => StartView::Cached {
            result,
            update: context::opt_update(update),
        },
        Ok(RunStart::Execute(run)) => StartView::Execute(run@),
        Err(e) => StartView::Failed(e@),
    }
}

/// What a step does first, given the entry that is kept for it: return the
/// result of a completed one, refuse one that waits for a signal, and execute
/// the closure where there is none, or one that failed. Execution ends the
/// replay.
pub open spec fn start_decision<T>(
    b: BuilderView,
    ctx: ContextView,
    entry: Option<StepData<T>>,
) -> (ContextView, StartView<T>) {
    match entry {
        Some(StepData::Completed { result, status }) => (
            ctx,
            StartView::Cached { result, update: context::restored(codec::opt_text(status)) },
        ),
        Some(StepData::Suspended) => (
            ctx,
            StartView::Failed(ErrorView::SuspendedStepConflict { key: b.key }),
        ),
        _ => (context::live(ctx), StartView::Execute(first_attempt(b, ctx))),
    }
}

impl StepBuilder {
    pub(crate) fn new(key: &str) -> (b: Self)
        ensures
            b@ == (BuilderView { key: key@, timeout: None, retry: RetryChoice::Default }),
    {
        StepBuilder { key: key.to_owned(), timeout: None, retry_override: None }
    }

    /// The step key.
    #[must_use]
    pub fn key(&self) -> (key: &str)
        ensures
            key@ == self@.key,
    {
        self.key.as_str()
    }

    /// Sets a timeout for the step execution.
    ///
    /// If the closure does not complete within `duration`, the step fails with
    /// [`EngineError::StepTimeout`] and no result is persisted. The timeout
    /// applies only to the closure execution, not to cache lookups.
    #[must_use]
    pub fn timeout(self, duration: Duration) -> (b: Self)
        ensures
            b@ == (BuilderView { timeout: Some(duration@), ..self@ }),
    {
        StepBuilder { timeout: Some(duration), ..self }
    }

    /// Sets a per-step retry policy, overriding any engine-level default.
    #[must_use]
    pub fn retry(self, policy: RetryPolicy) -> (b: Self)
        ensures
            b@ == (BuilderView { retry: RetryChoice::Custom(policy@), ..self@ }),
    {
        StepBuilder { retry_override: Some(RetryOverride::Custom(policy)), ..self }
    }

    /// Disables retry for this step, overriding any engine-level default.
    #[must_use]
    pub fn no_retry(self) -> (b: Self)
        ensures
            b@ == (BuilderView { retry: RetryChoice::Disabled, ..self@ }),
    {
        StepBuilder { retry_override: Some(RetryOverride::Disabled), ..self }
    }

    /// Resolves the effective retry policy: per-step override, then engine
    /// default, then none.
    #[must_use]
    pub fn effective_retry(&self, ctx: &Context) -> (p: Option<RetryPolicy>)
        ensures
            match p {
                Some(p) => effective_policy(self@, ctx@) == Some(p@),
                None => effective_policy(self@, ctx@) is None,
            },
    {
        match &self.retry_override {
            Some(RetryOverride::Disabled) => None,
            Some(RetryOverride::Custom(policy)) => Some(policy.clone()),
            None => ctx.default_retry(),
        }
    }

    /// What the step does first, given the entry that is kept for it.
    ///
    /// # Errors
    ///
    /// [`EngineError::SuspendedStepConflict`] where the entry waits for a
    /// signal.
    pub fn start<T>(&self, ctx: &mut Context, entry: Option<StepData<T>>) -> (r: Result<
        RunStart<T>,
        EngineError,
    >)
        ensures
            final(ctx)@ == start_decision(self@, old(ctx)@, entry).0,
            start_view(r) == start_decision(self@, old(ctx)@, entry).1,
    {
        match entry {
            Some(StepData::Completed { result, status }) => Ok(
                RunStart::Cached { result, update: context::restore(status) },
            ),
            Some(StepData::Suspended) => Err(
                EngineError::SuspendedStepConflict { key: self.key.clone() },
            ),
            _ => {
                let run = StepRun {
                    row_key: ctx.row_key(&self.key),
                    key: self.key.clone(),
                    timeout: self.timeout,
                    policy: self.effective_retry(ctx),
                    attempt: 0,
                };
                ctx.end_replay();
                Ok(RunStart::Execute(run))
            },
        }
    }

    /// Executes the step, given the row that is kept for it: returns the
    /// cached result, or the run that makes the attempts.
    ///
    /// # Errors
    ///
    /// [`EngineError::SuspendedStepConflict`] where the entry waits for a
    /// signal, and the errors of [`step::deserialize_step`] on the row.
    pub fn run<T, F: FnOnce(Vec<u8>) -> Result<(T, Option<String>), String>>(
        &self,
        ctx: &mut Context,
        row: Option<Vec<u8>>,
        tag: &str,
        parse: F,
    ) -> (r: Result<RunStart<T>, EngineError>)
        requires
            forall|body: Vec<u8>| #[trigger] call_requires(parse, (body,)),
        ensures
            exists|read: Result<Option<StepData<T>>, EngineError>| #[trigger]
                step::row_reads_as(store::opt_row(row), tag@, self@.key, parse, read)
                    && match read {
                    Err(e) => r == Err::<RunStart<T>, EngineError>(e) && final(ctx)@ == old(ctx)@,
                    Ok(entry) => {
                        &&& final(ctx)@ == start_decision(self@, old(ctx)@, entry).0
                        &&& start_view(r) == start_decision(self@, old(ctx)@, entry).1
                    },
                },
    {
        let read = step::read_row(row, tag, &self.key, parse);
        assert(step::row_reads_as(store::opt_row(row), tag@, self@.key, parse, read));
        match read {
            Err(e) => Err(e),
            Ok(entry) => self.start(ctx, entry),
        }
    }
}

/// How an attempt ended.
#[derive(Debug)]
pub enum AttemptOutcome {
    /// The closure returned a result: what encoding it gave, its bytes or the
    /// text of the error.
    Succeeded(Result<Vec<u8>, String>),
    /// The closure returned an error.
    Failed(StepError),
    /// The closure did not return within the timeout of its step.
    TimedOut(Duration),
}

/// What an [`AttemptOutcome`] says.
pub enum OutcomeView {
    Succeeded(Seq<u8>),
    NotEncoded(Seq<char>),
    Failed(StepErrorView),
    TimedOut(nat),
}

impl View for AttemptOutcome {
    type V = OutcomeView;

    open spec fn view(&self) -> OutcomeView {
        match *self {
            AttemptOutcome::Succeeded(Ok(payload)) => OutcomeView::Succeeded(payload@),
            AttemptOutcome::Succeeded(Err(source)) => OutcomeView::NotEncoded(source@),
            AttemptOutcome::Failed(e) => OutcomeView::Failed(e@),
            AttemptOutcome::TimedOut(d) => OutcomeView::TimedOut(d@),
        }
    }
}

/// What follows an attempt.
#[derive(Debug)]
pub enum RunStep {
    /// The closure is executed again after the delay.
    Retry {
        /// The next attempt.
        run: StepRun,
        /// The delay before it.
        delay: Duration,
    },
    /// The step is over: the entry is written, if there is one, and the result
    /// returned.
    Done {
        /// The entry that records the outcome.
        write: Option<Write>,
        /// What the step returns; the result of a success is the closure's.
        result: Result<(), EngineError>,
    },
}

/// What a [`RunStep`] says.
pub enum RunStepView {
    Retry { run: RunView, delay: nat },
    Done { write: Option<WriteView>, result: Result<(), ErrorView> },
}

impl View for RunStep {
    type V = RunStepView;

    open spec fn view(&self) -> RunStepView {
        match *self {
            RunStep::Retry { run, delay } => RunStepView::Retry { run: run@, delay: delay@ },
            RunStep::Done { write, result } => RunStepView::Done {
                write: match write {
                    Some(w) => Some(w@),
                    None => None,
                },
                result: match result {
                    Ok(()) => Ok(()),
                    Err(e) => Err(e@),
                },
            },
        }
    }
}

/// The write of a run's entry.
pub open spec fn entry_write(run: RunView, entry: StepView, tag: Seq<char>) -> Option<WriteView> {
    Some(WriteView::PutStep { key: run.row_key, value: step::step_bytes(entry, tag) })
}

/// The entry by which the outcome of an attempt is recorded, if the step is
/// then over and leaves one: a result, with the status message of the moment,
/// or the error of a dead letter.
pub open spec fn entry_left(run: RunView, outcome: OutcomeView, current: StateView) -> Option<
    StepView,
> {
    match outcome {
        OutcomeView::Succeeded(payload) => Some(
            step::own_entry(payload, context::status_message(current)),
        ),
        OutcomeView::NotEncoded(_) => None,
        OutcomeView::TimedOut(_) => None,
        OutcomeView::Failed(StepErrorView::Permanent(error)) => Some(StepView::Failed { error }),
        OutcomeView::Failed(StepErrorView::Retryable(error)) => if run.attempt + 1
            < total_attempts(run) {
            None
        } else {
            Some(StepView::Failed { error })
        },
    }
}

/// What follows an attempt, where the instance is in the state `current`.
pub open spec fn after_attempt(
    run: RunView,
    outcome: OutcomeView,
    current: StateView,
    tag: Seq<char>,
) -> RunStepView {
    let write = match entry_left(run, outcome, current) {
        Some(entry) => entry_write(run, entry, tag),
        None => None,
    };
    match outcome {
        OutcomeView::Succeeded(_) => RunStepView::Done { write, result: Ok(()) },
        OutcomeView::NotEncoded(source) => RunStepView::Done {
            write,
            result: Err(ErrorView::Serialization { key: run.key, source }),
        },
        OutcomeView::TimedOut(duration) => RunStepView::Done {
            write,
            result: Err(ErrorView::StepTimeout { key: run.key, duration }),
        },
        OutcomeView::Failed(StepErrorView::Permanent(source)) => RunStepView::Done {
            write,
            result: Err(ErrorView::StepFailed { key: run.key, source, retryable: false }),
        },
        OutcomeView::Failed(StepErrorView::Retryable(source)) => if run.attempt + 1
            < total_attempts(run) {
            RunStepView::Retry {
                run: RunView { attempt: run.attempt + 1, ..run },
                delay: retry::delay(run.policy->0, run.attempt),
            }
        } else {
            RunStepView::Done {
                write,
                result: Err(
                    if retries(run.policy) == 0 {
                        ErrorView::StepFailed { key: run.key, source, retryable: true }
                    } else {
                        ErrorView::RetriesExhausted {
                            key: run.key,
                            attempts: total_attempts(run),
                            source,
                        }
                    },
                ),
            }
        },
    }
}

impl StepRun {
    /// The timeout of each attempt.
    #[must_use]
    pub fn timeout(&self) -> (d: Option<Duration>)
        ensures
            opt_span(d) == self@.timeout,
    {
        self.timeout
    }

    /// The number of the attempt that is under way, from 0.
    #[must_use]
    pub fn attempt(&self) -> (n: u32)
        ensures
            n == self@.attempt,
    {
        self.attempt
    }

    fn max_retries(&self) -> (n: u32)
        ensures
            n == retries(self@.policy),
    {
        match &self.policy {
            Some(p) => p.max_retries(),
            None => 0,
        }
    }

    /// What follows an attempt with the given outcome, where the instance is
    /// in the state `current` and the result type is tagged `tag`.
    #[must_use]
    pub fn after_attempt(
        self,
        outcome: AttemptOutcome,
        current: &WorkflowState,
        tag: &str,
    ) -> (next: RunStep)
        requires
            run_valid(self@),
            outcome@ matches OutcomeView::TimedOut(d) ==> self@.timeout == Some(d),
        ensures
            next@ == after_attempt(self@, outcome@, current@, tag@),
            next matches RunStep::Retry { run, .. } ==> run_valid(run@),
            entry_left(self@, outcome@, current@) matches Some(entry) ==> step::holds(
                step::step_bytes(entry, tag@),
                entry,
                tag@,
            ) && step::status_reads_back(entry),
    {
        match outcome {
            AttemptOutcome::TimedOut(duration) => RunStep::Done {
                write: None,
                result: Err(EngineError::StepTimeout { key: self.key, duration }),
            },
            AttemptOutcome::Succeeded(encoded) => match encoded {
                Err(source) => RunStep::Done {
                    write: None,
                    result: Err(EngineError::Serialization { key: self.key, source }),
                },
                Ok(payload) => {
                    let status = context::current_status_string(current);
                    let value = step::encode_step(
                        StepData::Completed { result: payload, status },
                        tag,
                    );
                    RunStep::Done {
                        write: Some(Write::PutStep { key: self.row_key, value }),
                        result: Ok(()),
                    }
                },
            },
            AttemptOutcome::Failed(StepError::Permanent(source)) => {
                let value = step::encode_step(StepData::Failed { error: source.clone() }, tag);
                RunStep::Done {
                    write: Some(Write::PutStep { key: self.row_key, value }),
                    result: Err(EngineError::StepFailed { key: self.key, source, retryable: false }),
                }
            },
            AttemptOutcome::Failed(StepError::Retryable(source)) => {
                let max_retries: u32 = self.max_retries();
                let total_attempts: u32 = max_retries + 1;
                let attempt: u32 = self.attempt;
                if attempt + 1 >= total_attempts {
                    let value = step::encode_step(StepData::Failed { error: source.clone() }, tag);
                    let result = if max_retries == 0 {
                        EngineError::StepFailed { key: self.key, source, retryable: true }
                    } else {
                        EngineError::RetriesExhausted {
                            key: self.key,
                            attempts: total_attempts,
                            source,
                        }
                    };
                    RunStep::Done {
                        write: Some(Write::PutStep { key: self.row_key, value }),
                        result: Err(result),
                    }
                } else {
                    let delay = match &self.policy {
                        Some(policy) => policy.delay_for(attempt),
                        None => Duration::from_secs(0),
                    };
                    RunStep::Retry { run: StepRun { attempt: attempt + 1, ..self }, delay }
                }
            },
        }
    }
}

/// An attempt's outcome, and the state that the instance was in.
pub struct Attempt {
    pub outcome: OutcomeView,
    pub current: StateView,
}

/// Whether an attempt failed with a retryable error.
pub open spec fn is_retryable(a: Attempt) -> bool {
    a.outcome matches OutcomeView::Failed(e) && e is Retryable
}

/// The course of a run whose attempts have the given outcomes, as far as they
/// reach: how many attempts are made, and what the last of them leads to.
pub open spec fn course(run: RunView, attempts: Seq<Attempt>, tag: Seq<char>) -> Option<
    (nat, RunStepView),
>
    decreases attempts.len(),
{
    if attempts.len() == 0 {
        None
    } else {
        match after_attempt(run, attempts[0].outcome, attempts[0].current, tag) {
            RunStepView::Retry { run: next, .. } => match course(next, attempts.skip(1), tag) {
                Some((n, end)) => Some((n + 1, end)),
                None => None,
            },
            end => Some((1, end)),
        }
    }
}

/// A run in its attempt number `n`.
pub open spec fn at_attempt(run: RunView, n: nat) -> RunView {
    RunView { attempt: n, ..run }
}

/// A run makes no more attempts than its policy allows: the first, and as many
/// retries as the policy has.
pub proof fn attempts_are_bounded(run: RunView, attempts: Seq<Attempt>, tag: Seq<char>)
    requires
        run_valid(run),
        attempts.len() >= total_attempts(run) - run.attempt,
    ensures
        course(run, attempts, tag) matches Some((n, end)) && n <= total_attempts(run) - run.attempt
            && end is Done,
    decreases attempts.len(),
{
    match after_attempt(run, attempts[0].outcome, attempts[0].current, tag) {
        RunStepView::Retry { run: next, .. } => {
            attempts_are_bounded(next, attempts.skip(1), tag);
        },
        _ => {},
    }
}

/// A run ends with the first attempt that does not fail with a retryable
/// error: success, permanent errors and timeouts are never retried.
pub proof fn first_decisive_attempt_ends(
    run: RunView,
    attempts: Seq<Attempt>,
    i: nat,
    tag: Seq<char>,
)
    requires
        run_valid(run),
        run.attempt + i < total_attempts(run),
        i < attempts.len(),
        forall|j: int| 0 <= j < i ==> is_retryable(#[trigger] attempts[j]),
        !is_retryable(attempts[i as int]),
    ensures
        course(run, attempts, tag) == Some(
            (
                i + 1,
                after_attempt(
                    at_attempt(run, run.attempt + i),
                    attempts[i as int].outcome,
                    attempts[i as int].current,
                    tag,
                ),
            ),
        ),
    decreases i,
{
    if i > 0 {
        assert(is_retryable(attempts[0]));
        let next = at_attempt(run, run.attempt + 1);
        let rest = attempts.skip(1);
        assert forall|j: int| 0 <= j < i - 1 implies is_retryable(#[trigger] rest[j]) by {
            assert(rest[j] == attempts[j + 1]);
        }
        first_decisive_attempt_ends(next, rest, (i - 1) as nat, tag);
        assert(rest[i - 1] == attempts[i as int]);
    } else {
        assert(at_attempt(run, run.attempt) == run);
    }
}

/// A run all of whose attempts fail with retryable errors makes every attempt
/// that its policy allows, and then fails with the last error: as exhausted
/// where there were retries, and as a retryable step failure where there were
/// none. The error is kept as a dead letter.
pub proof fn retryable_errors_exhaust(run: RunView, attempts: Seq<Attempt>, tag: Seq<char>)
    requires
        run_valid(run),
        attempts.len() >= total_attempts(run) - run.attempt,
        forall|j: int|
            0 <= j < total_attempts(run) - run.attempt ==> is_retryable(#[trigger] attempts[j]),
    ensures
        ({
            let made = (total_attempts(run) - run.attempt) as nat;
            let source = attempts[made - 1].outcome->Failed_0->Retryable_0;
            course(run, attempts, tag) == Some(
                (
                    made,
                    RunStepView::Done {
                        write: entry_write(run, StepView::Failed { error: source }, tag),
                        result: Err(
                            if retries(run.policy) == 0 {
                                ErrorView::StepFailed { key: run.key, source, retryable: true }
                            } else {
                                ErrorView::RetriesExhausted {
                                    key: run.key,
                                    attempts: total_attempts(run),
                                    source,
                                }
                            },
                        ),
                    },
                ),
            )
        }),
    decreases total_attempts(run) - run.attempt,
{
    assert(is_retryable(attempts[0]));
    if run.attempt + 1 < total_attempts(run) {
        let next = at_attempt(run, run.attempt + 1);
        let rest = attempts.skip(1);
        assert forall|j: int|
            0 <= j < total_attempts(next) - next.attempt implies is_retryable(
            #[trigger] rest[j],
        ) by {
            assert(rest[j] == attempts[j + 1]);
        }
        retryable_errors_exhaust(next, rest, tag);
        let made = total_attempts(run) - run.attempt;
        assert(rest[made - 2] == attempts[made - 1]);
    }
}

/// A step that times out leaves no entry, so that it executes again when the
/// instance is resumed.
pub proof fn timeout_leaves_no_entry(
    run: RunView,
    duration: nat,
    current: StateView,
    tag: Seq<char>,
)
    ensures
        after_attempt(run, OutcomeView::TimedOut(duration), current, tag) == (RunStepView::Done {
            write: None,
            result: Err(ErrorView::StepTimeout { key: run.key, duration }),
        }),
{
}

/// Replaying a completed step is silent and goes on replaying: its status is
/// restored without telling subscribers.
pub proof fn replay_is_silent<T>(
    b: BuilderView,
    ctx: ContextView,
    result: T,
    status: Option<String>,
)
    ensures
        ({
            let (after, start) = start_decision(
                b,
                ctx,
                Some(StepData::Completed { result, status }),
            );
            &&& after == ctx
            &&& start matches StartView::Cached { result: r, update } && r == result && (
            update matches Some(u) ==> !u.notify)
        }),
{
}

/// A step that was given a policy runs by exactly that policy, and one whose
/// retry was disabled by none, whatever the engine's default is; only a step
/// without a choice of its own runs by the default.
pub proof fn own_policy_takes_precedence(b: BuilderView, ctx: ContextView)
    ensures
        ({
            let run = first_attempt(b, ctx);
            &&& b.retry matches RetryChoice::Custom(p) ==> run.policy == Some(p) && total_attempts(
                run,
            ) == p.max_retries + 1
            &&& b.retry is Disabled ==> run.policy is None && total_attempts(run) == 1
            &&& b.retry is Default ==> run.policy == ctx.default_retry
            &&& b.retry is Default && ctx.default_retry is None ==> total_attempts(run) == 1
        }),
{
}

/// The engine's default matters to no step with a choice of its own: in two
/// contexts of one instance it runs in the same way.
pub proof fn default_policy_is_a_fallback(b: BuilderView, ctx: ContextView, other: ContextView)
    requires
        b.retry !is Default,
        ctx.workflow_name == other.workflow_name,
        ctx.instance_id == other.instance_id,
    ensures
        first_attempt(b, ctx) == first_attempt(b, other),
{
}

/// A step executes under its own key in its own instance, from attempt 0, and
/// with the timeout that its builder was given.
pub proof fn execution_starts_afresh(b: BuilderView, ctx: ContextView)
    ensures
        ({
            let run = first_attempt(b, ctx);
            &&& run.key == b.key
            &&& run.row_key == ctx.workflow_name + seq!['/'] + ctx.instance_id + seq!['/'] + b.key
            &&& run.timeout == b.timeout
            &&& run.attempt == 0
        }),
{
}

/// The closure of a step is executed exactly where no entry is kept for it, or
/// a dead letter; then, and only then, the replay ends. A completed entry gives
/// its result, and one that waits is a conflict.
pub proof fn step_executes_exactly_if_unfinished<T>(
    b: BuilderView,
    ctx: ContextView,
    entry: Option<StepData<T>>,
)
    ensures
        ({
            let (after, start) = start_decision(b, ctx, entry);
            &&& start is Execute <==> (entry is None || entry->0 is Failed)
            &&& start matches StartView::Execute(run) ==> run == first_attempt(b, ctx) && !after.replaying
            &&& start !is Execute ==> after.replaying == ctx.replaying
            &&& after.workflow_name == ctx.workflow_name && after.instance_id == ctx.instance_id
            &&& after.default_retry == ctx.default_retry
            &&& entry matches Some(StepData::Completed { result, status }) ==> (
            start matches StartView::Cached { result: r, update } && r == result && match status {
                Some(msg) => update matches Some(u) && u.state == StateView::InProgress(msg@)
                    && !u.notify,
                None => update is None,
            })
            &&& entry matches Some(StepData::Suspended) ==> start == StartView::<T>::Failed(
                ErrorView::SuspendedStepConflict { key: b.key },
            )
        }),
{
}

/// A retry changes nothing of a run but the number of the attempt: every
/// attempt has the timeout, the policy and the row of the first. The delay is
/// that of the policy for the attempt that failed.
pub proof fn retry_changes_the_attempt_only(
    run: RunView,
    outcome: OutcomeView,
    current: StateView,
    tag: Seq<char>,
)
    ensures
        after_attempt(run, outcome, current, tag) matches RunStepView::Retry { run: next, delay }
            ==> {
            &&& next.timeout == run.timeout
            &&& next.policy == run.policy
            &&& next.key == run.key
            &&& next.row_key == run.row_key
            &&& next.attempt == run.attempt + 1
            &&& next == at_attempt(run, run.attempt + 1)
            &&& run.policy matches Some(p) && delay == retry::delay(p, run.attempt)
        },
{
}

/// An attempt is followed by another exactly where it failed with a retryable
/// error and the policy allows more retries than were made.
pub proof fn retries_exactly_while_allowed(
    run: RunView,
    outcome: OutcomeView,
    current: StateView,
    tag: Seq<char>,
)
    ensures
        after_attempt(run, outcome, current, tag) is Retry <==> {
            &&& outcome matches OutcomeView::Failed(e)
            &&& e is Retryable
            &&& run.policy matches Some(p)
            &&& run.attempt < p.max_retries
        },
{
}

/// A success ends the step whatever the number of the attempt is, and is kept
/// in the step's own row: its result, with the status message of an instance in
/// progress.
pub proof fn success_is_recorded(
    run: RunView,
    payload: Seq<u8>,
    current: StateView,
    tag: Seq<char>,
)
    ensures
        after_attempt(run, OutcomeView::Succeeded(payload), current, tag) == (RunStepView::Done {
            write: Some(
                WriteView::PutStep {
                    key: run.row_key,
                    value: step::step_bytes(
                        StepView::Completed {
                            payload,
                            status: if current is InProgress {
                                Some(current->InProgress_0)
                            } else {
                                None
                            },
                            claimed: false,
                        },
                        tag,
                    ),
                },
            ),
            result: Ok(()),
        }),
{
}

/// A step that fails for good leaves a dead letter with the error's text in its
/// own row, and reports the error: a permanent one as not retryable, after
/// however many attempts; a retryable one as retryable where there was no retry,
/// and as exhausted, with the number of attempts, where there was.
pub proof fn failure_is_recorded(
    run: RunView,
    error: StepErrorView,
    current: StateView,
    tag: Seq<char>,
)
    ensures
        after_attempt(run, OutcomeView::Failed(error), current, tag) matches RunStepView::Done {
            write,
            result,
        } ==> {
            let source = match error {
                StepErrorView::Retryable(s) => s,
                StepErrorView::Permanent(s) => s,
            };
            &&& write == Some(
                WriteView::PutStep {
                    key: run.row_key,
                    value: step::step_bytes(StepView::Failed { error: source }, tag),
                },
            )
            &&& result == Err::<(), ErrorView>(
                if error is Permanent {
                    ErrorView::StepFailed { key: run.key, source, retryable: false }
                } else if run.policy is None || run.policy->0.max_retries == 0 {
                    ErrorView::StepFailed { key: run.key, source, retryable: true }
                } else {
                    ErrorView::RetriesExhausted {
                        key: run.key,
                        attempts: run.policy->0.max_retries + 1,
                        source,
                    }
                },
            )
        },
        error is Permanent ==> after_attempt(
            run,
            OutcomeView::Failed(error),
            current,
            tag,
        ) is Done,
{
}

/// A result that cannot be encoded leaves no entry, and is a serialization
/// error of the step.
pub proof fn unencodable_result_leaves_no_entry(
    run: RunView,
    source: Seq<char>,
    current: StateView,
    tag: Seq<char>,
)
    ensures
        after_attempt(run, OutcomeView::NotEncoded(source), current, tag) == (RunStepView::Done {
            write: None,
            result: Err(ErrorView::Serialization { key: run.key, source }),
        }),
{
}

/// An optional span is read as it is.
pub proof fn optional_spans_are_faithful(d: Duration)
    ensures
        opt_span(Some(d)) == Some(d@),
        opt_span(None) is None,
{
}

/// What a step starts with is told as it is.
pub proof fn starts_are_faithful<T>(
    result: T,
    update: Option<StatusUpdate>,
    run: StepRun,
    error: EngineError,
)
    ensures
        start_view(Ok(RunStart::Cached { result, update })) == (StartView::Cached {
            result,
            update: context::opt_update(update),
        }),
        start_view::<T>(Ok(RunStart::Execute(run))) == StartView::<T>::Execute(run@),
        start_view::<T>(Err(error)) == StartView::<T>::Failed(error@),
{
}

} // verus!
