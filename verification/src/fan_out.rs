//! Fan-out: the children of a workflow and the collection of their results.

use crate::engine;
use crate::engine::{Engine, Spawn};
use crate::error;
use crate::error::{ChildError, ChildErrorView, EngineError, ErrorView};
use crate::execution;
use crate::execution::Settlement;
use crate::keys;
use crate::metadata;
use crate::metadata::{MetadataStatus, StatusView, WorkflowMetadata};
use crate::progress::{LogView, RunLog};
use crate::state;
use crate::state::{StateView, WorkflowState};
use crate::step;
use crate::step::StepData;
use crate::store;
use crate::store::{Write, WriteView};
use crate::text::concat2;
use vstd::prelude::*;

verus! {

/// Persisted manifest for crash recovery: the children of a fan-out.
#[derive(Debug)]
pub struct FanOutManifest {
    /// The children's instance IDs, in item order.
    pub child_instance_ids: Vec<String>,
    /// How many there are.
    pub count: usize,
}

impl FanOutManifest {
    /// The manifest of a fan-out over `count` items.
    #[must_use]
    pub fn new(parent: &str, fan_out_key: &str, count: usize) -> (m: Self)
        ensures
            m.count == count,
            m.child_instance_ids@.len() == count,
            forall|i: int|
                0 <= i < count ==> (#[trigger] m.child_instance_ids@[i])@ == keys::child_id(
                    parent@,
                    keys::child_key(fan_out_key@, i as nat),
                ),
    {
        FanOutManifest {
            child_instance_ids: keys::fan_out_child_ids(parent, fan_out_key, count),
            count,
        }
    }

    /// How many children may run at a time: as many as the limit says, and
    /// without one all of them.
    #[must_use]
    pub fn permits(&self, limit: Option<usize>) -> (n: usize)
        ensures
            n == match limit {
                Some(limit) => limit,
                None => self.count,
            },
    {
        match limit {
            Some(limit) => limit,
            None => self.count,
        }
    }
}

/// Spawns an inline child, which runs a closure under its parent's workflow
/// name: it is recorded as running, and has a context and a status channel of
/// its own.
#[must_use]
pub fn start_inline_child(engine: &Engine, workflow_name: &str, child_id: &str) -> (s: Spawn<()>)
    ensures
        engine::spawns(
            s,
            engine@,
            workflow_name@,
            child_id@,
            engine::spawn_writes(workflow_name@, child_id@, None),
        ),
        metadata::reads_back(execution::running()),
{
    let meta = WorkflowMetadata::new_at(MetadataStatus::Running, 0);
    let mut writes: Vec<Write> = Vec::new();
    writes.push(metadata::write_metadata(workflow_name, child_id, &meta));
    assert(store::batch_view(writes@) =~= engine::spawn_writes(workflow_name@, child_id@, None));
    engine.spawn(workflow_name, child_id.to_owned(), writes)
}

/// Why a child counts as failed although its closure succeeded.
pub const OUTPUT_NOT_WRITTEN: &'static str = "child output write failed";

/// How an inline child ended, before its run is settled.
#[derive(Debug)]
pub enum ChildEnd {
    /// The closure failed.
    Failed(EngineError),
    /// The closure succeeded, and its output was written.
    Succeeded,
    /// The closure succeeded, but writing its output failed.
    NotWritten(EngineError),
}

/// The result with which the run of an inline child is settled: an error of
/// the closure becomes a step failure of the child, whose ID is the key.
pub open spec fn child_result(end: ChildEnd, child_id: Seq<char>) -> Result<(), ErrorView> {
    match end {
        ChildEnd::Succeeded => Ok(()),
        ChildEnd::Failed(e) => Err(
            ErrorView::StepFailed {
                key: child_id,
                source: error::error_text(e@),
                retryable: false,
            },
        ),
        ChildEnd::NotWritten(e) => Err(e@),
    }
}

/// Settles the run of an inline child: the metadata to record, the state to
/// announce, and the error that the fan-out receives, if any.
#[must_use]
pub fn finish_inline_child(
    end: ChildEnd,
    workflow_name: &str,
    child_id: &str,
    current: &WorkflowState,
    log: &RunLog,
    now_secs: u64,
) -> (r: (Settlement, Result<(), EngineError>))
    ensures
        ({
            let status = execution::final_status(child_result(end, child_id@), current@, log@);
            let record = metadata::record_at(status, now_secs);
            &&& r.0.write@ == (WriteView::PutMeta {
                key: keys::meta_key(workflow_name@, child_id@),
                value: metadata::metadata_bytes(record),
            })
            &&& metadata::reads_back(record)
            &&& r.0.state@ == metadata::recorded_state(status)
            &&& r.0.terminal == metadata::is_terminal(status)
        }),
        match end {
            ChildEnd::Succeeded => r.1 is Ok,
            ChildEnd::Failed(e) => r.1 == Err::<(), EngineError>(e),
            ChildEnd::NotWritten(_) => r.1 matches Err(e) && e@ == ErrorView::Storage(
                OUTPUT_NOT_WRITTEN@,
            ),
        },
{
    match end {
        ChildEnd::Succeeded => (
            execution::handle_workflow_result(
                Ok(()),
                workflow_name,
                child_id,
                current,
                log,
                now_secs,
            ),
            Ok(()),
        ),
        ChildEnd::Failed(e) => {
            let failure = EngineError::StepFailed {
                key: child_id.to_owned(),
                source: e.to_string(),
                retryable: false,
            };
            (
                execution::handle_workflow_result(
                    Err(failure),
                    workflow_name,
                    child_id,
                    current,
                    log,
                    now_secs,
                ),
                Err(e),
            )
        },
        ChildEnd::NotWritten(e) => (
            execution::handle_workflow_result(
                Err(e),
                workflow_name,
                child_id,
                current,
                log,
                now_secs,
            ),
            Err(EngineError::Storage(OUTPUT_NOT_WRITTEN.to_owned())),
        ),
    }
}

/// What a fan-out does about a registered child in some state.
#[derive(Debug)]
pub enum ChildWait {
    /// The child is still at work: wait for its next state.
    Wait,
    /// The child completed: read its output.
    ReadOutput,
    /// The child failed.
    Failed(EngineError),
}

/// What a fan-out does about a registered child whose status channel shows
/// `s`, and can show no more where it is closed.
pub open spec fn child_decision(s: StateView, closed: bool, child_id: Seq<char>) -> Result<
    bool,
    ErrorView,
> {
    match s {
        StateView::Completed(_) => Ok(true),
        StateView::Failed(source) if !closed => Err(
            ErrorView::StepFailed { key: child_id, source, retryable: false },
        ),
        other => if closed {
            Err(
                ErrorView::StepFailed {
                    key: child_id,
                    source: "child ended in state: "@ + state::state_text(other),
                    retryable: false,
                },
            )
        } else {
            Ok(false)
        },
    }
}

/// Decides about a registered child whose status channel shows `state`.
/// `closed` says that the channel closed without showing anything newer.
#[must_use]
pub fn poll_child(state: &WorkflowState, closed: bool, child_id: &str) -> (w: ChildWait)
    ensures
        match child_decision(state@, closed, child_id@) {
            Ok(true) => w is ReadOutput,
            Ok(false) => w is Wait,
            Err(error) => w matches ChildWait::Failed(e) && e@ == error,
        },
{
    match state {
        WorkflowState::Completed(_) => ChildWait::ReadOutput,
        WorkflowState::Failed(msg) => if closed {
            let text = state.to_string();
            let source = concat2("child ended in state: ", &text);
            ChildWait::Failed(
                EngineError::StepFailed { key: child_id.to_owned(), source, retryable: false },
            )
        } else {
            ChildWait::Failed(
                EngineError::StepFailed {
                    key: child_id.to_owned(),
                    source: msg.clone(),
                    retryable: false,
                },
            )
        },
        _ => if closed {
            let text = state.to_string();
            let source = concat2("child ended in state: ", &text);
            ChildWait::Failed(
                EngineError::StepFailed { key: child_id.to_owned(), source, retryable: false },
            )
        } else {
            ChildWait::Wait
        },
    }
}

/// What joining a child's task gave.
#[derive(Debug)]
pub enum Joined<T> {
    /// The child at the given index returned.
    Returned {
        /// The child's index.
        index: usize,
        /// What it returned.
        result: Result<T, EngineError>,
    },
    /// The child's task panicked.
    Panicked {
        /// The panic in words.
        message: String,
    },
}

/// The error of a fan-out one of whose children panicked.
pub open spec fn panic_error(message: Seq<char>) -> ErrorView {
    ErrorView::Storage("child task panicked: "@ + message)
}

fn panicked(message: String) -> (e: EngineError)
    ensures
        e@ == panic_error(message@),
{
    EngineError::Storage(concat2("child task panicked: ", &message))
}

/// Results by child index, each known or not yet.
#[derive(Debug)]
pub struct Slots<T> {
    slots: Vec<Option<T>>,
}

impl<T> View for Slots<T> {
    type V = Seq<Option<T>>;

    closed spec fn view(&self) -> Seq<Option<T>> {
        self.slots@
    }
}

/// Whether every result is known.
pub open spec fn all_known<T>(slots: Seq<Option<T>>) -> bool {
    forall|i: int| 0 <= i < slots.len() ==> (#[trigger] slots[i]) is Some
}

/// The results, where all are known.
pub open spec fn values<T>(slots: Seq<Option<T>>) -> Seq<T> {
    slots.map_values(|s: Option<T>| s->0)
}

impl<T> Slots<T> {
    /// `expected` results, none of them known.
    #[must_use]
    pub fn new(expected: usize) -> (s: Self)
        ensures
            s@ == Seq::new(expected as nat, |i: int| None::<T>),
    {
        let mut slots: Vec<Option<T>> = Vec::new();
        let mut i: usize = 0;
        while i < expected
            invariant
                i <= expected,
                slots@ == Seq::new(i as nat, |j: int| None::<T>),
            decreases expected - i,
        {
            slots.push(None);
            i = i + 1;
            assert(slots@ =~= Seq::new(i as nat, |j: int| None::<T>));
        }
        Slots { slots }
    }

    fn put(&mut self, index: usize, value: T)
        requires
            index < old(self)@.len(),
        ensures
            final(self)@ == old(self)@.update(index as int, Some(value)),
    {
        self.slots.set(index, Some(value));
    }

    /// The results in index order, once all are known.
    #[must_use]
    pub fn finish(self) -> (r: Vec<T>)
        requires
            all_known(self@),
        ensures
            r@ == values(self@),
    {
        let ghost all = self.slots@;
        let mut slots = self.slots;
        let mut back: Vec<T> = Vec::new();
        while slots.len() > 0
            invariant
                all_known(all),
                slots@ == all.take(slots@.len() as int),
                slots@.len() + back@.len() == all.len(),
                forall|i: int|
                    0 <= i < back@.len() ==> #[trigger] back@[i] == all[all.len() - 1 - i]->0,
            decreases slots@.len(),
        {
            let n: usize = slots.len();
            assert(all[n - 1] is Some);
            if let Some(Some(value)) = slots.pop() {
                back.push(value);
            }
        }
        let mut r: Vec<T> = Vec::new();
        while back.len() > 0
            invariant
                back@.len() + r@.len() == all.len(),
                forall|i: int|
                    0 <= i < back@.len() ==> #[trigger] back@[i] == all[all.len() - 1 - i]->0,
                forall|i: int| 0 <= i < r@.len() ==> #[trigger] r@[i] == all[i]->0,
            decreases back@.len(),
        {
            if let Some(value) = back.pop() {
                r.push(value);
            }
        }
        assert(r@ =~= values(all));
        r
    }
}

/// Collects a joined child's result in fail-fast mode: a value is kept under
/// its index, and the first error ends the fan-out.
///
/// # Errors
///
/// The child's error, or [`EngineError::Storage`] where its task panicked;
/// the remaining children are then aborted.
pub fn collect_fail_fast<T>(slots: &mut Slots<T>, joined: Joined<T>) -> (r: Result<
    (),
    EngineError,
>)
    requires
        joined matches Joined::Returned { index, .. } ==> index < old(slots)@.len(),
    ensures
        match joined {
            Joined::Returned { index, result } => match result {
                Ok(value) => r is Ok && final(slots)@ == old(slots)@.update(
                    index as int,
                    Some(value),
                ),
                Err(e) => r == Err::<(), EngineError>(e) && final(slots)@ == old(slots)@,
            },
            Joined::Panicked { message } => final(slots)@ == old(slots)@ && (r matches Err(e) && e@
                == panic_error(message@)),
        },
{
    match joined {
        Joined::Returned { index, result } => match result {
            Ok(value) => {
                slots.put(index, value);
                Ok(())
            },
            Err(e) => Err(e),
        },
        Joined::Panicked { message } => Err(panicked(message)),
    }
}

/// What a child's result says.
pub open spec fn child_view<T>(result: Result<T, ChildError>) -> Result<T, ChildErrorView> {
    match result {
        Ok(value) => Ok(value),
        Err(e) => Err(e@),
    }
}

/// What collected results say.
pub open spec fn children_view<T>(slots: Seq<Option<Result<T, ChildError>>>) -> Seq<
    Option<Result<T, ChildErrorView>>,
> {
    slots.map_values(
        |s: Option<Result<T, ChildError>>|
            match s {
                Some(result) => Some(child_view(result)),
                None => None,
            },
    )
}

/// The result that is kept of the child with the given ID: its value, or the
/// text of its error.
pub open spec fn kept_child<T>(result: Result<T, EngineError>, child_id: Seq<char>) -> Result<
    T,
    ChildErrorView,
> {
    match result {
        Ok(value) => Ok(value),
        Err(e) => Err(
            ChildErrorView { instance_id: child_id, message: error::error_text(e@) },
        ),
    }
}

/// Collects a joined child's result in collect-all mode: a value or an error
/// is kept under its index. Only a panic ends the fan-out.
///
/// # Errors
///
/// [`EngineError::Storage`] where the child's task panicked; the remaining
/// children are then aborted.
pub fn collect_all<T>(
    slots: &mut Slots<Result<T, ChildError>>,
    joined: Joined<T>,
    child_ids: &Vec<String>,
) -> (r: Result<(), EngineError>)
    requires
        old(slots)@.len() == child_ids@.len(),
        joined matches Joined::Returned { index, .. } ==> index < old(slots)@.len(),
    ensures
        match joined {
            Joined::Returned { index, result } => {
                &&& r is Ok
                &&& children_view(final(slots)@) == children_view(old(slots)@).update(
                    index as int,
                    Some(kept_child(result, child_ids@[index as int]@)),
                )
            },
            Joined::Panicked { message } => final(slots)@ == old(slots)@ && (r matches Err(e) && e@
                == panic_error(message@)),
        },
{
    match joined {
        Joined::Returned { index, result } => {
            let ghost given = result;
            let kept = match result {
                Ok(value) => Ok(value),
                Err(e) => Err(ChildError::new(&child_ids[index], e.to_string())),
            };
            slots.put(index, kept);
            proof {
                assert(child_view(kept) == kept_child(given, child_ids@[index as int]@));
                assert(children_view(slots@) =~= children_view(old(slots)@).update(
                    index as int,
                    Some(child_view(kept)),
                ));
            }
            Ok(())
        },
        Joined::Panicked { message } => Err(panicked(message)),
    }
}

/// Results put into their slots one after the other, each under its index.
pub open spec fn placed<V>(expected: nat, joins: Seq<(int, V)>) -> Seq<Option<V>>
    decreases joins.len(),
{
    if joins.len() == 0 {
        Seq::new(expected, |i: int| None::<V>)
    } else {
        placed(expected, joins.drop_last()).update(joins.last().0, Some(joins.last().1))
    }
}

/// Whether every result has a slot.
pub open spec fn have_slots<V>(expected: nat, joins: Seq<(int, V)>) -> bool {
    forall|j: int| 0 <= j < joins.len() ==> 0 <= (#[trigger] joins[j]).0 < expected
}

/// There are as many slots as expected, whatever was put into them.
proof fn placed_len<V>(expected: nat, joins: Seq<(int, V)>)
    requires
        have_slots(expected, joins),
    ensures
        placed(expected, joins).len() == expected,
    decreases joins.len(),
{
    if joins.len() > 0 {
        assert(have_slots(expected, joins.drop_last())) by {
            assert forall|j: int| 0 <= j < joins.drop_last().len() implies 0 <= (
            #[trigger] joins.drop_last()[j]).0 < expected by {
                assert(joins.drop_last()[j] == joins[j]);
            }
        }
        assert(joins.last() == joins[joins.len() - 1]);
        placed_len(expected, joins.drop_last());
    }
}

/// Results come out in item order, whatever the order in which the children
/// finished: the result of each child stands at the child's index.
pub proof fn results_in_item_order<V>(expected: nat, joins: Seq<(int, V)>, i: int)
    requires
        have_slots(expected, joins),
        0 <= i < joins.len(),
        forall|j: int| 0 <= j < joins.len() && j != i ==> (#[trigger] joins[j]).0 != joins[i].0,
    ensures
        placed(expected, joins).len() == expected,
        placed(expected, joins)[joins[i].0] == Some(joins[i].1),
    decreases joins.len(),
{
    let before = joins.drop_last();
    assert forall|j: int| 0 <= j < before.len() implies (#[trigger] before[j]) == joins[j] by {}
    assert(have_slots(expected, before));
    placed_len(expected, joins);
    placed_len(expected, before);
    assert(joins.last() == joins[joins.len() - 1]);
    if i < joins.len() - 1 {
        results_in_item_order(expected, before, i);
    }
}

/// A child's result is known once the child has been joined.
proof fn known_once_joined<V>(expected: nat, joins: Seq<(int, V)>, i: int)
    requires
        have_slots(expected, joins),
        0 <= i < joins.len(),
    ensures
        placed(expected, joins)[joins[i].0] is Some,
    decreases joins.len(),
{
    let before = joins.drop_last();
    assert forall|j: int| 0 <= j < before.len() implies (#[trigger] before[j]) == joins[j] by {}
    assert(have_slots(expected, before));
    placed_len(expected, before);
    assert(joins.last() == joins[joins.len() - 1]);
    if i < joins.len() - 1 {
        known_once_joined(expected, before, i);
    }
}

/// Once every child has been joined, every result is known: `position` tells
/// where the child of each index was joined.
pub proof fn all_joined_all_known<V>(
    expected: nat,
    joins: Seq<(int, V)>,
    position: spec_fn(int) -> int,
)
    requires
        have_slots(expected, joins),
        forall|n: int|
            0 <= n < expected ==> 0 <= (#[trigger] position(n)) < joins.len()
                && joins[position(n)].0 == n,
    ensures
        placed(expected, joins).len() == expected,
        all_known(placed(expected, joins)),
{
    placed_len(expected, joins);
    assert forall|n: int| 0 <= n < expected implies (#[trigger] placed(expected, joins)[n]) is Some by {
        known_once_joined(expected, joins, position(n));
    }
}

/// The change that keeps the results of a fan-out under its step key. The
/// results come as what encoding them gave: their bytes, or the text of the
/// error.
///
/// # Errors
///
/// [`EngineError::Serialization`] where encoding the results failed.
pub fn write_result(
    workflow_name: &str,
    instance_id: &str,
    fan_out_key: &str,
    results: Result<Vec<u8>, String>,
    tag: &str,
) -> (r: Result<Write, EngineError>)
    ensures
        match results {
            Err(source) => r matches Err(e) && e@ == (ErrorView::Serialization {
                key: fan_out_key@,
                source: source@,
            }),
            Ok(payload) => {
                let entry = step::own_entry(payload@, None);
                &&& r matches Ok(w)
                &&& w@ == (WriteView::PutStep {
                    key: keys::step_key(workflow_name@, instance_id@, fan_out_key@),
                    value: step::step_bytes(entry, tag@),
                })
                &&& step::holds(step::step_bytes(entry, tag@), entry, tag@)
                &&& step::status_reads_back(entry)
            },
        },
{
    match step::serialize_step(
        StepData::Completed { result: results, status: None },
        tag,
        fan_out_key,
    ) {
        Err(e) => Err(e),
        Ok(value) => Ok(
            Write::PutStep {
                key: keys::composite_key(workflow_name, instance_id, fan_out_key),
                value,
            },
        ),
    }
}

/// The kept results of a fan-out, from the row under its step key.
///
/// # Errors
///
/// As [`step::deserialize_step`] on the row.
pub fn check_cached<T, F: FnOnce(Vec<u8>) -> Result<(T, Option<String>), String>>(
    row: Option<Vec<u8>>,
    fan_out_key: &str,
    tag: &str,
    parse: F,
) -> (r: Result<Option<T>, EngineError>)
    requires
        forall|body: Vec<u8>| #[trigger] call_requires(parse, (body,)),
    ensures
        exists|read: Result<Option<StepData<T>>, EngineError>| #[trigger]
            step::row_reads_as(store::opt_row(row), tag@, fan_out_key@, parse, read) && match read {
                Err(e) => r == Err::<Option<T>, EngineError>(e),
                Ok(entry) => r == Ok::<Option<T>, EngineError>(step::result_in(entry)),
            },
{
    step::kept_result(row, tag, fan_out_key, parse)
}

/// While its status channel is open, a registered child's output is read
/// exactly when the child has completed, the fan-out waits exactly while the
/// child is neither completed nor failed, and a failure is reported with the
/// child's own message.
pub proof fn open_child_is_followed_to_its_end(s: StateView, child_id: Seq<char>)
    ensures
        child_decision(s, false, child_id) == Ok::<bool, ErrorView>(true) <==> s is Completed,
        child_decision(s, false, child_id) == Ok::<bool, ErrorView>(false) <==> !(s is Completed
            || s is Failed),
        child_decision(s, false, child_id) == Ok::<bool, ErrorView>(false)
            <==> !state::is_terminal(s),
        child_decision(s, false, child_id) is Err <==> s is Failed,
        s matches StateView::Failed(msg) ==> child_decision(s, false, child_id) == Err::<
            bool,
            ErrorView,
        >(ErrorView::StepFailed { key: child_id, source: msg, retryable: false }),
{
}

/// Once its status channel is closed, a registered child is not waited for: its
/// output is read exactly when it has completed, and any other state is a
/// failure of the child that names the state.
pub proof fn closed_child_is_never_waited_for(s: StateView, child_id: Seq<char>)
    ensures
        child_decision(s, true, child_id) != Ok::<bool, ErrorView>(false),
        child_decision(s, true, child_id) == Ok::<bool, ErrorView>(true) <==> s is Completed,
        s !is Completed ==> child_decision(s, true, child_id) == Err::<bool, ErrorView>(
            ErrorView::StepFailed {
                key: child_id,
                source: "child ended in state: "@ + state::state_text(s),
                retryable: false,
            },
        ),
{
}

/// An inline child is recorded as completed exactly where its closure succeeded
/// and its output was written; it is never recorded as suspended by an error of
/// its closure, which is a failure of the child that tells the error's text.
pub proof fn inline_child_completes_exactly_on_success(
    end: ChildEnd,
    child_id: Seq<char>,
    current: StateView,
    log: LogView,
)
    ensures
        ({
            let status = execution::final_status(child_result(end, child_id), current, log);
            &&& status is Completed <==> end is Succeeded
            &&& end matches ChildEnd::Failed(e) ==> status == StatusView::Failed(
                "step '"@ + child_id + "' failed: "@ + error::error_text(e@),
            )
            &&& end matches ChildEnd::NotWritten(e) ==> e@ !is Suspended ==> status
                == StatusView::Failed(error::error_text(e@))
        }),
{
}

/// Collecting every outcome loses none: a child's value is kept as it is, and
/// its error with the child's ID and the error's text.
pub proof fn kept_children_are_faithful<T>(result: Result<T, EngineError>, child_id: Seq<char>)
    ensures
        result matches Ok(value) ==> kept_child(result, child_id) == Ok::<T, ChildErrorView>(value),
        result matches Err(e) ==> (kept_child(result, child_id) matches Err(kept)
            && kept.instance_id == child_id && kept.message == error::error_text(e@)),
{
}

/// The results of a fan-out are what its slots hold, one for each, in order.
pub proof fn results_are_the_slots<T>(slots: Seq<Option<T>>, i: int)
    requires
        all_known(slots),
        0 <= i < slots.len(),
    ensures
        values(slots).len() == slots.len(),
        slots[i] == Some(values(slots)[i]),
{
}

/// A panic of a child is a storage error that tells the panic.
pub proof fn panics_are_told(message: Seq<char>)
    ensures
        panic_error(message) == ErrorView::Storage("child task panicked: "@ + message),
{
}

/// Collected results are told one by one, as they are.
pub proof fn collected_children_are_faithful<T>(
    slots: Seq<Option<Result<T, ChildError>>>,
    i: int,
)
    requires
        0 <= i < slots.len(),
    ensures
        children_view(slots).len() == slots.len(),
        slots[i] is None ==> children_view(slots)[i] is None,
        slots[i] matches Some(Ok(value)) ==> children_view(slots)[i] == Some(
            Ok::<T, ChildErrorView>(value),
        ),
        slots[i] matches Some(Err(e)) ==> children_view(slots)[i] == Some(
            Err::<T, ChildErrorView>(e@),
        ),
{
}

} // verus!
