//! What the parts guarantee together: laws about rows that one operation
//! writes and another one reads.

use crate::codec;
use crate::context;
use crate::context::{ContextView, SuspendView, TimerStatus};
use crate::engine;
use crate::engine::EngineView;
use crate::error::{EngineError, ErrorView};
use crate::execution;
use crate::invocation;
use crate::keys;
use crate::metadata;
use crate::metadata::StatusView;
use crate::progress::LogView;
use crate::run;
use crate::run::{BuilderView, OutcomeView, RunStepView, RunView, StartView};
use crate::state::StateView;
use crate::step;
use crate::step::{StepData, StepView};
use crate::store;
use crate::store::{Tables, WriteView};
use crate::text;
use crate::timer;
use crate::timer::TimerView;
use vstd::prelude::*;

verus! {

/// A single change is a batch of one.
proof fn commit_one(t: Tables, w: WriteView)
    ensures
        store::commit(t, seq![w]) == store::apply(t, w),
{
    reveal_with_fuel(store::commit, 2);
    assert(seq![w].drop_last() =~= Seq::empty());
}

/// Two changes are a batch of two.
proof fn commit_two(t: Tables, a: WriteView, b: WriteView)
    ensures
        store::commit(t, seq![a, b]) == store::apply(store::apply(t, a), b),
{
    reveal_with_fuel(store::commit, 3);
    assert(seq![a, b].drop_last() =~= seq![a]);
    assert(seq![a].drop_last() =~= Seq::empty());
}

/// Memoisation: once a step has succeeded and its entry is committed, running
/// the step again, in whatever context and with whatever settings, returns the
/// same result without executing the closure, and restores the status of the
/// time.
pub proof fn completed_step_is_memoised<
    T,
    F: FnOnce(Vec<u8>) -> Result<(T, Option<String>), String>,
>(
    t: Tables,
    made: RunView,
    payload: Seq<u8>,
    current: StateView,
    tag: Seq<char>,
    write: WriteView,
    again: BuilderView,
    ctx: ContextView,
    parse: F,
    value: T,
    read: Result<Option<StepData<T>>, EngineError>,
)
    requires
        run::after_attempt(made, OutcomeView::Succeeded(payload), current, tag) == (
        RunStepView::Done { write: Some(write), result: Ok(()) }),
        step::holds(
            write->PutStep_value,
            step::own_entry(payload, context::status_message(current)),
            tag,
        ),
        again.key == made.key,
        made.row_key == keys::step_key(ctx.workflow_name, ctx.instance_id, again.key),
        step::parses(parse, payload, context::status_message(current), value),
        step::row_reads_as(
            store::row(
                store::commit(t, seq![write]).steps,
                keys::step_key(ctx.workflow_name, ctx.instance_id, again.key),
            ),
            tag,
            again.key,
            parse,
            read,
        ),
    ensures
        read matches Ok(entry) && run::start_decision(again, ctx, entry) == (
            ctx,
            StartView::Cached {
                result: value,
                update: context::restored(context::status_message(current)),
            },
        ),
{
    commit_one(t, write);
    let entry = step::own_entry(payload, context::status_message(current));
    step::completed_reads_as(write->PutStep_value, entry, tag, again.key, parse, value, read);
}

/// A completed entry is final: no operation replaces it, whatever type of
/// result it expects and whatever the instance's metadata row is. A step does
/// not execute, a suspend point is not entered, a timer is not set, and a claim
/// is refused: it is superseded where the entry was claimed before, and rejected
/// where it completed by itself.
pub proof fn completed_entry_is_final<
    T,
    F: FnOnce(Vec<u8>) -> Result<(T, Option<String>), String>,
>(
    row: Seq<u8>,
    entry: StepView,
    written: Seq<char>,
    tag: Seq<char>,
    b: BuilderView,
    ctx: ContextView,
    status: Option<Seq<char>>,
    meta_row: Option<Seq<u8>>,
    parse: F,
    read: Result<Option<StepData<T>>, EngineError>,
)
    requires
        entry is Completed,
        step::holds(row, entry, written),
        step::row_reads_as(Some(row), tag, b.key, parse, read),
    ensures
        read matches Ok(found) ==> run::start_decision(b, ctx, found).1 !is Execute
            && context::suspend_decision(ctx, b.key, status, tag, found).1 !is Entered,
        context::timer_decision(b.key, Some(row)) != Ok::<TimerStatus, ErrorView>(
            TimerStatus::Unset,
        ),
        execution::claim_decision(
            ctx.workflow_name,
            ctx.instance_id,
            b.key,
            Some(row),
            meta_row,
        ) == Err::<(), ErrorView>(
            if entry->claimed {
                ErrorView::SignalSuperseded { key: b.key }
            } else {
                ErrorView::SignalRejected { key: b.key, reason: execution::STEP_NOT_SUSPENDED@ }
            },
        ),
{
    if written == tag {
        step::row_reads_back(row, entry, tag, b.key);
    } else {
        step::other_type_is_mismatch(row, entry, written, tag, b.key);
    }
    if written == step::UNIT_TYPE@ {
        step::row_reads_back(row, entry, written, b.key);
    } else {
        step::other_type_is_mismatch(row, entry, written, step::UNIT_TYPE@, b.key);
    }
}

/// A dead letter does not stick: running a step again whose error was
/// recorded executes its closure, from the first attempt of a fresh budget.
pub proof fn dead_letter_reexecutes<
    T,
    F: FnOnce(Vec<u8>) -> Result<(T, Option<String>), String>,
>(
    row: Seq<u8>,
    error: Seq<char>,
    tag: Seq<char>,
    again: BuilderView,
    ctx: ContextView,
    parse: F,
    read: Result<Option<StepData<T>>, EngineError>,
)
    requires
        step::holds(row, StepView::Failed { error }, tag),
        step::row_reads_as(Some(row), tag, again.key, parse, read),
    ensures
        read matches Ok(entry) && run::start_decision(again, ctx, entry) == (
            context::live(ctx),
            StartView::<T>::Execute(run::first_attempt(again, ctx)),
        ),
        run::first_attempt(again, ctx).attempt == 0,
{
    step::row_reads_back(row, StepView::Failed { error }, tag, again.key);
}

/// A regular step never bypasses a gate: where the entry under its key waits
/// for a signal, it is refused, whatever type of result it expects.
pub proof fn suspended_entry_blocks_step<
    T,
    F: FnOnce(Vec<u8>) -> Result<(T, Option<String>), String>,
>(
    row: Seq<u8>,
    written: Seq<char>,
    tag: Seq<char>,
    again: BuilderView,
    ctx: ContextView,
    parse: F,
    read: Result<Option<StepData<T>>, EngineError>,
)
    requires
        step::holds(row, StepView::Suspended, written),
        step::row_reads_as(Some(row), tag, again.key, parse, read),
    ensures
        read matches Ok(entry) && run::start_decision(again, ctx, entry) == (
            ctx,
            StartView::<T>::Failed(ErrorView::SuspendedStepConflict { key: again.key }),
        ),
{
    if written == tag {
        step::row_reads_back(row, StepView::Suspended, tag, again.key);
    } else {
        step::other_type_is_mismatch(row, StepView::Suspended, written, tag, again.key);
    }
}

/// Resuming an instance without a signal leaves it suspended at the same point,
/// with the same status as when it entered the suspension: the message that was
/// set for the suspend point, or its key. The end of the run records that
/// status again.
pub proof fn unsignalled_stays_suspended<
    T,
    F: FnOnce(Vec<u8>) -> Result<(T, Option<String>), String>,
>(
    row: Seq<u8>,
    tag: Seq<char>,
    ctx: ContextView,
    key: Seq<char>,
    status: Option<Seq<char>>,
    log: LogView,
    parse: F,
    read: Result<Option<StepData<T>>, EngineError>,
)
    requires
        step::holds(row, StepView::Suspended, tag),
        step::row_reads_as(Some(row), tag, key, parse, read),
    ensures
        ({
            let update = context::suspended_update(key, status);
            &&& read matches Ok(entry) && context::suspend_decision(
                ctx,
                key,
                status,
                tag,
                entry,
            ) == (
                ctx,
                SuspendView::<T>::Waiting { update, error: ErrorView::Suspended { key } },
            )
            &&& context::suspend_decision::<T>(ctx, key, status, tag, None).1
                matches SuspendView::Entered { update: first, .. } && first == update
            &&& execution::final_status(
                Err(ErrorView::Suspended { key }),
                update.state,
                log,
            ) == (
            StatusView::Suspended { key, status: context::suspend_message(key, status) })
        }),
{
    step::row_reads_back(row, StepView::Suspended, tag, key);
}

/// A suspended step is claimed at most once: after a claim is committed, the
/// step's row is the claim's, and every further claim of the step is superseded,
/// whatever payload it brings and whatever has become of the instance since.
pub proof fn second_claim_is_superseded(
    t: Tables,
    workflow: Seq<char>,
    instance: Seq<char>,
    key: Seq<char>,
    payload: Seq<u8>,
    tag: Seq<char>,
    meta_row: Option<Seq<u8>>,
)
    requires
        execution::claim_is_final(
            workflow,
            instance,
            key,
            step::step_bytes(step::claimed_entry(payload), tag),
        ),
    ensures
        ({
            let value = step::step_bytes(step::claimed_entry(payload), tag);
            let writes = execution::claim_writes(workflow, instance, key, value);
            let row = store::row(
                store::commit(t, writes).steps,
                keys::step_key(workflow, instance, key),
            );
            &&& row == Some(value)
            &&& execution::claim_decision(workflow, instance, key, row, meta_row) == Err::<
                (),
                ErrorView,
            >(ErrorView::SignalSuperseded { key })
        }),
{
    let value = step::step_bytes(step::claimed_entry(payload), tag);
    let writes = execution::claim_writes(workflow, instance, key, value);
    commit_two(t, writes[0], writes[1]);
    assert(writes =~= seq![writes[0], writes[1]]);
    assert(execution::claim_decision(workflow, instance, key, Some(value), meta_row) is Err);
}

/// A claim of one step blocks the claims of all other steps of the instance
/// until it suspends again: the instance is then running.
pub proof fn claim_ends_suspension(
    t: Tables,
    workflow: Seq<char>,
    instance: Seq<char>,
    key: Seq<char>,
    bytes: Seq<u8>,
    other: Seq<char>,
)
    requires
        metadata::reads_back(execution::running()),
    ensures
        ({
            let after = store::commit(
                t,
                execution::claim_writes(workflow, instance, key, bytes),
            );
            execution::claim_decision(
                workflow,
                instance,
                other,
                store::row(after.steps, keys::step_key(workflow, instance, other)),
                store::row(after.meta, keys::meta_key(workflow, instance)),
            ) is Err
        }),
{
    let writes = execution::claim_writes(workflow, instance, key, bytes);
    commit_two(t, writes[0], writes[1]);
    assert(writes =~= seq![writes[0], writes[1]]);
}

/// A signal reaches its suspend point: once the claim is committed, the
/// suspend point returns the payload, and the instance is no longer replaying.
pub proof fn signalled_payload_is_received<
    T,
    F: FnOnce(Vec<u8>) -> Result<(T, Option<String>), String>,
>(
    t: Tables,
    ctx: ContextView,
    key: Seq<char>,
    payload: Seq<u8>,
    tag: Seq<char>,
    bytes: Seq<u8>,
    status: Option<Seq<char>>,
    parse: F,
    value: T,
    read: Result<Option<StepData<T>>, EngineError>,
)
    requires
        step::holds(bytes, step::claimed_entry(payload), tag),
        step::parses(parse, payload, None, value),
        step::row_reads_as(
            store::row(
                store::commit(
                    t,
                    execution::claim_writes(ctx.workflow_name, ctx.instance_id, key, bytes),
                ).steps,
                keys::step_key(ctx.workflow_name, ctx.instance_id, key),
            ),
            tag,
            key,
            parse,
            read,
        ),
    ensures
        read matches Ok(entry) && context::suspend_decision(ctx, key, status, tag, entry) == (
            context::live(ctx),
            SuspendView::Resumed { result: value, restore: None },
        ),
{
    let writes = execution::claim_writes(ctx.workflow_name, ctx.instance_id, key, bytes);
    commit_two(t, writes[0], writes[1]);
    assert(writes =~= seq![writes[0], writes[1]]);
    step::completed_reads_as(
        bytes,
        step::claimed_entry(payload),
        tag,
        key,
        parse,
        value,
        read,
    );
}

/// A signal with a payload of another type than the suspend point expects is
/// found out: the suspend point fails with a type mismatch.
pub proof fn signal_of_other_type_is_mismatch<
    T,
    F: FnOnce(Vec<u8>) -> Result<(T, Option<String>), String>,
>(
    bytes: Seq<u8>,
    payload: Seq<u8>,
    sent: Seq<char>,
    expected: Seq<char>,
    key: Seq<char>,
    parse: F,
    read: Result<Option<StepData<T>>, EngineError>,
)
    requires
        step::holds(bytes, step::claimed_entry(payload), sent),
        sent != expected,
        step::row_reads_as(Some(bytes), expected, key, parse, read),
    ensures
        read matches Err(e) && e@ == (ErrorView::TypeMismatch { key, expected, found: sent }),
{
    step::other_type_is_mismatch(
        bytes,
        step::claimed_entry(payload),
        sent,
        expected,
        key,
    );
}

/// A fired timer lets its step pass: once its claim is committed, the step
/// finds that the timer has fired.
pub proof fn fired_timer_passes(t: Tables, entry: TimerView, bytes: Seq<u8>)
    requires
        keys::is_step_key(entry.step_key),
        step::holds(bytes, execution::fired_entry(), step::UNIT_TYPE@),
        step::status_reads_back(execution::fired_entry()),
    ensures
        ({
            let after = store::commit(
                t,
                execution::claim_writes(
                    entry.workflow_name,
                    entry.instance_id,
                    entry.step_key,
                    bytes,
                ),
            );
            context::timer_decision(
                entry.step_key,
                store::row(
                    after.steps,
                    keys::step_key(entry.workflow_name, entry.instance_id, entry.step_key),
                ),
            ) == Ok::<TimerStatus, ErrorView>(TimerStatus::Fired)
        }),
{
    let writes = execution::claim_writes(
        entry.workflow_name,
        entry.instance_id,
        entry.step_key,
        bytes,
    );
    commit_two(t, writes[0], writes[1]);
    assert(writes =~= seq![writes[0], writes[1]]);
    step::row_reads_back(bytes, execution::fired_entry(), step::UNIT_TYPE@, entry.step_key);
    let none: Option<Seq<char>> = None;
    let body = step::completed_body(Seq::empty(), none);
    assert(body =~= codec::opt_text_bytes(none) + Seq::empty());
    assert(codec::opt_text_read(codec::opt_text_bytes(none) + Seq::empty()) == codec::read_ok(
        none,
        Seq::empty(),
    ));
}

/// A timer that is set waits: until it is claimed, its step suspends the
/// workflow again.
pub proof fn armed_timer_waits(row: Seq<u8>, key: Seq<char>)
    requires
        keys::is_step_key(key),
        step::holds(row, StepView::Suspended, step::UNIT_TYPE@),
    ensures
        context::timer_decision(key, Some(row)) == Err::<TimerStatus, ErrorView>(
            ErrorView::Suspended { key },
        ),
{
    step::row_reads_back(row, StepView::Suspended, step::UNIT_TYPE@, key);
}

/// A timer expires when its duration has passed, to the millisecond, and not
/// before.
pub proof fn timer_expires_on_time(now_ms: u64, duration: nat, serial: u64, later_ms: u64)
    requires
        context::deadline(now_ms as nat, duration) <= u64::MAX,
    ensures
        timer::is_expired(
            (context::deadline(now_ms as nat, duration) as u64, serial),
            later_ms,
        ) <==> later_ms >= now_ms + duration / 1_000_000,
{
}

/// Instances do not disturb each other: writing a step's row changes no row of
/// another step, instance or workflow.
pub proof fn step_writes_are_isolated(
    t: Tables,
    w1: Seq<char>,
    i1: Seq<char>,
    s1: Seq<char>,
    value: Seq<u8>,
    w2: Seq<char>,
    i2: Seq<char>,
    s2: Seq<char>,
)
    requires
        keys::is_component(w1),
        keys::is_component(w2),
        keys::is_component(s1),
        keys::is_component(s2),
        w1 != w2 || i1 != i2 || s1 != s2,
    ensures
        ({
            let after = store::apply(
                t,
                WriteView::PutStep { key: keys::step_key(w1, i1, s1), value },
            );
            store::row(after.steps, keys::step_key(w2, i2, s2)) == store::row(
                t.steps,
                keys::step_key(w2, i2, s2),
            )
        }),
{
    if keys::step_key(w1, i1, s1) == keys::step_key(w2, i2, s2) {
        keys::step_keys_distinct(w1, i1, s1, w2, i2, s2);
    }
}

/// Whether a change is one of the step row under the given key.
pub open spec fn touches_step(w: WriteView, key: Seq<char>) -> bool {
    match w {
        WriteView::PutStep { key: k, .. } => k == key,
        WriteView::RemoveStep { key: k } => k == key,
        _ => false,
    }
}

/// What is kept stays kept: a step row is as it was after any number of changes
/// of other rows.
pub proof fn untouched_step_stays(t: Tables, batch: Seq<WriteView>, key: Seq<char>)
    requires
        forall|i: int| 0 <= i < batch.len() ==> !touches_step(#[trigger] batch[i], key),
    ensures
        store::row(store::commit(t, batch).steps, key) == store::row(t.steps, key),
    decreases batch.len(),
{
    if batch.len() > 0 {
        let before = batch.drop_last();
        assert forall|i: int| 0 <= i < before.len() implies !touches_step(
            #[trigger] before[i],
            key,
        ) by {
            assert(before[i] == batch[i]);
        }
        untouched_step_stays(t, before, key);
        assert(!touches_step(batch[batch.len() - 1], key));
    }
}

/// The key of a user's step never names the rows that the engine keeps for
/// input and output.
pub proof fn reserved_rows_are_safe(
    w1: Seq<char>,
    i1: Seq<char>,
    key: Seq<char>,
    w2: Seq<char>,
    i2: Seq<char>,
)
    requires
        keys::is_component(w1),
        keys::is_component(w2),
        keys::is_step_key(key),
    ensures
        keys::step_key(w1, i1, key) != keys::step_key(w2, i2, keys::INPUT_KEY@),
        keys::step_key(w1, i1, key) != keys::step_key(w2, i2, keys::OUTPUT_KEY@),
{
    reveal_strlit("_input");
    reveal_strlit("_output");
    assert(keys::INPUT_KEY@[0] == '_' && keys::OUTPUT_KEY@[0] == '_');
    assert(keys::is_component(keys::INPUT_KEY@)) by {
        assert forall|i: int| 0 <= i < keys::INPUT_KEY@.len() implies keys::INPUT_KEY@[i]
            != '/' by {}
    }
    assert(keys::is_component(keys::OUTPUT_KEY@)) by {
        assert forall|i: int| 0 <= i < keys::OUTPUT_KEY@.len() implies keys::OUTPUT_KEY@[i]
            != '/' by {}
    }
    if keys::step_key(w1, i1, key) == keys::step_key(w2, i2, keys::INPUT_KEY@) {
        keys::step_keys_distinct(w1, i1, key, w2, i2, keys::INPUT_KEY@);
    }
    if keys::step_key(w1, i1, key) == keys::step_key(w2, i2, keys::OUTPUT_KEY@) {
        keys::step_keys_distinct(w1, i1, key, w2, i2, keys::OUTPUT_KEY@);
    }
}

/// An instance that was interrupted is recorded as running, from its spawning
/// until a run of it is settled; a start then resumes it.
pub proof fn spawned_instance_is_recorded(
    t: Tables,
    workflow: Seq<char>,
    instance: Seq<char>,
    input: Option<Seq<u8>>,
)
    requires
        metadata::reads_back(execution::running()),
    ensures
        ({
            let after = store::commit(t, engine::spawn_writes(workflow, instance, input));
            store::row(after.meta, keys::meta_key(workflow, instance)) matches Some(row)
                && metadata::read_metadata_row(row) matches Ok(meta) && meta.status is Running
        }),
{
    let writes = engine::spawn_writes(workflow, instance, input);
    match input {
        Some(row) => {
            commit_two(t, writes[0], writes[1]);
            assert(writes =~= seq![writes[0], writes[1]]);
        },
        None => {
            commit_one(t, writes[0]);
            assert(writes =~= seq![writes[0]]);
        },
    }
}

/// Resuming an instance keeps its input and every step that it completed: no
/// step row changes.
pub proof fn resume_keeps_steps(t: Tables, workflow: Seq<char>, instance: Seq<char>)
    ensures
        store::commit(t, engine::spawn_writes(workflow, instance, None)).steps == t.steps,
{
    let writes = engine::spawn_writes(workflow, instance, None);
    commit_one(t, writes[0]);
    assert(writes =~= seq![writes[0]]);
}

/// The input that an instance is invoked with is the one that it reads, in its
/// first run and whenever it is resumed.
pub proof fn input_is_delivered<T, F: FnOnce(Vec<u8>) -> Result<(T, Option<String>), String>>(
    t: Tables,
    workflow: Seq<char>,
    instance: Seq<char>,
    payload: Seq<u8>,
    tag: Seq<char>,
    row: Seq<u8>,
    parse: F,
    value: T,
    read: Result<Option<StepData<T>>, EngineError>,
)
    requires
        step::holds(row, invocation::input_entry(payload), tag),
        step::parses(parse, payload, None, value),
        step::row_reads_as(
            store::row(
                store::commit(
                    store::commit(t, engine::spawn_writes(workflow, instance, Some(row))),
                    engine::spawn_writes(workflow, instance, None),
                ).steps,
                keys::step_key(workflow, instance, keys::INPUT_KEY@),
            ),
            tag,
            keys::INPUT_KEY@,
            parse,
            read,
        ),
    ensures
        read matches Ok(entry) && step::result_in(entry) == Some(value),
{
    let first = engine::spawn_writes(workflow, instance, Some(row));
    let started = store::commit(t, first);
    commit_two(t, first[0], first[1]);
    assert(first =~= seq![first[0], first[1]]);
    resume_keeps_steps(started, workflow, instance);
    let key = keys::INPUT_KEY@;
    step::completed_reads_as(
        row,
        invocation::input_entry(payload),
        tag,
        key,
        parse,
        value,
        read,
    );
}

/// Listing the instances of a workflow finds those of this workflow and of no
/// other.
pub proof fn listing_is_exact(
    workflow: Seq<char>,
    other_workflow: Seq<char>,
    instance: Seq<char>,
)
    requires
        keys::is_component(workflow),
        keys::is_component(other_workflow),
    ensures
        keys::in_range(
            keys::meta_key(other_workflow, instance),
            keys::range_start(workflow),
            keys::range_end(workflow),
        ) <==> workflow == other_workflow,
{
    let key = keys::meta_key(other_workflow, instance);
    let start = keys::range_start(workflow);
    keys::child_range_is_prefix(workflow, key);
    if text::has_prefix(key, start) {
        let rest = key.skip(start.len() as int);
        assert(key =~= workflow + seq!['/'] + rest);
        keys::meta_keys_distinct(workflow, rest, other_workflow, instance);
    }
    if workflow == other_workflow {
        assert(key.take(start.len() as int) =~= start);
    }
}

/// The state that is announced when a run ends is the one that its metadata
/// records: once the settlement is committed, a query finds it there.
pub proof fn announced_state_is_recorded(
    t: Tables,
    workflow: Seq<char>,
    instance: Seq<char>,
    status: StatusView,
    now_secs: u64,
)
    requires
        metadata::reads_back(metadata::record_at(status, now_secs)),
    ensures
        ({
            let key = keys::meta_key(workflow, instance);
            let value = metadata::metadata_bytes(metadata::record_at(status, now_secs));
            let after = store::commit(t, seq![WriteView::PutMeta { key, value }]);
            store::row(after.meta, key) matches Some(row) && metadata::read_metadata_row(
                row,
            ) matches Ok(meta) && metadata::recorded_state(meta.status)
                == metadata::recorded_state(status)
        }),
{
    let key = keys::meta_key(workflow, instance);
    let value = metadata::metadata_bytes(metadata::record_at(status, now_secs));
    commit_one(t, WriteView::PutMeta { key, value });
}

/// An engine that is not started, or stopped, spawns nothing.
pub proof fn stopped_engine_spawns_nothing(engine: EngineView, workflow: Seq<char>)
    requires
        !engine.running,
    ensures
        engine::spawn_refused(engine, workflow) == Some(ErrorView::NotStarted),
{
}

/// A claim changes the rows of its step and of its instance's record, and no
/// other: the step's row is the claim's, and the instance is recorded as
/// running.
pub proof fn claim_changes_two_rows(
    t: Tables,
    workflow: Seq<char>,
    instance: Seq<char>,
    key: Seq<char>,
    value: Seq<u8>,
    other: Seq<char>,
)
    requires
        metadata::reads_back(execution::running()),
    ensures
        ({
            let after = store::commit(
                t,
                execution::claim_writes(workflow, instance, key, value),
            );
            let step = workflow + seq!['/'] + instance + seq!['/'] + key;
            let record = workflow + seq!['/'] + instance;
            &&& store::row(after.steps, step) == Some(value)
            &&& store::row(after.meta, record) matches Some(row) && (metadata::read_metadata_row(
                row,
            ) matches Ok(meta) && meta.status is Running && meta.completed_at is None)
            &&& other != step ==> store::row(after.steps, other) == store::row(t.steps, other)
            &&& other != record ==> store::row(after.meta, other) == store::row(t.meta, other)
            &&& after.timers == t.timers
        }),
{
    let writes = execution::claim_writes(workflow, instance, key, value);
    commit_two(t, writes[0], writes[1]);
    assert(writes =~= seq![writes[0], writes[1]]);
}

/// Spawning an instance changes its own record and, where it has an input, the
/// row of its input, and nothing else.
pub proof fn spawn_changes_own_rows_only(
    t: Tables,
    workflow: Seq<char>,
    instance: Seq<char>,
    input: Option<Seq<u8>>,
    other: Seq<char>,
)
    ensures
        ({
            let after = store::commit(t, engine::spawn_writes(workflow, instance, input));
            let record = workflow + seq!['/'] + instance;
            let own = record + seq!['/'] + "_input"@;
            &&& other != record ==> store::row(after.meta, other) == store::row(t.meta, other)
            &&& input is None || other != own ==> store::row(after.steps, other) == store::row(
                t.steps,
                other,
            )
            &&& input matches Some(row) ==> store::row(after.steps, own) == Some(row)
            &&& after.timers == t.timers
        }),
{
    let writes = engine::spawn_writes(workflow, instance, input);
    match input {
        Some(_) => {
            commit_two(t, writes[0], writes[1]);
            assert(writes =~= seq![writes[0], writes[1]]);
        },
        None => {
            commit_one(t, writes[0]);
            assert(writes =~= seq![writes[0]]);
        },
    }
}

/// A change of a row is read back, and a removed row is gone; every other row
/// stays.
pub proof fn changes_are_read_back(
    t: Tables,
    key: Seq<char>,
    value: Seq<u8>,
    at: (u64, u64),
    other: Seq<char>,
    elsewhen: (u64, u64),
)
    requires
        other != key,
        elsewhen != at,
    ensures
        ({
            let step = store::apply(t, WriteView::PutStep { key, value });
            let meta = store::apply(t, WriteView::PutMeta { key, value });
            let timer = store::apply(
                t,
                WriteView::PutTimer { deadline: at.0, serial: at.1, value },
            );
            let no_step = store::apply(t, WriteView::RemoveStep { key });
            let no_meta = store::apply(t, WriteView::RemoveMeta { key });
            let no_timer = store::apply(
                t,
                WriteView::RemoveTimer { deadline: at.0, serial: at.1 },
            );
            &&& store::row(step.steps, key) == Some(value)
            &&& store::row(step.steps, other) == store::row(t.steps, other)
            &&& step.meta == t.meta && step.timers == t.timers
            &&& store::row(meta.meta, key) == Some(value)
            &&& store::row(meta.meta, other) == store::row(t.meta, other)
            &&& meta.steps == t.steps && meta.timers == t.timers
            &&& store::row(timer.timers, at) == Some(value)
            &&& store::row(timer.timers, elsewhen) == store::row(t.timers, elsewhen)
            &&& timer.steps == t.steps && timer.meta == t.meta
            &&& store::row(no_step.steps, key) is None
            &&& store::row(no_step.steps, other) == store::row(t.steps, other)
            &&& no_step.meta == t.meta && no_step.timers == t.timers
            &&& store::row(no_meta.meta, key) is None
            &&& store::row(no_meta.meta, other) == store::row(t.meta, other)
            &&& no_meta.steps == t.steps && no_meta.timers == t.timers
            &&& store::row(no_timer.timers, at) is None
            &&& store::row(no_timer.timers, elsewhen) == store::row(t.timers, elsewhen)
            &&& no_timer.steps == t.steps && no_timer.meta == t.meta
        }),
{
}

} // verus!
