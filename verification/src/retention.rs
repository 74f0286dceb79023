//! Retention: which instances are past their time, and what is deleted of
//! them.

use crate::duration;
use crate::duration::Duration;
use crate::error::{EngineError, ErrorView};
use crate::keys;
use crate::metadata;
use crate::metadata::{MetadataView, WorkflowMetadata};
use crate::seqs;
use crate::store;
use crate::store::{Tables, Write, WriteView};
use crate::text;
use crate::textmap::TextMap;
use crate::timer;
use crate::timer::{TimerEntry, TimerRow, TimerView};
use vstd::prelude::*;

verus! {

/// A row of the metadata table: its key and the encoded record.
pub type MetaRow = (String, Vec<u8>);

/// How long the instances of a workflow are kept, in nanoseconds: its own
/// retention, or the default.
pub open spec fn retention_for(
    retentions: Map<Seq<char>, Duration>,
    default_retention: nat,
    workflow: Seq<char>,
) -> nat {
    if retentions.contains_key(workflow) {
        retentions[workflow]@
    } else {
        default_retention
    }
}

/// Whether an instance of the given workflow is past its retention at
/// `now_secs`: it is terminal, and as many whole seconds old as its retention.
pub open spec fn past_retention(
    workflow: Seq<char>,
    meta: MetadataView,
    now_secs: u64,
    default_retention: nat,
    retentions: Map<Seq<char>, Duration>,
) -> bool {
    meta.completed_at matches Some(completed_at) && (if now_secs >= completed_at {
        now_secs - completed_at
    } else {
        0
    }) >= retention_for(retentions, default_retention, workflow) / duration::NANOS_PER_SEC as nat
}

/// Whether a metadata row with the given key and bytes is that of an instance
/// past its retention. The workflow's name is what stands before the first
/// delimiter of the key.
pub open spec fn record_expired(
    key: Seq<char>,
    bytes: Seq<u8>,
    now_secs: u64,
    default_retention: nat,
    retentions: Map<Seq<char>, Duration>,
) -> bool {
    key.contains('/') && match metadata::read_metadata_row(bytes) {
        Ok(meta) => past_retention(
            text::head(key, '/'),
            meta,
            now_secs,
            default_retention,
            retentions,
        ),
        Err(_) => false,
    }
}

/// Whether a metadata row is that of an instance past its retention.
pub open spec fn row_expired(
    row: MetaRow,
    now_secs: u64,
    default_retention: nat,
    retentions: Map<Seq<char>, Duration>,
) -> bool {
    record_expired(row.0@, row.1@, now_secs, default_retention, retentions)
}

/// The metadata rows of the instances past their retention, in the rows'
/// order.
pub open spec fn expired_rows(
    rows: Seq<MetaRow>,
    now_secs: u64,
    default_retention: nat,
    retentions: Map<Seq<char>, Duration>,
) -> Seq<MetaRow> {
    rows.filter(|row: MetaRow| row_expired(row, now_secs, default_retention, retentions))
}

/// Whether a row breaks the scan: its key is that of an instance, and it holds
/// no metadata.
pub open spec fn broken(row: MetaRow) -> bool {
    row.0@.contains('/') && metadata::read_metadata_row(row.1@) is Err
}

/// Whether `list` names the instances past their retention among the given
/// rows, in the rows' order.
pub open spec fn lists_expired(
    list: Seq<(String, String)>,
    rows: Seq<MetaRow>,
    now_secs: u64,
    default_retention: nat,
    retentions: Map<Seq<char>, Duration>,
) -> bool {
    let expired = expired_rows(rows, now_secs, default_retention, retentions);
    &&& list.len() == expired.len()
    &&& forall|i: int|
        #![trigger list[i]]
        0 <= i < list.len() ==> {
            &&& keys::is_component(list[i].0@)
            &&& expired[i].0@ == keys::meta_key(list[i].0@, list[i].1@)
        }
}

/// Collects the instances past their retention at `now_secs`, as pairs of
/// workflow name and instance ID in the rows' order.
///
/// # Errors
///
/// [`EngineError::Serialization`] under the key of the first row that holds no
/// metadata.
pub fn collect_expired_metadata(
    rows: Vec<MetaRow>,
    now_secs: u64,
    default_retention: Duration,
    workflow_retentions: &TextMap<Duration>,
) -> (r: Result<Vec<(String, String)>, EngineError>)
    ensures
        match r {
            Ok(list) => {
                &&& forall|i: int| 0 <= i < rows@.len() ==> !broken(#[trigger] rows@[i])
                &&& lists_expired(
                    list@,
                    rows@,
                    now_secs,
                    default_retention@,
                    workflow_retentions@,
                )
            },
            Err(e) => exists|i: int|
                0 <= i < rows@.len() && #[trigger] broken(rows@[i]) && (forall|j: int|
                    0 <= j < i ==> !broken(#[trigger] rows@[j])) && e@ == (
                ErrorView::Serialization {
                    key: rows@[i].0@,
                    source: metadata::read_metadata_row(rows@[i].1@)->Err_0,
                }),
        },
{
    let mut list: Vec<(String, String)> = Vec::new();
    let ghost pred = |row: MetaRow|
        row_expired(row, now_secs, default_retention@, workflow_retentions@);
    let mut i: usize = 0;
    while i < rows.len()
        invariant
            i <= rows@.len(),
            pred == (|row: MetaRow|
                row_expired(row, now_secs, default_retention@, workflow_retentions@)),
            forall|j: int| 0 <= j < i ==> !broken(#[trigger] rows@[j]),
            list@.len() == rows@.take(i as int).filter(pred).len(),
            forall|j: int|
                #![trigger list@[j]]
                0 <= j < list@.len() ==> {
                    &&& keys::is_component(list@[j].0@)
                    &&& rows@.take(i as int).filter(pred)[j].0@ == keys::meta_key(
                        list@[j].0@,
                        list@[j].1@,
                    )
                },
        decreases rows@.len() - i,
    {
        proof {
            seqs::filter_next(rows@, pred, i as int);
        }
        let (full_key, bytes) = &rows[i];
        if let Some((workflow_name, instance_id)) = text::split_once(full_key, '/') {
            proof {
                text::head_of_split(workflow_name@, '/', instance_id@);
                assert(full_key@[workflow_name@.len() as int] == '/');
            }
            match WorkflowMetadata::decode(bytes.as_slice()) {
                Err(source) => {
                    assert(broken(rows@[i as int]));
                    return Err(EngineError::Serialization { key: full_key.clone(), source });
                },
                Ok(meta) => {
                    if let Some(completed_at) = meta.completed_at() {
                        let retention = match workflow_retentions.get(&workflow_name) {
                            Some(d) => *d,
                            None => default_retention,
                        };
                        let age_secs: u64 = now_secs.saturating_sub(completed_at);
                        if age_secs >= retention.as_secs() {
                            list.push((workflow_name, instance_id));
                        }
                    }
                },
            }
        }
        i = i + 1;
    }
    assert(rows@.take(i as int) =~= rows@);
    Ok(list)
}

/// Whether a timer row with the given bytes is that of the given instance. A
/// row that holds no entry is nobody's.
pub open spec fn is_timer_of(bytes: Seq<u8>, workflow: Seq<char>, instance: Seq<char>) -> bool {
    timer::read_timer(bytes) matches Ok(entry) && entry.workflow_name == workflow
        && entry.instance_id == instance
}

/// The removals of the given step rows.
pub open spec fn step_removals(step_keys: Seq<String>) -> Seq<WriteView> {
    step_keys.map_values(|key: String| WriteView::RemoveStep { key: key@ })
}

/// The removals of the timers of an instance among the given rows.
pub open spec fn timer_removals(
    rows: Seq<TimerRow>,
    workflow: Seq<char>,
    instance: Seq<char>,
) -> Seq<WriteView> {
    rows.filter(|row: TimerRow| is_timer_of(row.1@, workflow, instance)).map_values(
        |row: TimerRow| WriteView::RemoveTimer { deadline: row.0.0, serial: row.0.1 },
    )
}

/// The changes that delete an instance: its metadata row, its step rows, and
/// its timers.
pub open spec fn deletion(
    workflow: Seq<char>,
    instance: Seq<char>,
    step_keys: Seq<String>,
    timer_rows: Seq<TimerRow>,
) -> Seq<WriteView> {
    seq![WriteView::RemoveMeta { key: keys::meta_key(workflow, instance) }] + step_removals(
        step_keys,
    ) + timer_removals(timer_rows, workflow, instance)
}

/// Deletes all data of an instance, given the keys of the step rows in its key
/// range and the rows of the timer table: the changes to make in the
/// transaction that read them.
#[must_use]
pub fn delete_instance_data(
    workflow_name: &str,
    instance_id: &str,
    step_keys: Vec<String>,
    timer_rows: Vec<TimerRow>,
) -> (writes: Vec<Write>)
    ensures
        store::batch_view(writes@) == deletion(
            workflow_name@,
            instance_id@,
            step_keys@,
            timer_rows@,
        ),
{
    let mut writes: Vec<Write> = Vec::new();
    writes.push(Write::RemoveMeta { key: keys::metadata_key(workflow_name, instance_id) });
    let ghost first = seq![
        WriteView::RemoveMeta { key: keys::meta_key(workflow_name@, instance_id@) },
    ];
    assert(store::batch_view(writes@) =~= first);
    let mut i: usize = 0;
    while i < step_keys.len()
        invariant
            i <= step_keys@.len(),
            store::batch_view(writes@) == first + step_removals(step_keys@.take(i as int)),
        decreases step_keys@.len() - i,
    {
        let ghost batch = store::batch_view(writes@);
        let key = step_keys[i].clone();
        writes.push(Write::RemoveStep { key });
        proof {
            assert(store::batch_view(writes@) =~= batch.push(WriteView::RemoveStep { key: key@ }));
            assert(step_removals(step_keys@.take(i + 1)) =~= step_removals(
                step_keys@.take(i as int),
            ).push(WriteView::RemoveStep { key: key@ }));
            assert(store::batch_view(writes@) =~= first + step_removals(step_keys@.take(i + 1)));
        }
        i = i + 1;
    }
    assert(step_keys@.take(i as int) =~= step_keys@);
    let ghost kept = first + step_removals(step_keys@);
    let ghost pred = |row: TimerRow| is_timer_of(row.1@, workflow_name@, instance_id@);
    let mut j: usize = 0;
    assert(timer_removals(timer_rows@.take(0), workflow_name@, instance_id@) =~= Seq::empty());
    assert(kept + Seq::empty() =~= kept);
    while j < timer_rows.len()
        invariant
            j <= timer_rows@.len(),
            pred == (|row: TimerRow| is_timer_of(row.1@, workflow_name@, instance_id@)),
            store::batch_view(writes@) == kept + timer_removals(
                timer_rows@.take(j as int),
                workflow_name@,
                instance_id@,
            ),
        decreases timer_rows@.len() - j,
    {
        proof {
            seqs::filter_next(timer_rows@, pred, j as int);
        }
        let ghost batch = store::batch_view(writes@);
        let ghost done = timer_removals(timer_rows@.take(j as int), workflow_name@, instance_id@);
        let ghost next = timer_removals(timer_rows@.take(j + 1), workflow_name@, instance_id@);
        let key = timer_rows[j].0;
        if let Ok(entry) = TimerEntry::decode(timer_rows[j].1.as_slice()) {
            if text::same_text(&entry.workflow_name, workflow_name) && text::same_text(
                &entry.instance_id,
                instance_id,
            ) {
                writes.push(Write::RemoveTimer { deadline: key.0, serial: key.1 });
                proof {
                    let w = WriteView::RemoveTimer { deadline: key.0, serial: key.1 };
                    assert(store::batch_view(writes@) =~= batch.push(w));
                    assert(next =~= done.push(w));
                    assert(kept + next =~= (kept + done).push(w));
                }
            }
        }
        j = j + 1;
    }
    assert(timer_rows@.take(j as int) =~= timer_rows@);
    writes
}

/// How many of the deletions succeeded.
#[must_use]
pub fn count_cleaned(outcomes: &Vec<Result<(), EngineError>>) -> (cleaned: u32)
    requires
        outcomes@.len() <= u32::MAX,
    ensures
        cleaned == outcomes@.filter(|o: Result<(), EngineError>| o is Ok).len(),
{
    let mut cleaned: u32 = 0;
    let ghost pred = |o: Result<(), EngineError>| o is Ok;
    let mut i: usize = 0;
    while i < outcomes.len()
        invariant
            i <= outcomes@.len() <= u32::MAX,
            pred == (|o: Result<(), EngineError>| o is Ok),
            cleaned == outcomes@.take(i as int).filter(pred).len(),
            cleaned <= i,
        decreases outcomes@.len() - i,
    {
        proof {
            seqs::filter_next(outcomes@, pred, i as int);
        }
        if outcomes[i].is_ok() {
            cleaned = cleaned + 1;
        }
        i = i + 1;
    }
    assert(outcomes@.take(i as int) =~= outcomes@);
    cleaned
}

/// Only terminal instances are ever past their retention: what is running or
/// suspended is never deleted.
pub proof fn only_terminal_expires(
    workflow: Seq<char>,
    status: metadata::StatusView,
    recorded_at: u64,
    now_secs: u64,
    default_retention: nat,
    retentions: Map<Seq<char>, Duration>,
)
    ensures
        past_retention(
            workflow,
            metadata::record_at(status, recorded_at),
            now_secs,
            default_retention,
            retentions,
        ) ==> metadata::is_terminal(status),
{
}

/// Making two batches of changes one after the other is making them at once.
proof fn commit_twice(t: Tables, a: Seq<WriteView>, b: Seq<WriteView>)
    ensures
        store::commit(t, a + b) == store::commit(store::commit(t, a), b),
    decreases b.len(),
{
    if b.len() == 0 {
        assert(a + b =~= a);
    } else {
        commit_twice(t, a, b.drop_last());
        assert((a + b).drop_last() =~= a + b.drop_last());
        assert((a + b).last() == b.last());
    }
}

/// Removing step rows leaves the other step rows and the other tables alone.
proof fn commit_step_removals(t: Tables, step_keys: Seq<String>)
    ensures
        ({
            let after = store::commit(t, step_removals(step_keys));
            &&& after.meta == t.meta
            &&& after.timers == t.timers
            &&& forall|k: Seq<char>| #[trigger]
                after.steps.contains_key(k) <==> t.steps.contains_key(k) && !(exists|i: int|
                    0 <= i < step_keys.len() && (#[trigger] step_keys[i])@ == k)
            &&& forall|k: Seq<char>| #[trigger]
                after.steps.contains_key(k) ==> after.steps[k] == t.steps[k]
        }),
    decreases step_keys.len(),
{
    if step_keys.len() > 0 {
        let before = step_keys.drop_last();
        commit_step_removals(t, before);
        assert(step_removals(step_keys).drop_last() =~= step_removals(before));
        let last = step_keys.last();
        assert(step_removals(step_keys).last() == WriteView::RemoveStep { key: last@ });
        let mid = store::commit(t, step_removals(before));
        let after = store::commit(t, step_removals(step_keys));
        assert(after == store::apply(mid, WriteView::RemoveStep { key: last@ }));
        assert forall|k: Seq<char>| #[trigger]
            after.steps.contains_key(k) <==> t.steps.contains_key(k) && !(exists|i: int|
                0 <= i < step_keys.len() && (#[trigger] step_keys[i])@ == k) by {
            assert(after.steps.contains_key(k) <==> mid.steps.contains_key(k) && k != last@);
            if exists|i: int| 0 <= i < before.len() && (#[trigger] before[i])@ == k {
                let i = choose|i: int| 0 <= i < before.len() && (#[trigger] before[i])@ == k;
                assert(step_keys[i]@ == k);
            }
            if k == last@ {
                assert(step_keys[step_keys.len() - 1]@ == k);
            }
            if exists|i: int| 0 <= i < step_keys.len() && (#[trigger] step_keys[i])@ == k {
                let i = choose|i: int| 0 <= i < step_keys.len() && (#[trigger] step_keys[i])@ == k;
                if i < before.len() {
                    assert(before[i]@ == k);
                }
            }
        }
    }
}

/// Removing the timers of an instance leaves the other timers and the other
/// tables alone.
proof fn commit_timer_removals(
    t: Tables,
    rows: Seq<TimerRow>,
    workflow: Seq<char>,
    instance: Seq<char>,
)
    ensures
        ({
            let after = store::commit(t, timer_removals(rows, workflow, instance));
            &&& after.meta == t.meta
            &&& after.steps == t.steps
            &&& forall|k: (u64, u64)| #[trigger]
                after.timers.contains_key(k) <==> t.timers.contains_key(k) && !(exists|i: int|
                    0 <= i < rows.len() && (#[trigger] rows[i]).0 == k && is_timer_of(
                        rows[i].1@,
                        workflow,
                        instance,
                    ))
            &&& forall|k: (u64, u64)| #[trigger]
                after.timers.contains_key(k) ==> after.timers[k] == t.timers[k]
        }),
    decreases rows.len(),
{
    let pred = |row: TimerRow| is_timer_of(row.1@, workflow, instance);
    if rows.len() == 0 {
        assert(timer_removals(rows, workflow, instance) =~= Seq::empty());
    } else {
        let before = rows.drop_last();
        let last = rows.last();
        commit_timer_removals(t, before, workflow, instance);
        seqs::filter_next(rows, pred, rows.len() - 1);
        assert(rows.take(rows.len() as int) =~= rows);
        assert(rows.take(rows.len() - 1) =~= before);
        let done = timer_removals(before, workflow, instance);
        let all = timer_removals(rows, workflow, instance);
        let mid = store::commit(t, done);
        let after = store::commit(t, all);
        let w = WriteView::RemoveTimer { deadline: last.0.0, serial: last.0.1 };
        if pred(last) {
            assert(all =~= done.push(w));
            assert(all.drop_last() =~= done);
            assert(after == store::apply(mid, w));
        } else {
            assert(all =~= done);
        }
        assert forall|k: (u64, u64)| #[trigger]
            after.timers.contains_key(k) <==> t.timers.contains_key(k) && !(exists|i: int|
                0 <= i < rows.len() && (#[trigger] rows[i]).0 == k && is_timer_of(
                    rows[i].1@,
                    workflow,
                    instance,
                )) by {
            assert(after.timers.contains_key(k) <==> mid.timers.contains_key(k) && !(pred(last)
                && k == last.0));
            if exists|i: int|
                0 <= i < before.len() && (#[trigger] before[i]).0 == k && is_timer_of(
                    before[i].1@,
                    workflow,
                    instance,
                ) {
                let i = choose|i: int|
                    0 <= i < before.len() && (#[trigger] before[i]).0 == k && is_timer_of(
                        before[i].1@,
                        workflow,
                        instance,
                    );
                assert(rows[i] == before[i]);
            }
            if pred(last) && k == last.0 {
                assert(rows[rows.len() - 1].0 == k);
            }
            if exists|i: int|
                0 <= i < rows.len() && (#[trigger] rows[i]).0 == k && is_timer_of(
                    rows[i].1@,
                    workflow,
                    instance,
                ) {
                let i = choose|i: int|
                    0 <= i < rows.len() && (#[trigger] rows[i]).0 == k && is_timer_of(
                        rows[i].1@,
                        workflow,
                        instance,
                    );
                if i < before.len() {
                    assert(before[i] == rows[i]);
                }
            }
        }
    }
}

/// Whether `step_keys` are the keys of the step rows in an instance's range.
pub open spec fn are_steps_of(
    step_keys: Seq<String>,
    t: Tables,
    workflow: Seq<char>,
    instance: Seq<char>,
) -> bool {
    let parent = keys::meta_key(workflow, instance);
    forall|k: Seq<char>| #[trigger]
        t.steps.contains_key(k) && keys::in_range(
            k,
            keys::range_start(parent),
            keys::range_end(parent),
        ) <==> exists|i: int| 0 <= i < step_keys.len() && (#[trigger] step_keys[i])@ == k
}

/// Whether `rows` are the rows of the timer table.
pub open spec fn are_timers(rows: Seq<TimerRow>, t: Tables) -> bool {
    &&& forall|i: int|
        0 <= i < rows.len() ==> t.timers.contains_key((#[trigger] rows[i]).0)
            && t.timers[rows[i].0] == rows[i].1@
    &&& forall|k: (u64, u64)| #[trigger]
        t.timers.contains_key(k) ==> exists|i: int|
            0 <= i < rows.len() && (#[trigger] rows[i]).0 == k
}

/// Deleting an instance removes its metadata row, every step row whose key
/// extends its own, which are those of the instance and of its descendants,
/// and its timers. Everything else stays.
pub proof fn deletion_is_exact(
    t: Tables,
    workflow: Seq<char>,
    instance: Seq<char>,
    step_keys: Seq<String>,
    timer_rows: Seq<TimerRow>,
)
    requires
        are_steps_of(step_keys, t, workflow, instance),
        are_timers(timer_rows, t),
    ensures
        ({
            let after = store::commit(t, deletion(workflow, instance, step_keys, timer_rows));
            let parent = keys::meta_key(workflow, instance);
            &&& after.meta == t.meta.remove(parent)
            &&& forall|k: Seq<char>| #[trigger]
                after.steps.contains_key(k) <==> t.steps.contains_key(k) && !text::has_prefix(
                    k,
                    keys::range_start(parent),
                )
            &&& forall|k: Seq<char>| #[trigger]
                after.steps.contains_key(k) ==> after.steps[k] == t.steps[k]
            &&& forall|k: (u64, u64)| #[trigger]
                after.timers.contains_key(k) <==> t.timers.contains_key(k) && !is_timer_of(
                    t.timers[k],
                    workflow,
                    instance,
                )
            &&& forall|k: (u64, u64)| #[trigger]
                after.timers.contains_key(k) ==> after.timers[k] == t.timers[k]
        }),
{
    let parent = keys::meta_key(workflow, instance);
    let first = seq![WriteView::RemoveMeta { key: parent }];
    let steps = step_removals(step_keys);
    let timers = timer_removals(timer_rows, workflow, instance);
    let t1 = store::commit(t, first);
    let t2 = store::commit(t1, steps);
    let after = store::commit(t2, timers);
    assert(t1 == (Tables { meta: t.meta.remove(parent), ..t })) by {
        reveal_with_fuel(store::commit, 2);
        assert(first.drop_last() =~= Seq::empty());
    }
    commit_twice(t, first, steps);
    commit_twice(t, first + steps, timers);
    commit_step_removals(t1, step_keys);
    commit_timer_removals(t2, timer_rows, workflow, instance);
    assert forall|k: Seq<char>| #[trigger]
        after.steps.contains_key(k) <==> t.steps.contains_key(k) && !text::has_prefix(
            k,
            keys::range_start(parent),
        ) by {
        keys::child_range_is_prefix(parent, k);
        assert(after.steps.contains_key(k) <==> t2.steps.contains_key(k));
        assert(t1.steps.contains_key(k) <==> t.steps.contains_key(k));
    }
    assert forall|k: (u64, u64)| #[trigger]
        after.timers.contains_key(k) <==> t.timers.contains_key(k) && !is_timer_of(
            t.timers[k],
            workflow,
            instance,
        ) by {
        assert(t2.timers.contains_key(k) <==> t.timers.contains_key(k));
        if t.timers.contains_key(k) {
            let i = choose|i: int| 0 <= i < timer_rows.len() && (#[trigger] timer_rows[i]).0 == k;
            assert(timer_rows[i].1@ == t.timers[k]);
        }
    }
}

/// One deletion of a cleanup: the instance, the rows that are read for it, and
/// whether it succeeds. One that fails changes nothing.
pub struct Deletion {
    pub workflow: Seq<char>,
    pub instance: Seq<char>,
    pub step_keys: Seq<String>,
    pub timer_rows: Seq<TimerRow>,
    pub succeeds: bool,
}

/// The tables after the given deletions, made one after the other.
pub open spec fn cleaned(t: Tables, made: Seq<Deletion>) -> Tables
    decreases made.len(),
{
    if made.len() == 0 {
        t
    } else {
        let d = made.last();
        let before = cleaned(t, made.drop_last());
        if d.succeeds {
            store::commit(before, deletion(d.workflow, d.instance, d.step_keys, d.timer_rows))
        } else {
            before
        }
    }
}

/// Whether each deletion that succeeds reads its rows from the tables as the ones before it
/// leave them.
pub open spec fn reads_current(t: Tables, made: Seq<Deletion>) -> bool
    decreases made.len(),
{
    made.len() == 0 || {
        let d = made.last();
        let current = cleaned(t, made.drop_last());
        &&& reads_current(t, made.drop_last())
        &&& d.succeeds ==> are_steps_of(d.step_keys, current, d.workflow, d.instance)
            && are_timers(d.timer_rows, current)
    }
}

/// Whether a deletion succeeds and is that of the instance with the given
/// metadata key.
pub open spec fn removes(d: Deletion, key: Seq<char>) -> bool {
    d.succeeds && keys::meta_key(d.workflow, d.instance) == key
}

/// Whether a deletion succeeds and covers the step row with the given key.
pub open spec fn removes_step(d: Deletion, key: Seq<char>) -> bool {
    d.succeeds && text::has_prefix(
        key,
        keys::range_start(keys::meta_key(d.workflow, d.instance)),
    )
}

/// Whether a deletion succeeds and covers a timer row with the given bytes.
pub open spec fn removes_timer(d: Deletion, bytes: Seq<u8>) -> bool {
    d.succeeds && is_timer_of(bytes, d.workflow, d.instance)
}

/// Whether one of the deletions succeeds and is that of the instance with the
/// given metadata key.
pub open spec fn deletes(made: Seq<Deletion>, key: Seq<char>) -> bool {
    exists|i: int| 0 <= i < made.len() && removes(#[trigger] made[i], key)
}

/// Whether one of the deletions succeeds and covers the step row with the given
/// key.
pub open spec fn deletes_step(made: Seq<Deletion>, key: Seq<char>) -> bool {
    exists|i: int| 0 <= i < made.len() && removes_step(#[trigger] made[i], key)
}

/// Whether one of the deletions succeeds and covers a timer row with the given
/// bytes.
pub open spec fn deletes_timer(made: Seq<Deletion>, bytes: Seq<u8>) -> bool {
    exists|i: int| 0 <= i < made.len() && removes_timer(#[trigger] made[i], bytes)
}

/// What deletions made one after the other leave.
proof fn cleaned_rows(t: Tables, made: Seq<Deletion>)
    requires
        reads_current(t, made),
    ensures
        ({
            let after = cleaned(t, made);
            &&& forall|k: Seq<char>| #[trigger]
                after.meta.contains_key(k) <==> t.meta.contains_key(k) && !deletes(made, k)
            &&& forall|k: Seq<char>| #[trigger]
                after.meta.contains_key(k) ==> after.meta[k] == t.meta[k]
            &&& forall|k: Seq<char>| #[trigger]
                after.steps.contains_key(k) <==> t.steps.contains_key(k) && !deletes_step(made, k)
            &&& forall|k: Seq<char>| #[trigger]
                after.steps.contains_key(k) ==> after.steps[k] == t.steps[k]
            &&& forall|k: (u64, u64)| #[trigger]
                after.timers.contains_key(k) <==> t.timers.contains_key(k) && !deletes_timer(
                    made,
                    t.timers[k],
                )
            &&& forall|k: (u64, u64)| #[trigger]
                after.timers.contains_key(k) ==> after.timers[k] == t.timers[k]
        }),
    decreases made.len(),
{
    if made.len() > 0 {
        let before = made.drop_last();
        let d = made.last();
        let mid = cleaned(t, before);
        let after = cleaned(t, made);
        let parent = keys::meta_key(d.workflow, d.instance);
        cleaned_rows(t, before);
        if d.succeeds {
            deletion_is_exact(mid, d.workflow, d.instance, d.step_keys, d.timer_rows);
        }
        assert(made[made.len() - 1] == d);
        assert forall|k: Seq<char>| deletes(made, k) == (deletes(before, k) || removes(d, k)) by {
            if deletes(before, k) {
                let i = choose|i: int| 0 <= i < before.len() && removes(#[trigger] before[i], k);
                assert(made[i] == before[i]);
            }
            if deletes(made, k) && !removes(d, k) {
                let i = choose|i: int| 0 <= i < made.len() && removes(#[trigger] made[i], k);
                assert(before[i] == made[i]);
            }
        }
        assert forall|k: Seq<char>|
            deletes_step(made, k) == (deletes_step(before, k) || removes_step(d, k)) by {
            if deletes_step(before, k) {
                let i = choose|i: int|
                    0 <= i < before.len() && removes_step(#[trigger] before[i], k);
                assert(made[i] == before[i]);
            }
            if deletes_step(made, k) && !removes_step(d, k) {
                let i = choose|i: int| 0 <= i < made.len() && removes_step(#[trigger] made[i], k);
                assert(before[i] == made[i]);
            }
        }
        assert forall|bytes: Seq<u8>|
            deletes_timer(made, bytes) == (deletes_timer(before, bytes) || removes_timer(
                d,
                bytes,
            )) by {
            if deletes_timer(before, bytes) {
                let i = choose|i: int|
                    0 <= i < before.len() && removes_timer(#[trigger] before[i], bytes);
                assert(made[i] == before[i]);
            }
            if deletes_timer(made, bytes) && !removes_timer(d, bytes) {
                let i = choose|i: int|
                    0 <= i < made.len() && removes_timer(#[trigger] made[i], bytes);
                assert(before[i] == made[i]);
            }
        }
        assert forall|k: Seq<char>| #[trigger]
            after.meta.contains_key(k) <==> t.meta.contains_key(k) && !deletes(made, k) by {
            assert(after.meta.contains_key(k) <==> mid.meta.contains_key(k) && !removes(d, k));
        }
        assert forall|k: Seq<char>| #[trigger] after.meta.contains_key(k) implies after.meta[k]
            == t.meta[k] by {
            assert(mid.meta.contains_key(k));
        }
        assert forall|k: Seq<char>| #[trigger]
            after.steps.contains_key(k) <==> t.steps.contains_key(k) && !deletes_step(made, k) by {
            assert(after.steps.contains_key(k) <==> mid.steps.contains_key(k) && !removes_step(
                d,
                k,
            ));
        }
        assert forall|k: Seq<char>| #[trigger] after.steps.contains_key(k) implies after.steps[k]
            == t.steps[k] by {
            assert(mid.steps.contains_key(k));
        }
        assert forall|k: (u64, u64)| #[trigger]
            after.timers.contains_key(k) <==> t.timers.contains_key(k) && !deletes_timer(
                made,
                t.timers[k],
            ) by {
            assert(mid.timers.contains_key(k) ==> mid.timers[k] == t.timers[k]);
            assert(after.timers.contains_key(k) <==> mid.timers.contains_key(k) && !removes_timer(
                d,
                mid.timers[k],
            ));
        }
        assert forall|k: (u64, u64)| #[trigger] after.timers.contains_key(k) implies after.timers[k]
            == t.timers[k] by {
            assert(mid.timers.contains_key(k));
        }
    }
}

/// Whether `rows` are the rows of the metadata table, each once.
pub open spec fn are_records(rows: Seq<MetaRow>, t: Tables) -> bool {
    &&& forall|i: int|
        0 <= i < rows.len() ==> t.meta.contains_key((#[trigger] rows[i]).0@)
            && t.meta[rows[i].0@] == rows[i].1@
    &&& forall|k: Seq<char>| #[trigger]
        t.meta.contains_key(k) ==> exists|i: int| 0 <= i < rows.len() && (#[trigger] rows[i]).0@ == k
    &&& forall|i: int, j: int|
        0 <= i < j < rows.len() ==> (#[trigger] rows[i]).0@ != (#[trigger] rows[j]).0@
}

/// Whether the instance with the given metadata key is recorded and past its
/// retention.
pub open spec fn expired_in(
    t: Tables,
    key: Seq<char>,
    now_secs: u64,
    default_retention: nat,
    retentions: Map<Seq<char>, Duration>,
) -> bool {
    t.meta.contains_key(key) && record_expired(
        key,
        t.meta[key],
        now_secs,
        default_retention,
        retentions,
    )
}

/// Whether `made` are the deletions of the listed instances, in the list's
/// order, and succeed where their outcomes say so.
pub open spec fn deletes_listed(
    made: Seq<Deletion>,
    list: Seq<(String, String)>,
    outcomes: Seq<Result<(), EngineError>>,
) -> bool {
    &&& made.len() == list.len()
    &&& outcomes.len() == list.len()
    &&& forall|i: int|
        #![trigger made[i]]
        0 <= i < made.len() ==> made[i].workflow == list[i].0@ && made[i].instance == list[i].1@
            && made[i].succeeds == (outcomes[i] is Ok)
}

/// Rows with different keys have different keys also where some are left out.
proof fn filtered_keys_distinct(rows: Seq<MetaRow>, pred: spec_fn(MetaRow) -> bool)
    requires
        forall|i: int, j: int|
            0 <= i < j < rows.len() ==> (#[trigger] rows[i]).0@ != (#[trigger] rows[j]).0@,
    ensures
        forall|i: int, j: int|
            0 <= i < j < rows.filter(pred).len() ==> (#[trigger] rows.filter(pred)[i]).0@ != (
            #[trigger] rows.filter(pred)[j]).0@,
    decreases rows.len(),
{
    reveal(Seq::filter);
    if rows.len() > 0 {
        let before = rows.drop_last();
        filtered_keys_distinct(before, pred);
        let kept = before.filter(pred);
        assert forall|i: int| 0 <= i < kept.len() implies (#[trigger] kept[i]).0@
            != rows.last().0@ by {
            assert(kept.contains(kept[i]));
            before.lemma_filter_contains_rev(pred, kept[i]);
            let j = choose|j: int| 0 <= j < before.len() && before[j] == kept[i];
            assert(rows[j].0@ != rows[rows.len() - 1].0@);
        }
    }
}

/// The listed instances are those past their retention, by their metadata keys.
proof fn listed_are_expired(
    t: Tables,
    rows: Seq<MetaRow>,
    now_secs: u64,
    default_retention: nat,
    retentions: Map<Seq<char>, Duration>,
    list: Seq<(String, String)>,
)
    requires
        are_records(rows, t),
        lists_expired(list, rows, now_secs, default_retention, retentions),
    ensures
        forall|i: int|
            #![trigger list[i]]
            0 <= i < list.len() ==> expired_in(
                t,
                keys::meta_key(list[i].0@, list[i].1@),
                now_secs,
                default_retention,
                retentions,
            ),
        forall|k: Seq<char>| #[trigger]
            expired_in(t, k, now_secs, default_retention, retentions) ==> exists|i: int|
                0 <= i < list.len() && keys::meta_key((#[trigger] list[i]).0@, list[i].1@) == k,
        forall|i: int, j: int|
            0 <= i < j < list.len() ==> keys::meta_key((#[trigger] list[i]).0@, list[i].1@)
                != keys::meta_key((#[trigger] list[j]).0@, list[j].1@),
{
    let pred = |row: MetaRow| row_expired(row, now_secs, default_retention, retentions);
    let expired = expired_rows(rows, now_secs, default_retention, retentions);
    filtered_keys_distinct(rows, pred);
    assert forall|i: int|
        #![trigger list[i]]
        0 <= i < list.len() implies expired_in(
        t,
        keys::meta_key(list[i].0@, list[i].1@),
        now_secs,
        default_retention,
        retentions,
    ) by {
        rows.lemma_filter_pred(pred, i);
        assert(expired.contains(expired[i]));
        rows.lemma_filter_contains_rev(pred, expired[i]);
        let j = choose|j: int| 0 <= j < rows.len() && rows[j] == expired[i];
        assert(t.meta[rows[j].0@] == rows[j].1@);
    }
    assert forall|k: Seq<char>| #[trigger]
        expired_in(t, k, now_secs, default_retention, retentions) implies exists|i: int|
        0 <= i < list.len() && keys::meta_key((#[trigger] list[i]).0@, list[i].1@) == k by {
        let j = choose|j: int| 0 <= j < rows.len() && (#[trigger] rows[j]).0@ == k;
        assert(pred(rows[j]));
        rows.lemma_filter_contains(pred, j);
        let i = choose|i: int| 0 <= i < expired.len() && expired[i] == rows[j];
        assert(keys::meta_key(list[i].0@, list[i].1@) == k);
    }
    assert forall|i: int, j: int| 0 <= i < j < list.len() implies keys::meta_key(
        (#[trigger] list[i]).0@,
        list[i].1@,
    ) != keys::meta_key((#[trigger] list[j]).0@, list[j].1@) by {
        assert(expired[i].0@ != expired[j].0@);
    }
}

/// The metadata keys that a table had and has no more.
pub open spec fn records_gone(before: Tables, after: Tables) -> Set<Seq<char>> {
    Set::new(|k: Seq<char>| before.meta.contains_key(k) && !after.meta.contains_key(k))
}

/// Whether a metadata row is that of a running or suspended instance.
pub open spec fn holds_unfinished(bytes: Seq<u8>) -> bool {
    metadata::read_metadata_row(bytes) matches Ok(meta) && !metadata::is_terminal(meta.status)
        && meta == metadata::record_at(meta.status, 0)
}

/// The metadata keys of the instances whose deletions succeed, in order.
spec fn keys_gone(made: Seq<Deletion>) -> Seq<Seq<char>>
    decreases made.len(),
{
    if made.len() == 0 {
        Seq::empty()
    } else {
        let before = keys_gone(made.drop_last());
        let d = made.last();
        if d.succeeds {
            before.push(keys::meta_key(d.workflow, d.instance))
        } else {
            before
        }
    }
}

/// Deletions of different instances remove as many as succeed.
proof fn successes_are_counted(made: Seq<Deletion>, outcomes: Seq<Result<(), EngineError>>)
    requires
        made.len() == outcomes.len(),
        forall|i: int|
            #![trigger made[i]]
            0 <= i < made.len() ==> made[i].succeeds == (outcomes[i] is Ok),
        forall|i: int, j: int|
            0 <= i < j < made.len() ==> keys::meta_key(
                (#[trigger] made[i]).workflow,
                made[i].instance,
            ) != keys::meta_key((#[trigger] made[j]).workflow, made[j].instance),
    ensures
        keys_gone(made).len() == outcomes.filter(|o: Result<(), EngineError>| o is Ok).len(),
        keys_gone(made).no_duplicates(),
        forall|k: Seq<char>| #[trigger] keys_gone(made).contains(k) <==> deletes(made, k),
    decreases made.len(),
{
    reveal(Seq::filter);
    if made.len() > 0 {
        let before = made.drop_last();
        let d = made.last();
        let key = keys::meta_key(d.workflow, d.instance);
        assert forall|i: int|
            #![trigger before[i]]
            0 <= i < before.len() implies before[i].succeeds == (outcomes.drop_last()[i] is Ok) by {
            assert(before[i] == made[i]);
        }
        assert forall|i: int, j: int| 0 <= i < j < before.len() implies keys::meta_key(
            (#[trigger] before[i]).workflow,
            before[i].instance,
        ) != keys::meta_key((#[trigger] before[j]).workflow, before[j].instance) by {
            assert(before[i] == made[i] && before[j] == made[j]);
        }
        successes_are_counted(before, outcomes.drop_last());
        assert(made[made.len() - 1] == d);
        let gone = keys_gone(made);
        let earlier = keys_gone(before);
        if earlier.contains(key) {
            assert(deletes(before, key));
            let i = choose|i: int| 0 <= i < before.len() && removes(#[trigger] before[i], key);
            assert(made[i] == before[i]);
        }
        assert(gone.no_duplicates()) by {
            if d.succeeds {
                assert forall|i: int, j: int|
                    0 <= i < gone.len() && 0 <= j < gone.len() && i != j implies gone[i]
                    != gone[j] by {
                    if i < earlier.len() {
                        assert(earlier.contains(earlier[i]));
                    }
                    if j < earlier.len() {
                        assert(earlier.contains(earlier[j]));
                    }
                }
            }
        }
        assert forall|k: Seq<char>| #[trigger] gone.contains(k) <==> deletes(made, k) by {
            if deletes(made, k) {
                let i = choose|i: int| 0 <= i < made.len() && removes(#[trigger] made[i], k);
                if i < before.len() {
                    assert(before[i] == made[i]);
                    assert(earlier.contains(k));
                    let n = choose|n: int| 0 <= n < earlier.len() && earlier[n] == k;
                    assert(gone[n] == k);
                } else {
                    assert(gone[gone.len() - 1] == k);
                }
            }
            if gone.contains(k) {
                let n = choose|n: int| 0 <= n < gone.len() && gone[n] == k;
                if n < earlier.len() {
                    assert(earlier[n] == k);
                    assert(earlier.contains(k));
                    let i = choose|i: int| 0 <= i < before.len() && removes(#[trigger] before[i], k);
                    assert(made[i] == before[i]);
                } else {
                    assert(removes(d, k));
                }
            }
        }
    }
}

/// Whether a timer row with the given bytes is that of an instance whose
/// deletion succeeds.
pub open spec fn timer_deleted(made: Seq<Deletion>, bytes: Seq<u8>) -> bool {
    timer::read_timer(bytes) matches Ok(entry) && keys::is_component(entry.workflow_name)
        && deletes(made, keys::meta_key(entry.workflow_name, entry.instance_id))
}

/// A cleanup deletes instances past their retention only, and all of them where
/// every deletion succeeds. Exactly the instances whose deletion succeeds are
/// gone, and their number is the count: with the metadata row go the step rows
/// and timers under it. Every other instance, among them every running and
/// suspended one, keeps its metadata row, its timers, and, where its ID has no
/// delimiter, its step rows. A second cleanup at the same time finds exactly
/// those past their retention whose deletion failed, so nothing where none did.
pub proof fn cleanup_is_exact(
    t: Tables,
    rows: Seq<MetaRow>,
    now_secs: u64,
    default_retention: nat,
    retentions: Map<Seq<char>, Duration>,
    list: Seq<(String, String)>,
    made: Seq<Deletion>,
    outcomes: Seq<Result<(), EngineError>>,
)
    requires
        are_records(rows, t),
        forall|i: int| 0 <= i < rows.len() ==> !broken(#[trigger] rows[i]),
        lists_expired(list, rows, now_secs, default_retention, retentions),
        deletes_listed(made, list, outcomes),
        reads_current(t, made),
    ensures
        ({
            let after = cleaned(t, made);
            let all_succeed = forall|i: int|
                0 <= i < outcomes.len() ==> (#[trigger] outcomes[i]) is Ok;
            &&& forall|k: Seq<char>| #[trigger]
                deletes(made, k) ==> expired_in(t, k, now_secs, default_retention, retentions)
            &&& all_succeed ==> forall|k: Seq<char>| #[trigger]
                expired_in(t, k, now_secs, default_retention, retentions) ==> deletes(made, k)
            &&& forall|k: Seq<char>| #[trigger]
                after.meta.contains_key(k) <==> t.meta.contains_key(k) && !deletes(made, k)
            &&& forall|k: Seq<char>| #[trigger]
                after.meta.contains_key(k) ==> after.meta[k] == t.meta[k]
            &&& forall|k: Seq<char>| #[trigger]
                t.meta.contains_key(k) && holds_unfinished(t.meta[k]) ==> after.meta.contains_key(k)
            &&& outcomes.filter(|o: Result<(), EngineError>| o is Ok).len() == records_gone(
                t,
                after,
            ).len()
            &&& forall|w: Seq<char>, i: Seq<char>, s: Seq<char>|
                #![trigger keys::step_key(w, i, s)]
                keys::is_component(w) && keys::is_component(i) && keys::is_component(s)
                    ==> store::row(after.steps, keys::step_key(w, i, s)) == if deletes(
                    made,
                    keys::meta_key(w, i),
                ) {
                    None
                } else {
                    store::row(t.steps, keys::step_key(w, i, s))
                }
            &&& forall|k: (u64, u64)|
                #![trigger t.timers[k]]
                t.timers.contains_key(k) ==> store::row(after.timers, k) == if timer_deleted(
                    made,
                    t.timers[k],
                ) {
                    None
                } else {
                    Some(t.timers[k])
                }
            &&& forall|k: Seq<char>| #[trigger]
                expired_in(after, k, now_secs, default_retention, retentions) <==> expired_in(
                    t,
                    k,
                    now_secs,
                    default_retention,
                    retentions,
                ) && !deletes(made, k)
            &&& forall|again: Seq<MetaRow>| #[trigger]
                are_records(again, after) ==> {
                    &&& forall|i: int| 0 <= i < again.len() ==> !broken(#[trigger] again[i])
                    &&& all_succeed ==> expired_rows(
                        again,
                        now_secs,
                        default_retention,
                        retentions,
                    ).len() == 0
                }
        }),
{
    let after = cleaned(t, made);
    let all_succeed = forall|i: int| 0 <= i < outcomes.len() ==> (#[trigger] outcomes[i]) is Ok;
    cleaned_rows(t, made);
    listed_are_expired(t, rows, now_secs, default_retention, retentions, list);
    assert forall|i: int| 0 <= i < made.len() implies keys::is_component(
        (#[trigger] made[i]).workflow,
    ) by {
        assert(keys::is_component(list[i].0@));
    }
    assert forall|k: Seq<char>| #[trigger] deletes(made, k) implies expired_in(
        t,
        k,
        now_secs,
        default_retention,
        retentions,
    ) by {
        let i = choose|i: int| 0 <= i < made.len() && removes(#[trigger] made[i], k);
        assert(keys::meta_key(list[i].0@, list[i].1@) == k);
    }
    if all_succeed {
        assert forall|k: Seq<char>| #[trigger]
            expired_in(t, k, now_secs, default_retention, retentions) implies deletes(made, k) by {
            let i = choose|i: int|
                0 <= i < list.len() && keys::meta_key((#[trigger] list[i]).0@, list[i].1@) == k;
            assert(outcomes[i] is Ok);
            assert(removes(made[i], k));
        }
    }
    // The count.
    assert forall|i: int, j: int| 0 <= i < j < made.len() implies keys::meta_key(
        (#[trigger] made[i]).workflow,
        made[i].instance,
    ) != keys::meta_key((#[trigger] made[j]).workflow, made[j].instance) by {
        assert(keys::meta_key(list[i].0@, list[i].1@) != keys::meta_key(list[j].0@, list[j].1@));
    }
    successes_are_counted(made, outcomes);
    let gone = keys_gone(made);
    gone.unique_seq_to_set();
    assert forall|k: Seq<char>| records_gone(t, after).contains(k) <==> gone.to_set().contains(k) by {
        assert(gone.contains(k) <==> deletes(made, k));
        assert(after.meta.contains_key(k) <==> t.meta.contains_key(k) && !deletes(made, k));
    }
    assert(records_gone(t, after) =~= gone.to_set());
    // Step rows.
    assert forall|w: Seq<char>, i: Seq<char>, s: Seq<char>|
        #![trigger keys::step_key(w, i, s)]
        keys::is_component(w) && keys::is_component(i) && keys::is_component(
            s,
        ) implies deletes_step(made, keys::step_key(w, i, s)) == deletes(made, keys::meta_key(w, i)) by {
        let key = keys::step_key(w, i, s);
        if deletes_step(made, key) {
            let n = choose|n: int| 0 <= n < made.len() && removes_step(#[trigger] made[n], key);
            let d = made[n];
            keys::instance_range_members(d.workflow, d.instance, w, i, s);
            if text::has_prefix(i, keys::range_start(d.instance)) {
                let start = keys::range_start(d.instance);
                assert(i.take(start.len() as int)[start.len() - 1] == '/');
                assert(i[start.len() - 1] == '/');
            }
            assert(removes(d, keys::meta_key(w, i)));
        }
        if deletes(made, keys::meta_key(w, i)) {
            let n = choose|n: int|
                0 <= n < made.len() && removes(#[trigger] made[n], keys::meta_key(w, i));
            let d = made[n];
            keys::meta_keys_distinct(d.workflow, d.instance, w, i);
            keys::instance_range_members(d.workflow, d.instance, w, i, s);
            assert(removes_step(d, key));
        }
    }
    // Timers.
    assert forall|k: (u64, u64)|
        #![trigger t.timers[k]]
        t.timers.contains_key(k) implies deletes_timer(made, t.timers[k]) == timer_deleted(
        made,
        t.timers[k],
    ) by {
        let bytes = t.timers[k];
        if deletes_timer(made, bytes) {
            let n = choose|n: int| 0 <= n < made.len() && removes_timer(#[trigger] made[n], bytes);
            assert(removes(made[n], keys::meta_key(made[n].workflow, made[n].instance)));
        }
        if timer_deleted(made, bytes) {
            let entry = timer::read_timer(bytes)->Ok_0;
            let key = keys::meta_key(entry.workflow_name, entry.instance_id);
            let n = choose|n: int| 0 <= n < made.len() && removes(#[trigger] made[n], key);
            keys::meta_keys_distinct(
                made[n].workflow,
                made[n].instance,
                entry.workflow_name,
                entry.instance_id,
            );
            assert(removes_timer(made[n], bytes));
        }
    }
    // The second cleanup.
    let pred = |row: MetaRow| row_expired(row, now_secs, default_retention, retentions);
    assert forall|again: Seq<MetaRow>| #[trigger] are_records(again, after) implies {
        &&& forall|i: int| 0 <= i < again.len() ==> !broken(#[trigger] again[i])
        &&& all_succeed ==> expired_rows(
            again,
            now_secs,
            default_retention,
            retentions,
        ).len() == 0
    } by {
        assert forall|i: int| 0 <= i < again.len() implies !broken(#[trigger] again[i]) && (
        all_succeed ==> !pred(again[i])) by {
            let k = again[i].0@;
            assert(after.meta.contains_key(k));
            let j = choose|j: int| 0 <= j < rows.len() && (#[trigger] rows[j]).0@ == k;
            assert(rows[j].1@ == again[i].1@);
            assert(!broken(rows[j]));
            if pred(again[i]) {
                assert(expired_in(t, k, now_secs, default_retention, retentions));
            }
        }
        if all_succeed {
            seqs::filter_none(again, pred);
        }
    }
}

/// An instance past its retention stays past it.
pub proof fn expiry_is_final(
    workflow: Seq<char>,
    meta: MetadataView,
    now_secs: u64,
    later_secs: u64,
    default_retention: nat,
    retentions: Map<Seq<char>, Duration>,
)
    requires
        now_secs <= later_secs,
        past_retention(workflow, meta, now_secs, default_retention, retentions),
    ensures
        past_retention(workflow, meta, later_secs, default_retention, retentions),
{
}

/// Where a workflow has a retention of its own, its instances expire by that
/// one alone, whether the default is shorter or longer: once they are terminal
/// and as many whole seconds old. A clock that went back counts as no time.
pub proof fn own_retention_takes_precedence(
    workflow: Seq<char>,
    meta: MetadataView,
    now_secs: u64,
    default_retention: nat,
    other_default: nat,
    retentions: Map<Seq<char>, Duration>,
)
    requires
        retentions.contains_key(workflow),
    ensures
        past_retention(workflow, meta, now_secs, default_retention, retentions) <==> (
        meta.completed_at matches Some(at) && (now_secs - at >= retentions[workflow]@ / 1_000_000_000
            || retentions[workflow]@ / 1_000_000_000 == 0)),
        past_retention(workflow, meta, now_secs, default_retention, retentions) == past_retention(
            workflow,
            meta,
            now_secs,
            other_default,
            retentions,
        ),
{
}

/// Where a workflow has no retention of its own, its instances expire by the
/// default, and the retentions of other workflows do not matter.
pub proof fn default_retention_is_the_fallback(
    workflow: Seq<char>,
    meta: MetadataView,
    now_secs: u64,
    default_retention: nat,
    retentions: Map<Seq<char>, Duration>,
)
    requires
        !retentions.contains_key(workflow),
    ensures
        past_retention(workflow, meta, now_secs, default_retention, retentions) <==> (
        meta.completed_at matches Some(at) && (now_secs - at >= default_retention / 1_000_000_000
            || default_retention / 1_000_000_000 == 0)),
{
}

/// The retention of an instance is that of the workflow whose name stands in
/// front of its metadata key, also where its ID has delimiters of its own.
pub proof fn instances_expire_with_their_workflow(
    workflow: Seq<char>,
    instance: Seq<char>,
    bytes: Seq<u8>,
    meta: MetadataView,
    now_secs: u64,
    default_retention: nat,
    retentions: Map<Seq<char>, Duration>,
)
    requires
        keys::is_component(workflow),
        metadata::read_metadata_row(bytes) == Ok::<MetadataView, Seq<char>>(meta),
    ensures
        record_expired(
            keys::meta_key(workflow, instance),
            bytes,
            now_secs,
            default_retention,
            retentions,
        ) <==> past_retention(workflow, meta, now_secs, default_retention, retentions),
{
    let key = keys::meta_key(workflow, instance);
    text::head_of_split(workflow, '/', instance);
    assert(key[workflow.len() as int] == '/');
}

/// A row whose key is not that of an instance neither expires nor breaks a
/// scan; one that is, and cannot be read, breaks it.
pub proof fn only_instances_expire(
    row: MetaRow,
    now_secs: u64,
    default_retention: nat,
    retentions: Map<Seq<char>, Duration>,
)
    ensures
        !row.0@.contains('/') ==> !row_expired(row, now_secs, default_retention, retentions)
            && !broken(row),
        row.0@.contains('/') && metadata::read_metadata_row(row.1@) is Err ==> broken(row)
            && !row_expired(row, now_secs, default_retention, retentions),
        metadata::read_metadata_row(row.1@) is Ok ==> !broken(row),
{
}

/// Exactly the expired rows are collected, each as often as it is listed, in
/// the order of the rows.
pub proof fn collected_rows_are_expired(
    rows: Seq<MetaRow>,
    row: MetaRow,
    now_secs: u64,
    default_retention: nat,
    retentions: Map<Seq<char>, Duration>,
)
    ensures
        expired_rows(rows.push(row), now_secs, default_retention, retentions) == if record_expired(
            row.0@,
            row.1@,
            now_secs,
            default_retention,
            retentions,
        ) {
            expired_rows(rows, now_secs, default_retention, retentions).push(row)
        } else {
            expired_rows(rows, now_secs, default_retention, retentions)
        },
        expired_rows(Seq::empty(), now_secs, default_retention, retentions).len() == 0,
{
    reveal(Seq::filter);
    assert(rows.push(row).drop_last() =~= rows);
}

/// A timer row belongs to exactly the instance that its entry names, by
/// workflow and ID, whatever its step is; a row that cannot be read belongs to
/// none.
pub proof fn timers_belong_to_one_instance(
    bytes: Seq<u8>,
    entry: TimerView,
    workflow: Seq<char>,
    instance: Seq<char>,
)
    ensures
        timer::read_timer(bytes) == Ok::<TimerView, Seq<char>>(entry) ==> (is_timer_of(
            bytes,
            workflow,
            instance,
        ) <==> entry.workflow_name == workflow && entry.instance_id == instance),
        timer::read_timer(bytes) is Err ==> !is_timer_of(bytes, workflow, instance),
{
}

} // verus!
