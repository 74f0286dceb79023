//! One poll of the timer table: every expired timer is removed, and wakes the
//! instance that waits for it.

use crate::error::{EngineError, ErrorView};
use crate::execution;
use crate::keys;
use crate::metadata;
use crate::metadata::MetadataView;
use crate::seqs;
use crate::store;
use crate::store::{Tables, Write, WriteView};
use crate::timer;
use crate::timer::{TimerEntry, TimerRow, TimerView};
use vstd::prelude::*;

verus! {

/// An expired timer: its key in the timer table, and its entry.
type Due = ((u64, u64), TimerEntry);

/// An expired timer: its key in the timer table, and what its entry says.
pub struct DueView {
    pub key: (u64, u64),
    pub entry: TimerView,
}

/// What an expired timer says.
spec fn due_view(d: Due) -> DueView {
    DueView { key: d.0, entry: d.1@ }
}

#[derive(Debug)]
enum Stage {
    Ready,
    Removing(Due),
    Reading(Due),
    Claiming(Due),
    Spawning(Due),
    Ended,
}

/// Where a poll stands, between an action and its event.
pub enum StageView {
    /// The poll has not begun.
    Ready,
    /// The timer's row is being removed.
    Removing(DueView),
    /// The metadata row of the timer's instance is being read.
    Reading(DueView),
    /// The timer's step is being claimed.
    Claiming(DueView),
    /// The timer's instance is being spawned.
    Spawning(DueView),
    /// The poll is over.
    Ended,
}

/// A poll of the timer table.
#[derive(Debug)]
pub struct TimerPoll {
    stage: Stage,
    /// The expired timers that are still to come, the next one last.
    rest: Vec<Due>,
}

/// What a [`TimerPoll`] knows.
#[verifier::ext_equal]
pub struct PollView {
    /// Where it stands.
    pub stage: StageView,
    /// The expired timers that are still to come.
    pub due: Seq<DueView>,
}

impl View for TimerPoll {
    type V = PollView;

    closed spec fn view(&self) -> PollView {
        PollView {
            stage: match self.stage {
                Stage::Ready => StageView::Ready,
                Stage::Removing(d) => StageView::Removing(due_view(d)),
                Stage::Reading(d) => StageView::Reading(due_view(d)),
                Stage::Claiming(d) => StageView::Claiming(due_view(d)),
                Stage::Spawning(d) => StageView::Spawning(due_view(d)),
                Stage::Ended => StageView::Ended,
            },
            due: Seq::new(
                self.rest@.len(),
                |i: int| due_view(self.rest@[self.rest@.len() - 1 - i]),
            ),
        }
    }
}

/// What came of the last action.
#[derive(Debug)]
pub enum PollEvent {
    /// The action was carried out; also the event that begins a poll.
    Done,
    /// The metadata row was read, if there is one.
    Recorded(Option<Vec<u8>>),
    /// The action failed.
    Failed(EngineError),
}

/// What a [`PollEvent`] says.
pub enum EventView {
    Done,
    Recorded(Option<Seq<u8>>),
    Failed(ErrorView),
}

impl View for PollEvent {
    type V = EventView;

    open spec fn view(&self) -> EventView {
        match *self {
            PollEvent::Done => EventView::Done,
            PollEvent::Recorded(row) => EventView::Recorded(store::opt_row(row)),
            PollEvent::Failed(e) => EventView::Failed(e@),
        }
    }
}

/// What a poll does next.
#[derive(Debug)]
pub enum PollAction {
    /// Make the change that removes an expired timer.
    Remove(Write),
    /// Read the metadata row under the given key.
    ReadMeta {
        /// The metadata key.
        key: String,
    },
    /// Claim the timer's step, as [`execution::signal_timer`] says.
    Claim(TimerEntry),
    /// Spawn the timer's instance.
    Spawn(TimerEntry),
    /// End the poll with the given result.
    Finish(Result<(), EngineError>),
}

/// What a [`PollAction`] says.
pub enum ActionView {
    Remove(WriteView),
    ReadMeta { key: Seq<char> },
    Claim(TimerView),
    Spawn(TimerView),
    Finish(Result<(), ErrorView>),
}

impl View for PollAction {
    type V = ActionView;

    open spec fn view(&self) -> ActionView {
        match *self {
            PollAction::Remove(w) => ActionView::Remove(w@),
            PollAction::ReadMeta { key } => ActionView::ReadMeta { key: key@ },
            PollAction::Claim(entry) => ActionView::Claim(entry@),
            PollAction::Spawn(entry) => ActionView::Spawn(entry@),
            PollAction::Finish(r) => ActionView::Finish(execution::result_view(r)),
        }
    }
}

/// The removal of an expired timer.
pub open spec fn removal(d: DueView) -> WriteView {
    WriteView::RemoveTimer { deadline: d.key.0, serial: d.key.1 }
}

/// The removals of expired timers.
pub open spec fn removals(due: Seq<DueView>) -> Seq<WriteView> {
    due.map_values(|d: DueView| removal(d))
}

/// A poll that goes on to the next expired timer, or ends where there is none.
pub open spec fn advance(due: Seq<DueView>) -> (PollView, ActionView) {
    if due.len() == 0 {
        (PollView { stage: StageView::Ended, due }, ActionView::Finish(Ok(())))
    } else {
        (
            PollView { stage: StageView::Removing(due[0]), due: due.skip(1) },
            ActionView::Remove(removal(due[0])),
        )
    }
}

/// A poll that ends with an error.
pub open spec fn fail(due: Seq<DueView>, error: ErrorView) -> (PollView, ActionView) {
    (PollView { stage: StageView::Ended, due }, ActionView::Finish(Err(error)))
}

/// What becomes of a timer of whose instance the given metadata row was read: a
/// suspended instance is claimed, and every other one passed over.
pub open spec fn after_reading(d: DueView, row: Option<Seq<u8>>, due: Seq<DueView>) -> (
    PollView,
    ActionView,
) {
    match row {
        None => advance(due),
        Some(bytes) => match metadata::read_metadata_row(bytes) {
            Err(source) => fail(
                due,
                ErrorView::Serialization {
                    key: keys::meta_key(d.entry.workflow_name, d.entry.instance_id),
                    source,
                },
            ),
            Ok(meta) => if meta.status is Suspended {
                (PollView { stage: StageView::Claiming(d), due }, ActionView::Claim(d.entry))
            } else {
                advance(due)
            },
        },
    }
}

/// What becomes of a poll whose signal of a timer failed: a timer that came too
/// late is passed over, and every other error ends the poll.
pub open spec fn after_failed_signal(error: ErrorView, due: Seq<DueView>) -> (PollView, ActionView) {
    if execution::came_too_late(error) {
        advance(due)
    } else {
        fail(due, error)
    }
}

/// What a poll does next, and where it then stands. Each expired timer is
/// removed first; then the metadata row of its instance is read, its step
/// claimed, and the instance spawned.
pub open spec fn poll_decision(p: PollView, event: EventView) -> (PollView, ActionView) {
    match p.stage {
        StageView::Ready => advance(p.due),
        StageView::Removing(d) => match event {
            EventView::Failed(e) => fail(p.due, e),
            _ => (
                PollView { stage: StageView::Reading(d), due: p.due },
                ActionView::ReadMeta {
                    key: keys::meta_key(d.entry.workflow_name, d.entry.instance_id),
                },
            ),
        },
        StageView::Reading(d) => match event {
            EventView::Failed(e) => fail(p.due, e),
            EventView::Recorded(row) => after_reading(d, row, p.due),
            EventView::Done => advance(p.due),
        },
        StageView::Claiming(d) => match event {
            EventView::Failed(e) => after_failed_signal(e, p.due),
            _ => (
                PollView { stage: StageView::Spawning(d), due: p.due },
                ActionView::Spawn(d.entry),
            ),
        },
        StageView::Spawning(_) => match event {
            EventView::Failed(e) => after_failed_signal(e, p.due),
            _ => advance(p.due),
        },
        StageView::Ended => (p, ActionView::Finish(Ok(()))),
    }
}

/// Whether `due` are the timers that have expired at `now_ms` among the given
/// rows, in the rows' order.
pub open spec fn are_due(due: Seq<DueView>, rows: Seq<TimerRow>, now_ms: u64) -> bool {
    let expired = timer::expired_rows(rows, now_ms);
    &&& due.len() == expired.len()
    &&& forall|i: int|
        #![trigger due[i]]
        0 <= i < due.len() ==> due[i].key == expired[i].0 && timer::read_timer(expired[i].1@)
            == Ok::<TimerView, Seq<char>>(due[i].entry)
}

impl TimerPoll {
    /// The poll of the given rows of the timer table at `now_ms`, in
    /// milliseconds since the Unix epoch.
    ///
    /// # Errors
    ///
    /// As [`timer::collect_expired_timers`] on the rows.
    pub fn new(rows: Vec<TimerRow>, now_ms: u64) -> (r: Result<Self, EngineError>)
        ensures
            match r {
                Ok(poll) => poll@.stage == StageView::Ready && are_due(poll@.due, rows@, now_ms),
                Err(e) => {
                    let expired = timer::expired_rows(rows@, now_ms);
                    exists|i: int|
                        0 <= i < expired.len() && timer::readable(expired, i) && (
                        #[trigger] timer::read_timer(expired[i].1@)) is Err && e@ == (
                        ErrorView::Serialization {
                            key: timer::timer_row_name(expired[i].0),
                            source: timer::read_timer(expired[i].1@)->Err_0,
                        })
                },
            },
    {
        let mut list = match timer::collect_expired_timers(rows, now_ms) {
            Ok(list) => list,
            Err(e) => {
                return Err(e);
            },
        };
        let ghost all = list@;
        let mut rest: Vec<Due> = Vec::new();
        while list.len() > 0
            invariant
                list@ == all.take(list@.len() as int),
                list@.len() + rest@.len() == all.len(),
                forall|i: int| 0 <= i < rest@.len() ==> #[trigger] rest@[i] == all[all.len() - 1 - i],
            decreases list@.len(),
        {
            if let Some(due) = list.pop() {
                rest.push(due);
            }
        }
        Ok(TimerPoll { stage: Stage::Ready, rest })
    }

    fn advance(&mut self) -> (a: PollAction)
        ensures
            (final(self)@, a@) == advance(old(self)@.due),
    {
        let ghost before = self@.due;
        match self.rest.pop() {
            None => {
                self.stage = Stage::Ended;
                assert(self@.due =~= before);
                PollAction::Finish(Ok(()))
            },
            Some(due) => {
                let write = Write::RemoveTimer { deadline: due.0.0, serial: due.0.1 };
                self.stage = Stage::Removing(due);
                assert(self@.due =~= before.skip(1));
                PollAction::Remove(write)
            },
        }
    }

    fn fail(&mut self, e: EngineError) -> (a: PollAction)
        ensures
            (final(self)@, a@) == fail(old(self)@.due, e@),
    {
        self.stage = Stage::Ended;
        PollAction::Finish(Err(e))
    }

    /// Goes on after a signal that failed.
    fn pass_over(&mut self, e: EngineError) -> (a: PollAction)
        ensures
            (final(self)@, a@) == after_failed_signal(e@, old(self)@.due),
    {
        match execution::timer_signal_outcome(Err(e)) {
            Ok(()) => self.advance(),
            Err(e) => self.fail(e),
        }
    }

    /// What the poll does next, given what came of its last action.
    pub fn next(&mut self, event: PollEvent) -> (a: PollAction)
        ensures
            (final(self)@, a@) == poll_decision(old(self)@, event@),
    {
        let mut stage = Stage::Ended;
        core::mem::swap(&mut self.stage, &mut stage);
        match stage {
            Stage::Ready => self.advance(),
            Stage::Removing(due) => match event {
                PollEvent::Failed(e) => self.fail(e),
                _ => {
                    let key = keys::metadata_key(&due.1.workflow_name, &due.1.instance_id);
                    self.stage = Stage::Reading(due);
                    PollAction::ReadMeta { key }
                },
            },
            Stage::Reading(due) => match event {
                PollEvent::Failed(e) => self.fail(e),
                PollEvent::Recorded(row) => match metadata::read_metadata(
                    row,
                    &due.1.workflow_name,
                    &due.1.instance_id,
                ) {
                    Err(e) => self.fail(e),
                    Ok(meta) => if execution::timer_wakes(&meta) {
                        let entry = due.1.clone();
                        self.stage = Stage::Claiming(due);
                        PollAction::Claim(entry)
                    } else {
                        self.advance()
                    },
                },
                PollEvent::Done => self.advance(),
            },
            Stage::Claiming(due) => match event {
                PollEvent::Failed(e) => self.pass_over(e),
                _ => {
                    let entry = due.1.clone();
                    self.stage = Stage::Spawning(due);
                    PollAction::Spawn(entry)
                },
            },
            Stage::Spawning(_) => match event {
                PollEvent::Failed(e) => self.pass_over(e),
                _ => self.advance(),
            },
            Stage::Ended => PollAction::Finish(Ok(())),
        }
    }
}

/// The removals that a poll makes, while its actions have the given events, up
/// to its end.
pub open spec fn removed(p: PollView, events: Seq<EventView>) -> Seq<WriteView>
    decreases events.len(),
{
    if events.len() == 0 {
        Seq::empty()
    } else {
        match poll_decision(p, events[0]) {
            (_, ActionView::Finish(_)) => Seq::empty(),
            (next, ActionView::Remove(w)) => seq![w] + removed(next, events.skip(1)),
            (next, _) => removed(next, events.skip(1)),
        }
    }
}

/// The result with which a poll ends, while its actions have the given events,
/// if they reach to its end.
pub open spec fn finished(p: PollView, events: Seq<EventView>) -> Option<Result<(), ErrorView>>
    decreases events.len(),
{
    if events.len() == 0 {
        None
    } else {
        match poll_decision(p, events[0]) {
            (_, ActionView::Finish(r)) => Some(r),
            (next, _) => finished(next, events.skip(1)),
        }
    }
}

/// A poll removes expired timers in their order and nothing else, and one that
/// ends without error removes every one of them.
pub proof fn expired_timers_are_removed(p: PollView, events: Seq<EventView>)
    requires
        p.stage != StageView::Ended,
    ensures
        removed(p, events).len() <= p.due.len(),
        removed(p, events) == removals(p.due.take(removed(p, events).len() as int)),
        finished(p, events) == Some(Ok::<(), ErrorView>(())) ==> removed(p, events) == removals(
            p.due,
        ),
    decreases events.len(),
{
    if events.len() == 0 {
        assert(removals(p.due.take(0)) =~= Seq::empty());
    } else {
        let (next, action) = poll_decision(p, events[0]);
        let rest = events.skip(1);
        match action {
            ActionView::Finish(r) => {
                assert(removals(p.due.take(0)) =~= Seq::empty());
                if r is Ok {
                    assert(p.due.len() == 0);
                    assert(removals(p.due) =~= Seq::empty());
                }
            },
            ActionView::Remove(w) => {
                expired_timers_are_removed(next, rest);
                let later = removed(next, rest);
                let n = later.len() as int;
                assert(next.due == p.due.skip(1) && w == removal(p.due[0]));
                assert(removals(p.due.take(n + 1)) =~= seq![w] + removals(next.due.take(n)));
                assert(removals(p.due) =~= seq![w] + removals(next.due));
                assert(removed(p, events) == seq![w] + later);
            },
            _ => {
                expired_timers_are_removed(next, rest);
            },
        }
    }
}

/// Making removals of timers removes these timers and changes nothing else.
proof fn commit_removals(t: Tables, due: Seq<DueView>)
    ensures
        ({
            let after = store::commit(t, removals(due));
            &&& after.steps == t.steps
            &&& after.meta == t.meta
            &&& forall|k: (u64, u64)| #[trigger]
                after.timers.contains_key(k) <==> t.timers.contains_key(k) && !(exists|i: int|
                    0 <= i < due.len() && (#[trigger] due[i]).key == k)
            &&& forall|k: (u64, u64)| #[trigger]
                after.timers.contains_key(k) ==> after.timers[k] == t.timers[k]
        }),
    decreases due.len(),
{
    if due.len() > 0 {
        let before = due.drop_last();
        let last = due.last();
        commit_removals(t, before);
        assert(removals(due).drop_last() =~= removals(before));
        assert(removals(due).last() == removal(last));
        let mid = store::commit(t, removals(before));
        let after = store::commit(t, removals(due));
        assert(after == store::apply(mid, removal(last)));
        assert forall|k: (u64, u64)| #[trigger]
            after.timers.contains_key(k) <==> t.timers.contains_key(k) && !(exists|i: int|
                0 <= i < due.len() && (#[trigger] due[i]).key == k) by {
            assert(after.timers.contains_key(k) <==> mid.timers.contains_key(k) && k != last.key);
            if exists|i: int| 0 <= i < before.len() && (#[trigger] before[i]).key == k {
                let i = choose|i: int| 0 <= i < before.len() && (#[trigger] before[i]).key == k;
                assert(due[i].key == k);
            }
            if k == last.key {
                assert(due[due.len() - 1].key == k);
            }
            if exists|i: int| 0 <= i < due.len() && (#[trigger] due[i]).key == k {
                let i = choose|i: int| 0 <= i < due.len() && (#[trigger] due[i]).key == k;
                if i < before.len() {
                    assert(before[i].key == k);
                }
            }
        }
    }
}

/// Whether `rows` hold every row of the timer table that has expired at
/// `now_ms`.
pub open spec fn hold_expired(rows: Seq<TimerRow>, t: Tables, now_ms: u64) -> bool {
    forall|k: (u64, u64)| #[trigger]
        t.timers.contains_key(k) && timer::is_expired(k, now_ms) ==> exists|i: int|
            0 <= i < rows.len() && (#[trigger] rows[i]).0 == k
}

/// A poll removes no timer that has not expired, and one that ends without
/// error leaves no timer that has. Its removals change nothing else.
pub proof fn poll_clears_expired(
    t: Tables,
    rows: Seq<TimerRow>,
    now_ms: u64,
    p: PollView,
    events: Seq<EventView>,
)
    requires
        hold_expired(rows, t, now_ms),
        p.stage == StageView::Ready,
        are_due(p.due, rows, now_ms),
    ensures
        ({
            let after = store::commit(t, removed(p, events));
            &&& after.steps == t.steps
            &&& after.meta == t.meta
            &&& forall|k: (u64, u64)| #[trigger]
                t.timers.contains_key(k) && !timer::is_expired(k, now_ms)
                    ==> after.timers.contains_key(k)
            &&& forall|k: (u64, u64)| #[trigger]
                after.timers.contains_key(k) ==> t.timers.contains_key(k) && after.timers[k]
                    == t.timers[k]
            &&& finished(p, events) == Some(Ok::<(), ErrorView>(())) ==> forall|k: (u64, u64)|
                #[trigger]
                after.timers.contains_key(k) ==> !timer::is_expired(k, now_ms)
        }),
{
    expired_timers_are_removed(p, events);
    let n = removed(p, events).len() as int;
    let made = p.due.take(n);
    let pred = |row: TimerRow| timer::is_expired(row.0, now_ms);
    let expired = timer::expired_rows(rows, now_ms);
    commit_removals(t, made);
    let after = store::commit(t, removed(p, events));
    assert forall|k: (u64, u64)| #[trigger]
        t.timers.contains_key(k) && !timer::is_expired(k, now_ms) implies after.timers.contains_key(
        k,
    ) by {
        if exists|i: int| 0 <= i < made.len() && (#[trigger] made[i]).key == k {
            let i = choose|i: int| 0 <= i < made.len() && (#[trigger] made[i]).key == k;
            assert(p.due[i].key == k);
            rows.lemma_filter_pred(pred, i);
        }
    }
    if finished(p, events) == Some(Ok::<(), ErrorView>(())) {
        assert(removals(p.due).len() == p.due.len());
        assert(made =~= p.due);
        assert forall|k: (u64, u64)| #[trigger]
            after.timers.contains_key(k) implies !timer::is_expired(k, now_ms) by {
            if timer::is_expired(k, now_ms) {
                let i = choose|i: int| 0 <= i < rows.len() && (#[trigger] rows[i]).0 == k;
                assert(pred(rows[i]));
                rows.lemma_filter_contains(pred, i);
                assert(expired.contains(rows[i]));
                let j = choose|j: int| 0 <= j < expired.len() && expired[j] == rows[i];
                assert(p.due[j].key == k);
                assert(made[j].key == k);
            }
        }
    }
}

/// Whether an action goes on past the timer at hand: to the next one, or to the
/// end without error where there is none.
pub open spec fn goes_on(due: Seq<DueView>, next: (PollView, ActionView)) -> bool {
    if due.len() > 0 {
        &&& next.1 == ActionView::Remove(
            WriteView::RemoveTimer { deadline: due[0].key.0, serial: due[0].key.1 },
        )
        &&& next.0.stage == StageView::Removing(due[0])
        &&& next.0.due == due.skip(1)
    } else {
        next.1 == ActionView::Finish(Ok(()))
    }
}

/// An expired timer wakes exactly an instance that is recorded as suspended:
/// its step is claimed, and, once that is done, the instance spawned, with the
/// timer's own entry. Every other instance is passed over.
pub proof fn timers_wake_exactly_suspended_instances(
    d: DueView,
    due: Seq<DueView>,
    meta: MetadataView,
)
    requires
        metadata::reads_back(meta),
    ensures
        ({
            let reading = PollView { stage: StageView::Reading(d), due };
            let claiming = PollView { stage: StageView::Claiming(d), due };
            let removing = PollView { stage: StageView::Removing(d), due };
            let spawning = PollView { stage: StageView::Spawning(d), due };
            let row = EventView::Recorded(Some(metadata::metadata_bytes(meta)));
            &&& poll_decision(removing, EventView::Done) == (
                reading,
                ActionView::ReadMeta {
                    key: d.entry.workflow_name + seq!['/'] + d.entry.instance_id,
                },
            )
            &&& meta.status is Suspended ==> poll_decision(reading, row) == (
                claiming,
                ActionView::Claim(d.entry),
            )
            &&& meta.status !is Suspended ==> goes_on(due, poll_decision(reading, row))
            &&& goes_on(due, poll_decision(reading, EventView::Recorded(None)))
            &&& poll_decision(claiming, EventView::Done) == (
                spawning,
                ActionView::Spawn(d.entry),
            )
            &&& goes_on(due, poll_decision(spawning, EventView::Done))
            &&& goes_on(
                due,
                poll_decision(PollView { stage: StageView::Ready, due }, EventView::Done),
            )
        }),
{
}

/// An error of the store ends a poll with that error, whatever timers are left;
/// so does an error of a signal, but for a timer that came too late, which is
/// passed over.
pub proof fn poll_ends_with_the_first_error(d: DueView, due: Seq<DueView>, e: ErrorView)
    ensures
        ({
            let failed = EventView::Failed(e);
            let late = e is SignalSuperseded || (e matches ErrorView::SignalRejected { reason, .. }
                && reason == "step is not suspended"@);
            let ends = |stage: StageView|
                poll_decision(PollView { stage, due }, failed).1 == ActionView::Finish(Err(e));
            let passes = |stage: StageView|
                goes_on(due, poll_decision(PollView { stage, due }, failed));
            &&& ends(StageView::Removing(d))
            &&& ends(StageView::Reading(d))
            &&& late ==> passes(StageView::Claiming(d)) && passes(StageView::Spawning(d))
            &&& !late ==> ends(StageView::Claiming(d)) && ends(StageView::Spawning(d))
        }),
{
}

/// A record that cannot be read ends a poll under the key of the instance's own
/// row; and a poll that ended has nothing more to do, whatever timers are left.
pub proof fn ended_poll_stays_ended(
    d: DueView,
    due: Seq<DueView>,
    broken: Seq<u8>,
    e: ErrorView,
    event: EventView,
)
    ensures
        ({
            let ended = PollView { stage: StageView::Ended, due };
            let reading = PollView { stage: StageView::Reading(d), due };
            &&& metadata::read_metadata_row(broken) matches Err(source) ==> poll_decision(
                reading,
                EventView::Recorded(Some(broken)),
            ) == (
                ended,
                ActionView::Finish(
                    Err(
                        ErrorView::Serialization {
                            key: d.entry.workflow_name + seq!['/'] + d.entry.instance_id,
                            source,
                        },
                    ),
                ),
            )
            &&& poll_decision(reading, EventView::Failed(e)) == (ended, ActionView::Finish(Err(e)))
            &&& poll_decision(ended, event) == (ended, ActionView::Finish(Ok(())))
        }),
{
}

/// The timers that are due are exactly those whose deadline has come, each with
/// what its row says.
pub proof fn due_timers_are_those_expired(
    due: Seq<DueView>,
    rows: Seq<TimerRow>,
    now_ms: u64,
    i: int,
    j: int,
)
    requires
        are_due(due, rows, now_ms),
        0 <= i < due.len(),
        0 <= j < rows.len(),
    ensures
        due[i].key.0 <= now_ms,
        exists|n: int|
            0 <= n < rows.len() && (#[trigger] rows[n]).0 == due[i].key && timer::read_timer(
                rows[n].1@,
            ) == Ok::<TimerView, Seq<char>>(due[i].entry),
        rows[j].0.0 <= now_ms ==> exists|n: int|
            0 <= n < due.len() && (#[trigger] due[n]).key == rows[j].0 && timer::read_timer(
                rows[j].1@,
            ) == Ok::<TimerView, Seq<char>>(due[n].entry),
{
    let pred = |row: TimerRow| timer::is_expired(row.0, now_ms);
    let expired = timer::expired_rows(rows, now_ms);
    rows.lemma_filter_pred(pred, i);
    seqs::filter_keeps_members(rows, pred, i);
    let n = choose|n: int| 0 <= n < rows.len() && rows[n] == expired[i];
    assert(due[i].key == expired[i].0);
    assert(rows[n].0 == due[i].key);
    if rows[j].0.0 <= now_ms {
        rows.lemma_filter_contains(pred, j);
        let m = choose|m: int| 0 <= m < expired.len() && expired[m] == rows[j];
        assert(due[m].key == rows[j].0);
    }
}

} // verus!
