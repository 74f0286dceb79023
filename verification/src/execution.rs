//! The end of a run, the claim of a suspended step, and the wake-up by timer.

use crate::error;
use crate::error::{EngineError, ErrorView};
use crate::keys;
use crate::metadata;
use crate::metadata::{MetadataStatus, MetadataView, StatusView, WorkflowMetadata};
use crate::progress::{LogView, RunLog};
use crate::state;
use crate::state::{StateView, WorkflowState};
use crate::step;
use crate::step::{StepState, StepView};
use crate::store;
use crate::store::{Write, WriteView};
use crate::text;
use crate::timer::TimerEntry;
use vstd::prelude::*;

verus! {

/// What a workflow function returned.
pub open spec fn result_view(result: Result<(), EngineError>) -> Result<(), ErrorView> {
    match result {
        Ok(()) => Ok(()),
        Err(e) => Err(e@),
    }
}

/// The message with which an instance waits at `key`, where its status channel
/// shows `current` and the run has the given log: that of the suspended state,
/// then the last one that the run reported for the key, then the key itself.
pub open spec fn waiting_message(current: StateView, log: LogView, key: Seq<char>) -> Seq<char> {
    if current is Suspended && current->Suspended_key == key {
        current->Suspended_status
    } else if log.waits.contains_key(key) {
        log.waits[key]
    } else {
        key
    }
}

/// The message with which an instance completes, where its status channel shows
/// `current` and the run has the given log: that of its progress, or the last
/// one that the run reported.
pub open spec fn closing_message(current: StateView, log: LogView) -> Option<Seq<char>> {
    match current {
        StateView::InProgress(msg) => Some(msg),
        StateView::Completed(msg) => msg,
        _ => log.message,
    }
}

/// The status that is recorded when a run ends, where its status channel shows
/// `current` and the run has the given log: a success keeps the last message of
/// its progress, a suspension its key and message, and any other error its
/// text.
pub open spec fn final_status(
    result: Result<(), ErrorView>,
    current: StateView,
    log: LogView,
) -> StatusView {
    match result {
        Ok(()) => StatusView::Completed(closing_message(current, log)),
        Err(ErrorView::Suspended { key }) => StatusView::Suspended {
            key,
            status: waiting_message(current, log, key),
        },
        Err(e) => StatusView::Failed(error::error_text(e)),
    }
}

/// The end of a run.
#[derive(Debug)]
pub struct Settlement {
    /// The metadata row to write.
    pub write: Write,
    /// The state to announce, whether or not the write succeeds.
    pub state: WorkflowState,
    /// Whether the instance is done, so that its status channel is released: a
    /// suspended instance keeps it.
    pub terminal: bool,
}

fn waiting_text(current: &WorkflowState, log: &RunLog, key: &str) -> (msg: String)
    ensures
        msg@ == waiting_message(current@, log@, key@),
{
    if let WorkflowState::Suspended { key: at, status } = current {
        if text::same_text(at, key) {
            return status.clone();
        }
    }
    match log.waiting(key) {
        Some(msg) => msg,
        None => key.to_owned(),
    }
}

/// The status that is recorded when a run with the given log ends, where its
/// status channel shows `current`.
#[must_use]
pub fn settled_status(result: &Result<(), EngineError>, current: &WorkflowState, log: &RunLog) -> (status:
    MetadataStatus)
    ensures
        status@ == final_status(result_view(*result), current@, log@),
{
    match result {
        Ok(()) => MetadataStatus::Completed(
            match current {
                WorkflowState::InProgress(msg) => Some(msg.clone()),
                WorkflowState::Completed(msg) => state::clone_opt(msg),
                _ => log.message(),
            },
        ),
        Err(EngineError::Suspended { key }) => MetadataStatus::Suspended {
            key: key.clone(),
            status: waiting_text(current, log, key),
        },
        Err(e) => MetadataStatus::Failed(e.to_string()),
    }
}

/// Settles a run with the given log that ended at `now_secs`, in seconds since
/// the Unix epoch, where its status channel shows `current`: the metadata to
/// record and the state to announce.
#[must_use]
pub fn handle_workflow_result(
    result: Result<(), EngineError>,
    workflow_name: &str,
    instance_id: &str,
    current: &WorkflowState,
    log: &RunLog,
    now_secs: u64,
) -> (s: Settlement)
    ensures
        ({
            let status = final_status(result_view(result), current@, log@);
            let record = metadata::record_at(status, now_secs);
            &&& s.write@ == (WriteView::PutMeta {
                key: keys::meta_key(workflow_name@, instance_id@),
                value: metadata::metadata_bytes(record),
            })
            &&& metadata::reads_back(record)
            &&& s.state@ == metadata::recorded_state(status)
            &&& s.terminal == metadata::is_terminal(status)
        }),
{
    let status = settled_status(&result, current, log);
    let state = status.recorded_state();
    let terminal = status.is_terminal();
    let meta = WorkflowMetadata::new_at(status, now_secs);
    Settlement { write: metadata::write_metadata(workflow_name, instance_id, &meta), state, terminal }
}

/// Why a signal finds nothing to claim: no entry under its key.
pub const STEP_MISSING: &'static str = "step does not exist";

/// Why a signal finds nothing to claim: the entry under its key does not wait,
/// and never was claimed.
pub const STEP_NOT_SUSPENDED: &'static str = "step is not suspended";

/// Why a signal finds nothing to claim: no record of the instance.
pub const METADATA_MISSING: &'static str = "workflow metadata not found";

/// Whether a suspended step can be claimed, given its row and the instance's
/// metadata row: the entry and the instance must both be suspended. An entry
/// that was claimed before supersedes the claim; one that never waited, or
/// failed, rejects it.
pub open spec fn claim_decision(
    workflow: Seq<char>,
    instance: Seq<char>,
    key: Seq<char>,
    step_row: Option<Seq<u8>>,
    meta_row: Option<Seq<u8>>,
) -> Result<(), ErrorView> {
    match step_row {
        None => Err(ErrorView::SignalRejected { key, reason: STEP_MISSING@ }),
        Some(step_row) => match step::read_envelope(step_row) {
            Err(source) => Err(ErrorView::Serialization { key, source }),
            Ok(envelope) => match envelope.state {
                StepState::Claimed => Err(ErrorView::SignalSuperseded { key }),
                StepState::Completed | StepState::Failed => Err(
                    ErrorView::SignalRejected { key, reason: STEP_NOT_SUSPENDED@ },
                ),
                StepState::Suspended => match meta_row {
                    None => Err(ErrorView::SignalRejected { key, reason: METADATA_MISSING@ }),
                    Some(meta_row) => match metadata::read_metadata_row(meta_row) {
                        Err(source) => Err(
                            ErrorView::Serialization {
                                key: keys::meta_key(workflow, instance),
                                source,
                            },
                        ),
                        Ok(meta) => if meta.status is Suspended {
                            Ok(())
                        } else {
                            Err(ErrorView::SignalSuperseded { key })
                        },
                    },
                },
            },
        },
    }
}

/// The metadata of a running instance.
pub open spec fn running() -> MetadataView {
    MetadataView { status: StatusView::Running, completed_at: None }
}

/// The changes that claim a step: its entry is replaced, and the instance
/// marked as running.
pub open spec fn claim_writes(
    workflow: Seq<char>,
    instance: Seq<char>,
    key: Seq<char>,
    step_bytes: Seq<u8>,
) -> Seq<WriteView> {
    seq![
        WriteView::PutStep {
            key: keys::step_key(workflow, instance, key),
            value: step_bytes,
        },
        WriteView::PutMeta {
            key: keys::meta_key(workflow, instance),
            value: metadata::metadata_bytes(running()),
        },
    ]
}

/// Whether a step with the given row is claimed for good: every claim of it is
/// superseded, whatever the instance's metadata row is.
pub open spec fn claim_is_final(
    workflow: Seq<char>,
    instance: Seq<char>,
    key: Seq<char>,
    row: Seq<u8>,
) -> bool {
    forall|meta_row: Option<Seq<u8>>| #[trigger]
        claim_decision(workflow, instance, key, Some(row), meta_row) == Err::<(), ErrorView>(
            ErrorView::SignalSuperseded { key },
        )
}

/// Claims a suspended step for an encoded payload of the named type, given the
/// step's row and the instance's metadata row: the changes to make in the
/// transaction that read the rows. They leave an entry by which later claims
/// know that the step was claimed.
///
/// # Errors
///
/// [`EngineError::SignalRejected`] where either row is missing, or the entry
/// completed or failed without a claim, [`EngineError::SignalSuperseded`] where
/// the entry was claimed before, or the instance is not suspended,
/// [`EngineError::Serialization`] where a row cannot be read.
pub fn claim_suspended_step(
    workflow_name: &str,
    instance_id: &str,
    step_key: &str,
    payload: Vec<u8>,
    tag: &str,
    step_row: Option<Vec<u8>>,
    meta_row: Option<Vec<u8>>,
) -> (r: Result<Vec<Write>, EngineError>)
    ensures
        match claim_decision(
            workflow_name@,
            instance_id@,
            step_key@,
            store::opt_row(step_row),
            store::opt_row(meta_row),
        ) {
            Ok(()) => {
                let entry = step::claimed_entry(payload@);
                let value = step::step_bytes(entry, tag@);
                &&& r matches Ok(writes)
                &&& store::batch_view(writes@) == claim_writes(
                    workflow_name@,
                    instance_id@,
                    step_key@,
                    value,
                )
                &&& step::holds(value, entry, tag@)
                &&& step::status_reads_back(entry)
                &&& metadata::reads_back(running())
                &&& claim_is_final(workflow_name@, instance_id@, step_key@, value)
            },
            Err(error) => r matches Err(e) && e@ == error,
        },
{
    let Some(step_row) = step_row else {
        return Err(
            EngineError::SignalRejected {
                key: step_key.to_owned(),
                reason: STEP_MISSING.to_owned(),
            },
        );
    };
    match step::deserialize_envelope(step_row.as_slice(), step_key) {
        Err(e) => {
            return Err(e);
        },
        Ok(envelope) => {
            match envelope.state {
                StepState::Suspended => {},
                StepState::Claimed => {
                    return Err(EngineError::SignalSuperseded { key: step_key.to_owned() });
                },
                StepState::Completed | StepState::Failed => {
                    return Err(
                        EngineError::SignalRejected {
                            key: step_key.to_owned(),
                            reason: STEP_NOT_SUSPENDED.to_owned(),
                        },
                    );
                },
            }
        },
    }
    let Some(meta_row) = meta_row else {
        return Err(
            EngineError::SignalRejected {
                key: step_key.to_owned(),
                reason: METADATA_MISSING.to_owned(),
            },
        );
    };
    match WorkflowMetadata::decode(meta_row.as_slice()) {
        Err(source) => {
            return Err(
                EngineError::Serialization {
                    key: keys::metadata_key(workflow_name, instance_id),
                    source,
                },
            );
        },
        Ok(meta) => {
            if !matches!(meta.status(), MetadataStatus::Suspended { .. }) {
                return Err(EngineError::SignalSuperseded { key: step_key.to_owned() });
            }
        },
    }
    let meta = WorkflowMetadata::new_at(MetadataStatus::Running, 0);
    let mut writes: Vec<Write> = Vec::new();
    writes.push(
        Write::PutStep {
            key: keys::composite_key(workflow_name, instance_id, step_key),
            value: step::encode_claim(payload, tag),
        },
    );
    writes.push(metadata::write_metadata(workflow_name, instance_id, &meta));
    Ok(writes)
}

/// Whether an expired timer wakes its instance, given the instance's metadata:
/// only a suspended instance is woken.
#[must_use]
pub fn timer_wakes(meta: &Option<WorkflowMetadata>) -> (r: bool)
    ensures
        r == (meta matches Some(m) && m@.status is Suspended),
{
    match meta {
        Some(m) => matches!(m.status(), MetadataStatus::Suspended { .. }),
        None => false,
    }
}

/// The entry that a fired timer leaves: a claimed step without result or
/// status.
pub open spec fn fired_entry() -> StepView {
    step::claimed_entry(Seq::empty())
}

/// Claims the step of an expired timer, given the step's row and the
/// instance's metadata row.
///
/// # Errors
///
/// As [`claim_suspended_step`] on the same rows.
pub fn signal_timer(
    entry: &TimerEntry,
    step_row: Option<Vec<u8>>,
    meta_row: Option<Vec<u8>>,
) -> (r: Result<Vec<Write>, EngineError>)
    ensures
        match claim_decision(
            entry@.workflow_name,
            entry@.instance_id,
            entry@.step_key,
            store::opt_row(step_row),
            store::opt_row(meta_row),
        ) {
            Ok(()) => {
                let value = step::step_bytes(fired_entry(), step::UNIT_TYPE@);
                &&& r matches Ok(writes)
                &&& store::batch_view(writes@) == claim_writes(
                    entry@.workflow_name,
                    entry@.instance_id,
                    entry@.step_key,
                    value,
                )
                &&& metadata::reads_back(running())
                &&& claim_is_final(
                    entry@.workflow_name,
                    entry@.instance_id,
                    entry@.step_key,
                    value,
                )
                &&& step::holds(value, fired_entry(), step::UNIT_TYPE@)
                &&& step::status_reads_back(fired_entry())
            },
            Err(error) => r matches Err(e) && e@ == error,
        },
{
    let payload: Vec<u8> = Vec::new();
    assert(payload@ =~= Seq::empty());
    claim_suspended_step(
        &entry.workflow_name,
        &entry.instance_id,
        &entry.step_key,
        payload,
        step::UNIT_TYPE,
        step_row,
        meta_row,
    )
}

/// Whether a timer whose signal fails with the given error came too late: its
/// step does not wait any more.
pub open spec fn came_too_late(e: ErrorView) -> bool {
    match e {
        ErrorView::SignalSuperseded { .. } => true,
        ErrorView::SignalRejected { reason, .. } => reason == STEP_NOT_SUSPENDED@,
        _ => false,
    }
}

/// What a poll makes of the outcome of one timer's signal: a timer that came
/// too late is no failure.
///
/// # Errors
///
/// Every error but [`EngineError::SignalSuperseded`], and
/// [`EngineError::SignalRejected`] of a step that is not suspended.
pub fn timer_signal_outcome(outcome: Result<(), EngineError>) -> (r: Result<(), EngineError>)
    ensures
        match outcome {
            Err(e) => if came_too_late(e@) {
                r is Ok
            } else {
                r == Err::<(), EngineError>(e)
            },
            Ok(()) => r is Ok,
        },
{
    match outcome {
        Ok(()) => Ok(()),
        Err(EngineError::SignalSuperseded { .. }) => Ok(()),
        Err(EngineError::SignalRejected { key, reason }) => if text::same_text(
            &reason,
            STEP_NOT_SUSPENDED,
        ) {
            Ok(())
        } else {
            Err(EngineError::SignalRejected { key, reason })
        },
        Err(e) => Err(e),
    }
}

/// The end of a run is never recorded as running: it is recorded as completed
/// exactly after a success, as suspended exactly after a suspension, and the
/// announced state is terminal exactly if the recorded status is.
pub proof fn settlement_is_consistent(
    result: Result<(), ErrorView>,
    current: StateView,
    log: LogView,
)
    ensures
        state::is_terminal(metadata::recorded_state(final_status(result, current, log)))
            == metadata::is_terminal(final_status(result, current, log)),
        final_status(result, current, log) !is Running,
        final_status(result, current, log) is Suspended <==> (result matches Err(e) && e is Suspended),
        final_status(result, current, log) is Completed <==> result is Ok,
{
}

/// A claim succeeds exactly where the step waits and its instance is suspended:
/// a missing row, an entry that does not wait, and an instance that is not
/// suspended each refuse it.
pub proof fn claim_needs_both_suspended(
    workflow: Seq<char>,
    instance: Seq<char>,
    key: Seq<char>,
    step_row: Seq<u8>,
    entry: StepView,
    tag: Seq<char>,
    meta: MetadataView,
)
    requires
        step::holds(step_row, entry, tag),
        metadata::reads_back(meta),
    ensures
        ({
            let meta_row = metadata::metadata_bytes(meta);
            let claim = claim_decision(workflow, instance, key, Some(step_row), Some(meta_row));
            &&& claim is Ok <==> entry is Suspended && meta.status is Suspended
            &&& entry is Suspended && meta.status !is Suspended ==> claim == Err::<(), ErrorView>(
                ErrorView::SignalSuperseded { key },
            )
            &&& entry is Failed ==> claim == Err::<(), ErrorView>(
                ErrorView::SignalRejected { key, reason: "step is not suspended"@ },
            )
            &&& claim_decision(workflow, instance, key, None, Some(meta_row)) == Err::<
                (),
                ErrorView,
            >(ErrorView::SignalRejected { key, reason: "step does not exist"@ })
            &&& entry is Suspended ==> claim_decision(
                workflow,
                instance,
                key,
                Some(step_row),
                None,
            ) == Err::<(), ErrorView>(
                ErrorView::SignalRejected { key, reason: "workflow metadata not found"@ },
            )
        }),
{
}

/// An error that ends a run, other than a suspension, is recorded and announced
/// with its text, whatever the run has reported.
pub proof fn failure_keeps_its_text(e: ErrorView, current: StateView, log: LogView)
    requires
        e !is Suspended,
    ensures
        final_status(Err(e), current, log) == StatusView::Failed(error::error_text(e)),
        metadata::recorded_state(final_status(Err(e), current, log)) == StateView::Failed(
            error::error_text(e),
        ),
{
}

/// A timer comes too late exactly where its step was claimed before, or does
/// not wait; a missing step or record is another matter.
pub proof fn late_timers_are_told_apart(e: ErrorView)
    ensures
        e is SignalSuperseded ==> came_too_late(e),
        e matches ErrorView::SignalRejected { reason, .. } ==> (came_too_late(e) <==> reason
            == "step is not suspended"@),
        e !is SignalSuperseded && e !is SignalRejected ==> !came_too_late(e),
{
}

/// A success is recorded with the message that the status channel shows of its
/// progress or completion, and otherwise with the last one of the run; a
/// suspension with its own key, and the message that is shown or was reported
/// for that key, and otherwise the key.
pub proof fn settlement_keeps_the_message(
    current: StateView,
    log: LogView,
    msg: Seq<char>,
    last: Option<Seq<char>>,
    key: Seq<char>,
)
    ensures
        final_status(Ok(()), StateView::InProgress(msg), log) == StatusView::Completed(Some(msg)),
        final_status(Ok(()), StateView::Completed(last), log) == StatusView::Completed(last),
        current !is InProgress && current !is Completed ==> final_status(Ok(()), current, log)
            == StatusView::Completed(log.message),
        final_status(
            Err(ErrorView::Suspended { key }),
            StateView::Suspended { key, status: msg },
            log,
        ) == (StatusView::Suspended { key, status: msg }),
        !(current matches StateView::Suspended { key: at, .. } && at == key) ==> final_status(
            Err(ErrorView::Suspended { key }),
            current,
            log,
        ) == (StatusView::Suspended {
            key,
            status: if log.waits.contains_key(key) {
                log.waits[key]
            } else {
                key
            },
        }),
{
}

/// A claim of a completed entry is superseded exactly where the entry was
/// claimed, and otherwise rejected, whatever the instance's record is.
pub proof fn claim_of_completed_is_refused(
    workflow: Seq<char>,
    instance: Seq<char>,
    key: Seq<char>,
    row: Seq<u8>,
    payload: Seq<u8>,
    status: Option<Seq<char>>,
    claimed: bool,
    tag: Seq<char>,
    meta_row: Option<Seq<u8>>,
)
    requires
        step::holds(row, StepView::Completed { payload, status, claimed }, tag),
    ensures
        claim_decision(workflow, instance, key, Some(row), meta_row) == Err::<(), ErrorView>(
            if claimed {
                ErrorView::SignalSuperseded { key }
            } else {
                ErrorView::SignalRejected { key, reason: "step is not suspended"@ }
            },
        ),
{
}

/// A row that cannot be read refuses a claim with the reason, each row under
/// its own key.
pub proof fn claim_of_broken_rows_is_refused(
    workflow: Seq<char>,
    instance: Seq<char>,
    key: Seq<char>,
    row: Seq<u8>,
    tag: Seq<char>,
    broken: Seq<u8>,
    meta_row: Option<Seq<u8>>,
)
    requires
        step::holds(row, StepView::Suspended, tag),
    ensures
        step::read_envelope(broken) matches Err(source) ==> claim_decision(
            workflow,
            instance,
            key,
            Some(broken),
            meta_row,
        ) == Err::<(), ErrorView>(ErrorView::Serialization { key, source }),
        metadata::read_metadata_row(broken) matches Err(source) ==> claim_decision(
            workflow,
            instance,
            key,
            Some(row),
            Some(broken),
        ) == Err::<(), ErrorView>(
            ErrorView::Serialization { key: workflow + seq!['/'] + instance, source },
        ),
{
}

/// A fired timer leaves a claimed entry with no bytes of result and no status.
pub proof fn fired_timer_leaves_nothing()
    ensures
        fired_entry() == (StepView::Completed {
            payload: Seq::empty(),
            status: None,
            claimed: true,
        }),
{
}

/// The result of a run is judged as it is.
pub proof fn results_are_judged_as_given(e: EngineError)
    ensures
        result_view(Ok(())) is Ok,
        result_view(Err(e)) == Err::<(), ErrorView>(e@),
{
}

} // verus!
