//! Metadata of workflow instances: lifecycle status and time of completion.

use crate::clock;
use crate::codec;
use crate::error::{EngineError, ErrorView};
use crate::keys;
use crate::state::{clone_opt, StateView, WorkflowState};
use crate::store::{Write, WriteView};
use crate::text;
use crate::text::concat2;
use vstd::prelude::*;

verus! {

/// Lifecycle status of a workflow instance.
///
/// Represents the coarse-grained state stored in the metadata table, distinct
/// from [`WorkflowState`] which includes the finer-grained `InProgress`
/// variant.
#[derive(Debug, PartialEq, Eq)]
pub enum MetadataStatus {
    /// The workflow is currently executing.
    Running,
    /// The workflow is suspended, awaiting an external signal.
    Suspended {
        /// The step key identifying this suspend point.
        key: String,
        /// Human-readable status message.
        status: String,
    },
    /// The workflow completed successfully, with the last status message at
    /// completion time, if any.
    Completed(Option<String>),
    /// The workflow failed with an error message.
    Failed(String),
}

/// What a [`MetadataStatus`] says.
pub enum StatusView {
    Running,
    Suspended { key: Seq<char>, status: Seq<char> },
    Completed(Option<Seq<char>>),
    Failed(Seq<char>),
}

impl View for MetadataStatus {
    type V = StatusView;

    open spec fn view(&self) -> StatusView {
        match *self {
            MetadataStatus::Running => StatusView::Running,
            MetadataStatus::Suspended { key, status } => StatusView::Suspended {
                key: key@,
                status: status@,
            },
            MetadataStatus::Completed(msg) => StatusView::Completed(codec::opt_text(msg)),
            MetadataStatus::Failed(msg) => StatusView::Failed(msg@),
        }
    }
}

/// Whether a status is terminal: `Completed` or `Failed`.
pub open spec fn is_terminal(s: StatusView) -> bool {
    s is Completed || s is Failed
}

impl Clone for MetadataStatus {
    fn clone(&self) -> (r: Self)
        ensures
            r == *self,
    {
        match self {
            MetadataStatus::Running => MetadataStatus::Running,
            MetadataStatus::Suspended { key, status } => MetadataStatus::Suspended {
                key: key.clone(),
                status: status.clone(),
            },
            MetadataStatus::Completed(msg) => MetadataStatus::Completed(clone_opt(msg)),
            MetadataStatus::Failed(msg) => MetadataStatus::Failed(msg.clone()),
        }
    }
}

impl MetadataStatus {
    /// Returns `true` if this is a terminal status (`Completed` or `Failed`).
    #[must_use]
    pub fn is_terminal(&self) -> (r: bool)
        ensures
            r == is_terminal(self@),
    {
        matches!(self, MetadataStatus::Completed(_) | MetadataStatus::Failed(_))
    }

    /// The status in words.
    #[must_use]
    pub fn to_string(&self) -> (s: String)
        ensures
            s@ == (match self@ {
                StatusView::Running => "running"@,
                StatusView::Suspended { status, .. } => "suspended: "@ + status,
                StatusView::Completed(None) => "completed"@,
                StatusView::Completed(Some(msg)) => "completed: "@ + msg,
                StatusView::Failed(msg) => "failed: "@ + msg,
            }),
    {
        match self {
            MetadataStatus::Running => "running".to_owned(),
            MetadataStatus::Suspended { status, .. } => concat2("suspended: ", status),
            MetadataStatus::Completed(msg) => match msg {
                None => "completed".to_owned(),
                Some(m) => concat2("completed: ", m),
            },
            MetadataStatus::Failed(msg) => concat2("failed: ", msg),
        }
    }
}

/// The observable state of an instance of which only the metadata is known. A
/// running instance without a live task counts as started.
pub open spec fn recorded_state(s: StatusView) -> StateView {
    match s {
        StatusView::Running => StateView::Started,
        StatusView::Suspended { key, status } => StateView::Suspended { key, status },
        StatusView::Completed(msg) => StateView::Completed(msg),
        StatusView::Failed(msg) => StateView::Failed(msg),
    }
}

impl MetadataStatus {
    /// The observable state of an instance of which only the metadata is
    /// known.
    #[must_use]
    pub fn recorded_state(&self) -> (s: WorkflowState)
        ensures
            s@ == recorded_state(self@),
    {
        match self {
            MetadataStatus::Running => WorkflowState::Started,
            MetadataStatus::Suspended { key, status } => WorkflowState::Suspended {
                key: key.clone(),
                status: status.clone(),
            },
            MetadataStatus::Completed(msg) => WorkflowState::Completed(clone_opt(msg)),
            MetadataStatus::Failed(msg) => WorkflowState::Failed(msg.clone()),
        }
    }
}

/// Metadata record for a workflow instance.
///
/// Stored in a dedicated table keyed by `"{workflow_name}/{instance_id}"`.
/// Provides workflow-level state without scanning the step table.
#[derive(Debug, PartialEq, Eq)]
pub struct WorkflowMetadata {
    status: MetadataStatus,
    completed_at: Option<u64>,
}

/// What a [`WorkflowMetadata`] record says.
pub struct MetadataView {
    pub status: StatusView,
    pub completed_at: Option<u64>,
}

impl View for WorkflowMetadata {
    type V = MetadataView;

    closed spec fn view(&self) -> MetadataView {
        MetadataView { status: self.status@, completed_at: self.completed_at }
    }
}

impl Clone for WorkflowMetadata {
    fn clone(&self) -> (r: Self)
        ensures
            r == *self,
    {
        WorkflowMetadata { status: self.status.clone(), completed_at: self.completed_at }
    }
}

/// The record of a status reached at the given time: only a terminal status
/// has a time of completion.
pub open spec fn record_at(status: StatusView, now_secs: u64) -> MetadataView {
    MetadataView { status, completed_at: if is_terminal(status) { Some(now_secs) } else { None } }
}

impl WorkflowMetadata {
    /// Creates a new metadata record with the given status.
    ///
    /// `completed_at` is set to the current time for terminal statuses; such a
    /// record cannot be made, and the result is `None`, where the system clock
    /// is before the Unix epoch.
    #[must_use]
    pub fn new(status: MetadataStatus) -> (m: Option<Self>)
        ensures
            match m {
                Some(m) => exists|now: u64| m@ == #[trigger] record_at(status@, now),
                None => is_terminal(status@),
            },
    {
        if status.is_terminal() {
            match clock::now_unix_secs() {
                Some(now) => Some(Self::new_at(status, now)),
                None => None,
            }
        } else {
            Some(Self::new_at(status, 0))
        }
    }

    /// Creates the metadata record of a status reached `now_secs` seconds
    /// after the Unix epoch.
    #[must_use]
    pub fn new_at(status: MetadataStatus, now_secs: u64) -> (m: Self)
        ensures
            m@ == record_at(status@, now_secs),
    {
        let completed_at = if status.is_terminal() {
            Some(now_secs)
        } else {
            None
        };
        Self { status, completed_at }
    }

    /// Returns the lifecycle status.
    #[must_use]
    pub fn status(&self) -> (s: &MetadataStatus)
        ensures
            s@ == self@.status,
    {
        &self.status
    }

    /// Returns the Unix timestamp (seconds) when the workflow reached a
    /// terminal state, or `None` if it is still in progress.
    #[must_use]
    pub fn completed_at(&self) -> (t: Option<u64>)
        ensures
            t == self@.completed_at,
    {
        self.completed_at
    }
}

/// The bytes of a metadata row: the number of the status, its fields, and the
/// time of completion.
pub open spec fn metadata_bytes(m: MetadataView) -> Seq<u8> {
    let time = codec::opt_u64_bytes(m.completed_at);
    match m.status {
        StatusView::Running => codec::u32_bytes(0) + time,
        StatusView::Suspended { key, status } => codec::u32_bytes(1) + (codec::text_bytes(key) + (
        codec::text_bytes(status) + time)),
        StatusView::Completed(msg) => codec::u32_bytes(2) + (codec::opt_text_bytes(msg) + time),
        StatusView::Failed(msg) => codec::u32_bytes(3) + (codec::text_bytes(msg) + time),
    }
}

/// What the time of completion at the front of `bytes` makes of a status.
pub open spec fn read_time(status: StatusView, bytes: Seq<u8>) -> Result<MetadataView, Seq<char>> {
    match codec::opt_u64_read(bytes) {
        Err(e) => Err(e),
        Ok((completed_at, _)) => Ok(MetadataView { status, completed_at }),
    }
}

/// What a metadata row says, or the text of the error in it.
pub open spec fn read_metadata_row(bytes: Seq<u8>) -> Result<MetadataView, Seq<char>> {
    match codec::u32_read(bytes) {
        Err(e) => Err(e),
        Ok((variant, rest)) => if variant == 0 {
            read_time(StatusView::Running, rest)
        } else if variant == 1 {
            match codec::text_read(rest) {
                Err(e) => Err(e),
                Ok((key, rest)) => match codec::text_read(rest) {
                    Err(e) => Err(e),
                    Ok((status, rest)) => read_time(StatusView::Suspended { key, status }, rest),
                },
            }
        } else if variant == 2 {
            match codec::opt_text_read(rest) {
                Err(e) => Err(e),
                Ok((msg, rest)) => read_time(StatusView::Completed(msg), rest),
            }
        } else if variant == 3 {
            match codec::text_read(rest) {
                Err(e) => Err(e),
                Ok((msg, rest)) => read_time(StatusView::Failed(msg), rest),
            }
        } else {
            Err(codec::UNKNOWN_VARIANT@)
        },
    }
}

/// Reading the row of a record gives the record back.
pub open spec fn reads_back(m: MetadataView) -> bool {
    read_metadata_row(metadata_bytes(m)) == Ok::<MetadataView, Seq<char>>(m)
}

impl WorkflowMetadata {
    /// The row of this record.
    #[must_use]
    pub fn encode(&self) -> (bytes: Vec<u8>)
        ensures
            bytes@ == metadata_bytes(self@),
            reads_back(self@),
    {
        let time = codec::put_opt_u64(self.completed_at).unwrap();
        assert(time@ + Seq::empty() =~= time@);
        assert(codec::opt_u64_read(time@) == codec::read_ok(self.completed_at, Seq::empty()));
        match &self.status {
            MetadataStatus::Running => codec::join(codec::put_u32(0).unwrap(), time),
            MetadataStatus::Suspended { key, status } => {
                let tail = codec::join(codec::put_text(status).unwrap(), time);
                let tail = codec::join(codec::put_text(key).unwrap(), tail);
                codec::join(codec::put_u32(1).unwrap(), tail)
            },
            MetadataStatus::Completed(msg) => {
                let tail = codec::join(codec::put_opt_text(msg).unwrap(), time);
                codec::join(codec::put_u32(2).unwrap(), tail)
            },
            MetadataStatus::Failed(msg) => {
                let tail = codec::join(codec::put_text(msg).unwrap(), time);
                codec::join(codec::put_u32(3).unwrap(), tail)
            },
        }
    }

    fn decode_time(status: MetadataStatus, bytes: &[u8]) -> (r: Result<Self, String>)
        ensures
            match r {
                Ok(m) => read_time(status@, bytes@) == Ok::<MetadataView, Seq<char>>(m@),
                Err(e) => read_time(status@, bytes@) == Err::<MetadataView, Seq<char>>(e@),
            },
    {
        match codec::take_opt_u64(bytes) {
            Err(e) => Err(e),
            Ok((completed_at, _)) => Ok(Self { status, completed_at }),
        }
    }

    /// The record in a metadata row, or the text of the error in it.
    ///
    /// # Errors
    ///
    /// The text of the serialization error, where the row holds no record.
    pub fn decode(bytes: &[u8]) -> (r: Result<Self, String>)
        ensures
            match r {
                Ok(m) => read_metadata_row(bytes@) == Ok::<MetadataView, Seq<char>>(m@),
                Err(e) => read_metadata_row(bytes@) == Err::<MetadataView, Seq<char>>(e@),
            },
    {
        match codec::take_u32(bytes) {
            Err(e) => Err(e),
            Ok((variant, rest)) => if variant == 0 {
                Self::decode_time(MetadataStatus::Running, rest)
            } else if variant == 1 {
                match codec::take_text(rest) {
                    Err(e) => Err(e),
                    Ok((key, rest)) => match codec::take_text(rest) {
                        Err(e) => Err(e),
                        Ok((status, rest)) => Self::decode_time(
                            MetadataStatus::Suspended { key, status },
                            rest,
                        ),
                    },
                }
            } else if variant == 2 {
                match codec::take_opt_text(rest) {
                    Err(e) => Err(e),
                    Ok((msg, rest)) => Self::decode_time(MetadataStatus::Completed(msg), rest),
                }
            } else if variant == 3 {
                match codec::take_text(rest) {
                    Err(e) => Err(e),
                    Ok((msg, rest)) => Self::decode_time(MetadataStatus::Failed(msg), rest),
                }
            } else {
                Err(codec::UNKNOWN_VARIANT.to_owned())
            },
        }
    }
}

/// The change that records the metadata of an instance.
#[must_use]
pub fn write_metadata(
    workflow_name: &str,
    instance_id: &str,
    metadata: &WorkflowMetadata,
) -> (w: Write)
    ensures
        w@ == (WriteView::PutMeta {
            key: keys::meta_key(workflow_name@, instance_id@),
            value: metadata_bytes(metadata@),
        }),
        reads_back(metadata@),
{
    Write::PutMeta {
        key: keys::metadata_key(workflow_name, instance_id),
        value: metadata.encode(),
    }
}

/// The metadata of an instance, from its row.
///
/// # Errors
///
/// [`EngineError::Serialization`] under the row's key, where the row holds no
/// metadata.
pub fn read_metadata(
    row: Option<Vec<u8>>,
    workflow_name: &str,
    instance_id: &str,
) -> (r: Result<Option<WorkflowMetadata>, EngineError>)
    ensures
        match row {
            None => r matches Ok(None),
            Some(bytes) => match read_metadata_row(bytes@) {
                Ok(m) => r matches Ok(Some(found)) && found@ == m,
                Err(source) => r matches Err(e) && e@ == (ErrorView::Serialization {
                    key: keys::meta_key(workflow_name@, instance_id@),
                    source,
                }),
            },
        },
{
    match row {
        None => Ok(None),
        Some(bytes) => match WorkflowMetadata::decode(bytes.as_slice()) {
            Ok(m) => Ok(Some(m)),
            Err(source) => Err(
                EngineError::Serialization {
                    key: keys::metadata_key(workflow_name, instance_id),
                    source,
                },
            ),
        },
    }
}

/// Whether every row below `n` holds metadata.
pub open spec fn readable(rows: Seq<(String, Vec<u8>)>, n: int) -> bool {
    forall|i: int| 0 <= i < n ==> read_metadata_row((#[trigger] rows[i]).1@) is Ok
}

/// The metadata of every instance of a workflow, from the rows of the
/// workflow's key range: `(instance_id, metadata)` pairs in the rows' order.
///
/// # Errors
///
/// [`EngineError::Serialization`] under the key of the first row that holds no
/// metadata.
pub fn list_metadata(
    rows: Vec<(String, Vec<u8>)>,
    workflow_name: &str,
) -> (r: Result<Vec<(String, WorkflowMetadata)>, EngineError>)
    requires
        forall|i: int|
            0 <= i < rows@.len() ==> keys::in_range(
                (#[trigger] rows@[i]).0@,
                keys::range_start(workflow_name@),
                keys::range_end(workflow_name@),
            ),
    ensures
        match r {
            Ok(list) => {
                &&& readable(rows@, rows@.len() as int)
                &&& list@.len() == rows@.len()
                &&& forall|i: int|
                    #![trigger list@[i]]
                    0 <= i < list@.len() ==> {
                        &&& rows@[i].0@ == keys::meta_key(workflow_name@, list@[i].0@)
                        &&& read_metadata_row(rows@[i].1@) == Ok::<MetadataView, Seq<char>>(
                            list@[i].1@,
                        )
                    }
            },
            Err(e) => exists|i: int|
                0 <= i < rows@.len() && readable(rows@, i) && (
                #[trigger] read_metadata_row(rows@[i].1@)) is Err && e@ == (
                ErrorView::Serialization {
                    key: rows@[i].0@,
                    source: read_metadata_row(rows@[i].1@)->Err_0,
                }),
        },
{
    let mut list: Vec<(String, WorkflowMetadata)> = Vec::new();
    let (prefix, _) = keys::child_range(workflow_name);
    let mut i: usize = 0;
    while i < rows.len()
        invariant
            i <= rows@.len(),
            list@.len() == i,
            readable(rows@, i as int),
            prefix@ == keys::range_start(workflow_name@),
            forall|j: int|
                0 <= j < rows@.len() ==> keys::in_range(
                    (#[trigger] rows@[j]).0@,
                    keys::range_start(workflow_name@),
                    keys::range_end(workflow_name@),
                ),
            forall|j: int|
                #![trigger list@[j]]
                0 <= j < i ==> {
                    &&& rows@[j].0@ == keys::meta_key(workflow_name@, list@[j].0@)
                    &&& read_metadata_row(rows@[j].1@) == Ok::<MetadataView, Seq<char>>(
                        list@[j].1@,
                    )
                },
        decreases rows@.len() - i,
    {
        let (full_key, value) = &rows[i];
        proof {
            keys::child_range_is_prefix(workflow_name@, full_key@);
        }
        let instance_id = text::strip_prefix(full_key, &prefix).unwrap();
        assert(full_key@ =~= prefix@ + instance_id@);
        match WorkflowMetadata::decode(value.as_slice()) {
            Ok(meta) => {
                list.push((instance_id, meta));
            },
            Err(source) => {
                return Err(EngineError::Serialization { key: full_key.clone(), source });
            },
        }
        i = i + 1;
    }
    Ok(list)
}

/// A record has a time of completion exactly if its status is terminal.
pub proof fn completed_iff_terminal(status: StatusView, now_secs: u64)
    ensures
        record_at(status, now_secs).completed_at is Some <==> is_terminal(status),
{
}

/// A status is terminal exactly if the instance completed or failed.
pub proof fn terminal_statuses(s: StatusView)
    ensures
        is_terminal(s) <==> !(s is Running || s is Suspended),
{
}

/// A record keeps its status, and a terminal one the time at which it was
/// reached.
pub proof fn record_keeps_status_and_time(status: StatusView, now_secs: u64)
    ensures
        record_at(status, now_secs).status == status,
        status is Completed || status is Failed ==> record_at(status, now_secs).completed_at
            == Some(now_secs),
        status is Running || status is Suspended ==> record_at(status, now_secs).completed_at
            is None,
{
}

/// What is observed of an instance of which only the record is known is what
/// the record says: a running one has started, and every other state has the
/// key, status or message of the record.
pub proof fn recorded_state_is_faithful(
    key: Seq<char>,
    status: Seq<char>,
    msg: Option<Seq<char>>,
    error: Seq<char>,
)
    ensures
        recorded_state(StatusView::Running) is Started,
        recorded_state(StatusView::Suspended { key, status }) == (StateView::Suspended {
            key,
            status,
        }),
        recorded_state(StatusView::Completed(msg)) == StateView::Completed(msg),
        recorded_state(StatusView::Failed(error)) == StateView::Failed(error),
{
}

/// A metadata row begins with the number of its status; a row with another
/// number is refused.
pub proof fn unknown_statuses_are_refused(bytes: Seq<u8>, number: u32, rest: Seq<u8>)
    requires
        codec::u32_read(bytes) == codec::read_ok(number, rest),
    ensures
        number > 3 ==> read_metadata_row(bytes) is Err,
        read_metadata_row(bytes) matches Ok(m) ==> {
            &&& m.status is Running <==> number == 0
            &&& m.status is Suspended <==> number == 1
            &&& m.status is Completed <==> number == 2
            &&& m.status is Failed <==> number == 3
        },
{
}

/// The row of a record: the number of its status, what the status holds, and
/// the time of completion.
pub proof fn record_layout(
    key: Seq<char>,
    msg: Seq<char>,
    last: Option<Seq<char>>,
    completed_at: Option<u64>,
)
    ensures
        ({
            let row = |status: StatusView| metadata_bytes(MetadataView { status, completed_at });
            let time = codec::opt_u64_bytes(completed_at);
            &&& row(StatusView::Running) == codec::u32_bytes(0) + time
            &&& row(StatusView::Suspended { key, status: msg }) == codec::u32_bytes(1)
                + codec::text_bytes(key) + codec::text_bytes(msg) + time
            &&& row(StatusView::Completed(last)) == codec::u32_bytes(2) + codec::opt_text_bytes(last)
                + time
            &&& row(StatusView::Failed(msg)) == codec::u32_bytes(3) + codec::text_bytes(msg) + time
        }),
{
}

} // verus!
