//! Step entries: the rows in which a step's outcome is kept.
//!
//! A row is an envelope with the entry's state and, for a completed entry, the
//! name of its result type, around the entry itself. The result of a step is
//! encoded by whoever knows its type; here it is a run of bytes.

use crate::codec;
use crate::error::{EngineError, ErrorView};
use crate::store;
use crate::text;
use vstd::prelude::*;

verus! {

/// The name of the type `()`, the result type of a timer.
pub const UNIT_TYPE: &'static str = "()";

/// The kind of a step entry.
#[derive(Clone, Copy, Debug, PartialEq, Eq, Structural)]
pub enum StepState {
    /// The step completed.
    Completed,
    /// The step waits for a signal or a timer.
    Suspended,
    /// The step failed and is dead-lettered.
    Failed,
    /// The step waited, and completed when a signal or a timer claimed it.
    Claimed,
}

/// A step entry with a result of type `T`.
#[derive(Debug, PartialEq, Eq)]
pub enum StepData<T> {
    /// The step completed.
    Completed {
        /// The step's result.
        result: T,
        /// The status message at the time of completion, if any.
        status: Option<String>,
    },
    /// The step waits for a signal or a timer.
    Suspended,
    /// The step failed and is dead-lettered.
    Failed {
        /// The message of the error that it failed with.
        error: String,
    },
}

/// What a step entry with an encoded result says. A completed one is claimed
/// where a signal or a timer completed it.
pub enum StepView {
    Completed { payload: Seq<u8>, status: Option<Seq<char>>, claimed: bool },
    Suspended,
    Failed { error: Seq<char> },
}

/// A step entry of which the result is not read yet: a completed one holds the
/// bytes of its result and status.
#[derive(Debug, PartialEq, Eq)]
pub enum StepFrame {
    /// The step completed.
    Completed(Vec<u8>),
    /// The step waits for a signal or a timer.
    Suspended,
    /// The step failed and is dead-lettered, with the message of the error
    /// that it failed with.
    Failed(String),
}

/// What a [`StepFrame`] says.
pub enum FrameView {
    Completed(Seq<u8>),
    Suspended,
    Failed(Seq<char>),
}

impl View for StepFrame {
    type V = FrameView;

    open spec fn view(&self) -> FrameView {
        match *self {
            StepFrame::Completed(body) => FrameView::Completed(body@),
            StepFrame::Suspended => FrameView::Suspended,
            StepFrame::Failed(error) => FrameView::Failed(error@),
        }
    }
}

/// Storage envelope that wraps an encoded step entry.
///
/// The state tells what the entry is without reading it. The type tag enables
/// detection of payload type mismatches before the payload is read.
#[derive(Debug, PartialEq, Eq)]
pub struct StepEnvelope {
    /// The kind of the entry.
    pub state: StepState,
    /// The name of the result type for completed entries, `None` for others.
    pub type_tag: Option<String>,
    /// The encoded entry.
    pub data: Vec<u8>,
}

/// What a [`StepEnvelope`] says.
pub struct EnvelopeView {
    pub state: StepState,
    pub type_tag: Option<Seq<char>>,
    pub data: Seq<u8>,
}

impl View for StepEnvelope {
    type V = EnvelopeView;

    open spec fn view(&self) -> EnvelopeView {
        EnvelopeView { state: self.state, type_tag: codec::opt_text(self.type_tag), data: self.data@ }
    }
}

/// The kind of an entry.
pub open spec fn state_of(d: StepView) -> StepState {
    match d {
        StepView::Completed { claimed, .. } => if claimed {
            StepState::Claimed
        } else {
            StepState::Completed
        },
        StepView::Suspended => StepState::Suspended,
        StepView::Failed { .. } => StepState::Failed,
    }
}

/// The number by which a state is encoded.
pub open spec fn state_number(s: StepState) -> u32 {
    match s {
        StepState::Completed => 0,
        StepState::Suspended => 1,
        StepState::Failed => 2,
        StepState::Claimed => 3,
    }
}

/// The bytes behind the number of a completed entry: its result, then its
/// status.
pub open spec fn completed_body(payload: Seq<u8>, status: Option<Seq<char>>) -> Seq<u8> {
    payload + codec::opt_text_bytes(status)
}

/// The bytes of an entry.
pub open spec fn entry_bytes(d: StepView) -> Seq<u8> {
    match d {
        StepView::Completed { payload, status, .. } => codec::u32_bytes(0) + completed_body(
            payload,
            status,
        ),
        StepView::Suspended => codec::u32_bytes(1),
        StepView::Failed { error } => codec::u32_bytes(2) + codec::text_bytes(error),
    }
}

/// The envelope of an entry with a result of the named type: only a completed
/// entry is tagged.
pub open spec fn envelope_of(d: StepView, tag: Seq<char>) -> EnvelopeView {
    EnvelopeView {
        state: state_of(d),
        type_tag: if d is Completed { Some(tag) } else { None },
        data: entry_bytes(d),
    }
}

/// The bytes of an envelope.
pub open spec fn envelope_bytes(e: EnvelopeView) -> Seq<u8> {
    codec::u32_bytes(state_number(e.state)) + (codec::opt_text_bytes(e.type_tag)
        + codec::blob_bytes(e.data))
}

/// The row of an entry with a result of the named type.
pub open spec fn step_bytes(d: StepView, tag: Seq<char>) -> Seq<u8> {
    envelope_bytes(envelope_of(d, tag))
}

/// The envelope in a row, or the text of the error in it.
pub open spec fn read_envelope(bytes: Seq<u8>) -> Result<EnvelopeView, Seq<char>> {
    match codec::u32_read(bytes) {
        Err(e) => Err(e),
        Ok((number, rest)) => if number > 3 {
            Err(codec::UNKNOWN_VARIANT@)
        } else {
            match codec::opt_text_read(rest) {
                Err(e) => Err(e),
                Ok((type_tag, rest)) => match codec::blob_read(rest) {
                    Err(e) => Err(e),
                    Ok((data, _)) => Ok(
                        EnvelopeView {
                            state: if number == 0 {
                                StepState::Completed
                            } else if number == 1 {
                                StepState::Suspended
                            } else if number == 2 {
                                StepState::Failed
                            } else {
                                StepState::Claimed
                            },
                            type_tag,
                            data,
                        },
                    ),
                },
            }
        },
    }
}

/// The entry in some bytes, or the text of the error in them.
pub open spec fn read_entry(bytes: Seq<u8>) -> Result<FrameView, Seq<char>> {
    match codec::u32_read(bytes) {
        Err(e) => Err(e),
        Ok((number, rest)) => if number == 0 {
            Ok(FrameView::Completed(rest))
        } else if number == 1 {
            Ok(FrameView::Suspended)
        } else if number == 2 {
            match codec::text_read(rest) {
                Err(e) => Err(e),
                Ok((error, _)) => Ok(FrameView::Failed(error)),
            }
        } else {
            Err(codec::UNKNOWN_VARIANT@)
        },
    }
}

/// What reading a row gives a step named `key` that expects a result of the
/// named type. An untagged entry is never a mismatch.
pub open spec fn open_row(bytes: Seq<u8>, tag: Seq<char>, key: Seq<char>) -> Result<
    FrameView,
    ErrorView,
> {
    match read_envelope(bytes) {
        Err(source) => Err(ErrorView::Serialization { key, source }),
        Ok(envelope) => if envelope.type_tag is Some && envelope.type_tag->0 != tag {
            Err(
                ErrorView::TypeMismatch { key, expected: tag, found: envelope.type_tag->0 },
            )
        } else {
            match read_entry(envelope.data) {
                Err(source) => Err(ErrorView::Serialization { key, source }),
                Ok(frame) => Ok(frame),
            }
        },
    }
}

/// An entry as reading it back shows it.
pub open spec fn frame_of(d: StepView) -> FrameView {
    match d {
        StepView::Completed { payload, status, .. } => FrameView::Completed(
            completed_body(payload, status),
        ),
        StepView::Suspended => FrameView::Suspended,
        StepView::Failed { error } => FrameView::Failed(error),
    }
}

/// Whether a row holds the given entry, with a result of the named type.
pub open spec fn holds(bytes: Seq<u8>, d: StepView, tag: Seq<char>) -> bool {
    &&& read_envelope(bytes) == Ok::<EnvelopeView, Seq<char>>(envelope_of(d, tag))
    &&& read_entry(entry_bytes(d)) == Ok::<FrameView, Seq<char>>(frame_of(d))
}

/// What an entry with an encoded result says, where a completed one was claimed
/// or not.
pub open spec fn entry_view(d: StepData<Vec<u8>>, claimed: bool) -> StepView {
    match d {
        StepData::Completed { result, status } => StepView::Completed {
            payload: result@,
            status: codec::opt_text(status),
            claimed,
        },
        StepData::Suspended => StepView::Suspended,
        StepData::Failed { error } => StepView::Failed { error: error@ },
    }
}

/// What an entry with an encoded result says that no claim wrote.
pub open spec fn encoded_view(d: StepData<Vec<u8>>) -> StepView {
    entry_view(d, false)
}

/// The entry that a step leaves which completes by itself.
pub open spec fn own_entry(payload: Seq<u8>, status: Option<Seq<char>>) -> StepView {
    StepView::Completed { payload, status, claimed: false }
}

/// The entry that a claim leaves: a completed step without status.
pub open spec fn claimed_entry(payload: Seq<u8>) -> StepView {
    StepView::Completed { payload, status: None, claimed: true }
}

/// Reading the status behind the result of a completed entry gives it back.
pub open spec fn status_reads_back(d: StepView) -> bool {
    d matches StepView::Completed { status, .. } ==> forall|rest: Seq<u8>| #[trigger]
        codec::opt_text_read(codec::opt_text_bytes(status) + rest) == codec::read_ok(status, rest)
}

fn encode_entry(data: StepData<Vec<u8>>, claimed: bool, tag: &str) -> (bytes: Vec<u8>)
    ensures
        bytes@ == step_bytes(entry_view(data, claimed), tag@),
        holds(bytes@, entry_view(data, claimed), tag@),
        status_reads_back(entry_view(data, claimed)),
{
    let (type_tag, number) = match &data {
        StepData::Completed { .. } => (
            Some(tag.to_owned()),
            if claimed {
                3u32
            } else {
                0u32
            },
        ),
        StepData::Suspended => (None, 1u32),
        StepData::Failed { .. } => (None, 2u32),
    };
    let entry = match data {
        StepData::Completed { result, status } => {
            let tail = codec::put_opt_text(&status).unwrap();
            codec::join(codec::put_u32(0).unwrap(), codec::join(result, tail))
        },
        StepData::Suspended => {
            let entry = codec::put_u32(1).unwrap();
            assert(entry@ + Seq::empty() =~= entry@);
            assert(codec::u32_read(entry@) == codec::read_ok(1u32, Seq::empty()));
            entry
        },
        StepData::Failed { error } => {
            let tail = codec::put_text(&error).unwrap();
            assert(tail@ + Seq::empty() =~= tail@);
            assert(codec::text_read(tail@) == codec::read_ok(error@, Seq::empty()));
            codec::join(codec::put_u32(2).unwrap(), tail)
        },
    };
    let blob = codec::put_blob(entry.as_slice()).unwrap();
    assert(blob@ + Seq::empty() =~= blob@);
    assert(codec::blob_read(blob@) == codec::read_ok(entry@, Seq::empty()));
    let head = codec::put_opt_text(&type_tag).unwrap();
    let bytes = codec::join(codec::put_u32(number).unwrap(), codec::join(head, blob));
    bytes
}

/// The row of an entry whose result is encoded, with a result of the named
/// type.
#[must_use]
pub fn encode_step(data: StepData<Vec<u8>>, tag: &str) -> (bytes: Vec<u8>)
    ensures
        bytes@ == step_bytes(encoded_view(data), tag@),
        holds(bytes@, encoded_view(data), tag@),
        status_reads_back(encoded_view(data)),
{
    encode_entry(data, false, tag)
}

/// The row of the entry that a claim leaves, with an encoded result of the
/// named type.
#[must_use]
pub fn encode_claim(payload: Vec<u8>, tag: &str) -> (bytes: Vec<u8>)
    ensures
        bytes@ == step_bytes(claimed_entry(payload@), tag@),
        holds(bytes@, claimed_entry(payload@), tag@),
        status_reads_back(claimed_entry(payload@)),
{
    encode_entry(StepData::Completed { result: payload, status: None }, true, tag)
}

/// Serializes a step entry into its row. The result comes as what encoding it
/// gave: its bytes, or the text of the error.
///
/// # Errors
///
/// [`EngineError::Serialization`] where encoding the result failed.
pub fn serialize_step(
    data: StepData<Result<Vec<u8>, String>>,
    tag: &str,
    key: &str,
) -> (r: Result<Vec<u8>, EngineError>)
    ensures
        match data {
            StepData::Completed { result: Err(source), .. } => r matches Err(e) && e@ == (
            ErrorView::Serialization { key: key@, source: source@ }),
            StepData::Completed { result: Ok(payload), status } => {
                let view = own_entry(payload@, codec::opt_text(status));
                &&& r matches Ok(bytes)
                &&& bytes@ == step_bytes(view, tag@)
                &&& holds(bytes@, view, tag@)
                &&& status_reads_back(view)
            },
            StepData::Suspended => {
                &&& r matches Ok(bytes)
                &&& bytes@ == step_bytes(StepView::Suspended, tag@)
                &&& holds(bytes@, StepView::Suspended, tag@)
            },
            StepData::Failed { error } => {
                let view = StepView::Failed { error: error@ };
                &&& r matches Ok(bytes)
                &&& bytes@ == step_bytes(view, tag@)
                &&& holds(bytes@, view, tag@)
            },
        },
{
    match data {
        StepData::Completed { result, status } => match result {
            Ok(payload) => Ok(
                encode_step(StepData::Completed { result: payload, status }, tag),
            ),
            Err(source) => Err(EngineError::Serialization { key: key.to_owned(), source }),
        },
        StepData::Suspended => Ok(encode_step(StepData::Suspended, tag)),
        StepData::Failed { error } => Ok(encode_step(StepData::Failed { error }, tag)),
    }
}

/// Reads only the envelope of a row, without its entry.
///
/// # Errors
///
/// [`EngineError::Serialization`] where the row holds no envelope.
pub fn deserialize_envelope(bytes: &[u8], key: &str) -> (r: Result<StepEnvelope, EngineError>)
    ensures
        match read_envelope(bytes@) {
            Ok(envelope) => r matches Ok(found) && found@ == envelope,
            Err(source) => r matches Err(e) && e@ == (ErrorView::Serialization {
                key: key@,
                source,
            }),
        },
{
    match codec::take_u32(bytes) {
        Err(source) => Err(EngineError::Serialization { key: key.to_owned(), source }),
        Ok((number, rest)) => {
            if number > 3 {
                return Err(
                    EngineError::Serialization {
                        key: key.to_owned(),
                        source: codec::UNKNOWN_VARIANT.to_owned(),
                    },
                );
            }
            let state = if number == 0 {
                StepState::Completed
            } else if number == 1 {
                StepState::Suspended
            } else if number == 2 {
                StepState::Failed
            } else {
                StepState::Claimed
            };
            match codec::take_opt_text(rest) {
                Err(source) => Err(EngineError::Serialization { key: key.to_owned(), source }),
                Ok((type_tag, rest)) => match codec::take_blob(rest) {
                    Err(source) => Err(EngineError::Serialization { key: key.to_owned(), source }),
                    Ok((data, _)) => Ok(StepEnvelope { state, type_tag, data }),
                },
            }
        },
    }
}

fn decode_entry(bytes: &[u8]) -> (r: Result<StepFrame, String>)
    ensures
        match r {
            Ok(frame) => read_entry(bytes@) == Ok::<FrameView, Seq<char>>(frame@),
            Err(e) => read_entry(bytes@) == Err::<FrameView, Seq<char>>(e@),
        },
{
    match codec::take_u32(bytes) {
        Err(e) => Err(e),
        Ok((number, rest)) => if number == 0 {
            Ok(StepFrame::Completed(vstd::slice::slice_to_vec(rest)))
        } else if number == 1 {
            Ok(StepFrame::Suspended)
        } else if number == 2 {
            match codec::take_text(rest) {
                Err(e) => Err(e),
                Ok((error, _)) => Ok(StepFrame::Failed(error)),
            }
        } else {
            Err(codec::UNKNOWN_VARIANT.to_owned())
        },
    }
}

/// Opens the row of a step that expects a result of the named type.
///
/// # Errors
///
/// [`EngineError::TypeMismatch`] where the entry is tagged with another type
/// name, and [`EngineError::Serialization`] where the row holds no entry.
pub fn open_step(bytes: &[u8], tag: &str, key: &str) -> (r: Result<StepFrame, EngineError>)
    ensures
        match open_row(bytes@, tag@, key@) {
            Ok(frame) => r matches Ok(found) && found@ == frame,
            Err(error) => r matches Err(e) && e@ == error,
        },
{
    let envelope = match deserialize_envelope(bytes, key) {
        Ok(envelope) => envelope,
        Err(e) => {
            return Err(e);
        },
    };
    if let Some(found) = &envelope.type_tag {
        if !text::same_text(found, tag) {
            return Err(
                EngineError::TypeMismatch {
                    key: key.to_owned(),
                    expected: tag.to_owned(),
                    found: found.clone(),
                },
            );
        }
    }
    match decode_entry(envelope.data.as_slice()) {
        Ok(frame) => Ok(frame),
        Err(source) => Err(EngineError::Serialization { key: key.to_owned(), source }),
    }
}

/// Whether `r` is what reading a row gives a step named `key` that expects a
/// result of the type tagged `tag`, where `parse` reads the bytes behind the
/// number of a completed entry.
pub open spec fn reads_as<T, F: FnOnce(Vec<u8>) -> Result<(T, Option<String>), String>>(
    bytes: Seq<u8>,
    tag: Seq<char>,
    key: Seq<char>,
    parse: F,
    r: Result<StepData<T>, EngineError>,
) -> bool {
    match open_row(bytes, tag, key) {
        Err(error) => r matches Err(e) && e@ == error,
        Ok(FrameView::Suspended) => r matches Ok(StepData::Suspended),
        Ok(FrameView::Failed(message)) => r matches Ok(StepData::Failed { error }) && error@
            == message,
        Ok(FrameView::Completed(body)) => exists|b: Vec<u8>, parsed| #[trigger]
            call_ensures(parse, (b,), parsed) && b@ == body && match parsed {
                Ok((result, status)) => r == Ok::<StepData<T>, EngineError>(
                    StepData::Completed { result, status },
                ),
                Err(source) => r matches Err(e) && e@ == (ErrorView::Serialization {
                    key,
                    source: source@,
                }),
            },
    }
}

/// Deserializes the row of a step that expects a result of the type tagged
/// `tag`.
///
/// `parse` reads the bytes behind the number of a completed entry: the result,
/// then the optional status. It is called for a completed entry only, and
/// fails with the text of its error.
///
/// # Errors
///
/// [`EngineError::TypeMismatch`] where the entry has another tag, and
/// [`EngineError::Serialization`] where the row holds no entry or `parse`
/// fails.
pub fn deserialize_step<T, F: FnOnce(Vec<u8>) -> Result<(T, Option<String>), String>>(
    bytes: &[u8],
    tag: &str,
    key: &str,
    parse: F,
) -> (r: Result<StepData<T>, EngineError>)
    requires
        forall|body: Vec<u8>| #[trigger] call_requires(parse, (body,)),
    ensures
        reads_as(bytes@, tag@, key@, parse, r),
{
    match open_step(bytes, tag, key) {
        Err(e) => Err(e),
        Ok(StepFrame::Suspended) => Ok(StepData::Suspended),
        Ok(StepFrame::Failed(error)) => Ok(StepData::Failed { error }),
        Ok(StepFrame::Completed(body)) => match parse(body) {
            Ok((result, status)) => Ok(StepData::Completed { result, status }),
            Err(source) => Err(EngineError::Serialization { key: key.to_owned(), source }),
        },
    }
}

/// Whether `r` is what reading an optional row gives: nothing where there is
/// no row.
pub open spec fn row_reads_as<T, F: FnOnce(Vec<u8>) -> Result<(T, Option<String>), String>>(
    row: Option<Seq<u8>>,
    tag: Seq<char>,
    key: Seq<char>,
    parse: F,
    r: Result<Option<StepData<T>>, EngineError>,
) -> bool {
    match row {
        None => r == Ok::<Option<StepData<T>>, EngineError>(None),
        Some(bytes) => match r {
            Err(e) => reads_as(bytes, tag, key, parse, Err::<StepData<T>, EngineError>(e)),
            Ok(Some(data)) => reads_as(bytes, tag, key, parse, Ok::<StepData<T>, EngineError>(data)),
            Ok(None) => false,
        },
    }
}

/// Reads the entry in an optional row.
///
/// # Errors
///
/// As [`deserialize_step`] on the row.
pub fn read_row<T, F: FnOnce(Vec<u8>) -> Result<(T, Option<String>), String>>(
    row: Option<Vec<u8>>,
    tag: &str,
    key: &str,
    parse: F,
) -> (r: Result<Option<StepData<T>>, EngineError>)
    requires
        forall|body: Vec<u8>| #[trigger] call_requires(parse, (body,)),
    ensures
        row_reads_as(store::opt_row(row), tag@, key@, parse, r),
{
    match row {
        None => Ok(None),
        Some(bytes) => match deserialize_step(bytes.as_slice(), tag, key, parse) {
            Err(e) => Err(e),
            Ok(data) => Ok(Some(data)),
        },
    }
}

/// The result that an optional entry keeps: that of a completed one, and none
/// of one that waits or failed.
pub open spec fn result_in<T>(entry: Option<StepData<T>>) -> Option<T> {
    match entry {
        Some(StepData::Completed { result, .. }) => Some(result),
        _ => None,
    }
}

/// The result kept in an optional row, for a step that expects a result of the
/// type tagged `tag`: none where there is no row, or one that waits or failed.
///
/// # Errors
///
/// As [`deserialize_step`] on the row.
pub fn kept_result<T, F: FnOnce(Vec<u8>) -> Result<(T, Option<String>), String>>(
    row: Option<Vec<u8>>,
    tag: &str,
    key: &str,
    parse: F,
) -> (r: Result<Option<T>, EngineError>)
    requires
        forall|body: Vec<u8>| #[trigger] call_requires(parse, (body,)),
    ensures
        exists|read: Result<Option<StepData<T>>, EngineError>| #[trigger]
            row_reads_as(store::opt_row(row), tag@, key@, parse, read) && match read {
                Err(e) => r == Err::<Option<T>, EngineError>(e),
                Ok(entry) => r == Ok::<Option<T>, EngineError>(result_in(entry)),
            },
{
    let read = read_row(row, tag, key, parse);
    assert(row_reads_as(store::opt_row(row), tag@, key@, parse, read));
    match read {
        Err(e) => Err(e),
        Ok(Some(StepData::Completed { result, .. })) => Ok(Some(result)),
        Ok(_) => Ok(None),
    }
}

/// Reading a row gives back what was written to it: opened for the type that
/// it was written with, a row shows its entry.
pub proof fn row_reads_back(bytes: Seq<u8>, d: StepView, tag: Seq<char>, key: Seq<char>)
    requires
        holds(bytes, d, tag),
    ensures
        open_row(bytes, tag, key) == Ok::<FrameView, ErrorView>(frame_of(d)),
{
}

/// Whether `parse` reads the given result from a completed entry with the
/// given payload and status.
pub open spec fn parses<T, F: FnOnce(Vec<u8>) -> Result<(T, Option<String>), String>>(
    parse: F,
    payload: Seq<u8>,
    status: Option<Seq<char>>,
    value: T,
) -> bool {
    forall|b: Vec<u8>, parsed| #[trigger]
        call_ensures(parse, (b,), parsed) && b@ == completed_body(payload, status) ==> (
        parsed matches Ok((v, s)) && v == value && codec::opt_text(s) == status)
}

/// The row of a completed entry, claimed or not, read with a parser that
/// understands its result, gives the result and the status that it was written
/// with.
pub proof fn completed_reads_as<T, F: FnOnce(Vec<u8>) -> Result<(T, Option<String>), String>>(
    bytes: Seq<u8>,
    d: StepView,
    tag: Seq<char>,
    key: Seq<char>,
    parse: F,
    value: T,
    read: Result<Option<StepData<T>>, EngineError>,
)
    requires
        d is Completed,
        holds(bytes, d, tag),
        parses(parse, d->payload, d->status, value),
        row_reads_as(Some(bytes), tag, key, parse, read),
    ensures
        read matches Ok(Some(StepData::Completed { result, status })) && result == value
            && codec::opt_text(status) == d->status,
{
    row_reads_back(bytes, d, tag, key);
}

/// A completed entry opened for another type than it was written with is a
/// type mismatch, whatever its bytes are; suspended and failed entries open
/// for every type.
pub proof fn other_type_is_mismatch(
    bytes: Seq<u8>,
    d: StepView,
    written: Seq<char>,
    expected: Seq<char>,
    key: Seq<char>,
)
    requires
        holds(bytes, d, written),
        written != expected,
    ensures
        d is Completed ==> open_row(bytes, expected, key) == Err::<FrameView, ErrorView>(
            ErrorView::TypeMismatch { key, expected, found: written },
        ),
        d !is Completed ==> open_row(bytes, expected, key) == Ok::<FrameView, ErrorView>(
            frame_of(d),
        ),
{
}

/// Only a completed entry keeps a result, and it is the one that it was written
/// with.
pub proof fn only_completed_entries_keep_a_result<T>(
    result: T,
    status: Option<String>,
    error: String,
)
    ensures
        result_in(Some(StepData::Completed { result, status })) == Some(result),
        result_in::<T>(Some(StepData::Suspended)) is None,
        result_in::<T>(Some(StepData::Failed { error })) is None,
        result_in::<T>(None) is None,
{
}

/// An entry is known by its envelope: the states are told apart, a claimed one
/// from one that completed by itself, and exactly completed ones have a tag.
pub proof fn envelopes_tell_entries_apart(d: StepView, tag: Seq<char>)
    ensures
        ({
            let e = envelope_of(d, tag);
            &&& e.state == StepState::Suspended <==> d is Suspended
            &&& e.state == StepState::Failed <==> d is Failed
            &&& e.state == StepState::Claimed <==> (d matches StepView::Completed {
                claimed,
                ..
            } && claimed)
            &&& e.state == StepState::Completed <==> (d matches StepView::Completed {
                claimed,
                ..
            } && !claimed)
            &&& e.type_tag == if d is Completed {
                Some(tag)
            } else {
                None
            }
        }),
{
}

/// An untagged entry opens for every type; a row that cannot be read is a
/// serialization error of the step.
pub proof fn untagged_entries_open_for_every_type(
    bytes: Seq<u8>,
    envelope: EnvelopeView,
    frame: FrameView,
    tag: Seq<char>,
    key: Seq<char>,
)
    ensures
        read_envelope(bytes) == Ok::<EnvelopeView, Seq<char>>(envelope) && envelope.type_tag is None
            && read_entry(envelope.data) == Ok::<FrameView, Seq<char>>(frame) ==> open_row(
            bytes,
            tag,
            key,
        ) == Ok::<FrameView, ErrorView>(frame),
        read_envelope(bytes) matches Err(source) ==> open_row(bytes, tag, key) == Err::<
            FrameView,
            ErrorView,
        >(ErrorView::Serialization { key, source }),
{
}

/// A row that is read has one of the known states, by the number at its front:
/// a row or an entry with another number is refused.
pub proof fn unknown_states_are_refused(bytes: Seq<u8>, number: u32, rest: Seq<u8>)
    requires
        codec::u32_read(bytes) == codec::read_ok(number, rest),
    ensures
        number > 3 ==> read_envelope(bytes) is Err,
        number > 2 ==> read_entry(bytes) is Err,
        read_envelope(bytes) matches Ok(e) ==> {
            &&& e.state == StepState::Completed <==> number == 0
            &&& e.state == StepState::Suspended <==> number == 1
            &&& e.state == StepState::Failed <==> number == 2
            &&& e.state == StepState::Claimed <==> number == 3
        },
        read_entry(bytes) matches Ok(frame) ==> {
            &&& frame == FrameView::Completed(rest) <==> number == 0
            &&& frame is Suspended <==> number == 1
            &&& frame is Failed <==> number == 2
        },
{
}

/// The row of an entry: the number of its state, the tag of a completed one,
/// and, as a block of bytes, the number of its kind with the result and the
/// status, or with the error.
pub proof fn row_layout(payload: Seq<u8>, status: Option<Seq<char>>, error: Seq<char>, tag: Seq<char>)
    ensures
        step_bytes(StepView::Completed { payload, status, claimed: false }, tag) == codec::u32_bytes(0)
            + (codec::opt_text_bytes(Some(tag)) + codec::blob_bytes(
            codec::u32_bytes(0) + (payload + codec::opt_text_bytes(status)),
        )),
        step_bytes(StepView::Completed { payload, status, claimed: true }, tag) == codec::u32_bytes(3)
            + (codec::opt_text_bytes(Some(tag)) + codec::blob_bytes(
            codec::u32_bytes(0) + (payload + codec::opt_text_bytes(status)),
        )),
        step_bytes(StepView::Suspended, tag) == codec::u32_bytes(1) + (codec::opt_text_bytes(None)
            + codec::blob_bytes(codec::u32_bytes(1))),
        step_bytes(StepView::Failed { error }, tag) == codec::u32_bytes(2) + (codec::opt_text_bytes(
            None,
        ) + codec::blob_bytes(codec::u32_bytes(2) + codec::text_bytes(error))),
{
}

/// A claim leaves a completed entry with the payload as its result and without
/// status; a step of its own accord leaves its result with its status.
pub proof fn claims_leave_their_payload(payload: Seq<u8>, status: Option<Seq<char>>)
    ensures
        claimed_entry(payload) == (StepView::Completed { payload, status: None, claimed: true }),
        own_entry(payload, status) == (StepView::Completed { payload, status, claimed: false }),
        frame_of(claimed_entry(payload)) == frame_of(own_entry(payload, None)),
{
}

/// An entry that is encoded says what it is made of.
pub proof fn encoded_entries_are_faithful(
    result: Vec<u8>,
    status: Option<String>,
    error: String,
    claimed: bool,
)
    ensures
        entry_view(StepData::Completed { result, status }, claimed) == (StepView::Completed {
            payload: result@,
            status: codec::opt_text(status),
            claimed,
        }),
        encoded_view(StepData::Completed { result, status }) == (StepView::Completed {
            payload: result@,
            status: codec::opt_text(status),
            claimed: false,
        }),
        encoded_view(StepData::Suspended) is Suspended,
        encoded_view(StepData::Failed { error }) == (StepView::Failed { error: error@ }),
{
}

} // verus!
