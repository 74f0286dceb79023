//! Input and output of workflow functions.

use crate::error::{EngineError, ErrorView};
use crate::keys;
use crate::step;
use crate::step::StepData;
use crate::store;
use crate::store::{Write, WriteView};
use vstd::prelude::*;

verus! {

/// Marker for workflows that take no input.
pub struct NoInput;

/// Marker for workflows that take typed input.
pub struct WithInput;

/// Why an output cannot be read: the instance has none.
pub const OUTPUT_MISSING: &'static str = "workflow output not found";

/// The input of a workflow that needs one.
///
/// # Errors
///
/// [`EngineError::InputMissing`] where there is none.
pub fn require_input<I>(input: Option<I>, workflow_name: &str) -> (r: Result<I, EngineError>)
    ensures
        match input {
            Some(i) => r == Ok::<I, EngineError>(i),
            None => r matches Err(e) && e@ == (ErrorView::InputMissing { workflow: workflow_name@ }),
        },
{
    match input {
        Some(i) => Ok(i),
        None => Err(EngineError::InputMissing { workflow: workflow_name.to_owned() }),
    }
}

/// The change that keeps the output of an instance. The output comes as what
/// encoding it gave: its bytes, or the text of the error.
///
/// # Errors
///
/// [`EngineError::Serialization`] where encoding the output failed.
pub fn write_output(
    workflow_name: &str,
    instance_id: &str,
    output: Result<Vec<u8>, String>,
    tag: &str,
) -> (r: Result<Write, EngineError>)
    ensures
        match output {
            Err(source) => r matches Err(e) && e@ == (ErrorView::Serialization {
                key: keys::OUTPUT_KEY@,
                source: source@,
            }),
            Ok(payload) => {
                let entry = step::own_entry(payload@, None);
                &&& r matches Ok(w)
                &&& w@ == (WriteView::PutStep {
                    key: keys::step_key(workflow_name@, instance_id@, keys::OUTPUT_KEY@),
                    value: step::step_bytes(entry, tag@),
                })
                &&& step::holds(step::step_bytes(entry, tag@), entry, tag@)
                &&& step::status_reads_back(entry)
            },
        },
{
    match step::serialize_step(
        StepData::Completed { result: output, status: None },
        tag,
        keys::OUTPUT_KEY,
    ) {
        Err(e) => Err(e),
        Ok(value) => Ok(
            Write::PutStep {
                key: keys::composite_key(workflow_name, instance_id, keys::OUTPUT_KEY),
                value,
            },
        ),
    }
}

/// The output of an instance, from the row under [`keys::OUTPUT_KEY`].
///
/// # Errors
///
/// [`EngineError::TypeMismatch`] or [`EngineError::Serialization`] where the
/// row cannot be read as a value of the type tagged `tag`, and
/// [`EngineError::Storage`] where the instance has no output.
pub fn read_output<O, F: FnOnce(Vec<u8>) -> Result<(O, Option<String>), String>>(
    row: Option<Vec<u8>>,
    tag: &str,
    parse: F,
) -> (r: Result<O, EngineError>)
    requires
        forall|body: Vec<u8>| #[trigger] call_requires(parse, (body,)),
    ensures
        exists|read: Result<Option<StepData<O>>, EngineError>| #[trigger]
            step::row_reads_as(store::opt_row(row), tag@, keys::OUTPUT_KEY@, parse, read)
                && match read {
                Err(e) => r == Err::<O, EngineError>(e),
                Ok(entry) => match step::result_in(entry) {
                    Some(output) => r == Ok::<O, EngineError>(output),
                    None => r matches Err(e) && e@ == ErrorView::Storage(OUTPUT_MISSING@),
                },
            },
{
    match step::kept_result(row, tag, keys::OUTPUT_KEY, parse) {
        Err(e) => Err(e),
        Ok(Some(output)) => Ok(output),
        Ok(None) => Err(EngineError::Storage(OUTPUT_MISSING.to_owned())),
    }
}

} // verus!
