//! The store's tables and the changes that a transaction makes to them.
//!
//! The library decides which rows change; whoever holds the database applies
//! each batch in one transaction.

use vstd::prelude::*;

verus! {

/// One change of a row.
#[derive(Debug, PartialEq, Eq)]
pub enum Write {
    /// Inserts or replaces a step row.
    PutStep {
        /// The composite key.
        key: String,
        /// The encoded step.
        value: Vec<u8>,
    },
    /// Removes a step row.
    RemoveStep {
        /// The composite key.
        key: String,
    },
    /// Inserts or replaces a metadata row.
    PutMeta {
        /// The metadata key.
        key: String,
        /// The encoded metadata.
        value: Vec<u8>,
    },
    /// Removes a metadata row.
    RemoveMeta {
        /// The metadata key.
        key: String,
    },
    /// Inserts or replaces a timer row.
    PutTimer {
        /// The deadline in milliseconds since the Unix epoch.
        deadline: u64,
        /// Tells timers with one deadline apart.
        serial: u64,
        /// The encoded timer entry.
        value: Vec<u8>,
    },
    /// Removes a timer row.
    RemoveTimer {
        /// The deadline in milliseconds since the Unix epoch.
        deadline: u64,
        /// Tells timers with one deadline apart.
        serial: u64,
    },
}

/// What a [`Write`] says.
pub enum WriteView {
    PutStep { key: Seq<char>, value: Seq<u8> },
    RemoveStep { key: Seq<char> },
    PutMeta { key: Seq<char>, value: Seq<u8> },
    RemoveMeta { key: Seq<char> },
    PutTimer { deadline: u64, serial: u64, value: Seq<u8> },
    RemoveTimer { deadline: u64, serial: u64 },
}

impl View for Write {
    type V = WriteView;

    open spec fn view(&self) -> WriteView {
        match *self {
            Write::PutStep { key, value } => WriteView::PutStep { key: key@, value: value@ },
            Write::RemoveStep { key } => WriteView::RemoveStep { key: key@ },
            Write::PutMeta { key, value } => WriteView::PutMeta { key: key@, value: value@ },
            Write::RemoveMeta { key } => WriteView::RemoveMeta { key: key@ },
            Write::PutTimer { deadline, serial, value } => WriteView::PutTimer {
                deadline,
                serial,
                value: value@,
            },
            Write::RemoveTimer { deadline, serial } => WriteView::RemoveTimer { deadline, serial },
        }
    }
}

/// The rows of the three tables.
#[verifier::ext_equal]
pub struct Tables {
    /// Step rows by composite key.
    pub steps: Map<Seq<char>, Seq<u8>>,
    /// Metadata rows by metadata key.
    pub meta: Map<Seq<char>, Seq<u8>>,
    /// Timer rows by deadline and serial number.
    pub timers: Map<(u64, u64), Seq<u8>>,
}

/// The row under `key`, if there is one.
pub open spec fn row<K>(table: Map<K, Seq<u8>>, key: K) -> Option<Seq<u8>> {
    if table.contains_key(key) {
        Some(table[key])
    } else {
        None
    }
}

/// The tables after one change.
pub open spec fn apply(t: Tables, w: WriteView) -> Tables {
    match w {
        WriteView::PutStep { key, value } => Tables { steps: t.steps.insert(key, value), ..t },
        WriteView::RemoveStep { key } => Tables { steps: t.steps.remove(key), ..t },
        WriteView::PutMeta { key, value } => Tables { meta: t.meta.insert(key, value), ..t },
        WriteView::RemoveMeta { key } => Tables { meta: t.meta.remove(key), ..t },
        WriteView::PutTimer { deadline, serial, value } => Tables {
            timers: t.timers.insert((deadline, serial), value),
            ..t
        },
        WriteView::RemoveTimer { deadline, serial } => Tables {
            timers: t.timers.remove((deadline, serial)),
            ..t
        },
    }
}

/// The tables after a batch of changes, made in order.
pub open spec fn commit(t: Tables, batch: Seq<WriteView>) -> Tables
    decreases batch.len(),
{
    if batch.len() == 0 {
        t
    } else {
        apply(commit(t, batch.drop_last()), batch.last())
    }
}

/// What the changes of a batch say.
pub open spec fn batch_view(batch: Seq<Write>) -> Seq<WriteView> {
    batch.map_values(|w: Write| w@)
}

/// The bytes of an optional row.
pub open spec fn opt_row(bytes: Option<Vec<u8>>) -> Option<Seq<u8>> {
    match bytes {
        Some(b) => Some(b@),
        None => None,
    }
}

/// A row and a batch are read as they are, the changes in their order.
pub proof fn batches_are_faithful(bytes: Vec<u8>, batch: Seq<Write>, i: int)
    requires
        0 <= i < batch.len(),
    ensures
        opt_row(Some(bytes)) == Some(bytes@),
        opt_row(None) is None,
        batch_view(batch).len() == batch.len(),
        batch_view(batch)[i] == batch[i]@,
{
}

/// A batch changes the tables one change after the other, and an empty one not
/// at all.
pub proof fn batches_are_made_in_order(t: Tables, batch: Seq<WriteView>, w: WriteView)
    ensures
        commit(t, Seq::empty()) == t,
        commit(t, batch.push(w)) == apply(commit(t, batch), w),
{
    assert(batch.push(w).drop_last() =~= batch);
}

} // verus!
