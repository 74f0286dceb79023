//! Durable timers: the rows of the timer table and what becomes of them.

use crate::codec;
use crate::error::{EngineError, ErrorView};
use crate::seqs;
use crate::text;
use vstd::prelude::*;

verus! {

/// Value stored in the timer table: the step that a timer wakes.
#[derive(Debug, PartialEq, Eq)]
pub struct TimerEntry {
    /// The workflow's name.
    pub workflow_name: String,
    /// The instance's ID.
    pub instance_id: String,
    /// The step key.
    pub step_key: String,
}

/// What a [`TimerEntry`] says.
pub struct TimerView {
    pub workflow_name: Seq<char>,
    pub instance_id: Seq<char>,
    pub step_key: Seq<char>,
}

impl View for TimerEntry {
    type V = TimerView;

    open spec fn view(&self) -> TimerView {
        TimerView {
            workflow_name: self.workflow_name@,
            instance_id: self.instance_id@,
            step_key: self.step_key@,
        }
    }
}

/// The bytes of a timer row.
pub open spec fn timer_bytes(t: TimerView) -> Seq<u8> {
    codec::text_bytes(t.workflow_name) + (codec::text_bytes(t.instance_id) + codec::text_bytes(
        t.step_key,
    ))
}

/// The entry in a timer row, or the text of the error in it.
pub open spec fn read_timer(bytes: Seq<u8>) -> Result<TimerView, Seq<char>> {
    match codec::text_read(bytes) {
        Err(e) => Err(e),
        Ok((workflow_name, rest)) => match codec::text_read(rest) {
            Err(e) => Err(e),
            Ok((instance_id, rest)) => match codec::text_read(rest) {
                Err(e) => Err(e),
                Ok((step_key, _)) => Ok(TimerView { workflow_name, instance_id, step_key }),
            },
        },
    }
}

impl Clone for TimerEntry {
    fn clone(&self) -> (r: Self)
        ensures
            r == *self,
    {
        TimerEntry {
            workflow_name: self.workflow_name.clone(),
            instance_id: self.instance_id.clone(),
            step_key: self.step_key.clone(),
        }
    }
}

impl TimerEntry {
    /// The row of this entry.
    #[must_use]
    pub fn encode(&self) -> (bytes: Vec<u8>)
        ensures
            bytes@ == timer_bytes(self@),
            read_timer(bytes@) == Ok::<TimerView, Seq<char>>(self@),
    {
        let tail = codec::put_text(&self.step_key).unwrap();
        assert(tail@ + Seq::empty() =~= tail@);
        assert(codec::text_read(tail@) == codec::read_ok(self.step_key@, Seq::empty()));
        let tail = codec::join(codec::put_text(&self.instance_id).unwrap(), tail);
        codec::join(codec::put_text(&self.workflow_name).unwrap(), tail)
    }

    /// The entry in a timer row, or the text of the error in it.
    ///
    /// # Errors
    ///
    /// The text of the serialization error, where the row holds no entry.
    pub fn decode(bytes: &[u8]) -> (r: Result<Self, String>)
        ensures
            match r {
                Ok(t) => read_timer(bytes@) == Ok::<TimerView, Seq<char>>(t@),
                Err(e) => read_timer(bytes@) == Err::<TimerView, Seq<char>>(e@),
            },
    {
        match codec::take_text(bytes) {
            Err(e) => Err(e),
            Ok((workflow_name, rest)) => match codec::take_text(rest) {
                Err(e) => Err(e),
                Ok((instance_id, rest)) => match codec::take_text(rest) {
                    Err(e) => Err(e),
                    Ok((step_key, _)) => Ok(TimerEntry { workflow_name, instance_id, step_key }),
                },
            },
        }
    }
}

/// A row of the timer table: deadline, serial number and encoded entry.
pub type TimerRow = ((u64, u64), Vec<u8>);

/// Whether a timer with the given key has expired.
pub open spec fn is_expired(key: (u64, u64), now_ms: u64) -> bool {
    key.0 <= now_ms
}

/// The rows of the timers that have expired, in the rows' order.
pub open spec fn expired_rows(rows: Seq<TimerRow>, now_ms: u64) -> Seq<TimerRow> {
    rows.filter(|row: TimerRow| is_expired(row.0, now_ms))
}

/// The text under which a broken timer row is reported.
pub open spec fn timer_row_name(key: (u64, u64)) -> Seq<char> {
    "timer("@ + text::digits(key.0 as nat, 10) + ","@ + text::digits(key.1 as nat, 10) + ")"@
}

/// Whether every row below `n` holds a timer entry.
pub open spec fn readable(rows: Seq<TimerRow>, n: int) -> bool {
    forall|i: int| 0 <= i < n ==> read_timer((#[trigger] rows[i]).1@) is Ok
}

fn row_name(key: (u64, u64)) -> (s: String)
    ensures
        s@ == timer_row_name(key),
{
    let deadline = text::decimal(key.0);
    let serial = text::decimal(key.1);
    let head = text::concat4("timer(", &deadline, ",", &serial);
    text::concat2(&head, ")")
}

/// Collects the timers that have expired at `now_ms`, in the rows' order.
///
/// # Errors
///
/// [`EngineError::Serialization`] under the key of the first expired row that
/// holds no entry.
pub fn collect_expired_timers(rows: Vec<TimerRow>, now_ms: u64) -> (r: Result<
    Vec<((u64, u64), TimerEntry)>,
    EngineError,
>)
    ensures
        ({
            let expired = expired_rows(rows@, now_ms);
            match r {
                Ok(list) => {
                    &&& readable(expired, expired.len() as int)
                    &&& list@.len() == expired.len()
                    &&& forall|i: int|
                        #![trigger list@[i]]
                        0 <= i < list@.len() ==> list@[i].0 == expired[i].0 && read_timer(
                            expired[i].1@,
                        ) == Ok::<TimerView, Seq<char>>(list@[i].1@)
                },
                Err(e) => exists|i: int|
                    0 <= i < expired.len() && readable(expired, i) && (#[trigger] read_timer(
                        expired[i].1@,
                    )) is Err && e@ == (ErrorView::Serialization {
                        key: timer_row_name(expired[i].0),
                        source: read_timer(expired[i].1@)->Err_0,
                    }),
            }
        }),
{
    let mut list: Vec<((u64, u64), TimerEntry)> = Vec::new();
    let ghost pred = |row: TimerRow| is_expired(row.0, now_ms);
    let mut i: usize = 0;
    while i < rows.len()
        invariant
            i <= rows@.len(),
            pred == (|row: TimerRow| is_expired(row.0, now_ms)),
            list@.len() == rows@.take(i as int).filter(pred).len(),
            readable(rows@.take(i as int).filter(pred), list@.len() as int),
            forall|j: int|
                #![trigger list@[j]]
                0 <= j < list@.len() ==> list@[j].0 == rows@.take(i as int).filter(pred)[j].0
                    && read_timer(rows@.take(i as int).filter(pred)[j].1@) == Ok::<
                    TimerView,
                    Seq<char>,
                >(list@[j].1@),
        decreases rows@.len() - i,
    {
        let ghost done = rows@.take(i as int).filter(pred);
        let ghost next = rows@.take(i + 1).filter(pred);
        proof {
            seqs::filter_next(rows@, pred, i as int);
        }
        let key = rows[i].0;
        if key.0 <= now_ms {
            assert(next == done.push(rows@[i as int]));
            match TimerEntry::decode(rows[i].1.as_slice()) {
                Ok(entry) => {
                    list.push((key, entry));
                },
                Err(source) => {
                    proof {
                        seqs::filter_extends(rows@, pred, i + 1);
                        let expired = expired_rows(rows@, now_ms);
                        let at = done.len() as int;
                        assert(expired.take(next.len() as int) == next);
                        assert(expired[at] == next[at]);
                        assert forall|j: int| 0 <= j < at implies read_timer(
                            (#[trigger] expired[j]).1@,
                        ) is Ok by {
                            assert(expired[j] == next[j]);
                            assert(next[j] == done[j]);
                        }
                        assert(read_timer(expired[at].1@) is Err);
                    }
                    return Err(EngineError::Serialization { key: row_name(key), source });
                },
            }
        }
        i = i + 1;
    }
    assert(rows@.take(i as int) =~= rows@);
    Ok(list)
}

/// A timer is expired from the millisecond of its deadline on, whatever its
/// serial number is.
pub proof fn timers_expire_at_their_deadline(deadline: u64, serial: u64, now_ms: u64)
    ensures
        is_expired((deadline, serial), now_ms) <==> now_ms >= deadline,
{
}

/// The row of a timer: the workflow, the instance and the step key.
pub proof fn timer_row_layout(t: TimerView)
    ensures
        timer_bytes(t) == codec::text_bytes(t.workflow_name) + codec::text_bytes(t.instance_id)
            + codec::text_bytes(t.step_key),
{
}

/// Exactly the expired timers are collected, each as often as it is listed, in
/// the order of the rows.
pub proof fn collected_timers_are_expired(rows: Seq<TimerRow>, row: TimerRow, now_ms: u64)
    ensures
        expired_rows(rows.push(row), now_ms) == if row.0.0 <= now_ms {
            expired_rows(rows, now_ms).push(row)
        } else {
            expired_rows(rows, now_ms)
        },
        expired_rows(Seq::empty(), now_ms).len() == 0,
{
    reveal(Seq::filter);
    assert(rows.push(row).drop_last() =~= rows);
}

/// The name of a broken row tells its deadline and serial number.
pub proof fn broken_timer_is_named(deadline: u64, serial: u64)
    ensures
        timer_row_name((deadline, serial)) == "timer("@ + text::digits(deadline as nat, 10) + ","@
            + text::digits(serial as nat, 10) + ")"@,
{
}

} // verus!
