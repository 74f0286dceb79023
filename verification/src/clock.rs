//! The system clock and the random part of instance IDs.

use crate::keys;
use crate::text;
use vstd::prelude::*;

verus! {

/// A reading of the system clock.
#[verifier::external_type_specification]
#[verifier::external_body]
pub struct ExSystemTime(std::time::SystemTime);

/// `std::time::SystemTime::now` reads the system clock. Nothing is claimed of
/// the reading.
pub assume_specification[ std::time::SystemTime::now ]() -> (t: std::time::SystemTime);

/// The time from the Unix epoch to `t`, in whole seconds and the nanoseconds
/// beyond them, by `std::time::SystemTime::duration_since`; `None` where `t` is
/// before the epoch. Only the range of the nanoseconds is claimed: what the
/// clock shows is not fixed by anything here.
#[verifier::external_body]
fn since_epoch(t: std::time::SystemTime) -> (elapsed: Option<(u64, u32)>)
    ensures
        elapsed matches Some((_, nanos)) ==> nanos < 1_000_000_000,
{
    match t.duration_since(std::time::UNIX_EPOCH) {
        Ok(elapsed) => Some((elapsed.as_secs(), elapsed.subsec_nanos())),
        Err(_) => None,
    }
}

/// `std::hash::RandomState::new` makes hash keys at random. Nothing is claimed
/// of them.
pub assume_specification[ std::hash::RandomState::new ]() -> (s: std::hash::RandomState);

/// The hash of `seed` under the keys of `state`, by
/// `std::hash::BuildHasher::hash_one`. Nothing is claimed of it: the keys are
/// random.
#[verifier::external_body]
fn hash_one(state: &std::hash::RandomState, seed: u128) -> u64 {
    std::hash::BuildHasher::hash_one(state, seed)
}

/// The milliseconds in `secs` seconds and `nanos` nanoseconds.
pub open spec fn millis(secs: nat, nanos: nat) -> nat {
    secs * 1000 + nanos / 1_000_000
}

/// The whole milliseconds in `secs` seconds and `nanos` nanoseconds, where 64
/// bits hold them.
#[must_use]
pub fn unix_millis(secs: u64, nanos: u32) -> (r: Option<u64>)
    ensures
        match r {
            Some(ms) => ms == millis(secs as nat, nanos as nat),
            None => millis(secs as nat, nanos as nat) > u64::MAX,
        },
{
    let ms: u128 = secs as u128 * 1000 + (nanos / 1_000_000) as u128;
    if ms <= u64::MAX as u128 {
        Some(ms as u64)
    } else {
        None
    }
}

/// The whole seconds since the Unix epoch at a reading of the clock, which is
/// `None` where the clock is before the epoch.
#[must_use]
pub fn secs_at(reading: Option<(u64, u32)>) -> (secs: Option<u64>)
    ensures
        secs == match reading {
            Some((secs, _)) => Some(secs),
            None => None,
        },
{
    match reading {
        Some((secs, _)) => Some(secs),
        None => None,
    }
}

/// The whole milliseconds since the Unix epoch at a reading of the clock,
/// where there is one and 64 bits hold them.
#[must_use]
pub fn millis_at(reading: Option<(u64, u32)>) -> (r: Option<u64>)
    ensures
        match reading {
            Some((secs, nanos)) => match r {
                Some(ms) => ms == millis(secs as nat, nanos as nat),
                None => millis(secs as nat, nanos as nat) > u64::MAX,
            },
            None => r is None,
        },
{
    match reading {
        Some((secs, nanos)) => unix_millis(secs, nanos),
        None => None,
    }
}

/// The whole milliseconds since the Unix epoch that make the time of an
/// instance ID, at a reading of the clock, where there is one.
#[must_use]
pub fn timestamp_at(reading: Option<(u64, u32)>) -> (ts: Option<u128>)
    ensures
        match reading {
            Some((secs, nanos)) => ts matches Some(ms) && ms == millis(secs as nat, nanos as nat),
            None => ts is None,
        },
{
    match reading {
        Some((secs, nanos)) => Some(secs as u128 * 1000 + (nanos / 1_000_000) as u128),
        None => None,
    }
}

/// The current time in whole seconds since the Unix epoch; `None` where the
/// system clock is before it. The result is [`secs_at`] of a reading of the
/// clock; nothing fixes what the clock shows, so that no value is excluded.
#[must_use]
pub fn now_unix_secs() -> (secs: Option<u64>) {
    secs_at(since_epoch(std::time::SystemTime::now()))
}

/// The current time in whole milliseconds since the Unix epoch; `None` where
/// the system clock is before it, or 64 bits do not hold them. The result is
/// [`millis_at`] of a reading of the clock; nothing fixes what the clock shows,
/// so that no value is excluded.
#[must_use]
pub fn now_unix_millis() -> (ms: Option<u64>) {
    millis_at(since_epoch(std::time::SystemTime::now()))
}

/// The instance ID made of a time in milliseconds and a random number: the
/// first in decimal, a dash, the second in hexadecimal.
pub open spec fn instance_id_text(ts: nat, rand: nat) -> Seq<char> {
    text::digits(ts, 10) + seq!['-'] + text::digits(rand, 16)
}

/// Makes an instance ID of a time in milliseconds and a random number.
#[must_use]
pub fn format_instance_id(ts: u128, rand: u64) -> (id: String)
    ensures
        id@ == instance_id_text(ts as nat, rand as nat),
        keys::is_component(id@),
{
    let time = text::number(ts, 10);
    let tail = text::number(rand as u128, 16);
    proof {
        reveal_strlit("-");
        assert("-"@ =~= seq!['-']);
        instance_ids_are_components(ts as nat, rand as nat);
    }
    text::concat3(&time, "-", &tail)
}

/// Generates the ID of a new instance from the current time and a random
/// number; `None` where the system clock is before the Unix epoch. The ID is
/// [`format_instance_id`] of [`timestamp_at`] a reading of the clock and a hash
/// of that time, and can stand in a composite key. What the clock shows, and
/// whether it is past the epoch, is not fixed by anything here.
#[must_use]
pub fn generate_instance_id() -> (id: Option<String>)
    ensures
        id matches Some(text) ==> {
            &&& keys::is_component(text@)
            &&& exists|secs: u64, nanos: u32, rand: u64|
                nanos < 1_000_000_000 && text@ == #[trigger] instance_id_text(
                    millis(secs as nat, nanos as nat),
                    rand as nat,
                )
        },
{
    let reading = since_epoch(std::time::SystemTime::now());
    match timestamp_at(reading) {
        Some(ts) => {
            let rand: u64 = hash_one(&std::hash::RandomState::new(), ts);
            let id = format_instance_id(ts, rand);
            proof {
                let (secs, nanos) = reading.unwrap();
                assert(id@ == instance_id_text(millis(secs as nat, nanos as nat), rand as nat));
            }
            Some(id)
        },
        None => None,
    }
}

/// No generated instance ID contains the key delimiter.
pub proof fn instance_ids_are_components(ts: nat, rand: nat)
    ensures
        keys::is_component(instance_id_text(ts, rand)),
{
    text::digits_have_no_slash(ts, 10);
    text::digits_have_no_slash(rand, 16);
    let time = text::digits(ts, 10);
    let tail = text::digits(rand, 16);
    let id = instance_id_text(ts, rand);
    assert forall|i: int| 0 <= i < id.len() implies id[i] != '/' by {
        if i < time.len() {
            assert(time.contains(time[i]));
        } else if i > time.len() {
            assert(tail.contains(tail[i - time.len() - 1]));
        }
    }
}

/// The milliseconds of a time are as many as have passed wholly.
pub proof fn milliseconds_are_whole(secs: nat, nanos: nat)
    ensures
        millis(secs, nanos) * 1_000_000 <= secs * 1_000_000_000 + nanos,
        secs * 1_000_000_000 + nanos < (millis(secs, nanos) + 1) * 1_000_000,
{
}

/// Instance IDs are the same only for the same time and random number.
pub proof fn instance_ids_distinct(t1: nat, r1: nat, t2: nat, r2: nat)
    requires
        instance_id_text(t1, r1) == instance_id_text(t2, r2),
    ensures
        t1 == t2,
        r1 == r2,
{
    let a = text::digits(t1, 10);
    let b = text::digits(t2, 10);
    text::digits_have_no_dash(t1, 10);
    text::digits_have_no_dash(t2, 10);
    text::head_of_split(a, '-', text::digits(r1, 16));
    text::head_of_split(b, '-', text::digits(r2, 16));
    text::digits_distinct(t1, t2, 10);
    assert(instance_id_text(t1, r1).skip(a.len() as int + 1) =~= text::digits(r1, 16));
    assert(instance_id_text(t2, r2).skip(b.len() as int + 1) =~= text::digits(r2, 16));
    text::digits_distinct(r1, r2, 16);
}

/// An instance ID tells its time in decimal before the dash and its random
/// number in hexadecimal behind it.
pub proof fn instance_ids_tell_time_and_number(ts: nat, rand: nat)
    ensures
        ({
            let id = instance_id_text(ts, rand);
            let time = text::head(id, '-');
            &&& id[time.len() as int] == '-'
            &&& text::written_number(time, 10) == ts
            &&& text::written_number(id.skip(time.len() as int + 1), 16) == rand
        }),
{
    let time = text::digits(ts, 10);
    text::digits_have_no_dash(ts, 10);
    text::head_of_split(time, '-', text::digits(rand, 16));
    text::digits_write_the_number(ts, 10);
    text::digits_write_the_number(rand, 16);
    assert(instance_id_text(ts, rand).skip(time.len() as int + 1) =~= text::digits(rand, 16));
}

} // verus!
