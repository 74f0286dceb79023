//! The composite keys of the store's rows.
//!
//! A metadata row stands under `{workflow}/{instance}`, a step row under
//! `{workflow}/{instance}/{step}`. Workflow names and step keys never contain
//! the delimiter; the instance ID of a child workflow does, since it extends
//! its parent's.

use crate::error::{EngineError, ErrorView};
use crate::text;
use vstd::prelude::*;

verus! {

/// The step key under which the input of an instance is kept.
pub const INPUT_KEY: &'static str = "_input";

/// The step key under which the output of an instance is kept.
pub const OUTPUT_KEY: &'static str = "_output";

/// Whether `part` can be a component of a composite key.
pub open spec fn is_component(part: Seq<char>) -> bool {
    !part.contains('/')
}

/// Whether `key` can be the key of a step, suspend point or timer: it does not
/// contain the delimiter, and does not start with `_`, which is reserved for
/// the engine.
pub open spec fn is_step_key(key: Seq<char>) -> bool {
    is_component(key) && !(key.len() > 0 && key[0] == '_')
}

/// The key of an instance's metadata row.
pub open spec fn meta_key(workflow: Seq<char>, instance: Seq<char>) -> Seq<char> {
    workflow + seq!['/'] + instance
}

/// The key of a step row.
pub open spec fn step_key(workflow: Seq<char>, instance: Seq<char>, step: Seq<char>) -> Seq<char> {
    workflow + seq!['/'] + instance + seq!['/'] + step
}

/// The first key, in lexicographic order, of those that extend `parent` by the
/// delimiter and more.
pub open spec fn range_start(parent: Seq<char>) -> Seq<char> {
    parent + seq!['/']
}

/// The first key, in lexicographic order, behind all those that extend
/// `parent` by the delimiter and more: `0` is the character after `/`.
pub open spec fn range_end(parent: Seq<char>) -> Seq<char> {
    parent + seq!['0']
}

/// Whether `a` stands before `b` in lexicographic order, which is the order of
/// a table's string keys.
pub open spec fn before(a: Seq<char>, b: Seq<char>) -> bool
    decreases b.len(),
{
    if b.len() == 0 {
        false
    } else if a.len() == 0 {
        true
    } else if a[0] != b[0] {
        a[0] < b[0]
    } else {
        before(a.skip(1), b.skip(1))
    }
}

/// Whether `key` lies in the range from `start` up to `end`, without `end`.
pub open spec fn in_range(key: Seq<char>, start: Seq<char>, end: Seq<char>) -> bool {
    !before(key, start) && before(key, end)
}

/// The instance ID of the child that `parent` spawned under `child_key`.
pub open spec fn child_id(parent: Seq<char>, child_key: Seq<char>) -> Seq<char> {
    parent + seq!['/'] + child_key
}

/// The key under which a fan-out spawns its child number `index`.
pub open spec fn child_key(fan_out_key: Seq<char>, index: nat) -> Seq<char> {
    fan_out_key + seq!['-'] + text::digits(index, 10)
}

/// Rejects a key component that contains the delimiter.
///
/// # Errors
///
/// [`EngineError::InvalidKey`] exactly where `value` contains `/`.
pub fn validate_key_component(value: &str, label: &'static str) -> (r: Result<(), EngineError>)
    ensures
        r is Ok <==> is_component(value@),
        r matches Err(e) ==> e@ == (ErrorView::InvalidKey { label: label@, value: value@ }),
{
    if text::has_char(value, '/') {
        return Err(EngineError::InvalidKey { label, value: value.to_owned() });
    }
    Ok(())
}

/// Why a text cannot be the key of a step.
#[derive(Clone, Copy, Debug, PartialEq, Eq, Structural)]
pub enum KeyFault {
    /// It contains the delimiter.
    Delimiter,
    /// It starts with `_`, which is reserved for the engine.
    Reserved,
}

/// Why `key` cannot be the key of a step, suspend point or timer, if it cannot.
#[must_use]
pub fn step_key_fault(key: &str) -> (fault: Option<KeyFault>)
    ensures
        fault == if !is_component(key@) {
            Some(KeyFault::Delimiter)
        } else if !is_step_key(key@) {
            Some(KeyFault::Reserved)
        } else {
            None
        },
{
    if text::has_char(key, '/') {
        Some(KeyFault::Delimiter)
    } else if text::starts_with_char(key, '_') {
        Some(KeyFault::Reserved)
    } else {
        None
    }
}

/// Whether `key` can be the key of a step, suspend point or timer.
#[must_use]
pub fn is_valid_step_key(key: &str) -> (r: bool)
    ensures
        r == is_step_key(key@),
{
    step_key_fault(key).is_none()
}

fn slashed(a: &str, b: &str) -> (s: String)
    ensures
        s@ == a@ + seq!['/'] + b@,
{
    proof {
        reveal_strlit("/");
        assert("/"@ =~= seq!['/']);
    }
    text::concat3(a, "/", b)
}

/// The key of an instance's metadata row.
#[must_use]
pub fn metadata_key(workflow: &str, instance: &str) -> (s: String)
    ensures
        s@ == meta_key(workflow@, instance@),
{
    slashed(workflow, instance)
}

/// The key of a step row.
#[must_use]
pub fn composite_key(workflow: &str, instance: &str, step: &str) -> (s: String)
    ensures
        s@ == step_key(workflow@, instance@, step@),
{
    let parent = slashed(workflow, instance);
    slashed(&parent, step)
}

/// The bounds of the range of keys that extend `parent` by the delimiter and
/// more: the first of them, and the first key behind them.
#[must_use]
pub fn child_range(parent: &str) -> (bounds: (String, String))
    ensures
        bounds.0@ == range_start(parent@),
        bounds.1@ == range_end(parent@),
{
    proof {
        reveal_strlit("/");
        reveal_strlit("0");
        assert("/"@ =~= seq!['/']);
        assert("0"@ =~= seq!['0']);
    }
    (text::concat2(parent, "/"), text::concat2(parent, "0"))
}

/// The instance ID of the child that `parent` spawns under `key`.
#[must_use]
pub fn child_instance_id(parent: &str, key: &str) -> (s: String)
    ensures
        s@ == child_id(parent@, key@),
{
    slashed(parent, key)
}

/// The instance IDs of the children of a fan-out over `count` items.
#[must_use]
pub fn fan_out_child_ids(parent: &str, fan_out_key: &str, count: usize) -> (ids: Vec<String>)
    ensures
        ids@.len() == count,
        forall|i: int|
            0 <= i < count ==> (#[trigger] ids@[i])@ == child_id(
                parent@,
                child_key(fan_out_key@, i as nat),
            ),
{
    let mut ids: Vec<String> = Vec::new();
    let mut i: usize = 0;
    proof {
        reveal_strlit("-");
        assert("-"@ =~= seq!['-']);
    }
    while i < count
        invariant
            i <= count,
            ids@.len() == i,
            "-"@ == seq!['-'],
            forall|j: int|
                0 <= j < i ==> (#[trigger] ids@[j])@ == child_id(
                    parent@,
                    child_key(fan_out_key@, j as nat),
                ),
        decreases count - i,
    {
        let index = text::decimal(i as u64);
        let key = text::concat3(fan_out_key, "-", &index);
        ids.push(child_instance_id(parent, &key));
        i = i + 1;
    }
    ids
}

/// The keys in a child range are exactly those that extend the parent by the
/// delimiter: a range scan finds every one of them and nothing else.
pub proof fn child_range_is_prefix(parent: Seq<char>, key: Seq<char>)
    ensures
        in_range(key, range_start(parent), range_end(parent)) <==> text::has_prefix(
            key,
            range_start(parent),
        ),
    decreases parent.len(),
{
    reveal_with_fuel(before, 2);
    let start = range_start(parent);
    let end = range_end(parent);
    if parent.len() == 0 {
        assert(start[0] == '/' && end[0] == '0');
        assert(start.skip(1) =~= Seq::empty());
        assert(end.skip(1) =~= Seq::empty());
        if key.len() > 0 {
            assert(key.take(1) =~= seq![key[0]]);
            assert(start =~= seq!['/']);
        }
    } else {
        let rest = parent.skip(1);
        assert(start[0] == parent[0] && end[0] == parent[0]);
        assert(start.skip(1) =~= range_start(rest));
        assert(end.skip(1) =~= range_end(rest));
        if key.len() > 0 {
            child_range_is_prefix(rest, key.skip(1));
            if key[0] == parent[0] {
                if text::has_prefix(key, start) {
                    assert(key.skip(1).take(start.len() - 1) =~= key.take(start.len() as int).skip(1));
                }
                if text::has_prefix(key.skip(1), range_start(rest)) {
                    assert(key.take(start.len() as int) =~= seq![key[0]] + key.skip(1).take(
                        start.len() - 1,
                    ));
                    assert(start =~= seq![parent[0]] + range_start(rest));
                }
            } else if text::has_prefix(key, start) {
                assert(key[0] == key.take(start.len() as int)[0]);
            }
        }
    }
}

/// Two instances share a metadata row only if they are the same instance of
/// the same workflow.
pub proof fn meta_keys_distinct(w1: Seq<char>, i1: Seq<char>, w2: Seq<char>, i2: Seq<char>)
    requires
        is_component(w1),
        is_component(w2),
        meta_key(w1, i1) == meta_key(w2, i2),
    ensures
        w1 == w2,
        i1 == i2,
{
    same_head(w1, i1, w2, i2);
}

/// Text before the first delimiter, and text behind it, are fixed by the
/// whole.
proof fn same_head(a: Seq<char>, x: Seq<char>, b: Seq<char>, y: Seq<char>)
    requires
        is_component(a),
        is_component(b),
        a + seq!['/'] + x == b + seq!['/'] + y,
    ensures
        a == b,
        x == y,
{
    let s = a + seq!['/'] + x;
    let t = b + seq!['/'] + y;
    assert(s.len() == a.len() + 1 + x.len() && t.len() == b.len() + 1 + y.len());
    if a.len() < b.len() {
        assert(s[a.len() as int] == '/');
        assert(t[a.len() as int] == b[a.len() as int]);
        assert(b.contains('/'));
    } else if b.len() < a.len() {
        assert(t[b.len() as int] == '/');
        assert(s[b.len() as int] == a[b.len() as int]);
        assert(a.contains('/'));
    }
    assert forall|i: int| 0 <= i < a.len() implies a[i] == b[i] by {
        assert(s[i] == a[i] && t[i] == b[i]);
    }
    assert(a =~= b);
    assert forall|i: int| 0 <= i < x.len() implies x[i] == y[i] by {
        assert(s[a.len() + 1 + i] == x[i] && t[b.len() + 1 + i] == y[i]);
    }
    assert(x =~= y);
}

/// Text before the last delimiter, and text behind it, are fixed by the whole.
proof fn same_tail(x: Seq<char>, a: Seq<char>, y: Seq<char>, b: Seq<char>)
    requires
        is_component(a),
        is_component(b),
        x + seq!['/'] + a == y + seq!['/'] + b,
    ensures
        x == y,
        a == b,
{
    let s = x + seq!['/'] + a;
    let t = y + seq!['/'] + b;
    assert(s.len() == x.len() + 1 + a.len() && t.len() == y.len() + 1 + b.len());
    if x.len() < y.len() {
        assert(t[y.len() as int] == '/');
        assert(s[y.len() as int] == a[y.len() - x.len() - 1]);
        assert(a.contains('/'));
    } else if y.len() < x.len() {
        assert(s[x.len() as int] == '/');
        assert(t[x.len() as int] == b[x.len() - y.len() - 1]);
        assert(b.contains('/'));
    }
    assert forall|i: int| 0 <= i < x.len() implies x[i] == y[i] by {
        assert(s[i] == x[i] && t[i] == y[i]);
    }
    assert(x =~= y);
    assert forall|i: int| 0 <= i < a.len() implies a[i] == b[i] by {
        assert(s[x.len() + 1 + i] == a[i] && t[y.len() + 1 + i] == b[i]);
    }
    assert(a =~= b);
}

/// Two steps share a row only if they are the same step of the same instance
/// of the same workflow, also where instance IDs contain the delimiter: each
/// instance, and each child of an instance, has its own cache.
pub proof fn step_keys_distinct(
    w1: Seq<char>,
    i1: Seq<char>,
    s1: Seq<char>,
    w2: Seq<char>,
    i2: Seq<char>,
    s2: Seq<char>,
)
    requires
        is_component(w1),
        is_component(w2),
        is_component(s1),
        is_component(s2),
        step_key(w1, i1, s1) == step_key(w2, i2, s2),
    ensures
        w1 == w2,
        i1 == i2,
        s1 == s2,
{
    same_tail(meta_key(w1, i1), s1, meta_key(w2, i2), s2);
    meta_keys_distinct(w1, i1, w2, i2);
}

/// The step rows in an instance's range are those of the instance itself and
/// of its descendants, whose IDs extend its own.
pub proof fn instance_range_members(
    workflow: Seq<char>,
    instance: Seq<char>,
    other_workflow: Seq<char>,
    other: Seq<char>,
    step: Seq<char>,
)
    requires
        is_component(workflow),
        is_component(other_workflow),
        is_component(step),
    ensures
        text::has_prefix(
            step_key(other_workflow, other, step),
            range_start(meta_key(workflow, instance)),
        ) <==> workflow == other_workflow && (instance == other || text::has_prefix(
            other,
            range_start(instance),
        )),
{
    let key = step_key(other_workflow, other, step);
    let start = range_start(meta_key(workflow, instance));
    let tail = other + seq!['/'] + step;
    assert(key =~= other_workflow + seq!['/'] + tail);
    if text::has_prefix(key, start) {
        let rest = key.skip(start.len() as int);
        assert(key =~= start + rest);
        assert(key =~= workflow + seq!['/'] + (instance + seq!['/'] + rest));
        same_head(workflow, instance + seq!['/'] + rest, other_workflow, tail);
        assert(instance + seq!['/'] + rest == tail);
        if instance.len() == other.len() {
            assert forall|i: int| 0 <= i < instance.len() implies instance[i] == other[i] by {
                assert(tail[i] == other[i] && (instance + seq!['/'] + rest)[i] == instance[i]);
            }
            assert(instance =~= other);
        } else if instance.len() > other.len() {
            let at = instance.len() - other.len() - 1;
            assert((instance + seq!['/'] + rest)[instance.len() as int] == '/');
            assert(tail[instance.len() as int] == step[at]);
            assert(step.contains('/'));
        } else {
            assert forall|i: int| 0 <= i < instance.len() + 1 implies other[i] == range_start(
                instance,
            )[i] by {
                assert(tail[i] == other[i]);
                assert((instance + seq!['/'] + rest)[i] == range_start(instance)[i]);
            }
            assert(other.take(instance.len() as int + 1) =~= range_start(instance));
        }
    }
    if workflow == other_workflow && instance == other {
        assert(key.take(start.len() as int) =~= start);
    }
    if workflow == other_workflow && text::has_prefix(other, range_start(instance)) {
        assert forall|i: int| 0 <= i < start.len() implies key[i] == start[i] by {
            if i > workflow.len() {
                let j = i - workflow.len() - 1;
                assert(key[i] == other[j]);
                assert(other[j] == other.take(range_start(instance).len() as int)[j]);
                assert(start[i] == range_start(instance)[j]);
            }
        }
        assert(key.take(start.len() as int) =~= start);
    }
}

/// The children of a fan-out have different instance IDs.
pub proof fn fan_out_children_distinct(
    parent: Seq<char>,
    fan_out_key: Seq<char>,
    i: nat,
    j: nat,
)
    requires
        child_id(parent, child_key(fan_out_key, i)) == child_id(parent, child_key(fan_out_key, j)),
    ensures
        i == j,
{
    let a = child_id(parent, child_key(fan_out_key, i));
    let b = child_id(parent, child_key(fan_out_key, j));
    let n = (parent.len() + 1 + fan_out_key.len() + 1) as int;
    assert(a.skip(n) =~= text::digits(i, 10));
    assert(b.skip(n) =~= text::digits(j, 10));
    text::digits_distinct(i, j, 10);
}

/// A step key is refused exactly if it contains the delimiter or starts with
/// `_`; nothing else is asked of it.
pub proof fn step_keys_are_components(key: Seq<char>)
    ensures
        is_component(key) <==> !key.contains('/'),
        is_step_key(key) <==> !(key.contains('/') || (key.len() > 0 && key[0] == '_')),
{
}

/// The ID of a child extends its parent's by the delimiter and the child's key:
/// two children have one ID only if they have the same parent and key.
pub proof fn child_ids_distinct(p1: Seq<char>, k1: Seq<char>, p2: Seq<char>, k2: Seq<char>)
    requires
        is_component(k1),
        is_component(k2),
    ensures
        child_id(p1, k1) == p1 + seq!['/'] + k1,
        text::has_prefix(child_id(p1, k1), range_start(p1)),
        child_id(p1, k1) == child_id(p2, k2) ==> p1 == p2 && k1 == k2,
{
    assert(child_id(p1, k1).take(range_start(p1).len() as int) =~= range_start(p1));
    if child_id(p1, k1) == child_id(p2, k2) {
        same_tail(p1, k1, p2, k2);
    }
}

/// The range of a parent holds exactly the keys that extend it by the delimiter
/// and more.
pub proof fn range_holds_exactly_extensions(parent: Seq<char>, tail: Seq<char>, key: Seq<char>)
    ensures
        in_range(parent + seq!['/'] + tail, range_start(parent), range_end(parent)),
        in_range(key, range_start(parent), range_end(parent)) ==> key == parent + seq!['/']
            + key.skip(parent.len() as int + 1),
{
    child_range_is_prefix(parent, parent + seq!['/'] + tail);
    child_range_is_prefix(parent, key);
    text::prefixes_are_continued(range_start(parent), tail, key);
}

/// The key of a fan-out's child tells the fan-out's key and the child's number,
/// and can stand in a composite key exactly where the fan-out's can.
pub proof fn child_keys_tell_their_number(fan_out_key: Seq<char>, index: nat)
    ensures
        ({
            let key = child_key(fan_out_key, index);
            let n = fan_out_key.len() as int;
            &&& key.take(n) == fan_out_key
            &&& key[n] == '-'
            &&& text::written_number(key.skip(n + 1), 10) == index
            &&& is_component(key) <==> is_component(fan_out_key)
        }),
{
    let key = child_key(fan_out_key, index);
    let n = fan_out_key.len() as int;
    let tail = text::digits(index, 10);
    text::digits_write_the_number(index, 10);
    text::digits_have_no_slash(index, 10);
    assert(key.take(n) =~= fan_out_key);
    assert(key.skip(n + 1) =~= tail);
    if is_component(fan_out_key) {
        assert forall|i: int| 0 <= i < key.len() implies key[i] != '/' by {
            if i < n {
                assert(fan_out_key.contains(fan_out_key[i]));
            } else if i > n {
                assert(tail.contains(tail[i - n - 1]));
            }
        }
    } else {
        let i = choose|i: int| 0 <= i < n && fan_out_key[i] == '/';
        assert(key[i] == '/');
    }
}

} // verus!
