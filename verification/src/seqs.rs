//! Facts about filtered sequences.

use vstd::prelude::*;

verus! {

/// Taking one item more into account adds it to those kept, if it is one to
/// keep.
pub(crate) proof fn filter_next<A>(s: Seq<A>, pred: spec_fn(A) -> bool, i: int)
    requires
        0 <= i < s.len(),
    ensures
        s.take(i + 1).filter(pred) == if pred(s[i]) {
            s.take(i).filter(pred).push(s[i])
        } else {
            s.take(i).filter(pred)
        },
{
    let t = s.take(i + 1);
    assert(t.drop_last() =~= s.take(i));
    assert(t.last() == s[i]);
    reveal(Seq::filter);
}

/// What is kept of a start is a start of what is kept.
pub(crate) proof fn filter_extends<A>(s: Seq<A>, pred: spec_fn(A) -> bool, i: int)
    requires
        0 <= i <= s.len(),
    ensures
        s.take(i).filter(pred).len() <= s.filter(pred).len(),
        s.filter(pred).take(s.take(i).filter(pred).len() as int) == s.take(i).filter(pred),
    decreases s.len() - i,
{
    if i == s.len() {
        assert(s.take(i) =~= s);
        assert(s.filter(pred).take(s.filter(pred).len() as int) =~= s.filter(pred));
    } else {
        filter_extends(s, pred, i + 1);
        filter_next(s, pred, i);
        let kept = s.take(i).filter(pred);
        let more = s.take(i + 1).filter(pred);
        let n = kept.len() as int;
        assert(s.filter(pred).take(n) =~= s.filter(pred).take(more.len() as int).take(n));
        assert(more.take(n) =~= kept);
    }
}

/// Where no item is one to keep, none is kept.
pub(crate) proof fn filter_none<A>(s: Seq<A>, pred: spec_fn(A) -> bool)
    requires
        forall|i: int| 0 <= i < s.len() ==> !pred(#[trigger] s[i]),
    ensures
        s.filter(pred).len() == 0,
{
    if s.filter(pred).len() > 0 {
        s.lemma_filter_pred(pred, 0);
        let kept = s.filter(pred)[0];
        assert(s.filter(pred).contains(kept));
        s.lemma_filter_contains_rev(pred, kept);
        let i = choose|i: int| 0 <= i < s.len() && s[i] == kept;
        assert(!pred(s[i]));
    }
}

/// What a filter keeps comes from the sequence.
pub(crate) proof fn filter_keeps_members<A>(s: Seq<A>, pred: spec_fn(A) -> bool, i: int)
    requires
        0 <= i < s.filter(pred).len(),
    ensures
        s.contains(s.filter(pred)[i]),
    decreases s.len(),
{
    reveal(Seq::filter);
    let before = s.drop_last();
    let kept = s.filter(pred)[i];
    if i < before.filter(pred).len() {
        filter_keeps_members(before, pred, i);
        let n = choose|n: int| 0 <= n < before.len() && before[n] == kept;
        assert(s[n] == kept);
    } else {
        assert(s[s.len() - 1] == kept);
    }
}

} // verus!
