//! Facts about sequences that are gone through from front to back.

use vstd::prelude::*;

verus! {

/// What passes a filter among the first `i + 1` elements: what passes among the first `i`, and the
/// next element if it passes.
pub proof fn filter_step<A>(s: Seq<A>, i: int, pred: spec_fn(A) -> bool)
    requires
        0 <= i < s.len(),
    ensures
        s.take(i + 1).filter(pred) == if pred(s[i]) {
            s.take(i).filter(pred).push(s[i])
        } else {
            s.take(i).filter(pred)
        },
{
    reveal_with_fuel(Seq::filter, 2);
    assert(s.take(i + 1).drop_last() =~= s.take(i));
    assert(s.take(i + 1).last() == s[i]);
}

/// No more elements pass a filter than there are.
pub proof fn filter_len<A>(s: Seq<A>, pred: spec_fn(A) -> bool)
    ensures
        s.filter(pred).len() <= s.len(),
    decreases s.len(),
{
    reveal_with_fuel(Seq::filter, 2);
    if s.len() > 0 {
        filter_len(s.drop_last(), pred);
    }
}

/// An element that passes a filter is among those that pass.
pub proof fn filter_keeps<A>(s: Seq<A>, pred: spec_fn(A) -> bool, a: A)
    requires
        s.contains(a),
        pred(a),
    ensures
        s.filter(pred).contains(a),
    decreases s.len(),
{
    reveal_with_fuel(Seq::filter, 2);
    let i = s.index_of(a);
    let sub = s.drop_last().filter(pred);
    if i == s.len() - 1 {
        assert(sub.push(a)[sub.len() as int] == a);
        assert(s.filter(pred) == sub.push(a));
    } else {
        assert(s.drop_last()[i] == a);
        filter_keeps(s.drop_last(), pred, a);
        let j = sub.index_of(a);
        if pred(s.last()) {
            assert(s.filter(pred) == sub.push(s.last()));
            assert(sub.push(s.last())[j] == a);
        }
    }
}

/// What passes a filter passes it, and was there before.
pub proof fn filtered_passes<A>(s: Seq<A>, pred: spec_fn(A) -> bool, a: A)
    requires
        s.filter(pred).contains(a),
    ensures
        s.contains(a),
        pred(a),
    decreases s.len(),
{
    reveal_with_fuel(Seq::filter, 2);
    if s.len() > 0 {
        let front = s.drop_last();
        let j = s.filter(pred).index_of(a);
        if front.filter(pred).contains(a) {
            filtered_passes(front, pred, a);
            assert(s[front.index_of(a)] == a);
        } else {
            assert(j == front.filter(pred).len()) by {
                if j < front.filter(pred).len() {
                    assert(front.filter(pred)[j] == a);
                }
            }
            assert(s[s.len() - 1] == a);
        }
    }
}

} // verus!
