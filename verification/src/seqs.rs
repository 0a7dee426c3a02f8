//! Small sequence lemmas shared by the state transitions.

use vstd::prelude::*;

verus! {

/// Filtering distributes over push: the pushed element is kept exactly
/// when it satisfies the predicate.
pub proof fn lemma_filter_push<A>(s: Seq<A>, pred: spec_fn(A) -> bool, e: A)
    ensures
        s.push(e).filter(pred) == (if pred(e) {
            s.filter(pred).push(e)
        } else {
            s.filter(pred)
        }),
{
    reveal(Seq::filter);
    assert(s.push(e).drop_last() =~= s);
    assert(s.push(e).last() == e);
}

/// A pushed sequence contains exactly the old elements and the new one.
pub proof fn lemma_push_contains<A>(s: Seq<A>, e: A)
    ensures
        forall|x: A| s.push(e).contains(x) == (s.contains(x) || x == e),
{
    assert forall|x: A| s.push(e).contains(x) == (s.contains(x) || x == e) by {
        if s.push(e).contains(x) {
            let k = choose|k: int| 0 <= k < s.push(e).len() && s.push(e)[k] == x;
            if k < s.len() {
                assert(s[k] == x);
            }
        }
        if s.contains(x) {
            let k = choose|k: int| 0 <= k < s.len() && s[k] == x;
            assert(s.push(e)[k] == x);
        }
        if x == e {
            assert(s.push(e)[s.len() as int] == x);
        }
    }
}

/// Every element of a filtered sequence comes from the original one.
pub proof fn lemma_filter_sub<A>(s: Seq<A>, pred: spec_fn(A) -> bool)
    ensures
        forall|a: int|
            0 <= a < s.filter(pred).len() ==> exists|k: int|
                0 <= k < s.len() && #[trigger] s.filter(pred)[a] == s[k],
    decreases s.len(),
{
    reveal(Seq::filter);
    if s.len() == 0 {
    } else {
        let pre = s.drop_last();
        lemma_filter_sub(pre, pred);
        assert forall|a: int|
            0 <= a < s.filter(pred).len() implies exists|k: int|
            0 <= k < s.len() && #[trigger] s.filter(pred)[a] == s[k] by {
            if a < pre.filter(pred).len() {
                let k = choose|k: int| 0 <= k < pre.len() && pre.filter(pred)[a] == pre[k];
                assert(s[k] == pre[k]);
                assert(s.filter(pred)[a] == s[k]);
            } else {
                assert(s.filter(pred)[a] == s.last());
                assert(s[s.len() - 1] == s.last());
            }
        }
    }
}

/// Filtering keeps any projection that was injective on the original
/// sequence injective: positions of the filtered sequence come from
/// distinct positions of the original one.
pub proof fn lemma_filter_preserves_distinct<A, B>(
    s: Seq<A>,
    pred: spec_fn(A) -> bool,
    f: spec_fn(A) -> B,
)
    requires
        forall|i: int, j: int| 0 <= i < j < s.len() ==> f(s[i]) != f(s[j]),
    ensures
        forall|i: int, j: int|
            0 <= i < j < s.filter(pred).len() ==> f(s.filter(pred)[i]) != f(s.filter(pred)[j]),
    decreases s.len(),
{
    reveal(Seq::filter);
    if s.len() == 0 {
    } else {
        let pre = s.drop_last();
        assert(forall|i: int, j: int| 0 <= i < j < pre.len() ==> f(pre[i]) != f(pre[j])) by {
            assert(forall|i: int| 0 <= i < pre.len() ==> pre[i] == s[i]);
        }
        lemma_filter_preserves_distinct(pre, pred, f);
        lemma_filter_sub(pre, pred);
        let out = s.filter(pred);
        assert forall|i: int, j: int| 0 <= i < j < out.len() implies f(out[i]) != f(out[j]) by {
            if j < pre.filter(pred).len() {
                assert(out[i] == pre.filter(pred)[i] && out[j] == pre.filter(pred)[j]);
            } else {
                assert(out[j] == s.last());
                assert(out[i] == pre.filter(pred)[i]);
                let k = choose|k: int| 0 <= k < pre.len() && pre.filter(pred)[i] == pre[k];
                assert(pre[k] == s[k]);
                assert(f(s[k]) != f(s[s.len() - 1]));
            }
        }
    }
}

} // verus!
