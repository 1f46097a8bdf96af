//! General facts about `Seq::filter` that the store's correctness proofs
//! rest on: how filtering interacts with `push`, that a filtered sequence
//! only rearranges nothing and invents nothing, and that it keeps keys
//! distinct.

use vstd::prelude::*;

verus! {

/// Filtering after a `push` filters the pushed element last.
pub proof fn lemma_filter_push<A>(s: Seq<A>, x: A, pred: spec_fn(A) -> bool)
    ensures
        s.push(x).filter(pred) == if pred(x) {
            s.filter(pred).push(x)
        } else {
            s.filter(pred)
        },
{
    reveal(Seq::filter);
    assert(s.push(x).drop_last() =~= s);
    assert(s.push(x).last() == x);
}

/// Every element of a filtered sequence comes from the original.
pub proof fn lemma_filter_membership<A>(s: Seq<A>, pred: spec_fn(A) -> bool, i: int)
    requires
        0 <= i < s.filter(pred).len(),
    ensures
        s.contains(s.filter(pred)[i]),
    decreases s.len(),
{
    reveal(Seq::filter);
    if s.len() == 0 {
    } else {
        let sub = s.drop_last().filter(pred);
        if i < sub.len() {
            lemma_filter_membership(s.drop_last(), pred, i);
            let j = choose|j: int| 0 <= j < s.drop_last().len() && s.drop_last()[j] == sub[i];
            assert(s[j] == s.filter(pred)[i]);
        } else {
            assert(s.filter(pred)[i] == s.last());
            assert(s[s.len() - 1] == s.last());
        }
    }
}

/// When no two elements of `s` share a key, neither do two elements of a
/// filtered copy.
pub proof fn lemma_filter_keeps_distinct_keys<A, K>(
    s: Seq<A>,
    pred: spec_fn(A) -> bool,
    key: spec_fn(A) -> K,
)
    requires
        forall|i: int, j: int| 0 <= i < j < s.len() ==> key(#[trigger] s[i]) != key(#[trigger] s[j]),
    ensures
        forall|i: int, j: int| 0 <= i < j < s.filter(pred).len()
            ==> key(#[trigger] s.filter(pred)[i]) != key(#[trigger] s.filter(pred)[j]),
    decreases s.len(),
{
    reveal(Seq::filter);
    if s.len() == 0 {
    } else {
        let prefix = s.drop_last();
        assert(forall|i: int| 0 <= i < prefix.len() ==> #[trigger] prefix[i] == s[i]);
        lemma_filter_keeps_distinct_keys(prefix, pred, key);
        let sub = prefix.filter(pred);
        assert forall|i: int, j: int| 0 <= i < j < s.filter(pred).len()
            implies key(#[trigger] s.filter(pred)[i]) != key(#[trigger] s.filter(pred)[j]) by {
            if j < sub.len() {
                assert(s.filter(pred)[i] == sub[i] && s.filter(pred)[j] == sub[j]);
            } else {
                // `j` indexes the pushed last element; `i` indexes the prefix
                assert(s.filter(pred)[j] == s.last());
                assert(s.filter(pred)[i] == sub[i]);
                lemma_filter_membership(prefix, pred, i);
                let k = choose|k: int| 0 <= k < prefix.len() && prefix[k] == sub[i];
                assert(key(s[k]) != key(s[s.len() - 1]));
            }
        }
    }
}

/// A predicate true of every element filters to the whole sequence.
pub proof fn lemma_filter_all_true<A>(s: Seq<A>, pred: spec_fn(A) -> bool)
    requires
        forall|i: int| 0 <= i < s.len() ==> pred(#[trigger] s[i]),
    ensures
        s.filter(pred) == s,
    decreases s.len(),
{
    reveal(Seq::filter);
    if s.len() == 0 {
        assert(s.filter(pred) =~= s);
    } else {
        let prefix = s.drop_last();
        assert(forall|i: int| 0 <= i < prefix.len() ==> #[trigger] prefix[i] == s[i]);
        lemma_filter_all_true(prefix, pred);
        assert(pred(s.last()));
        assert(s.filter(pred) =~= s);
    }
}

/// A predicate false of every element filters to the empty sequence.
pub proof fn lemma_filter_all_false<A>(s: Seq<A>, pred: spec_fn(A) -> bool)
    requires
        forall|i: int| 0 <= i < s.len() ==> !pred(#[trigger] s[i]),
    ensures
        s.filter(pred) == Seq::<A>::empty(),
    decreases s.len(),
{
    reveal(Seq::filter);
    if s.len() == 0 {
        assert(s.filter(pred) =~= Seq::<A>::empty());
    } else {
        let prefix = s.drop_last();
        assert(forall|i: int| 0 <= i < prefix.len() ==> #[trigger] prefix[i] == s[i]);
        lemma_filter_all_false(prefix, pred);
        assert(!pred(s.last()));
    }
}

} // verus!
