//! Two list operations as mathematical functions: mapping with omission, and
//! selection by a predicate.

use vstd::prelude::*;

verus! {

/// The results of `f` on the items of `s`, in order, leaving out the items on
/// which `f` gives `None`.
pub open spec fn filter_map<A, B>(s: Seq<A>, f: spec_fn(A) -> Option<B>) -> Seq<B>
    decreases s.len(),
{
    if s.len() == 0 {
        Seq::empty()
    } else {
        match f(s.last()) {
            Some(b) => filter_map(s.drop_last(), f).push(b),
            None => filter_map(s.drop_last(), f),
        }
    }
}

/// The items of `s` that satisfy `keep`, in order.
pub open spec fn retain<A>(s: Seq<A>, keep: spec_fn(A) -> bool) -> Seq<A>
    decreases s.len(),
{
    if s.len() == 0 {
        Seq::empty()
    } else if keep(s.last()) {
        retain(s.drop_last(), keep).push(s.last())
    } else {
        retain(s.drop_last(), keep)
    }
}

/// How one more item extends a mapping with omission.
pub proof fn lemma_filter_map_push<A, B>(s: Seq<A>, f: spec_fn(A) -> Option<B>, a: A)
    ensures
        filter_map(s.push(a), f) == match f(a) {
            Some(b) => filter_map(s, f).push(b),
            None => filter_map(s, f),
        },
{
    assert(s.push(a).drop_last() =~= s);
}

/// How one more item extends a selection.
pub proof fn lemma_retain_push<A>(s: Seq<A>, keep: spec_fn(A) -> bool, a: A)
    ensures
        retain(s.push(a), keep) == if keep(a) {
            retain(s, keep).push(a)
        } else {
            retain(s, keep)
        },
{
    assert(s.push(a).drop_last() =~= s);
}

/// A mapping with omission is no longer than its input, and each of its items
/// is the image of an input item.
pub proof fn lemma_filter_map_facts<A, B>(s: Seq<A>, f: spec_fn(A) -> Option<B>)
    ensures
        filter_map(s, f).len() <= s.len(),
        forall|b: B| #[trigger]
            filter_map(s, f).contains(b) ==> exists|i: int|
                0 <= i < s.len() && f(#[trigger] s[i]) == Some(b),
    decreases s.len(),
{
    if s.len() > 0 {
        let out = filter_map(s, f);
        let prev = filter_map(s.drop_last(), f);
        lemma_filter_map_facts(s.drop_last(), f);
        assert forall|b: B| #[trigger] out.contains(b) implies exists|i: int|
            0 <= i < s.len() && f(#[trigger] s[i]) == Some(b) by {
            let k = choose|k: int| 0 <= k < out.len() && out[k] == b;
            if k < prev.len() {
                assert(prev[k] == b);
                assert(prev.contains(b));
                let i = choose|i: int|
                    0 <= i < s.drop_last().len() && f(#[trigger] s.drop_last()[i]) == Some(b);
                assert(s[i] == s.drop_last()[i]);
            } else {
                assert(f(s[s.len() - 1]) == Some(b));
            }
        }
    }
}

/// The image of an item that is not left out is in the mapping with
/// omission.
pub proof fn lemma_filter_map_holds<A, B>(s: Seq<A>, f: spec_fn(A) -> Option<B>, i: int)
    requires
        0 <= i < s.len(),
        f(s[i]) is Some,
    ensures
        filter_map(s, f).contains(f(s[i])->0),
    decreases s.len(),
{
    let out = filter_map(s, f);
    let prev = filter_map(s.drop_last(), f);
    if i == s.len() - 1 {
        assert(out[out.len() - 1] == f(s[i])->0);
    } else {
        lemma_filter_map_holds(s.drop_last(), f, i);
        let k = choose|k: int| 0 <= k < prev.len() && prev[k] == f(s[i])->0;
        assert(out[k] == prev[k]);
    }
}

/// A selection is no longer than its input and holds exactly the input's items
/// that satisfy the predicate.
pub proof fn lemma_retain_facts<A>(s: Seq<A>, keep: spec_fn(A) -> bool)
    ensures
        retain(s, keep).len() <= s.len(),
        forall|a: A| #[trigger] retain(s, keep).contains(a) <==> s.contains(a) && keep(a),
        retain(s, keep).len() == s.len() ==> retain(s, keep) == s,
    decreases s.len(),
{
    if s.len() > 0 {
        let out = retain(s, keep);
        let prev = retain(s.drop_last(), keep);
        lemma_retain_facts(s.drop_last(), keep);
        assert forall|a: A| #[trigger] out.contains(a) <==> s.contains(a) && keep(a) by {
            if out.contains(a) {
                let k = choose|k: int| 0 <= k < out.len() && out[k] == a;
                if k < prev.len() {
                    assert(prev[k] == a);
                    assert(prev.contains(a));
                    let i = choose|i: int| 0 <= i < s.drop_last().len() && s.drop_last()[i] == a;
                    assert(s[i] == a);
                } else {
                    assert(s[s.len() - 1] == a);
                }
            }
            if s.contains(a) && keep(a) {
                let i = choose|i: int| 0 <= i < s.len() && s[i] == a;
                if i < s.len() - 1 {
                    assert(s.drop_last()[i] == a);
                    assert(s.drop_last().contains(a));
                    assert(prev.contains(a));
                    let k = choose|k: int| 0 <= k < prev.len() && prev[k] == a;
                    assert(out[k] == a);
                } else {
                    assert(out[out.len() - 1] == a);
                }
            }
        }
        if out.len() == s.len() {
            assert(s.drop_last().push(s.last()) =~= s);
        }
    }
}

} // verus!
