//! Random draws: a uniformly random position, and a random selection of at
//! most a given number of items.
//!
//! The random choices are made by the `rand` crate; what is proved here holds
//! whatever it chooses.

use crate::dedup::keys_of;
use crate::post::{PostItem, PostItemV2};
use rand::seq::SliceRandom;
use rand::Rng;
use vstd::prelude::*;

verus! {

/// The positions `0`, `1`, up to `n - 1`, in order.
pub open spec fn positions(n: nat) -> Seq<usize> {
    Seq::new(n, |i: int| i as usize)
}

/// `out` is made of items of `pool`, the `k`-th taken from position `picks[k]`,
/// and no position is taken twice.
pub open spec fn is_selection<T>(out: Seq<T>, pool: Seq<T>, picks: Seq<usize>) -> bool {
    &&& picks.len() == out.len()
    &&& picks.no_duplicates()
    &&& forall|k: int|
        0 <= k < picks.len() ==> (#[trigger] picks[k]) < pool.len() && out[k] == pool[picks[k] as int]
}

/// `out` is a selection of items of `pool`, each position of `pool` used at
/// most once.
pub open spec fn drawn_from<T>(out: Seq<T>, pool: Seq<T>) -> bool {
    exists|picks: Seq<usize>| is_selection(out, pool, picks)
}

/// Calls rand's `SliceRandom::shuffle` on the slice, with the thread's
/// generator from `rand::rng`.
///
/// Trusted: the slice afterwards holds the same values, each as often as
/// before. Which order they are in is left open.
#[verifier::external_body]
fn shuffle_positions(order: &mut Vec<usize>)
    ensures
        final(order)@.to_multiset() == old(order)@.to_multiset(),
{
    order.shuffle(&mut rand::rng());
}

/// Calls rand's `Rng::random_range` with the range from `low` up to, not
/// including, `high`, on the thread's generator from `rand::rng`.
///
/// Trusted: the number lies in that range. The range must not be empty, or the
/// call panics.
#[verifier::external_body]
fn random_between(low: u64, high: u64) -> (res: u64)
    requires
        low < high,
    ensures
        low <= res < high,
{
    rand::rng().random_range(low..high)
}

/// A uniformly random position in a list of `len` items; `None` for an empty
/// list, which has no position.
pub fn random_position(len: u64) -> (res: Option<u64>)
    ensures
        len == 0 <==> res is None,
        res matches Some(position) ==> position < len,
{
    if len == 0 {
        None
    } else {
        Some(random_between(0, len))
    }
}

/// Two lists with the same items, each as often, still have the same items as
/// often after a function is applied to every item.
pub proof fn lemma_map_keeps_multiset<A, B>(a: Seq<A>, b: Seq<A>, f: spec_fn(A) -> B)
    requires
        a.to_multiset() == b.to_multiset(),
    ensures
        a.map_values(f).to_multiset() == b.map_values(f).to_multiset(),
    decreases a.len(),
{
    broadcast use vstd::seq_lib::group_to_multiset_ensures;

    if a.len() == 0 {
        assert(b.to_multiset().len() == 0);
        assert(a.map_values(f) =~= b.map_values(f));
    } else {
        let x = a.last();
        let shorter = a.drop_last();
        assert(a.contains(x)) by {
            assert(a[a.len() - 1] == x);
        }
        assert(b.to_multiset().count(x) > 0);
        assert(b.contains(x));
        let i = choose|i: int| 0 <= i < b.len() && b[i] == x;
        let rest = b.remove(i);
        assert(shorter.push(x) =~= a);
        assert(shorter.to_multiset() =~= rest.to_multiset()) by {
            vstd::seq_lib::to_multiset_build(shorter, x);
            vstd::seq_lib::to_multiset_remove(b, i);
            assert(shorter.to_multiset().insert(x).remove(x) =~= shorter.to_multiset());
        }
        lemma_map_keeps_multiset(shorter, rest, f);
        assert(a.map_values(f) =~= shorter.map_values(f).push(f(x)));
        assert(b.map_values(f) =~= rest.map_values(f).insert(i, f(x)));
        vstd::seq_lib::to_multiset_build(shorter.map_values(f), f(x));
        vstd::seq_lib::to_multiset_insert(rest.map_values(f), i, f(x));
    }
}

/// What a reordering of the positions of a list is: every position of the list
/// occurs in it, once.
pub proof fn lemma_reordered_positions(order: Seq<usize>, n: nat)
    requires
        n <= usize::MAX,
        order.to_multiset() == positions(n).to_multiset(),
    ensures
        order.len() == n,
        order.no_duplicates(),
        forall|k: int| 0 <= k < order.len() ==> (#[trigger] order[k]) < n,
        forall|p: usize| p < n ==> order.contains(p),
{
    broadcast use vstd::seq_lib::group_to_multiset_ensures;

    let all = positions(n);
    assert(all.no_duplicates());
    all.lemma_multiset_has_no_duplicates();
    order.lemma_multiset_has_no_duplicates_conv();
    assert(order.to_multiset().len() == all.to_multiset().len());
    assert forall|k: int| 0 <= k < order.len() implies (#[trigger] order[k]) < n by {
        assert(order.contains(order[k]));
        assert(all.to_multiset().count(order[k]) > 0);
        assert(all.contains(order[k]));
        let j = choose|j: int| 0 <= j < all.len() && all[j] == order[k];
    }
    assert forall|p: usize| p < n implies order.contains(p) by {
        assert(all[p as int] == p);
        assert(all.contains(p));
        assert(order.to_multiset().count(p) > 0);
    }
}

/// Items taken from a list at a reordering of all its positions are the items
/// of the list, each as often.
pub proof fn lemma_reordered_items<T>(out: Seq<T>, pool: Seq<T>, order: Seq<usize>)
    requires
        pool.len() <= usize::MAX,
        order.to_multiset() == positions(pool.len()).to_multiset(),
        out.len() == order.len(),
        forall|k: int| 0 <= k < order.len() ==> out[k] == pool[(#[trigger] order[k]) as int],
    ensures
        out.to_multiset() == pool.to_multiset(),
{
    lemma_reordered_positions(order, pool.len());
    let f = |p: usize| pool[p as int];
    lemma_map_keeps_multiset(order, positions(pool.len()), f);
    assert(order.map_values(f) =~= out);
    assert(positions(pool.len()).map_values(f) =~= pool);
}

/// A selection from a list whose keys are pairwise distinct has pairwise
/// distinct keys too.
pub proof fn lemma_selection_keeps_distinct<T, K>(out: Seq<T>, pool: Seq<T>, key: spec_fn(T) -> K)
    requires
        drawn_from(out, pool),
        keys_of(pool, key).no_duplicates(),
    ensures
        keys_of(out, key).no_duplicates(),
        forall|x: T| out.contains(x) ==> pool.contains(x),
{
    let picks = choose|picks: Seq<usize>| is_selection(out, pool, picks);
    assert forall|a: int, b: int|
        0 <= a < out.len() && 0 <= b < out.len() && a != b implies keys_of(out, key)[a]
        != keys_of(out, key)[b] by {
        assert(picks[a] != picks[b]);
        assert(keys_of(pool, key)[picks[a] as int] != keys_of(pool, key)[picks[b] as int]);
    }
    assert forall|x: T| out.contains(x) implies pool.contains(x) by {
        let k = choose|k: int| 0 <= k < out.len() && out[k] == x;
        assert(pool[picks[k] as int] == x);
    }
}

/// The first `limit` positions of a random order of the positions of a list of
/// `len` items; all of them where the list has no more than `limit`.
fn shuffled_positions(len: usize, limit: usize) -> (res: Vec<usize>)
    ensures
        res.len() == if limit <= len { limit } else { len },
        res@.no_duplicates(),
        forall|k: int| 0 <= k < res.len() ==> (#[trigger] res@[k]) < len,
        limit >= len ==> res@.to_multiset() == positions(len as nat).to_multiset(),
{
    let mut order: Vec<usize> = Vec::new();
    let mut i: usize = 0;
    while i < len
        invariant
            i <= len,
            order@ == positions(i as nat),
        decreases len - i,
    {
        order.push(i);
        assert(order@ =~= positions((i + 1) as nat));
        i = i + 1;
    }
    shuffle_positions(&mut order);
    proof {
        lemma_reordered_positions(order@, len as nat);
    }
    if limit < len {
        let ghost full = order@;
        order.truncate(limit);
        assert(order@ == full.subrange(0, limit as int));
        assert forall|a: int, b: int|
            0 <= a < order@.len() && 0 <= b < order@.len() && a != b implies order@[a]
            != order@[b] by {
            assert(full[a] != full[b]);
        }
    }
    order
}

/// Draws at most `limit` items of `list` at random, no position twice. With a
/// list of no more than `limit` items this is the whole list in a random
/// order.
pub fn get_shuffled_limit_list(list: Vec<PostItem>, limit: usize) -> (res: Vec<PostItem>)
    ensures
        res.len() == if limit <= list.len() { limit } else { list.len() },
        drawn_from(res.deep_view(), list.deep_view()),
        limit >= list.len() ==> res.deep_view().to_multiset() == list.deep_view().to_multiset(),
{
    let picks = shuffled_positions(list.len(), limit);
    let mut drawn: Vec<PostItem> = Vec::new();
    let mut k: usize = 0;
    while k < picks.len()
        invariant
            k <= picks.len(),
            drawn.len() == k,
            forall|j: int| 0 <= j < picks.len() ==> (#[trigger] picks@[j]) < list.len(),
            forall|j: int| 0 <= j < k ==> drawn@[j] == list@[picks@[j] as int],
        decreases picks.len() - k,
    {
        drawn.push(list[picks[k]].clone());
        k = k + 1;
    }
    proof {
        assert(is_selection(drawn.deep_view(), list.deep_view(), picks@));
        if limit >= list.len() {
            lemma_reordered_items(drawn.deep_view(), list.deep_view(), picks@);
        }
    }
    drawn
}

/// Draws at most `limit` items of `list` at random, no position twice. With a
/// list of no more than `limit` items this is the whole list in a random
/// order.
pub fn get_shuffled_limit_list_v3(list: Vec<PostItemV2>, limit: usize) -> (res: Vec<PostItemV2>)
    ensures
        res.len() == if limit <= list.len() { limit } else { list.len() },
        drawn_from(res.deep_view(), list.deep_view()),
        limit >= list.len() ==> res.deep_view().to_multiset() == list.deep_view().to_multiset(),
{
    let picks = shuffled_positions(list.len(), limit);
    let mut drawn: Vec<PostItemV2> = Vec::new();
    let mut k: usize = 0;
    while k < picks.len()
        invariant
            k <= picks.len(),
            drawn.len() == k,
            forall|j: int| 0 <= j < picks.len() ==> (#[trigger] picks@[j]) < list.len(),
            forall|j: int| 0 <= j < k ==> drawn@[j] == list@[picks@[j] as int],
        decreases picks.len() - k,
    {
        drawn.push(list[picks[k]].clone());
        k = k + 1;
    }
    proof {
        assert(is_selection(drawn.deep_view(), list.deep_view(), picks@));
        if limit >= list.len() {
            lemma_reordered_items(drawn.deep_view(), list.deep_view(), picks@);
        }
    }
    drawn
}

} // verus!
