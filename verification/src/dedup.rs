//! Order-preserving deduplication by a key, as a mathematical function, with
//! the facts about it that the rest of the library relies on.

use vstd::prelude::*;

verus! {

/// The keys of `items`, in order.
pub open spec fn keys_of<T, K>(items: Seq<T>, key: spec_fn(T) -> K) -> Seq<K> {
    items.map_values(key)
}

/// `items` without every item whose key occurred earlier in `items`: the first
/// item of each key stays, in the order of the list.
pub open spec fn first_by_key<T, K>(items: Seq<T>, key: spec_fn(T) -> K) -> Seq<T>
    decreases items.len(),
{
    if items.len() == 0 {
        Seq::empty()
    } else {
        let earlier = items.drop_last();
        if keys_of(earlier, key).contains(key(items.last())) {
            first_by_key(earlier, key)
        } else {
            first_by_key(earlier, key).push(items.last())
        }
    }
}

/// One more item extends the deduplicated prefix by that item exactly when its
/// key is new.
pub proof fn lemma_first_by_key_push<T, K>(items: Seq<T>, key: spec_fn(T) -> K, x: T)
    ensures
        first_by_key(items.push(x), key) == if keys_of(items, key).contains(key(x)) {
            first_by_key(items, key)
        } else {
            first_by_key(items, key).push(x)
        },
{
    assert(items.push(x).drop_last() =~= items);
    assert(items.push(x).last() == x);
}

/// The key of every item of `items` is among its keys.
pub proof fn lemma_key_present<T, K>(items: Seq<T>, key: spec_fn(T) -> K, i: int)
    requires
        0 <= i < items.len(),
    ensures
        keys_of(items, key).contains(key(items[i])),
{
    assert(keys_of(items, key)[i] == key(items[i]));
}

/// A key among the keys of `items` is the key of one of its items.
pub proof fn lemma_key_witness<T, K>(items: Seq<T>, key: spec_fn(T) -> K, k: K) -> (i: int)
    requires
        keys_of(items, key).contains(k),
    ensures
        0 <= i < items.len(),
        key(items[i]) == k,
{
    let ks = keys_of(items, key);
    let i = choose|i: int| 0 <= i < ks.len() && ks[i] == k;
    i
}

/// Deduplication neither adds nor loses a key, and never grows the list.
pub proof fn lemma_first_by_key_keys<T, K>(items: Seq<T>, key: spec_fn(T) -> K)
    ensures
        first_by_key(items, key).len() <= items.len(),
        forall|k: K|
            #[trigger] keys_of(first_by_key(items, key), key).contains(k) <==> keys_of(
                items,
                key,
            ).contains(k),
        forall|x: T| #[trigger] first_by_key(items, key).contains(x) ==> items.contains(x),
    decreases items.len(),
{
    let out = first_by_key(items, key);
    if items.len() > 0 {
        let earlier = items.drop_last();
        let last = items.last();
        let prev = first_by_key(earlier, key);
        lemma_first_by_key_keys(earlier, key);
        assert forall|k: K| #[trigger]
            keys_of(out, key).contains(k) <==> keys_of(items, key).contains(k) by {
            if keys_of(out, key).contains(k) {
                let i = lemma_key_witness(out, key, k);
                if i < prev.len() {
                    lemma_key_present(prev, key, i);
                    let j = lemma_key_witness(earlier, key, k);
                    lemma_key_present(items, key, j);
                } else {
                    lemma_key_present(items, key, items.len() - 1);
                }
            }
            if keys_of(items, key).contains(k) {
                let j = lemma_key_witness(items, key, k);
                if j < earlier.len() {
                    lemma_key_present(earlier, key, j);
                }
                if keys_of(earlier, key).contains(k) {
                    let i = lemma_key_witness(prev, key, k);
                    lemma_key_present(out, key, i);
                } else {
                    lemma_key_present(out, key, out.len() - 1);
                }
            }
        }
        assert forall|x: T| #[trigger] out.contains(x) implies items.contains(x) by {
            let i = choose|i: int| 0 <= i < out.len() && out[i] == x;
            if i < prev.len() {
                assert(prev[i] == x);
                assert(prev.contains(x));
                let j = choose|j: int| 0 <= j < earlier.len() && earlier[j] == x;
                assert(items[j] == x);
            } else {
                assert(items[items.len() - 1] == x);
            }
        }
    }
}

/// No key occurs twice in a deduplicated list.
pub proof fn lemma_first_by_key_distinct<T, K>(items: Seq<T>, key: spec_fn(T) -> K)
    ensures
        keys_of(first_by_key(items, key), key).no_duplicates(),
    decreases items.len(),
{
    if items.len() > 0 {
        let earlier = items.drop_last();
        let prev = first_by_key(earlier, key);
        lemma_first_by_key_distinct(earlier, key);
        lemma_first_by_key_keys(earlier, key);
        if !keys_of(earlier, key).contains(key(items.last())) {
            let out = prev.push(items.last());
            assert forall|i: int, j: int|
                0 <= i < out.len() && 0 <= j < out.len() && i != j implies keys_of(out, key)[i]
                != keys_of(out, key)[j] by {
                if i < prev.len() && j < prev.len() {
                    assert(keys_of(prev, key)[i] != keys_of(prev, key)[j]);
                } else if i < prev.len() {
                    assert(keys_of(prev, key)[i] == keys_of(out, key)[i]);
                    assert(keys_of(prev, key).contains(keys_of(out, key)[i]));
                } else {
                    assert(keys_of(prev, key)[j] == keys_of(out, key)[j]);
                    assert(keys_of(prev, key).contains(keys_of(out, key)[j]));
                }
            }
        }
    }
}

/// A list whose keys are already pairwise distinct is left as it is.
pub proof fn lemma_first_by_key_of_distinct<T, K>(items: Seq<T>, key: spec_fn(T) -> K)
    requires
        keys_of(items, key).no_duplicates(),
    ensures
        first_by_key(items, key) == items,
    decreases items.len(),
{
    if items.len() > 0 {
        let earlier = items.drop_last();
        assert forall|i: int, j: int|
            0 <= i < earlier.len() && 0 <= j < earlier.len() && i != j implies keys_of(
            earlier,
            key,
        )[i] != keys_of(earlier, key)[j] by {
            assert(keys_of(items, key)[i] != keys_of(items, key)[j]);
        }
        lemma_first_by_key_of_distinct(earlier, key);
        if keys_of(earlier, key).contains(key(items.last())) {
            let j = choose|j: int|
                0 <= j < earlier.len() && keys_of(earlier, key)[j] == key(items.last());
            assert(keys_of(items, key)[j] == keys_of(items, key)[items.len() - 1]);
        }
        assert(earlier.push(items.last()) =~= items);
    }
}

/// Deduplicating twice changes nothing more.
pub proof fn lemma_first_by_key_idempotent<T, K>(items: Seq<T>, key: spec_fn(T) -> K)
    ensures
        first_by_key(first_by_key(items, key), key) == first_by_key(items, key),
{
    lemma_first_by_key_distinct(items, key);
    lemma_first_by_key_of_distinct(first_by_key(items, key), key);
}

} // verus!
