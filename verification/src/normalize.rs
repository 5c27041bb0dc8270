//! The schema normaliser: conversion between item schema versions, dropping
//! what cannot be converted, and deduplication.

use crate::dedup::{
    first_by_key, keys_of, lemma_first_by_key_distinct, lemma_first_by_key_keys,
    lemma_first_by_key_push,
};
use crate::history::{HistoryV2, HistoryV3, MLFeedCacheHistoryItemV2, MLFeedCacheHistoryItemV3};
use crate::post::{
    video_key, video_key_v1, PostItem, PostItemV2, PostItemV3, PostV2, PostV3,
};
use crate::seqs::{filter_map, lemma_filter_map_facts, lemma_filter_map_push};
use vstd::prelude::*;

verus! {

/// Whether `c` is one of the decimal digits `0` to `9`.
pub open spec fn is_digit(c: char) -> bool {
    '0' <= c <= '9'
}

/// The number that a decimal digit stands for.
pub open spec fn digit_value(c: char) -> nat {
    (c as u32 - '0' as u32) as nat
}

/// The number written by a sequence of decimal digits, most significant first.
pub open spec fn digits_value(s: Seq<char>) -> nat
    decreases s.len(),
{
    if s.len() == 0 {
        0
    } else {
        digits_value(s.drop_last()) * 10 + digit_value(s.last())
    }
}

/// Whether `s` consists of decimal digits only.
pub open spec fn all_digits(s: Seq<char>) -> bool {
    forall|i: int| 0 <= i < s.len() ==> is_digit(#[trigger] s[i])
}

/// `s` without one leading plus sign, if it has one.
pub open spec fn unsigned_part(s: Seq<char>) -> Seq<char> {
    if s.len() > 0 && s[0] == '+' {
        s.subrange(1, s.len() as int)
    } else {
        s
    }
}

/// The canonical content identifier that a text denotes: an optional `+`, then
/// one or more decimal digits and nothing else, with a value that fits 64 bits.
pub open spec fn parse_u64(s: Seq<char>) -> Option<u64> {
    let digits = unsigned_part(s);
    if digits.len() > 0 && all_digits(digits) && digits_value(digits) <= u64::MAX {
        Some(digits_value(digits) as u64)
    } else {
        None
    }
}

/// A number never gets smaller when more digits follow.
proof fn lemma_digits_value_grows(s: Seq<char>, n: int)
    requires
        0 <= n <= s.len(),
    ensures
        digits_value(s.take(n)) <= digits_value(s),
    decreases s.len() - n,
{
    if n == s.len() {
        assert(s.take(n) =~= s);
    } else {
        lemma_digits_value_grows(s, n + 1);
        assert(s.take(n + 1).drop_last() =~= s.take(n));
    }
}

/// Reads a content identifier as a 64-bit number.
pub fn parse_post_id(text: &str) -> (res: Option<u64>)
    ensures
        res == parse_u64(text@),
{
    let ghost digits = unsigned_part(text@);
    let mut acc: u64 = 0;
    let ghost mut seen: int = 0;
    let mut any_digit = false;
    let mut signed = false;
    let mut first = true;
    for c in it: text.chars()
        invariant
            it.seq() == text@,
            first == (it.index() == 0),
            signed == (text@.len() > 0 && text@[0] == '+' && it.index() >= 1),
            digits == unsigned_part(text@),
            !first ==> (signed <==> text@[0] == '+'),
            seen == it.index() - (if signed { 1int } else { 0 }),
            any_digit == (seen > 0),
            all_digits(digits.take(seen)),
            acc == digits_value(digits.take(seen)),
    {
        if first && c == '+' {
            signed = true;
            first = false;
            assert(digits.take(0) =~= Seq::<char>::empty());
        } else {
            first = false;
            assert(c == digits[seen]);
            if !(c >= '0' && c <= '9') {
                assert(!is_digit(digits[seen]));
                return None;
            }
            let d: u64 = (c as u32 - '0' as u32) as u64;
            proof {
                assert(digits.take(seen + 1).drop_last() =~= digits.take(seen));
                assert(digits.take(seen + 1).last() == c);
                lemma_digits_value_grows(digits, seen + 1);
            }
            let shifted = match acc.checked_mul(10) {
                Some(v) => v,
                None => { return None; },
            };
            acc = match shifted.checked_add(d) {
                Some(v) => v,
                None => { return None; },
            };
            any_digit = true;
            proof {
                seen = seen + 1;
            }
        }
    }
    assert(digits.take(seen) =~= digits);
    if any_digit {
        Some(acc)
    } else {
        None
    }
}

/// The canonical form of one item of the newer schema, where its content
/// identifier is numeric.
pub open spec fn post_to_v2(item: PostV3) -> Option<PostV2> {
    match parse_u64(item.post_id) {
        Some(post_id) => Some(
            PostV2 {
                publisher_user_id: item.publisher_user_id,
                canister_id: item.canister_id,
                post_id,
                video_id: item.video_id,
                is_nsfw: item.is_nsfw,
            },
        ),
        None => None,
    }
}

/// The canonical forms of the items whose content identifier is numeric, in
/// order.
pub open spec fn posts_to_v2(items: Seq<PostV3>) -> Seq<PostV2> {
    filter_map(items, |item: PostV3| post_to_v2(item))
}

/// The numeric form of one history record of the newer schema, where its
/// content identifier is numeric.
pub open spec fn history_to_v2(item: HistoryV3) -> Option<HistoryV2> {
    match parse_u64(item.post_id) {
        Some(post_id) => Some(
            HistoryV2 {
                publisher_user_id: item.publisher_user_id,
                canister_id: item.canister_id,
                post_id,
                video_id: item.video_id,
                item_type: item.item_type,
                timestamp: item.timestamp,
                percent_watched_bits: item.percent_watched_bits,
            },
        ),
        None => None,
    }
}

/// The numeric forms of the history records whose content identifier is
/// numeric, in order.
pub open spec fn histories_to_v2(items: Seq<HistoryV3>) -> Seq<HistoryV2> {
    filter_map(items, |item: HistoryV3| history_to_v2(item))
}

/// Converts items of the newer schema to the canonical one. An item whose
/// content identifier is not a 64-bit number is left out; the others keep
/// their order and every other field.
pub fn convert_post_items_v3_to_v2(items: Vec<PostItemV3>) -> (res: Vec<PostItemV2>)
    ensures
        res.deep_view() == posts_to_v2(items.deep_view()),
        res.len() <= items.len(),
{
    let ghost source = items.deep_view();
    let ghost f = |item: PostV3| post_to_v2(item);
    let mut converted: Vec<PostItemV2> = Vec::new();
    for item in it: items
        invariant
            it.seq() == items@,
            source == items.deep_view(),
            f == (|item: PostV3| post_to_v2(item)),
            converted.deep_view() == filter_map(source.take(it.index() as int), f),
    {
        proof {
            lemma_filter_map_push(source.take(it.index() as int), f, item.deep_view());
            assert(source.take(it.index() + 1) =~= source.take(it.index() as int).push(
                item.deep_view(),
            ));
        }
        let ghost before = converted.deep_view();
        match parse_post_id(item.post_id.as_str()) {
            Some(post_id) => {
                let post = PostItemV2 {
                    publisher_user_id: item.publisher_user_id,
                    canister_id: item.canister_id,
                    post_id,
                    video_id: item.video_id,
                    is_nsfw: item.is_nsfw,
                };
                converted.push(post);
                assert(converted.deep_view() =~= before.push(post.deep_view()));
            },
            None => {},
        }
    }
    proof {
        assert(source.take(items@.len() as int) =~= source);
        lemma_filter_map_facts(source, f);
    }
    converted
}

/// Converts history records of the newer schema to the numeric one. A record
/// whose content identifier is not a 64-bit number is left out; the others
/// keep their order and every other field.
pub fn convert_history_items_v3_to_v2(items: Vec<MLFeedCacheHistoryItemV3>) -> (res: Vec<
    MLFeedCacheHistoryItemV2,
>)
    ensures
        res.deep_view() == histories_to_v2(items.deep_view()),
        res.len() <= items.len(),
{
    let ghost source = items.deep_view();
    let ghost f = |item: HistoryV3| history_to_v2(item);
    let mut converted: Vec<MLFeedCacheHistoryItemV2> = Vec::new();
    for item in it: items
        invariant
            it.seq() == items@,
            source == items.deep_view(),
            f == (|item: HistoryV3| history_to_v2(item)),
            converted.deep_view() == filter_map(source.take(it.index() as int), f),
    {
        proof {
            lemma_filter_map_push(source.take(it.index() as int), f, item.deep_view());
            assert(source.take(it.index() + 1) =~= source.take(it.index() as int).push(
                item.deep_view(),
            ));
        }
        let ghost before = converted.deep_view();
        match parse_post_id(item.post_id.as_str()) {
            Some(post_id) => {
                let record = MLFeedCacheHistoryItemV2 {
                    publisher_user_id: item.publisher_user_id,
                    canister_id: item.canister_id,
                    post_id,
                    video_id: item.video_id,
                    item_type: item.item_type,
                    timestamp: item.timestamp,
                    percent_watched_bits: item.percent_watched_bits,
                };
                converted.push(record);
                assert(converted.deep_view() =~= before.push(record.deep_view()));
            },
            None => {},
        }
    }
    proof {
        assert(source.take(items@.len() as int) =~= source);
        lemma_filter_map_facts(source, f);
    }
    converted
}

/// Whether an item with this media identifier is in `posts`.
fn has_video(posts: &Vec<PostItemV2>, video_id: &String) -> (found: bool)
    ensures
        found == keys_of(posts.deep_view(), video_key()).contains(video_id@),
{
    let ghost keys = keys_of(posts.deep_view(), video_key());
    let mut i: usize = 0;
    while i < posts.len()
        invariant
            i <= posts.len(),
            keys == keys_of(posts.deep_view(), video_key()),
            forall|j: int| 0 <= j < i ==> keys[j] != video_id@,
        decreases posts.len() - i,
    {
        if posts[i].video_id == *video_id {
            assert(keys[i as int] == video_id@);
            return true;
        }
        i = i + 1;
    }
    false
}

/// Whether an item of the oldest schema with this media identifier is in
/// `posts`.
fn has_video_v1(posts: &Vec<PostItem>, video_id: &String) -> (found: bool)
    ensures
        found == keys_of(posts.deep_view(), video_key_v1()).contains(video_id@),
{
    let ghost keys = keys_of(posts.deep_view(), video_key_v1());
    let mut i: usize = 0;
    while i < posts.len()
        invariant
            i <= posts.len(),
            keys == keys_of(posts.deep_view(), video_key_v1()),
            forall|j: int| 0 <= j < i ==> keys[j] != video_id@,
        decreases posts.len() - i,
    {
        if posts[i].video_id == *video_id {
            assert(keys[i as int] == video_id@);
            return true;
        }
        i = i + 1;
    }
    false
}

/// Removes every item of the oldest schema whose media identifier occurred
/// earlier in the list. What stays keeps its order, so no two items of the
/// result share a media identifier.
pub fn remove_duplicates(posts: Vec<PostItem>) -> (res: Vec<PostItem>)
    ensures
        res.deep_view() == first_by_key(posts.deep_view(), video_key_v1()),
        keys_of(res.deep_view(), video_key_v1()).no_duplicates(),
        res.len() <= posts.len(),
{
    let ghost source = posts.deep_view();
    let mut kept: Vec<PostItem> = Vec::new();
    for post in it: posts
        invariant
            it.seq() == posts@,
            source == posts.deep_view(),
            kept.deep_view() == first_by_key(source.take(it.index() as int), video_key_v1()),
    {
        proof {
            let seen = source.take(it.index() as int);
            lemma_first_by_key_push(seen, video_key_v1(), post.deep_view());
            lemma_first_by_key_keys(seen, video_key_v1());
            assert(source.take(it.index() + 1) =~= seen.push(post.deep_view()));
        }
        let ghost before = kept.deep_view();
        if !has_video_v1(&kept, &post.video_id) {
            kept.push(post);
            assert(kept.deep_view() =~= before.push(post.deep_view()));
        }
    }
    proof {
        assert(source.take(posts@.len() as int) =~= source);
        lemma_first_by_key_distinct(source, video_key_v1());
        lemma_first_by_key_keys(source, video_key_v1());
    }
    kept
}

/// Removes every item whose media identifier occurred earlier in the list.
/// What stays keeps its order, so no two items of the result share a media
/// identifier.
pub fn remove_duplicates_v2(posts: Vec<PostItemV2>) -> (res: Vec<PostItemV2>)
    ensures
        res.deep_view() == first_by_key(posts.deep_view(), video_key()),
        keys_of(res.deep_view(), video_key()).no_duplicates(),
        res.len() <= posts.len(),
{
    let ghost source = posts.deep_view();
    let mut kept: Vec<PostItemV2> = Vec::new();
    for post in it: posts
        invariant
            it.seq() == posts@,
            source == posts.deep_view(),
            kept.deep_view() == first_by_key(source.take(it.index() as int), video_key()),
    {
        proof {
            let seen = source.take(it.index() as int);
            lemma_first_by_key_push(seen, video_key(), post.deep_view());
            lemma_first_by_key_keys(seen, video_key());
            assert(source.take(it.index() + 1) =~= seen.push(post.deep_view()));
        }
        let ghost before = kept.deep_view();
        if !has_video(&kept, &post.video_id) {
            kept.push(post);
            assert(kept.deep_view() =~= before.push(post.deep_view()));
        }
    }
    proof {
        assert(source.take(posts@.len() as int) =~= source);
        lemma_first_by_key_distinct(source, video_key());
        lemma_first_by_key_keys(source, video_key());
    }
    kept
}

/// What the normaliser returns for any list: no two of its items share a
/// media identifier, and each is the canonical form of an item of the list
/// whose content identifier is a 64-bit number.
pub proof fn lemma_normalizer_output(raw: Seq<PostV3>)
    ensures
        keys_of(first_by_key(posts_to_v2(raw), video_key()), video_key()).no_duplicates(),
        forall|k: int|
            0 <= k < first_by_key(posts_to_v2(raw), video_key()).len() ==> exists|i: int|
                0 <= i < raw.len() && parse_u64((#[trigger] raw[i]).post_id) == Some(
                    (#[trigger] first_by_key(posts_to_v2(raw), video_key())[k]).post_id,
                ) && post_to_v2(raw[i]) == Some(first_by_key(posts_to_v2(raw), video_key())[k]),
{
    let f = |item: PostV3| post_to_v2(item);
    let converted = posts_to_v2(raw);
    let out = first_by_key(converted, video_key());
    lemma_first_by_key_distinct(converted, video_key());
    lemma_first_by_key_keys(converted, video_key());
    lemma_filter_map_facts(raw, f);
    assert forall|k: int| 0 <= k < out.len() implies exists|i: int|
        0 <= i < raw.len() && parse_u64((#[trigger] raw[i]).post_id) == Some(
            (#[trigger] out[k]).post_id,
        ) && post_to_v2(raw[i]) == Some(out[k]) by {
        assert(out.contains(out[k]));
        assert(converted.contains(out[k]));
        assert(filter_map(raw, f).contains(out[k]));
        let i = choose|i: int| 0 <= i < raw.len() && f(#[trigger] raw[i]) == Some(out[k]);
        assert(post_to_v2(raw[i]) == Some(out[k]));
    }
}

} // verus!
