//! The overflow spill-over: what of a feed the caller gets, and what is
//! written to the caller's personal cache once the response is out.

use crate::cache::{CacheList, ListId, Safety};
use crate::post::{PostItemV2, PostV2};
use vstd::prelude::*;

verus! {

/// A feed, parted into what the caller gets and what is spilled.
#[derive(Debug, PartialEq, Eq)]
pub struct Served {
    /// What is returned to the caller.
    pub posts: Vec<PostItemV2>,
    /// What is to be written to the caller's personal cache, if anything.
    pub spill: Vec<PostItemV2>,
}

/// Work that is done after the response has been sent, at best effort: if it
/// fails, the failure is logged and never reaches the caller.
#[derive(Debug, PartialEq, Eq)]
pub enum PostResponseTask {
    /// Write `items` to the list `list` of the caller.
    WriteUserCache { list: ListId, items: Vec<PostItemV2> },
}

/// What a feed request ends with: the response, and what is left to do after
/// it.
#[derive(Debug, PartialEq, Eq)]
pub struct FeedOutcome {
    /// What is returned to the caller.
    pub posts: Vec<PostItemV2>,
    /// What is done once the response is out, if anything.
    pub task: Option<PostResponseTask>,
}

/// What the caller gets of `feed` when asking for `num_results` items: the
/// first `num_results`, or all where there are no more.
pub open spec fn served_part(feed: Seq<PostV2>, num_results: u32) -> Seq<PostV2> {
    if feed.len() <= num_results {
        feed
    } else {
        feed.take(num_results as int)
    }
}

/// What of `feed` is spilled when the caller asked for `num_results` items:
/// everything after the first `num_results`.
pub open spec fn spilled_part(feed: Seq<PostV2>, num_results: u32) -> Seq<PostV2> {
    if feed.len() <= num_results {
        Seq::empty()
    } else {
        feed.skip(num_results as int)
    }
}

/// `outcome` is how a request for `num_results` items ends that was served
/// with `feed`: the caller gets the served part; the spilled part, where
/// there is one, is written to the caller's personal cache of the safety
/// partition after the response.
pub open spec fn is_outcome(
    outcome: FeedOutcome,
    feed: Seq<PostV2>,
    num_results: u32,
    safety: Safety,
) -> bool {
    &&& outcome.posts.deep_view() == served_part(feed, num_results)
    &&& outcome.task is Some <==> feed.len() > num_results
    &&& outcome.task matches Some(PostResponseTask::WriteUserCache { list, items }) ==> list
        == (ListId { list: CacheList::UserCache, safety }) && items.deep_view() == spilled_part(
        feed,
        num_results,
    )
}

/// Of a feed that is longer than what was asked for, the caller gets exactly
/// as many items as asked for, the first ones, and the rest is spilled: both
/// parts together are the feed. A feed that is no longer is served whole and
/// nothing is spilled.
pub proof fn lemma_overflow_is_spilled(feed: Seq<PostV2>, num_results: u32)
    ensures
        served_part(feed, num_results) + spilled_part(feed, num_results) == feed,
        feed.len() > num_results ==> served_part(feed, num_results).len() == num_results
            && spilled_part(feed, num_results).len() == feed.len() - num_results,
        feed.len() <= num_results ==> served_part(feed, num_results) == feed && spilled_part(
            feed,
            num_results,
        ).len() == 0,
        forall|k: int|
            0 <= k < served_part(feed, num_results).len() ==> served_part(feed, num_results)[k]
                == feed[k],
        forall|k: int|
            0 <= k < spilled_part(feed, num_results).len() ==> spilled_part(feed, num_results)[k]
                == feed[num_results + k],
{
    assert(served_part(feed, num_results) + spilled_part(feed, num_results) =~= feed);
}

/// Parts a feed into the first `num_results` items, for the caller, and the
/// rest, for the caller's personal cache. A feed of no more than
/// `num_results` items goes to the caller whole and nothing is spilled.
pub fn split_overflow(feed: Vec<PostItemV2>, num_results: u32) -> (res: Served)
    ensures
        res.posts.deep_view() == served_part(feed.deep_view(), num_results),
        res.spill.deep_view() == spilled_part(feed.deep_view(), num_results),
        res.posts.deep_view() + res.spill.deep_view() == feed.deep_view(),
        feed.len() > num_results ==> res.posts.len() == num_results && res.spill.len()
            == feed.len() - num_results,
        feed.len() <= num_results ==> res.posts.len() == feed.len() && res.spill.len() == 0,
{
    let mut posts = feed;
    let ghost whole = posts.deep_view();
    let at = num_results as usize;
    if posts.len() > at {
        let rest = posts.split_off(at);
        assert(posts.deep_view() =~= whole.take(num_results as int));
        assert(rest.deep_view() =~= whole.skip(num_results as int));
        assert(posts.deep_view() + rest.deep_view() =~= whole);
        Served { posts, spill: rest }
    } else {
        let spill: Vec<PostItemV2> = Vec::new();
        assert(spill.deep_view() =~= Seq::<PostV2>::empty());
        assert(posts.deep_view() + spill.deep_view() =~= whole);
        Served { posts, spill }
    }
}

/// Ends a request that the pipeline served with `feed`: the caller gets the
/// first `num_results` items. What is beyond them is written, after the
/// response, to the caller's personal cache of the safety partition; a feed
/// of no more than `num_results` items leaves nothing to write.
pub fn serve_feed(feed: Vec<PostItemV2>, num_results: u32, safety: Safety) -> (res: FeedOutcome)
    ensures
        is_outcome(res, feed.deep_view(), num_results, safety),
        feed.len() > num_results ==> res.posts.len() == num_results,
        feed.len() <= num_results ==> res.posts.len() == feed.len(),
{
    let ghost whole = feed.deep_view();
    let served = split_overflow(feed, num_results);
    if served.spill.len() > 0 {
        FeedOutcome {
            posts: served.posts,
            task: Some(
                PostResponseTask::WriteUserCache {
                    list: ListId { list: CacheList::UserCache, safety },
                    items: served.spill,
                },
            ),
        }
    } else {
        FeedOutcome { posts: served.posts, task: None }
    }
}

} // verus!
