//! The feed that is served by the external recommendation service: the
//! request sent to it, shaped from the caller's watch history.

use crate::post::{PostItem, PostV1};
use crate::time::{format_timestamp, formatted_text, feed_second, Timestamp, FEED_TIMESTAMP_PATTERN};
use vstd::prelude::*;

verus! {

/// The bit pattern of the score 1, that of content known to be restricted.
pub const CERTAIN_NSFW_BITS: u32 = 0x3F80_0000;

/// What this path reads of a history record. The share that was watched is
/// written out by the caller.
#[derive(Debug, PartialEq, Eq)]
pub struct WatchedItem {
    pub video_id: String,
    pub timestamp: Timestamp,
    pub percent_watched: String,
}

/// A watched item as the recommendation service takes it.
#[derive(Debug, PartialEq, Eq)]
pub struct WatchHistoryItem {
    pub video_id: String,
    pub last_watched_timestamp: String,
    pub mean_percentage_watched: String,
}

/// A request to the recommendation service.
#[derive(Debug, PartialEq, Eq)]
pub struct RecommendationRequest {
    pub user_id: String,
    pub watch_history: Vec<WatchHistoryItem>,
    /// The media identifiers that the service is asked not to recommend.
    pub exclude_watched_items: Vec<String>,
    /// Whether restricted content may be recommended.
    pub nsfw_label: bool,
}

/// `msg` is what the service is told of `item`.
pub open spec fn is_watch_entry(msg: WatchHistoryItem, item: WatchedItem) -> bool {
    &&& msg.video_id@ == item.video_id@
    &&& Some(msg.last_watched_timestamp@) == formatted_text(
        feed_second(item.timestamp),
        0,
        FEED_TIMESTAMP_PATTERN@,
    )
    &&& msg.mean_percentage_watched@ == item.percent_watched@
}

/// `entries` is what the service is told of a history that was read as
/// `read`: one entry for each record, in order, and none where the read
/// failed.
pub open spec fn is_watch_history(entries: Seq<WatchHistoryItem>, read: Option<Vec<WatchedItem>>) -> bool {
    match read {
        Some(items) => entries.len() == items.len() && forall|i: int|
            0 <= i < items.len() ==> is_watch_entry(#[trigger] entries[i], items@[i]),
        None => entries.len() == 0,
    }
}

/// Collects the watch history for the service from what the read of one
/// safety partition gave. A failed read is tolerated: the history is then
/// empty.
pub fn collect_watch_history(read: Option<Vec<WatchedItem>>) -> (res: Vec<WatchHistoryItem>)
    ensures
        is_watch_history(res@, read),
{
    let mut watch_history: Vec<WatchHistoryItem> = Vec::new();
    let history_items = match read {
        Some(items) => items,
        None => {
            return watch_history;
        },
    };
    for item in it: history_items
        invariant
            it.seq() == history_items@,
            watch_history@.len() == it.index(),
            forall|j: int|
                0 <= j < it.index() ==> is_watch_entry(
                    #[trigger] watch_history@[j],
                    history_items@[j],
                ),
    {
        let timestamp = format_timestamp(item.timestamp);
        watch_history.push(
            WatchHistoryItem {
                video_id: item.video_id,
                last_watched_timestamp: timestamp,
                mean_percentage_watched: item.percent_watched,
            },
        );
    }
    watch_history
}

/// The watch history of the clean partition, for the service.
pub fn collect_watch_history_clean(read: Option<Vec<WatchedItem>>) -> (res: Vec<WatchHistoryItem>)
    ensures
        is_watch_history(res@, read),
{
    collect_watch_history(read)
}

/// The watch history of the restricted partition, for the service.
pub fn collect_watch_history_nsfw(read: Option<Vec<WatchedItem>>) -> (res: Vec<WatchHistoryItem>)
    ensures
        is_watch_history(res@, read),
{
    collect_watch_history(read)
}

/// The request for a clean feed: the caller's clean watch history, nothing
/// excluded, no restricted content.
pub fn get_feed_clean_v3(user_id: String, read: Option<Vec<WatchedItem>>) -> (res:
    RecommendationRequest)
    ensures
        res.user_id@ == user_id@,
        is_watch_history(res.watch_history@, read),
        res.exclude_watched_items@.len() == 0,
        !res.nsfw_label,
{
    let watch_history = collect_watch_history_clean(read);
    RecommendationRequest {
        user_id,
        watch_history,
        exclude_watched_items: Vec::new(),
        nsfw_label: false,
    }
}

/// The request for a restricted feed: the caller's restricted watch history,
/// nothing excluded, restricted content allowed.
pub fn get_feed_nsfw_v3(user_id: String, read: Option<Vec<WatchedItem>>) -> (res:
    RecommendationRequest)
    ensures
        res.user_id@ == user_id@,
        is_watch_history(res.watch_history@, read),
        res.exclude_watched_items@.len() == 0,
        res.nsfw_label,
{
    let watch_history = collect_watch_history_nsfw(read);
    RecommendationRequest {
        user_id,
        watch_history,
        exclude_watched_items: Vec::new(),
        nsfw_label: true,
    }
}

/// `post` with the score of content known to be restricted.
pub open spec fn marked_nsfw(post: PostV1) -> PostV1 {
    PostV1 {
        canister_id: post.canister_id,
        post_id: post.post_id,
        video_id: post.video_id,
        nsfw_probability_bits: CERTAIN_NSFW_BITS,
    }
}

/// Gives every item of a restricted feed the score 1.
pub fn mark_all_nsfw(posts: Vec<PostItem>) -> (res: Vec<PostItem>)
    ensures
        res.deep_view() == posts.deep_view().map_values(|p: PostV1| marked_nsfw(p)),
{
    let ghost source = posts.deep_view();
    let mut marked: Vec<PostItem> = Vec::new();
    for post in it: posts
        invariant
            it.seq() == posts@,
            source == posts.deep_view(),
            marked.len() == it.index(),
            forall|j: int|
                0 <= j < it.index() ==> (#[trigger] marked.deep_view()[j]) == marked_nsfw(source[j]),
    {
        let ghost before = marked.deep_view();
        let mut post = post;
        post.nsfw_probability_bits = CERTAIN_NSFW_BITS;
        marked.push(post);
        assert(marked.deep_view() =~= before.push(post.deep_view()));
    }
    assert(marked.deep_view() =~= source.map_values(|p: PostV1| marked_nsfw(p)));
    marked
}

} // verus!
