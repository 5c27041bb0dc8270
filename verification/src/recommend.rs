//! The recommendation request builder: shapes the request to the engine from
//! history and explicit exclusions, and filters what the engine answers
//! against the exclusion set, which the engine is not trusted to honour.

use crate::exclusion::{
    history_video_ids_v1, history_video_ids_v2, unexcluded, video_ids, video_ids_v1, ExclusionSet,
};
use crate::history::{HistoryV1, HistoryV2, MLFeedCacheHistoryItem, MLFeedCacheHistoryItemV2};
use crate::ml_feed_py::{
    MlFeedRequest, MlFeedRequestV3, MlPostItem, MlPostItemResponse, MlPostItemResponseV3,
    MlPostItemV3, SuccessHistoryItem, SuccessHistoryItemV3, WatchHistoryItem, WatchHistoryItemV3,
};
use crate::post::{PostItem, PostItemV2, PostV1, PostV2};
use crate::seqs::{lemma_retain_facts, lemma_retain_push, retain};
use crate::time::{rfc3339_text, to_rfc3339, Timestamp, MAX_CALENDAR_SECS, MIN_CALENDAR_SECS};
use vstd::prelude::*;

verus! {

/// The bit pattern of the score 0.4, the boundary of the safety flag.
pub const NSFW_THRESHOLD_BITS: u32 = 0x3ECC_CCCD;

/// The bit pattern of positive infinity, the greatest score that is a number.
pub const INFINITY_BITS: u32 = 0x7F80_0000;

/// More removed items than this, and the filter rate is reported as high.
pub const HIGH_FILTER_RATE_THRESHOLD: usize = 20;

/// Whether the score with bit pattern `bits` is greater than 0.4: a positive
/// number above the boundary. Patterns that are no number are not.
pub open spec fn is_nsfw_score(bits: u32) -> bool {
    NSFW_THRESHOLD_BITS < bits <= INFINITY_BITS
}

/// The content number as the engine takes it: its low 32 bits.
pub open spec fn engine_post_id(post_id: u64) -> u32 {
    (post_id % 0x1_0000_0000) as u32
}

/// Whether filtering removed so many items that it is reported as a sign of
/// the engine's own filter degrading.
pub open spec fn high_filter_rate(answered: nat, filtered: nat) -> bool {
    answered - filtered > HIGH_FILTER_RATE_THRESHOLD
}

/// Whether every record's time lies within the calendar, so that it can be
/// written as text.
pub open spec fn times_in_calendar_v2(records: Seq<HistoryV2>) -> bool {
    forall|i: int| 0 <= i < records.len() ==> (#[trigger] records[i]).timestamp.in_calendar()
}

/// As [`times_in_calendar_v2`], for records of the oldest schema.
pub open spec fn times_in_calendar_v1(records: Seq<HistoryV1>) -> bool {
    forall|i: int| 0 <= i < records.len() ==> (#[trigger] records[i]).timestamp.in_calendar()
}

/// `msg` is the watch message for `record`.
pub open spec fn is_watch_message_v3(msg: WatchHistoryItemV3, record: HistoryV2) -> bool {
    &&& msg.post_id == engine_post_id(record.post_id)
    &&& msg.publisher_user_id@ == record.publisher_user_id
    &&& msg.video_id@ == record.video_id
    &&& msg.percent_watched_bits == record.percent_watched_bits
    &&& msg.timestamp@ == rfc3339_text(record.timestamp.secs, record.timestamp.nanos)
}

/// `msg` is the success message for `record`.
pub open spec fn is_success_message_v3(msg: SuccessHistoryItemV3, record: HistoryV2) -> bool {
    &&& msg.post_id == engine_post_id(record.post_id)
    &&& msg.publisher_user_id@ == record.publisher_user_id
    &&& msg.video_id@ == record.video_id
    &&& msg.item_type@ == record.item_type
    &&& msg.percent_watched_bits == record.percent_watched_bits
    &&& msg.timestamp@ == rfc3339_text(record.timestamp.secs, record.timestamp.nanos)
}

/// `msg` is the exclusion message for `post`.
pub open spec fn is_filter_message_v3(msg: MlPostItemV3, post: PostV2) -> bool {
    &&& msg.publisher_user_id@ == post.publisher_user_id
    &&& msg.post_id == engine_post_id(post.post_id)
    &&& msg.video_id@ == post.video_id
}

/// `msg` is the watch message for `record`, in the oldest schema.
pub open spec fn is_watch_message(msg: WatchHistoryItem, record: HistoryV1) -> bool {
    &&& msg.post_id == engine_post_id(record.post_id)
    &&& msg.canister_id@ == record.canister_id
    &&& msg.video_id@ == record.video_id
    &&& msg.percent_watched_bits == record.percent_watched_bits
    &&& msg.timestamp@ == rfc3339_text(record.timestamp.secs, record.timestamp.nanos)
}

/// `msg` is the success message for `record`, in the oldest schema.
pub open spec fn is_success_message(msg: SuccessHistoryItem, record: HistoryV1) -> bool {
    &&& msg.post_id == engine_post_id(record.post_id)
    &&& msg.canister_id@ == record.canister_id
    &&& msg.video_id@ == record.video_id
    &&& msg.item_type@ == record.item_type
    &&& msg.percent_watched_bits == record.percent_watched_bits
    &&& msg.timestamp@ == rfc3339_text(record.timestamp.secs, record.timestamp.nanos)
}

/// `msg` is the exclusion message for `post`, in the oldest schema.
pub open spec fn is_filter_message(msg: MlPostItem, post: PostV1) -> bool {
    &&& msg.canister_id@ == post.canister_id
    &&& msg.post_id == engine_post_id(post.post_id)
    &&& msg.video_id@ == post.video_id
}

/// `request` is the request that asks for `num_results` recommendations for
/// `user_id`, with one message for each record and each exclusion, in order.
pub open spec fn is_request_v3(
    request: MlFeedRequestV3,
    user_id: Seq<char>,
    watch_history: Seq<HistoryV2>,
    success_history: Seq<HistoryV2>,
    filter_results: Seq<PostV2>,
    num_results: u32,
) -> bool {
    &&& request.user_principal_id@ == user_id
    &&& request.num_results == num_results
    &&& request.watch_history@.len() == watch_history.len()
    &&& forall|i: int|
        0 <= i < watch_history.len() ==> is_watch_message_v3(
            #[trigger] request.watch_history@[i],
            watch_history[i],
        )
    &&& request.success_history@.len() == success_history.len()
    &&& forall|i: int|
        0 <= i < success_history.len() ==> is_success_message_v3(
            #[trigger] request.success_history@[i],
            success_history[i],
        )
    &&& request.filter_posts@.len() == filter_results.len()
    &&& forall|i: int|
        0 <= i < filter_results.len() ==> is_filter_message_v3(
            #[trigger] request.filter_posts@[i],
            filter_results[i],
        )
}

/// As [`is_request_v3`], in the oldest schema.
pub open spec fn is_request(
    request: MlFeedRequest,
    canister_id: Seq<char>,
    watch_history: Seq<HistoryV1>,
    success_history: Seq<HistoryV1>,
    filter_results: Seq<PostV1>,
    num_results: u32,
) -> bool {
    &&& request.canister_id@ == canister_id
    &&& request.num_results == num_results
    &&& request.watch_history@.len() == watch_history.len()
    &&& forall|i: int|
        0 <= i < watch_history.len() ==> is_watch_message(
            #[trigger] request.watch_history@[i],
            watch_history[i],
        )
    &&& request.success_history@.len() == success_history.len()
    &&& forall|i: int|
        0 <= i < success_history.len() ==> is_success_message(
            #[trigger] request.success_history@[i],
            success_history[i],
        )
    &&& request.filter_posts@.len() == filter_results.len()
    &&& forall|i: int|
        0 <= i < filter_results.len() ==> is_filter_message(
            #[trigger] request.filter_posts@[i],
            filter_results[i],
        )
}

/// The canonical item that a recommended item stands for. Its storage
/// location is yet to be filled in.
pub open spec fn recommended_post_v3(item: MlPostItemResponseV3) -> PostV2 {
    PostV2 {
        publisher_user_id: item.publisher_user_id@,
        canister_id: Seq::empty(),
        post_id: item.post_id as u64,
        video_id: item.video_id@,
        is_nsfw: is_nsfw_score(item.nsfw_probability_bits),
    }
}

/// The item of the oldest schema that a recommended item stands for.
pub open spec fn recommended_post(item: MlPostItemResponse) -> PostV1 {
    PostV1 {
        canister_id: item.canister_id@,
        post_id: item.post_id as u64,
        video_id: item.video_id@,
        nsfw_probability_bits: item.nsfw_probability_bits,
    }
}

/// The test that an item of the oldest schema passes when its media
/// identifier is not in `excluded`.
pub open spec fn unexcluded_v1(excluded: Set<Seq<char>>) -> spec_fn(PostV1) -> bool {
    |p: PostV1| !excluded.contains(p.video_id)
}

/// What is accepted of the engine's answer: the items whose media identifier
/// is not excluded, in order, in canonical form.
pub open spec fn accepted_v3(feed: Seq<MlPostItemResponseV3>, excluded: Set<Seq<char>>) -> Seq<
    PostV2,
> {
    retain(feed.map_values(|item: MlPostItemResponseV3| recommended_post_v3(item)), unexcluded(excluded))
}

/// As [`accepted_v3`], in the oldest schema.
pub open spec fn accepted(feed: Seq<MlPostItemResponse>, excluded: Set<Seq<char>>) -> Seq<PostV1> {
    retain(feed.map_values(|item: MlPostItemResponse| recommended_post(item)), unexcluded_v1(excluded))
}

/// Nothing that is accepted of the engine's answer has an excluded media
/// identifier, and nothing more is accepted than the engine answered.
pub proof fn lemma_accepted_are_unexcluded(
    feed: Seq<MlPostItemResponseV3>,
    excluded: Set<Seq<char>>,
)
    ensures
        accepted_v3(feed, excluded).len() <= feed.len(),
        forall|k: int|
            0 <= k < accepted_v3(feed, excluded).len() ==> !excluded.contains(
                (#[trigger] accepted_v3(feed, excluded)[k]).video_id,
            ),
{
    let mapped = feed.map_values(|item: MlPostItemResponseV3| recommended_post_v3(item));
    let out = accepted_v3(feed, excluded);
    lemma_retain_facts(mapped, unexcluded(excluded));
    assert forall|k: int| 0 <= k < out.len() implies !excluded.contains(
        (#[trigger] out[k]).video_id,
    ) by {
        assert(out.contains(out[k]));
    }
}

/// The low 32 bits of a content number.
pub(crate) fn low_bits(post_id: u64) -> (res: u32)
    ensures
        res == engine_post_id(post_id),
{
    (post_id % 0x1_0000_0000) as u32
}

/// Whether a time lies within the calendar.
fn in_calendar(timestamp: &Timestamp) -> (res: bool)
    ensures
        res == timestamp.in_calendar(),
{
    timestamp.nanos < crate::time::NANOS_PER_SEC && MIN_CALENDAR_SECS <= timestamp.secs
        && timestamp.secs <= MAX_CALENDAR_SECS
}

/// Whether the score with bit pattern `bits` is greater than 0.4.
pub fn exceeds_nsfw_threshold(bits: u32) -> (res: bool)
    ensures
        res == is_nsfw_score(bits),
{
    NSFW_THRESHOLD_BITS < bits && bits <= INFINITY_BITS
}

/// Whether a filter that left `filtered` of `answered` items removed more
/// than [`HIGH_FILTER_RATE_THRESHOLD`] of them.
pub fn is_high_filter_rate(answered: usize, filtered: usize) -> (res: bool)
    ensures
        res == high_filter_rate(answered as nat, filtered as nat),
{
    answered > filtered && answered - filtered > HIGH_FILTER_RATE_THRESHOLD
}

/// The watch messages for `records`; `None` where the time of some record
/// lies beyond the calendar.
fn watch_messages_v3(records: &Vec<MLFeedCacheHistoryItemV2>) -> (res: Option<
    Vec<WatchHistoryItemV3>,
>)
    ensures
        res is Some <==> times_in_calendar_v2(records.deep_view()),
        res matches Some(msgs) ==> msgs@.len() == records.len() && forall|i: int|
            0 <= i < records.len() ==> is_watch_message_v3(
                #[trigger] msgs@[i],
                records.deep_view()[i],
            ),
{
    let mut msgs: Vec<WatchHistoryItemV3> = Vec::new();
    let mut i: usize = 0;
    while i < records.len()
        invariant
            i <= records.len(),
            msgs@.len() == i,
            forall|j: int| 0 <= j < i ==> (#[trigger] records.deep_view()[j]).timestamp.in_calendar(),
            forall|j: int|
                0 <= j < i ==> is_watch_message_v3(#[trigger] msgs@[j], records.deep_view()[j]),
        decreases records.len() - i,
    {
        let x = &records[i];
        if !in_calendar(&x.timestamp) {
            assert(!records.deep_view()[i as int].timestamp.in_calendar());
            return None;
        }
        msgs.push(
            WatchHistoryItemV3 {
                post_id: low_bits(x.post_id),
                publisher_user_id: x.publisher_user_id.clone(),
                video_id: x.video_id.clone(),
                percent_watched_bits: x.percent_watched_bits,
                timestamp: to_rfc3339(x.timestamp),
            },
        );
        i = i + 1;
    }
    Some(msgs)
}

/// The success messages for `records`; `None` where the time of some record
/// lies beyond the calendar.
fn success_messages_v3(records: &Vec<MLFeedCacheHistoryItemV2>) -> (res: Option<
    Vec<SuccessHistoryItemV3>,
>)
    ensures
        res is Some <==> times_in_calendar_v2(records.deep_view()),
        res matches Some(msgs) ==> msgs@.len() == records.len() && forall|i: int|
            0 <= i < records.len() ==> is_success_message_v3(
                #[trigger] msgs@[i],
                records.deep_view()[i],
            ),
{
    let mut msgs: Vec<SuccessHistoryItemV3> = Vec::new();
    let mut i: usize = 0;
    while i < records.len()
        invariant
            i <= records.len(),
            msgs@.len() == i,
            forall|j: int| 0 <= j < i ==> (#[trigger] records.deep_view()[j]).timestamp.in_calendar(),
            forall|j: int|
                0 <= j < i ==> is_success_message_v3(#[trigger] msgs@[j], records.deep_view()[j]),
        decreases records.len() - i,
    {
        let x = &records[i];
        if !in_calendar(&x.timestamp) {
            assert(!records.deep_view()[i as int].timestamp.in_calendar());
            return None;
        }
        msgs.push(
            SuccessHistoryItemV3 {
                post_id: low_bits(x.post_id),
                publisher_user_id: x.publisher_user_id.clone(),
                video_id: x.video_id.clone(),
                item_type: x.item_type.clone(),
                percent_watched_bits: x.percent_watched_bits,
                timestamp: to_rfc3339(x.timestamp),
            },
        );
        i = i + 1;
    }
    Some(msgs)
}

/// The exclusion messages for `posts`.
fn filter_messages_v3(posts: &Vec<PostItemV2>) -> (msgs: Vec<MlPostItemV3>)
    ensures
        msgs@.len() == posts.len(),
        forall|i: int|
            0 <= i < posts.len() ==> is_filter_message_v3(#[trigger] msgs@[i], posts.deep_view()[i]),
{
    let mut msgs: Vec<MlPostItemV3> = Vec::new();
    let mut i: usize = 0;
    while i < posts.len()
        invariant
            i <= posts.len(),
            msgs@.len() == i,
            forall|j: int|
                0 <= j < i ==> is_filter_message_v3(#[trigger] msgs@[j], posts.deep_view()[j]),
        decreases posts.len() - i,
    {
        let x = &posts[i];
        msgs.push(
            MlPostItemV3 {
                publisher_user_id: x.publisher_user_id.clone(),
                post_id: low_bits(x.post_id),
                video_id: x.video_id.clone(),
            },
        );
        i = i + 1;
    }
    msgs
}

/// Shapes the request to the engine: one message for each watch record, each
/// success record and each explicit exclusion, in order. `None` where the
/// time of some record lies beyond the calendar and cannot be written.
pub fn build_request_v3(
    user_id: String,
    watch_history: &Vec<MLFeedCacheHistoryItemV2>,
    success_history: &Vec<MLFeedCacheHistoryItemV2>,
    filter_results: &Vec<PostItemV2>,
    num_results: u32,
) -> (res: Option<MlFeedRequestV3>)
    ensures
        res is Some <==> times_in_calendar_v2(watch_history.deep_view()) && times_in_calendar_v2(
            success_history.deep_view(),
        ),
        res matches Some(request) ==> is_request_v3(
            request,
            user_id@,
            watch_history.deep_view(),
            success_history.deep_view(),
            filter_results.deep_view(),
            num_results,
        ),
{
    let watch_history_items = match watch_messages_v3(watch_history) {
        Some(msgs) => msgs,
        None => {
            return None;
        },
    };
    let success_history_items = match success_messages_v3(success_history) {
        Some(msgs) => msgs,
        None => {
            return None;
        },
    };
    let filter_items = filter_messages_v3(filter_results);
    Some(
        MlFeedRequestV3 {
            user_principal_id: user_id,
            watch_history: watch_history_items,
            success_history: success_history_items,
            filter_posts: filter_items,
            num_results,
        },
    )
}

/// The exclusion set of a request: the media identifiers of the explicit
/// exclusions, of the watch history and of the success history.
pub fn exclusion_set_v3(
    filter_results: &Vec<PostItemV2>,
    watch_history: &Vec<MLFeedCacheHistoryItemV2>,
    success_history: &Vec<MLFeedCacheHistoryItemV2>,
) -> (res: ExclusionSet)
    ensures
        res@ == video_ids(filter_results.deep_view()).union(
            history_video_ids_v2(watch_history.deep_view()),
        ).union(history_video_ids_v2(success_history.deep_view())),
{
    let mut filter_video_ids = ExclusionSet::new();
    filter_video_ids.add_posts(filter_results);
    filter_video_ids.add_history_v2(watch_history);
    filter_video_ids.add_history_v2(success_history);
    assert(filter_video_ids@ =~= video_ids(filter_results.deep_view()).union(
        history_video_ids_v2(watch_history.deep_view()),
    ).union(history_video_ids_v2(success_history.deep_view())));
    filter_video_ids
}

/// Filters the engine's answer against the exclusion set and puts what stays
/// into canonical form, the safety flag set where the score is above 0.4.
pub fn filter_response_v3(feed: &Vec<MlPostItemResponseV3>, exclusion: &ExclusionSet) -> (res: Vec<
    PostItemV2,
>)
    ensures
        res.deep_view() == accepted_v3(feed@, exclusion@),
        res.len() <= feed.len(),
{
    let ghost f = |item: MlPostItemResponseV3| recommended_post_v3(item);
    let ghost mapped = feed@.map_values(f);
    let mut response_items: Vec<PostItemV2> = Vec::new();
    let mut i: usize = 0;
    while i < feed.len()
        invariant
            i <= feed.len(),
            response_items.len() <= i,
            mapped == feed@.map_values(|item: MlPostItemResponseV3| recommended_post_v3(item)),
            response_items.deep_view() == retain(mapped.take(i as int), unexcluded(exclusion@)),
        decreases feed.len() - i,
    {
        let x = &feed[i];
        proof {
            lemma_retain_push(mapped.take(i as int), unexcluded(exclusion@), mapped[i as int]);
            assert(mapped.take(i + 1) =~= mapped.take(i as int).push(mapped[i as int]));
        }
        let ghost before = response_items.deep_view();
        if !exclusion.contains(&x.video_id) {
            let post = PostItemV2 {
                publisher_user_id: x.publisher_user_id.clone(),
                canister_id: String::new(),
                post_id: x.post_id as u64,
                video_id: x.video_id.clone(),
                is_nsfw: exceeds_nsfw_threshold(x.nsfw_probability_bits),
            };
            response_items.push(post);
            assert(response_items.deep_view() =~= before.push(post.deep_view()));
            assert(post.deep_view() == mapped[i as int]);
        }
        i = i + 1;
    }
    assert(mapped.take(feed.len() as int) =~= mapped);
    response_items
}

/// The watch messages for `records`, in the oldest schema; `None` where the
/// time of some record lies beyond the calendar.
fn watch_messages(records: &Vec<MLFeedCacheHistoryItem>) -> (res: Option<Vec<WatchHistoryItem>>)
    ensures
        res is Some <==> times_in_calendar_v1(records.deep_view()),
        res matches Some(msgs) ==> msgs@.len() == records.len() && forall|i: int|
            0 <= i < records.len() ==> is_watch_message(#[trigger] msgs@[i], records.deep_view()[i]),
{
    let mut msgs: Vec<WatchHistoryItem> = Vec::new();
    let mut i: usize = 0;
    while i < records.len()
        invariant
            i <= records.len(),
            msgs@.len() == i,
            forall|j: int| 0 <= j < i ==> (#[trigger] records.deep_view()[j]).timestamp.in_calendar(),
            forall|j: int|
                0 <= j < i ==> is_watch_message(#[trigger] msgs@[j], records.deep_view()[j]),
        decreases records.len() - i,
    {
        let x = &records[i];
        if !in_calendar(&x.timestamp) {
            assert(!records.deep_view()[i as int].timestamp.in_calendar());
            return None;
        }
        msgs.push(
            WatchHistoryItem {
                post_id: low_bits(x.post_id),
                canister_id: x.canister_id.clone(),
                video_id: x.video_id.clone(),
                percent_watched_bits: x.percent_watched_bits,
                timestamp: to_rfc3339(x.timestamp),
            },
        );
        i = i + 1;
    }
    Some(msgs)
}

/// The success messages for `records`, in the oldest schema; `None` where the
/// time of some record lies beyond the calendar.
fn success_messages(records: &Vec<MLFeedCacheHistoryItem>) -> (res: Option<Vec<SuccessHistoryItem>>)
    ensures
        res is Some <==> times_in_calendar_v1(records.deep_view()),
        res matches Some(msgs) ==> msgs@.len() == records.len() && forall|i: int|
            0 <= i < records.len() ==> is_success_message(
                #[trigger] msgs@[i],
                records.deep_view()[i],
            ),
{
    let mut msgs: Vec<SuccessHistoryItem> = Vec::new();
    let mut i: usize = 0;
    while i < records.len()
        invariant
            i <= records.len(),
            msgs@.len() == i,
            forall|j: int| 0 <= j < i ==> (#[trigger] records.deep_view()[j]).timestamp.in_calendar(),
            forall|j: int|
                0 <= j < i ==> is_success_message(#[trigger] msgs@[j], records.deep_view()[j]),
        decreases records.len() - i,
    {
        let x = &records[i];
        if !in_calendar(&x.timestamp) {
            assert(!records.deep_view()[i as int].timestamp.in_calendar());
            return None;
        }
        msgs.push(
            SuccessHistoryItem {
                post_id: low_bits(x.post_id),
                canister_id: x.canister_id.clone(),
                video_id: x.video_id.clone(),
                item_type: x.item_type.clone(),
                percent_watched_bits: x.percent_watched_bits,
                timestamp: to_rfc3339(x.timestamp),
            },
        );
        i = i + 1;
    }
    Some(msgs)
}

/// The exclusion messages for `posts`, in the oldest schema.
fn filter_messages(posts: &Vec<PostItem>) -> (msgs: Vec<MlPostItem>)
    ensures
        msgs@.len() == posts.len(),
        forall|i: int|
            0 <= i < posts.len() ==> is_filter_message(#[trigger] msgs@[i], posts.deep_view()[i]),
{
    let mut msgs: Vec<MlPostItem> = Vec::new();
    let mut i: usize = 0;
    while i < posts.len()
        invariant
            i <= posts.len(),
            msgs@.len() == i,
            forall|j: int|
                0 <= j < i ==> is_filter_message(#[trigger] msgs@[j], posts.deep_view()[j]),
        decreases posts.len() - i,
    {
        let x = &posts[i];
        msgs.push(
            MlPostItem {
                canister_id: x.canister_id.clone(),
                post_id: low_bits(x.post_id),
                video_id: x.video_id.clone(),
            },
        );
        i = i + 1;
    }
    msgs
}

/// Shapes the request to the engine in the oldest schema. `None` where the
/// time of some record lies beyond the calendar and cannot be written.
pub fn build_request(
    canister_id: String,
    watch_history: &Vec<MLFeedCacheHistoryItem>,
    success_history: &Vec<MLFeedCacheHistoryItem>,
    filter_results: &Vec<PostItem>,
    num_results: u32,
) -> (res: Option<MlFeedRequest>)
    ensures
        res is Some <==> times_in_calendar_v1(watch_history.deep_view()) && times_in_calendar_v1(
            success_history.deep_view(),
        ),
        res matches Some(request) ==> is_request(
            request,
            canister_id@,
            watch_history.deep_view(),
            success_history.deep_view(),
            filter_results.deep_view(),
            num_results,
        ),
{
    let watch_history_items = match watch_messages(watch_history) {
        Some(msgs) => msgs,
        None => {
            return None;
        },
    };
    let success_history_items = match success_messages(success_history) {
        Some(msgs) => msgs,
        None => {
            return None;
        },
    };
    let filter_items = filter_messages(filter_results);
    Some(
        MlFeedRequest {
            canister_id,
            watch_history: watch_history_items,
            success_history: success_history_items,
            filter_posts: filter_items,
            num_results,
        },
    )
}

/// The exclusion set of a request in the oldest schema: the media
/// identifiers of the explicit exclusions, of the watch history and of the
/// success history.
pub fn exclusion_set(
    filter_results: &Vec<PostItem>,
    watch_history: &Vec<MLFeedCacheHistoryItem>,
    success_history: &Vec<MLFeedCacheHistoryItem>,
) -> (res: ExclusionSet)
    ensures
        res@ == video_ids_v1(filter_results.deep_view()).union(
            history_video_ids_v1(watch_history.deep_view()),
        ).union(history_video_ids_v1(success_history.deep_view())),
{
    let mut filter_video_ids = ExclusionSet::new();
    filter_video_ids.add_posts_v1(filter_results);
    filter_video_ids.add_history_v1(watch_history);
    filter_video_ids.add_history_v1(success_history);
    assert(filter_video_ids@ =~= video_ids_v1(filter_results.deep_view()).union(
        history_video_ids_v1(watch_history.deep_view()),
    ).union(history_video_ids_v1(success_history.deep_view())));
    filter_video_ids
}

/// Filters the engine's answer against the exclusion set and puts what stays
/// into the oldest schema, scores as they came.
pub fn filter_response(feed: &Vec<MlPostItemResponse>, exclusion: &ExclusionSet) -> (res: Vec<
    PostItem,
>)
    ensures
        res.deep_view() == accepted(feed@, exclusion@),
        res.len() <= feed.len(),
{
    let ghost mapped = feed@.map_values(|item: MlPostItemResponse| recommended_post(item));
    let mut response_items: Vec<PostItem> = Vec::new();
    let mut i: usize = 0;
    while i < feed.len()
        invariant
            i <= feed.len(),
            response_items.len() <= i,
            mapped == feed@.map_values(|item: MlPostItemResponse| recommended_post(item)),
            response_items.deep_view() == retain(mapped.take(i as int), unexcluded_v1(exclusion@)),
        decreases feed.len() - i,
    {
        let x = &feed[i];
        proof {
            lemma_retain_push(mapped.take(i as int), unexcluded_v1(exclusion@), mapped[i as int]);
            assert(mapped.take(i + 1) =~= mapped.take(i as int).push(mapped[i as int]));
        }
        let ghost before = response_items.deep_view();
        if !exclusion.contains(&x.video_id) {
            let post = PostItem {
                canister_id: x.canister_id.clone(),
                post_id: x.post_id as u64,
                video_id: x.video_id.clone(),
                nsfw_probability_bits: x.nsfw_probability_bits,
            };
            response_items.push(post);
            assert(response_items.deep_view() =~= before.push(post.deep_view()));
            assert(post.deep_view() == mapped[i as int]);
        }
        i = i + 1;
    }
    assert(mapped.take(feed.len() as int) =~= mapped);
    response_items
}

/// A request to the engine, and the exclusion set against which its answer
/// is to be filtered.
#[derive(Debug)]
pub struct PreparedRequest {
    pub request: MlFeedRequest,
    pub exclusion: ExclusionSet,
}

/// The records that the read of a history gave; none where it failed.
pub open spec fn records_read(read: Option<Vec<MLFeedCacheHistoryItem>>) -> Seq<HistoryV1> {
    match read {
        Some(records) => records.deep_view(),
        None => Seq::empty(),
    }
}

/// The history collector of the mixed path: the records of the clean
/// partition, then those of the restricted one. The failed read of a
/// partition is tolerated: the history is then that of the other partition.
pub fn collect_history(
    clean: Option<Vec<MLFeedCacheHistoryItem>>,
    nsfw: Option<Vec<MLFeedCacheHistoryItem>>,
) -> (res: Vec<MLFeedCacheHistoryItem>)
    ensures
        res.deep_view() == records_read(clean) + records_read(nsfw),
{
    let mut history = match clean {
        Some(records) => records,
        None => Vec::new(),
    };
    let mut more = match nsfw {
        Some(records) => records,
        None => Vec::new(),
    };
    let ghost first = history.deep_view();
    let ghost second = more.deep_view();
    assert(first =~= records_read(clean));
    assert(second =~= records_read(nsfw));
    history.append(&mut more);
    assert(history.deep_view() =~= first + second);
    history
}

/// Shapes the request and the exclusion set from what was read.
fn prepare(
    canister_id: String,
    watch_history: &Vec<MLFeedCacheHistoryItem>,
    success_history: &Vec<MLFeedCacheHistoryItem>,
    filter_results: &Vec<PostItem>,
    num_results: u32,
) -> (res: Option<PreparedRequest>)
    ensures
        res is Some <==> times_in_calendar_v1(watch_history.deep_view()) && times_in_calendar_v1(
            success_history.deep_view(),
        ),
        res matches Some(prepared) ==> is_request(
            prepared.request,
            canister_id@,
            watch_history.deep_view(),
            success_history.deep_view(),
            filter_results.deep_view(),
            num_results,
        ) && prepared.exclusion@ == video_ids_v1(filter_results.deep_view()).union(
            history_video_ids_v1(watch_history.deep_view()),
        ).union(history_video_ids_v1(success_history.deep_view())),
{
    match build_request(canister_id, watch_history, success_history, filter_results, num_results) {
        Some(request) => Some(
            PreparedRequest {
                request,
                exclusion: exclusion_set(filter_results, watch_history, success_history),
            },
        ),
        None => None,
    }
}

/// The clean feed of the oldest schema, after its two histories were read:
/// the request to the engine, and the exclusion set of the explicit
/// exclusions and both histories. `None` where the time of some record lies
/// beyond the calendar.
pub fn get_ml_feed_clean_impl(
    canister_id: String,
    watch_history: &Vec<MLFeedCacheHistoryItem>,
    success_history: &Vec<MLFeedCacheHistoryItem>,
    filter_results: &Vec<PostItem>,
    num_results: u32,
) -> (res: Option<PreparedRequest>)
    ensures
        res is Some <==> times_in_calendar_v1(watch_history.deep_view()) && times_in_calendar_v1(
            success_history.deep_view(),
        ),
        res matches Some(prepared) ==> is_request(
            prepared.request,
            canister_id@,
            watch_history.deep_view(),
            success_history.deep_view(),
            filter_results.deep_view(),
            num_results,
        ) && prepared.exclusion@ == video_ids_v1(filter_results.deep_view()).union(
            history_video_ids_v1(watch_history.deep_view()),
        ).union(history_video_ids_v1(success_history.deep_view())),
{
    prepare(canister_id, watch_history, success_history, filter_results, num_results)
}

/// The restricted feed of the oldest schema, after its two histories were
/// read: as [`get_ml_feed_clean_impl`], on the histories of the restricted
/// partition.
pub fn get_ml_feed_nsfw_impl(
    canister_id: String,
    watch_history: &Vec<MLFeedCacheHistoryItem>,
    success_history: &Vec<MLFeedCacheHistoryItem>,
    filter_results: &Vec<PostItem>,
    num_results: u32,
) -> (res: Option<PreparedRequest>)
    ensures
        res is Some <==> times_in_calendar_v1(watch_history.deep_view()) && times_in_calendar_v1(
            success_history.deep_view(),
        ),
        res matches Some(prepared) ==> is_request(
            prepared.request,
            canister_id@,
            watch_history.deep_view(),
            success_history.deep_view(),
            filter_results.deep_view(),
            num_results,
        ) && prepared.exclusion@ == video_ids_v1(filter_results.deep_view()).union(
            history_video_ids_v1(watch_history.deep_view()),
        ).union(history_video_ids_v1(success_history.deep_view())),
{
    prepare(canister_id, watch_history, success_history, filter_results, num_results)
}

/// The mixed feed of the oldest schema, after the histories of both
/// partitions were read: the request to the engine and the exclusion set, on
/// the clean records followed by the restricted ones. A failed read of one
/// partition is tolerated. `None` where the time of some record lies beyond
/// the calendar.
pub fn get_ml_feed_mixed_impl(
    canister_id: String,
    watch_history_clean: Option<Vec<MLFeedCacheHistoryItem>>,
    watch_history_nsfw: Option<Vec<MLFeedCacheHistoryItem>>,
    success_history_clean: Option<Vec<MLFeedCacheHistoryItem>>,
    success_history_nsfw: Option<Vec<MLFeedCacheHistoryItem>>,
    filter_results: &Vec<PostItem>,
    num_results: u32,
) -> (res: Option<PreparedRequest>)
    ensures
        res is Some <==> times_in_calendar_v1(
            records_read(watch_history_clean) + records_read(watch_history_nsfw),
        ) && times_in_calendar_v1(
            records_read(success_history_clean) + records_read(success_history_nsfw),
        ),
        res matches Some(prepared) ==> is_request(
            prepared.request,
            canister_id@,
            records_read(watch_history_clean) + records_read(watch_history_nsfw),
            records_read(success_history_clean) + records_read(success_history_nsfw),
            filter_results.deep_view(),
            num_results,
        ) && prepared.exclusion@ == video_ids_v1(filter_results.deep_view()).union(
            history_video_ids_v1(records_read(watch_history_clean)),
        ).union(history_video_ids_v1(records_read(watch_history_nsfw))).union(
            history_video_ids_v1(records_read(success_history_clean)),
        ).union(history_video_ids_v1(records_read(success_history_nsfw))),
{
    let watch_history = collect_history(watch_history_clean, watch_history_nsfw);
    let success_history = collect_history(success_history_clean, success_history_nsfw);
    proof {
        lemma_history_ids_concat(records_read(watch_history_clean), records_read(watch_history_nsfw));
        lemma_history_ids_concat(
            records_read(success_history_clean),
            records_read(success_history_nsfw),
        );
    }
    let res = prepare(canister_id, &watch_history, &success_history, filter_results, num_results);
    proof {
        if res is Some {
            assert(res->0.exclusion@ =~= video_ids_v1(filter_results.deep_view()).union(
                history_video_ids_v1(records_read(watch_history_clean)),
            ).union(history_video_ids_v1(records_read(watch_history_nsfw))).union(
                history_video_ids_v1(records_read(success_history_clean)),
            ).union(history_video_ids_v1(records_read(success_history_nsfw))));
        }
    }
    res
}

/// The media identifiers of two histories, one after the other, are those of
/// either.
pub proof fn lemma_history_ids_concat(a: Seq<HistoryV1>, b: Seq<HistoryV1>)
    ensures
        history_video_ids_v1(a + b) == history_video_ids_v1(a).union(history_video_ids_v1(b)),
{
    let f = |r: HistoryV1| r.video_id;
    assert((a + b).map_values(f) =~= a.map_values(f) + b.map_values(f));
    crate::exclusion::lemma_id_set_concat(a.map_values(f), b.map_values(f));
}

} // verus!
