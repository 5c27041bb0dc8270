//! The older recommendation service: the request shaped from the watch and
//! success history that the ledger keeps, and the answer deduplicated, cut to
//! size and sampled for the feed cache.

use crate::dedup::{
    first_by_key, keys_of, lemma_first_by_key_distinct, lemma_first_by_key_keys,
    lemma_first_by_key_push,
};
use crate::ml_feed_py::{
    MlFeedRequest, MlPostItem, MlPostItemResponse, SuccessHistoryItem, WatchHistoryItem,
};
use crate::principal::{principal_from_text, principal_of_text, text_of_principal, user_id_text,
    MAX_PRINCIPAL_LEN};
use crate::time::{
    carried_secs, rfc3339_text, to_rfc3339_did_systemtime, SystemTime, MAX_CALENDAR_SECS,
    NANOS_PER_SEC,
};
use crate::recommend::low_bits;
use vstd::prelude::*;
use vstd::string::StringExecFns;

verus! {

/// What the name of a video's file starts with.
pub const VIDEO_URI_PREFIX: &'static str = "gs://yral-videos/";

/// What the name of a video's file ends with.
pub const VIDEO_URI_SUFFIX: &'static str = ".mp4";

/// How many recommendations more than the caller asked for the engine is asked
/// for on the general and the clean feed.
pub const OVERFETCH_MARGIN_CLEAN: u32 = 15;

/// How many recommendations more than the caller asked for the engine is asked
/// for on the restricted feed.
pub const OVERFETCH_MARGIN_NSFW: u32 = 10;

/// How many items of an answer, counted from its end, are sent to the feed
/// cache.
pub const FEED_CACHE_SAMPLE: usize = 15;

/// An item that the caller excludes.
#[derive(Debug, PartialEq, Eq)]
pub struct FilterPost {
    pub canister_id: String,
    pub post_id: u32,
    pub video_id: String,
}

/// A request for a feed of the older service.
#[derive(Debug, PartialEq, Eq)]
pub struct FeedRequest {
    pub canister_id: String,
    pub filter_posts: Vec<FilterPost>,
    pub num_results: u32,
}

/// A watch record of the ledger.
#[derive(Debug, PartialEq, Eq)]
pub struct LedgerWatchItem {
    pub post_id: u64,
    /// The identity of the publisher's storage location, as bytes.
    pub publisher_canister_id: Vec<u8>,
    pub cf_video_id: String,
    pub percentage_watched_bits: u32,
    pub viewed_at: SystemTime,
}

/// A success record of the ledger.
#[derive(Debug, PartialEq, Eq)]
pub struct LedgerSuccessItem {
    pub post_id: u64,
    /// The identity of the publisher's storage location, as bytes.
    pub publisher_canister_id: Vec<u8>,
    pub cf_video_id: String,
    pub percentage_watched_bits: u32,
    pub interacted_at: SystemTime,
    pub item_type: String,
}

/// Ghost mirror of [`PostItemResponse`].
pub struct PostRef {
    pub canister_id: Seq<char>,
    pub post_id: u32,
}

/// An item of the feed: a storage location and a number in it.
#[derive(Debug, PartialEq, Eq)]
pub struct PostItemResponse {
    pub canister_id: String,
    pub post_id: u32,
}

impl View for PostItemResponse {
    type V = PostRef;

    open spec fn view(&self) -> PostRef {
        PostRef { canister_id: self.canister_id@, post_id: self.post_id }
    }
}

impl DeepView for PostItemResponse {
    type V = PostRef;

    open spec fn deep_view(&self) -> PostRef {
        self@
    }
}

impl Clone for PostItemResponse {
    fn clone(&self) -> (res: Self)
        ensures
            res == *self,
    {
        PostItemResponse { canister_id: self.canister_id.clone(), post_id: self.post_id }
    }
}

/// Ghost mirror of [`CustomMlFeedCacheItem`].
pub struct CacheItemView {
    pub post_id: u64,
    pub canister_id: Seq<char>,
    pub video_id: Seq<char>,
    pub creator_principal_id: Seq<char>,
}

/// An item as the feed cache stores it.
#[derive(Debug, PartialEq, Eq)]
pub struct CustomMlFeedCacheItem {
    pub post_id: u64,
    pub canister_id: String,
    pub video_id: String,
    pub creator_principal_id: String,
}

impl View for CustomMlFeedCacheItem {
    type V = CacheItemView;

    open spec fn view(&self) -> CacheItemView {
        CacheItemView {
            post_id: self.post_id,
            canister_id: self.canister_id@,
            video_id: self.video_id@,
            creator_principal_id: self.creator_principal_id@,
        }
    }
}

impl DeepView for CustomMlFeedCacheItem {
    type V = CacheItemView;

    open spec fn deep_view(&self) -> CacheItemView {
        self@
    }
}

/// An answer of the engine, made ready: what the caller gets, and what is
/// sent to the feed cache.
#[derive(Debug, PartialEq, Eq)]
pub struct FeedResponseParts {
    pub feed: Vec<PostItemResponse>,
    pub cache_items: Vec<PostItemResponse>,
}

/// The key by which feed items are told apart: the item itself.
pub open spec fn post_ref_key() -> spec_fn(PostRef) -> PostRef {
    |p: PostRef| p
}

/// The feed item that a recommended item stands for.
pub open spec fn post_ref(item: MlPostItemResponse) -> PostRef {
    PostRef { canister_id: item.canister_id@, post_id: item.post_id }
}

/// The feed items of an answer, each storage location and number once, in the
/// order of their first occurrence.
pub open spec fn response_feed(feed: Seq<MlPostItemResponse>) -> Seq<PostRef> {
    first_by_key(feed.map_values(|item: MlPostItemResponse| post_ref(item)), post_ref_key())
}

/// Where the sample for the feed cache starts in a list of `len` items.
pub open spec fn sample_start(len: nat) -> int {
    if len >= FEED_CACHE_SAMPLE {
        len - FEED_CACHE_SAMPLE
    } else {
        0
    }
}

/// The name of a video's file.
pub open spec fn video_uri_text(video_id: Seq<char>) -> Seq<char> {
    VIDEO_URI_PREFIX@ + video_id + VIDEO_URI_SUFFIX@
}

/// Whether a ledger time can be written as text: it lies within the calendar.
pub open spec fn ledger_time_ok(time: SystemTime) -> bool {
    carried_secs(time.nanos_since_epoch, time.secs_since_epoch) <= MAX_CALENDAR_SECS
}

/// The text of a ledger time.
pub open spec fn ledger_time_text(time: SystemTime) -> Seq<char> {
    rfc3339_text(
        carried_secs(time.nanos_since_epoch, time.secs_since_epoch) as i64,
        time.nanos_since_epoch % NANOS_PER_SEC,
    )
}

/// `msg` is the watch message for `record`.
pub open spec fn is_ledger_watch_message(msg: WatchHistoryItem, record: LedgerWatchItem) -> bool {
    &&& msg.post_id == crate::recommend::engine_post_id(record.post_id)
    &&& msg.canister_id@ == text_of_principal(record.publisher_canister_id@)
    &&& msg.video_id@ == video_uri_text(record.cf_video_id@)
    &&& msg.percent_watched_bits == record.percentage_watched_bits
    &&& msg.timestamp@ == ledger_time_text(record.viewed_at)
}

/// `msg` is the success message for `record`.
pub open spec fn is_ledger_success_message(msg: SuccessHistoryItem, record: LedgerSuccessItem) -> bool {
    &&& msg.post_id == crate::recommend::engine_post_id(record.post_id)
    &&& msg.canister_id@ == text_of_principal(record.publisher_canister_id@)
    &&& msg.video_id@ == video_uri_text(record.cf_video_id@)
    &&& msg.item_type@ == record.item_type@
    &&& msg.percent_watched_bits == record.percentage_watched_bits
    &&& msg.timestamp@ == ledger_time_text(record.interacted_at)
}

/// `msg` is the exclusion message for `post`.
pub open spec fn is_ledger_filter_message(msg: MlPostItem, post: FilterPost) -> bool {
    &&& msg.canister_id@ == post.canister_id@
    &&& msg.post_id == post.post_id
    &&& msg.video_id@ == video_uri_text(post.video_id@)
}

/// Whether every watch record can be put into a message.
pub open spec fn watch_records_ok(records: Seq<LedgerWatchItem>) -> bool {
    forall|i: int|
        0 <= i < records.len() ==> ledger_time_ok((#[trigger] records[i]).viewed_at)
            && records[i].publisher_canister_id@.len() <= MAX_PRINCIPAL_LEN
}

/// Whether every success record can be put into a message.
pub open spec fn success_records_ok(records: Seq<LedgerSuccessItem>) -> bool {
    forall|i: int|
        0 <= i < records.len() ==> ledger_time_ok((#[trigger] records[i]).interacted_at)
            && records[i].publisher_canister_id@.len() <= MAX_PRINCIPAL_LEN
}

/// The records that a read of the ledger gave; none where it failed.
pub open spec fn read_or_empty<T>(read: Option<Vec<T>>) -> Seq<T> {
    match read {
        Some(records) => records@,
        None => Seq::empty(),
    }
}

/// `request` is the request of the older service for the caller of `req`,
/// asking for `margin` recommendations more than `req` does.
pub open spec fn is_ledger_request(
    request: MlFeedRequest,
    req: FeedRequest,
    watch_history: Seq<LedgerWatchItem>,
    success_history: Seq<LedgerSuccessItem>,
    margin: u32,
) -> bool {
    &&& request.canister_id@ == req.canister_id@
    &&& request.num_results == req.num_results + margin
    &&& request.watch_history@.len() == watch_history.len()
    &&& forall|i: int|
        0 <= i < watch_history.len() ==> is_ledger_watch_message(
            #[trigger] request.watch_history@[i],
            watch_history[i],
        )
    &&& request.success_history@.len() == success_history.len()
    &&& forall|i: int|
        0 <= i < success_history.len() ==> is_ledger_success_message(
            #[trigger] request.success_history@[i],
            success_history[i],
        )
    &&& request.filter_posts@.len() == req.filter_posts@.len()
    &&& forall|i: int|
        0 <= i < req.filter_posts@.len() ==> is_ledger_filter_message(
            #[trigger] request.filter_posts@[i],
            req.filter_posts@[i],
        )
}

/// The name of a video's file: `gs://yral-videos/`, the media identifier,
/// `.mp4`.
pub fn video_uri(video_id: &str) -> (uri: String)
    ensures
        uri@ == video_uri_text(video_id@),
{
    let mut uri = VIDEO_URI_PREFIX.to_owned();
    uri.append(video_id);
    uri.append(VIDEO_URI_SUFFIX);
    uri
}

/// The address of the ledger of the caller whose storage location is written
/// as `canister_id`; `None` where the text is no identity.
pub fn ledger_of(canister_id: &str) -> (res: Option<Vec<u8>>)
    ensures
        res.deep_view() == principal_of_text(canister_id@),
{
    principal_from_text(canister_id)
}

/// Whether a ledger time lies within the calendar.
fn time_ok(time: &SystemTime) -> (res: bool)
    ensures
        res == ledger_time_ok(*time),
{
    let carry: u64 = (time.nanos_since_epoch / NANOS_PER_SEC) as u64;
    let limit: u64 = MAX_CALENDAR_SECS as u64;
    time.secs_since_epoch <= limit && carry <= limit - time.secs_since_epoch
}

/// The exclusion messages for the excluded items of a request.
fn ledger_filter_messages(posts: &Vec<FilterPost>) -> (msgs: Vec<MlPostItem>)
    ensures
        msgs@.len() == posts.len(),
        forall|i: int|
            0 <= i < posts.len() ==> is_ledger_filter_message(#[trigger] msgs@[i], posts@[i]),
{
    let mut msgs: Vec<MlPostItem> = Vec::new();
    let mut i: usize = 0;
    while i < posts.len()
        invariant
            i <= posts.len(),
            msgs@.len() == i,
            forall|j: int| 0 <= j < i ==> is_ledger_filter_message(#[trigger] msgs@[j], posts@[j]),
        decreases posts.len() - i,
    {
        let x = &posts[i];
        msgs.push(
            MlPostItem {
                canister_id: x.canister_id.clone(),
                post_id: x.post_id,
                video_id: video_uri(x.video_id.as_str()),
            },
        );
        i = i + 1;
    }
    msgs
}

/// The watch messages for the records of the ledger; `None` where some record
/// cannot be put into a message.
fn ledger_watch_messages(records: &Vec<LedgerWatchItem>) -> (res: Option<Vec<WatchHistoryItem>>)
    ensures
        res is Some <==> watch_records_ok(records@),
        res matches Some(msgs) ==> msgs@.len() == records.len() && forall|i: int|
            0 <= i < records.len() ==> is_ledger_watch_message(#[trigger] msgs@[i], records@[i]),
{
    let mut msgs: Vec<WatchHistoryItem> = Vec::new();
    let mut i: usize = 0;
    while i < records.len()
        invariant
            i <= records.len(),
            msgs@.len() == i,
            forall|j: int|
                0 <= j < i ==> ledger_time_ok((#[trigger] records@[j]).viewed_at)
                    && records@[j].publisher_canister_id@.len() <= MAX_PRINCIPAL_LEN,
            forall|j: int| 0 <= j < i ==> is_ledger_watch_message(#[trigger] msgs@[j], records@[j]),
        decreases records.len() - i,
    {
        let x = &records[i];
        if !time_ok(&x.viewed_at) {
            assert(!ledger_time_ok(records@[i as int].viewed_at));
            return None;
        }
        let canister_id = match user_id_text(&x.publisher_canister_id) {
            Some(text) => text,
            None => {
                assert(records@[i as int].publisher_canister_id@.len() > MAX_PRINCIPAL_LEN);
                return None;
            },
        };
        msgs.push(
            WatchHistoryItem {
                post_id: low_bits(x.post_id),
                canister_id,
                video_id: video_uri(x.cf_video_id.as_str()),
                percent_watched_bits: x.percentage_watched_bits,
                timestamp: to_rfc3339_did_systemtime(&x.viewed_at),
            },
        );
        i = i + 1;
    }
    Some(msgs)
}

/// The success messages for the records of the ledger; `None` where some
/// record cannot be put into a message.
fn ledger_success_messages(records: &Vec<LedgerSuccessItem>) -> (res: Option<
    Vec<SuccessHistoryItem>,
>)
    ensures
        res is Some <==> success_records_ok(records@),
        res matches Some(msgs) ==> msgs@.len() == records.len() && forall|i: int|
            0 <= i < records.len() ==> is_ledger_success_message(#[trigger] msgs@[i], records@[i]),
{
    let mut msgs: Vec<SuccessHistoryItem> = Vec::new();
    let mut i: usize = 0;
    while i < records.len()
        invariant
            i <= records.len(),
            msgs@.len() == i,
            forall|j: int|
                0 <= j < i ==> ledger_time_ok((#[trigger] records@[j]).interacted_at)
                    && records@[j].publisher_canister_id@.len() <= MAX_PRINCIPAL_LEN,
            forall|j: int|
                0 <= j < i ==> is_ledger_success_message(#[trigger] msgs@[j], records@[j]),
        decreases records.len() - i,
    {
        let x = &records[i];
        if !time_ok(&x.interacted_at) {
            assert(!ledger_time_ok(records@[i as int].interacted_at));
            return None;
        }
        let canister_id = match user_id_text(&x.publisher_canister_id) {
            Some(text) => text,
            None => {
                assert(records@[i as int].publisher_canister_id@.len() > MAX_PRINCIPAL_LEN);
                return None;
            },
        };
        msgs.push(
            SuccessHistoryItem {
                post_id: low_bits(x.post_id),
                canister_id,
                video_id: video_uri(x.cf_video_id.as_str()),
                timestamp: to_rfc3339_did_systemtime(&x.interacted_at),
                item_type: x.item_type.clone(),
                percent_watched_bits: x.percentage_watched_bits,
            },
        );
        i = i + 1;
    }
    Some(msgs)
}

/// Shapes the request with `margin` recommendations more than asked for.
fn request_with_margin(
    req_obj: FeedRequest,
    watch_history: Option<Vec<LedgerWatchItem>>,
    success_history: Option<Vec<LedgerSuccessItem>>,
    margin: u32,
) -> (res: Option<MlFeedRequest>)
    ensures
        res is Some <==> watch_records_ok(read_or_empty(watch_history)) && success_records_ok(
            read_or_empty(success_history),
        ) && req_obj.num_results + margin <= u32::MAX,
        res matches Some(request) ==> is_ledger_request(
            request,
            req_obj,
            read_or_empty(watch_history),
            read_or_empty(success_history),
            margin,
        ),
{
    let watch_history = match watch_history {
        Some(records) => records,
        None => Vec::new(),
    };
    let success_history = match success_history {
        Some(records) => records,
        None => Vec::new(),
    };
    let watch_history_items = match ledger_watch_messages(&watch_history) {
        Some(msgs) => msgs,
        None => {
            return None;
        },
    };
    let success_history_items = match ledger_success_messages(&success_history) {
        Some(msgs) => msgs,
        None => {
            return None;
        },
    };
    let num_results = match req_obj.num_results.checked_add(margin) {
        Some(n) => n,
        None => {
            return None;
        },
    };
    let filter_items = ledger_filter_messages(&req_obj.filter_posts);
    Some(
        MlFeedRequest {
            canister_id: req_obj.canister_id,
            watch_history: watch_history_items,
            success_history: success_history_items,
            filter_posts: filter_items,
            num_results,
        },
    )
}

/// Shapes the request of the general and the clean feed from what the reads
/// of the ledger gave: a failed read counts as an empty history, and
/// [`OVERFETCH_MARGIN_CLEAN`] recommendations more are asked for than the
/// caller asked for. `None` where a record cannot be put into a message or
/// the number asked for does not fit 32 bits.
pub fn get_feed_request_logic(
    req_obj: FeedRequest,
    watch_history: Option<Vec<LedgerWatchItem>>,
    success_history: Option<Vec<LedgerSuccessItem>>,
) -> (res: Option<MlFeedRequest>)
    ensures
        res is Some <==> watch_records_ok(read_or_empty(watch_history)) && success_records_ok(
            read_or_empty(success_history),
        ) && req_obj.num_results + OVERFETCH_MARGIN_CLEAN <= u32::MAX,
        res matches Some(request) ==> is_ledger_request(
            request,
            req_obj,
            read_or_empty(watch_history),
            read_or_empty(success_history),
            OVERFETCH_MARGIN_CLEAN,
        ),
{
    request_with_margin(req_obj, watch_history, success_history, OVERFETCH_MARGIN_CLEAN)
}

/// Shapes the request of the restricted feed, as
/// [`get_feed_request_logic`] does, with [`OVERFETCH_MARGIN_NSFW`]
/// recommendations more than the caller asked for.
pub fn get_feed_request_logic_nsfw(
    req_obj: FeedRequest,
    watch_history: Option<Vec<LedgerWatchItem>>,
    success_history: Option<Vec<LedgerSuccessItem>>,
) -> (res: Option<MlFeedRequest>)
    ensures
        res is Some <==> watch_records_ok(read_or_empty(watch_history)) && success_records_ok(
            read_or_empty(success_history),
        ) && req_obj.num_results + OVERFETCH_MARGIN_NSFW <= u32::MAX,
        res matches Some(request) ==> is_ledger_request(
            request,
            req_obj,
            read_or_empty(watch_history),
            read_or_empty(success_history),
            OVERFETCH_MARGIN_NSFW,
        ),
{
    request_with_margin(req_obj, watch_history, success_history, OVERFETCH_MARGIN_NSFW)
}

/// Shapes the request of the coldstart feed of the older service: no history,
/// the caller's exclusions, as many recommendations as asked for.
pub fn get_feed_coldstart(req_obj: FeedRequest) -> (request: MlFeedRequest)
    ensures
        is_ledger_request(request, req_obj, Seq::empty(), Seq::empty(), 0),
{
    let filter_items = ledger_filter_messages(&req_obj.filter_posts);
    MlFeedRequest {
        canister_id: req_obj.canister_id,
        watch_history: Vec::new(),
        success_history: Vec::new(),
        filter_posts: filter_items,
        num_results: req_obj.num_results,
    }
}

/// Whether `item` is among `items`.
fn has_post_ref(items: &Vec<PostItemResponse>, canister_id: &String, post_id: u32) -> (found: bool)
    ensures
        found == keys_of(items.deep_view(), post_ref_key()).contains(
            PostRef { canister_id: canister_id@, post_id },
        ),
{
    let ghost keys = keys_of(items.deep_view(), post_ref_key());
    let mut i: usize = 0;
    while i < items.len()
        invariant
            i <= items.len(),
            keys == keys_of(items.deep_view(), post_ref_key()),
            forall|j: int| 0 <= j < i ==> keys[j] != (PostRef { canister_id: canister_id@, post_id }),
        decreases items.len() - i,
    {
        if items[i].post_id == post_id && items[i].canister_id == *canister_id {
            assert(keys[i as int] == (PostRef { canister_id: canister_id@, post_id }));
            return true;
        }
        i = i + 1;
    }
    false
}

/// The feed items of an answer of the engine, each storage location and
/// number once, in the order of their first occurrence.
pub fn feed_response_logic_without_caching(feed: &Vec<MlPostItemResponse>) -> (res: Vec<
    PostItemResponse,
>)
    ensures
        res.deep_view() == response_feed(feed@),
        res.deep_view().no_duplicates(),
        res.len() <= feed.len(),
{
    let ghost mapped = feed@.map_values(|item: MlPostItemResponse| post_ref(item));
    let mut response_items: Vec<PostItemResponse> = Vec::new();
    let mut i: usize = 0;
    while i < feed.len()
        invariant
            i <= feed.len(),
            response_items.len() <= i,
            mapped == feed@.map_values(|item: MlPostItemResponse| post_ref(item)),
            response_items.deep_view() == first_by_key(mapped.take(i as int), post_ref_key()),
        decreases feed.len() - i,
    {
        let x = &feed[i];
        proof {
            let seen = mapped.take(i as int);
            lemma_first_by_key_push(seen, post_ref_key(), mapped[i as int]);
            lemma_first_by_key_keys(seen, post_ref_key());
            assert(mapped.take(i + 1) =~= seen.push(mapped[i as int]));
        }
        let ghost before = response_items.deep_view();
        if !has_post_ref(&response_items, &x.canister_id, x.post_id) {
            let item = PostItemResponse { canister_id: x.canister_id.clone(), post_id: x.post_id };
            response_items.push(item);
            assert(response_items.deep_view() =~= before.push(item.deep_view()));
            assert(item.deep_view() == mapped[i as int]);
        }
        i = i + 1;
    }
    proof {
        assert(mapped.take(feed.len() as int) =~= mapped);
        lemma_first_by_key_distinct(mapped, post_ref_key());
        assert(keys_of(response_items.deep_view(), post_ref_key())
            =~= response_items.deep_view());
    }
    response_items
}

/// Makes an answer of the engine ready: its feed items, each once, cut to
/// `limit` for the caller; and the last [`FEED_CACHE_SAMPLE`] of them as they
/// were before the cut, last first, for the feed cache.
pub fn feed_response_logic(feed: &Vec<MlPostItemResponse>, limit: usize) -> (res: FeedResponseParts)
    ensures
        res.feed.deep_view() == response_feed(feed@).take(
            if limit <= response_feed(feed@).len() {
                limit as int
            } else {
                response_feed(feed@).len() as int
            },
        ),
        res.cache_items.deep_view() == response_feed(feed@).subrange(
            sample_start(response_feed(feed@).len()),
            response_feed(feed@).len() as int,
        ).reverse(),
{
    let mut response_items = feed_response_logic_without_caching(feed);
    let ghost all = response_items.deep_view();
    let at: usize = if response_items.len() >= FEED_CACHE_SAMPLE {
        response_items.len() - FEED_CACHE_SAMPLE
    } else {
        0
    };
    let mut response_items1: Vec<PostItemResponse> = Vec::new();
    let mut k: usize = response_items.len();
    while k > at
        invariant
            at <= k <= response_items.len(),
            all == response_items.deep_view(),
            response_items1.len() == response_items.len() - k,
            forall|j: int|
                0 <= j < response_items1.len() ==> (#[trigger] response_items1.deep_view()[j])
                    == all[all.len() - 1 - j],
        decreases k,
    {
        k = k - 1;
        let ghost before = response_items1.deep_view();
        let item = response_items[k].clone();
        response_items1.push(item);
        assert(response_items1.deep_view() =~= before.push(item.deep_view()));
    }
    assert(response_items1.deep_view() =~= all.subrange(at as int, all.len() as int).reverse());
    response_items.truncate(limit);
    assert(response_items.deep_view() =~= all.take(
        if limit <= all.len() {
            limit as int
        } else {
            all.len() as int
        },
    ));
    FeedResponseParts { feed: response_items, cache_items: response_items1 }
}

/// The item of the feed cache that a feed item stands for: the media and its
/// creator are left empty.
pub open spec fn cache_item(item: PostRef) -> CacheItemView {
    CacheItemView {
        post_id: item.post_id as u64,
        canister_id: item.canister_id,
        video_id: Seq::empty(),
        creator_principal_id: Seq::empty(),
    }
}

/// Puts feed items into the form in which the feed cache stores them.
pub fn send_to_ml_feed_cache(items: Vec<PostItemResponse>) -> (res: Vec<CustomMlFeedCacheItem>)
    ensures
        res.deep_view() == items.deep_view().map_values(|item: PostRef| cache_item(item)),
{
    let ghost source = items.deep_view();
    let mut offchain_items: Vec<CustomMlFeedCacheItem> = Vec::new();
    for x in it: items
        invariant
            it.seq() == items@,
            source == items.deep_view(),
            offchain_items.len() == it.index(),
            forall|j: int|
                0 <= j < it.index() ==> (#[trigger] offchain_items.deep_view()[j]) == cache_item(
                    source[j],
                ),
    {
        let ghost before = offchain_items.deep_view();
        let item = CustomMlFeedCacheItem {
            post_id: x.post_id as u64,
            canister_id: x.canister_id,
            video_id: String::new(),
            creator_principal_id: String::new(),
        };
        offchain_items.push(item);
        assert(offchain_items.deep_view() =~= before.push(item.deep_view()));
    }
    assert(offchain_items.deep_view() =~= source.map_values(|item: PostRef| cache_item(item)));
    offchain_items
}

/// Puts feed items into the form in which the off-chain agent takes them,
/// which is that of the feed cache.
pub fn send_to_offchain(items: Vec<PostItemResponse>) -> (res: Vec<CustomMlFeedCacheItem>)
    ensures
        res.deep_view() == items.deep_view().map_values(|item: PostRef| cache_item(item)),
{
    send_to_ml_feed_cache(items)
}

} // verus!
