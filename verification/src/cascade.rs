//! The coldstart cascade: the cache-only path that serves a feed without the
//! recommendation engine, falling back from the caller's personal cache to the
//! global cache and, for a single item, to a random sample.
//!
//! The cascade is a state machine. [`Cascade::start`] puts it into the state
//! that a request calls for, and the function named after each state puts it
//! into that state; both name the first cache read. The caller performs each
//! read and hands its result to [`Cascade::step`], which names the next read
//! or ends the cascade.

use crate::cache::{CacheLimits, CacheList, CacheRead, ListId, Safety, Schema};
use crate::dedup::{first_by_key, keys_of, lemma_first_by_key_distinct, lemma_first_by_key_keys};
use crate::exclusion::{
    history_video_ids_v2, history_video_ids_v3, unexcluded, video_ids, ExclusionSet,
};
use crate::history::{MLFeedCacheHistoryItemV2, MLFeedCacheHistoryItemV3};
use crate::normalize::{convert_post_items_v3_to_v2, posts_to_v2, remove_duplicates_v2};
use crate::post::{video_key, PostItemV2, PostItemV3, PostV2};
use crate::seqs::{lemma_retain_facts, retain};
use crate::shuffle::{
    drawn_from, get_shuffled_limit_list_v3, lemma_selection_keeps_distinct, random_position,
};
use vstd::prelude::*;

verus! {

/// The four states of the cascade.
#[derive(Clone, Copy, Debug, PartialEq, Eq, Structural)]
pub enum CascadeState {
    /// One item for a caller without identity: a random item of the global
    /// cache.
    SingleAnonymous,
    /// One item for a caller with identity: from the personal cache, or as
    /// for a caller without identity where that is empty.
    SingleIdentified,
    /// Several items from the personal cache, or from the global cache where
    /// that is empty.
    BulkIdentified,
    /// Several items from the global cache.
    BulkGlobal,
}

/// What a read of the cache gave.
#[derive(Debug)]
pub enum CacheReply {
    Len(u64),
    ItemsV2(Vec<PostItemV2>),
    ItemsV3(Vec<PostItemV3>),
    HistoryV2(Vec<MLFeedCacheHistoryItemV2>),
    HistoryV3(Vec<MLFeedCacheHistoryItemV3>),
    /// The read failed.
    Failed,
}

/// Why a cascade ended without a feed.
#[derive(Clone, Copy, Debug, PartialEq, Eq, Structural)]
pub enum CascadeError {
    /// The length of a list could not be read.
    LenUnavailable,
    /// The sampled item could not be read.
    PostUnavailable,
    /// The global list could not be read.
    GlobalFeedUnavailable,
    /// The watch history could not be read.
    WatchHistoryUnavailable,
    /// The personal list could not be read.
    UserCacheUnavailable,
    /// The global list is empty, so no item can be sampled from it.
    EmptyCache,
    /// One item was asked for and none is left to give.
    NoItem,
    /// The reply does not answer the read that was asked for.
    UnexpectedReply,
}

/// The part of the cascade that a machine is in: the read it waits for.
#[derive(Clone, Copy, Debug, PartialEq, Eq, Structural)]
pub enum Phase {
    GlobalLen,
    GlobalItem,
    UserLen,
    WatchHistory,
    UserItems,
    GlobalItems,
}

/// The cascade of one request.
#[derive(Debug)]
pub struct Cascade {
    pub safety: Safety,
    pub state: CascadeState,
    pub phase: Phase,
    /// How many items the current state is to give.
    pub count: u32,
    /// Whether the caller asked for one item, and so gets the first of the
    /// feed alone.
    pub take_first: bool,
    /// The caller's explicit exclusions.
    pub filter_results: Vec<PostItemV2>,
    /// What must not be served from the personal cache.
    pub exclusion: ExclusionSet,
    /// The length of the personal cache when it was last read.
    pub user_len: u64,
    pub limits: CacheLimits,
}

/// What the machine asks of its caller next.
#[derive(Debug)]
pub enum Step {
    /// Perform this read and call [`Cascade::step`] on the machine given
    /// here, with the read's result.
    Read(Cascade, CacheRead),
    /// The cascade has ended with this feed.
    Done(Vec<PostItemV2>),
    /// The cascade has ended without a feed.
    Failed(CascadeError),
}

/// The items that stand in the cascade's pool: those of `items` whose media
/// identifier is not excluded, the first of each media identifier.
pub open spec fn cascade_pool(items: Seq<PostV2>, excluded: Set<Seq<char>>) -> Seq<PostV2> {
    first_by_key(retain(items, unexcluded(excluded)), video_key())
}

/// `res` is a draw of `count` items from `pool`: as many as asked for, or the
/// whole pool where it has no more; each from its own position of the pool;
/// no media identifier twice.
pub open spec fn is_draw(res: Seq<PostV2>, pool: Seq<PostV2>, count: nat) -> bool {
    &&& res.len() == if count <= pool.len() {
        count
    } else {
        pool.len()
    }
    &&& drawn_from(res, pool)
    &&& keys_of(res, video_key()).no_duplicates()
    &&& count >= pool.len() ==> res.to_multiset() == pool.to_multiset()
}

/// The first item of `feed` alone, or nothing where it is empty.
pub open spec fn first_only(feed: Seq<PostV2>) -> Seq<PostV2> {
    if feed.len() == 0 {
        feed
    } else {
        feed.subrange(0, 1)
    }
}

/// Nothing is removed from a list where nothing is excluded.
pub proof fn lemma_pool_without_exclusions(items: Seq<PostV2>)
    ensures
        cascade_pool(items, Set::empty()) == first_by_key(items, video_key()),
{
    lemma_retain_all(items);
}

/// What a draw gives: exactly as many items as were asked for where the pool
/// has that many, the whole pool where it has fewer; never a media identifier
/// twice, and nothing but items of the pool.
pub proof fn lemma_draw_counts(res: Seq<PostV2>, pool: Seq<PostV2>, count: nat)
    requires
        is_draw(res, pool, count),
        keys_of(pool, video_key()).no_duplicates(),
    ensures
        count <= pool.len() ==> res.len() == count,
        count > pool.len() ==> res.len() == pool.len() && res.to_multiset() == pool.to_multiset(),
        keys_of(res, video_key()).no_duplicates(),
        forall|k: int| 0 <= k < res.len() ==> pool.contains(#[trigger] res[k]),
{
    lemma_selection_keeps_distinct(res, pool, video_key());
    assert forall|k: int| 0 <= k < res.len() implies pool.contains(#[trigger] res[k]) by {
        assert(res.contains(res[k]));
    }
}

/// The pool of the cascade holds no media identifier twice, and every item of
/// it is an item of the list that is not excluded.
pub proof fn lemma_pool_is_clean(items: Seq<PostV2>, excluded: Set<Seq<char>>)
    ensures
        keys_of(cascade_pool(items, excluded), video_key()).no_duplicates(),
        forall|k: int|
            0 <= k < cascade_pool(items, excluded).len() ==> items.contains(
                #[trigger] cascade_pool(items, excluded)[k],
            ) && !excluded.contains(cascade_pool(items, excluded)[k].video_id),
{
    let passed = retain(items, unexcluded(excluded));
    let pool = cascade_pool(items, excluded);
    lemma_retain_facts(items, unexcluded(excluded));
    lemma_first_by_key_distinct(passed, video_key());
    lemma_first_by_key_keys(passed, video_key());
    assert forall|k: int| 0 <= k < pool.len() implies items.contains(#[trigger] pool[k])
        && !excluded.contains(pool[k].video_id) by {
        assert(pool.contains(pool[k]));
        assert(passed.contains(pool[k]));
    }
}

/// Every item passes where nothing is excluded.
proof fn lemma_retain_all(items: Seq<PostV2>)
    ensures
        retain(items, unexcluded(Set::<Seq<char>>::empty())) == items,
    decreases items.len(),
{
    if items.len() > 0 {
        lemma_retain_all(items.drop_last());
        assert(items.drop_last().push(items.last()) =~= items);
    }
}

/// Draws `num_results` items from the pool of `items`.
fn draw_from_pool(items: Vec<PostItemV2>, exclusion: &ExclusionSet, num_results: u32) -> (res: Vec<
    PostItemV2,
>)
    ensures
        is_draw(
            res.deep_view(),
            cascade_pool(items.deep_view(), exclusion@),
            num_results as nat,
        ),
{
    let feed = exclusion.retain_unexcluded(items);
    let pool = remove_duplicates_v2(feed);
    let ghost pool_view = pool.deep_view();
    let res = get_shuffled_limit_list_v3(pool, num_results as usize);
    proof {
        lemma_selection_keeps_distinct(res.deep_view(), pool_view, video_key());
    }
    res
}

/// Keeps the first item of `feed` alone.
fn keep_first(feed: Vec<PostItemV2>) -> (res: Vec<PostItemV2>)
    ensures
        res.deep_view() == first_only(feed.deep_view()),
{
    let mut feed = feed;
    let ghost before = feed.deep_view();
    feed.truncate(1);
    assert(feed.deep_view() =~= first_only(before));
    feed
}

/// The canonical items that a reply holds, if it holds items.
pub open spec fn reply_items(reply: CacheReply) -> Option<Seq<PostV2>> {
    match reply {
        CacheReply::ItemsV2(items) => Some(items.deep_view()),
        CacheReply::ItemsV3(items) => Some(posts_to_v2(items.deep_view())),
        _ => None,
    }
}

/// The media identifiers of the records that a reply holds, if it holds
/// history records.
pub open spec fn reply_watched(reply: CacheReply) -> Option<Set<Seq<char>>> {
    match reply {
        CacheReply::HistoryV2(records) => Some(history_video_ids_v2(records.deep_view())),
        CacheReply::HistoryV3(records) => Some(history_video_ids_v3(records.deep_view())),
        _ => None,
    }
}

impl Cascade {
    /// The state in which the cascade of a request starts.
    pub open spec fn initial_state(anonymous: bool, num_results: u32) -> CascadeState {
        if num_results != 1 {
            CascadeState::BulkIdentified
        } else if anonymous {
            CascadeState::SingleAnonymous
        } else {
            CascadeState::SingleIdentified
        }
    }

    /// The schema in which the lists of a safety partition are read: the clean
    /// ones with free-text content identifiers, the restricted ones with
    /// numeric ones.
    pub open spec fn schema_of(safety: Safety) -> Schema {
        match safety {
            Safety::Clean => Schema::V3,
            Safety::Nsfw => Schema::V2,
        }
    }

    /// The list of kind `list` in the request's safety partition.
    pub open spec fn list(self, list: CacheList) -> ListId {
        ListId { list, safety: self.safety }
    }

    /// The read of the items of `list` from `start` up to `end`.
    pub open spec fn items_read(self, list: CacheList, start: u64, end: u64) -> CacheRead {
        CacheRead::Items { list: self.list(list), schema: Self::schema_of(self.safety), start, end }
    }

    /// A caller that gets the first item alone was to get one item, and only
    /// such a caller is served in the states for one item or by a sample of
    /// the global list.
    pub open spec fn wf(self) -> bool {
        &&& self.take_first ==> self.count == 1
        &&& self.state == CascadeState::SingleAnonymous || self.state
            == CascadeState::SingleIdentified ==> self.take_first
        &&& self.phase == Phase::GlobalLen || self.phase == Phase::GlobalItem ==> self.take_first
    }

    /// `next` serves the same request as `self`, in state `state` and phase
    /// `phase`.
    pub open spec fn continues_as(self, next: Cascade, state: CascadeState, phase: Phase) -> bool {
        &&& next.safety == self.safety
        &&& next.state == state
        &&& next.phase == phase
        &&& next.take_first == self.take_first
        &&& next.limits == self.limits
    }

    /// `step` ends the cascade with the feed `feed`: with all of it, or, for
    /// a caller that asked for one item, with its first item alone, and
    /// without a feed where there is none to give.
    pub open spec fn ends_with(self, feed: Seq<PostV2>, step: Step) -> bool {
        if self.take_first && feed.len() == 0 {
            step matches Step::Failed(e) && e == CascadeError::NoItem
        } else if self.take_first {
            step matches Step::Done(items) && items.deep_view() == first_only(feed)
        } else {
            step matches Step::Done(items) && items.deep_view() == feed
        }
    }

    /// `step` ends the cascade with a draw of `self.count` items from `pool`.
    pub open spec fn ends_with_draw(self, pool: Seq<PostV2>, step: Step) -> bool {
        exists|draw: Seq<PostV2>|
            is_draw(draw, pool, self.count as nat) && #[trigger] self.ends_with(draw, step)
    }

    /// What [`Cascade::step`] does on each reply.
    pub open spec fn moves(self, reply: CacheReply, step: Step) -> bool {
        match self.phase {
            Phase::GlobalLen => match reply {
                CacheReply::Len(n) => if n == 0 {
                    step matches Step::Failed(e) && e == CascadeError::EmptyCache
                } else {
                    &&& step matches Step::Read(next, read)
                    &&& self.continues_as(next, self.state, Phase::GlobalItem)
                    &&& exists|index: u64|
                        index < n && read == #[trigger] self.items_read(
                            CacheList::Global,
                            index,
                            (index + 1) as u64,
                        )
                },
                CacheReply::Failed => step matches Step::Failed(e) && e
                    == CascadeError::LenUnavailable,
                _ => step matches Step::Failed(e) && e == CascadeError::UnexpectedReply,
            },
            Phase::GlobalItem => match reply_items(reply) {
                Some(items) => self.ends_with(first_by_key(items, video_key()), step),
                None => if reply is Failed {
                    step matches Step::Failed(e) && e == CascadeError::PostUnavailable
                } else {
                    step matches Step::Failed(e) && e == CascadeError::UnexpectedReply
                },
            },
            Phase::UserLen => match reply {
                CacheReply::Len(n) => if n == 0 && self.state == CascadeState::SingleIdentified {
                    &&& step matches Step::Read(next, read)
                    &&& self.continues_as(next, CascadeState::SingleAnonymous, Phase::GlobalLen)
                    &&& read == (CacheRead::Len { list: self.list(CacheList::Global) })
                } else if n == 0 {
                    &&& step matches Step::Read(next, read)
                    &&& self.continues_as(next, CascadeState::BulkGlobal, Phase::GlobalItems)
                    &&& next.count == self.count
                    &&& read == self.items_read(
                        CacheList::Global,
                        0,
                        self.limits.max_global_cache_len,
                    )
                } else if self.state == CascadeState::SingleIdentified {
                    &&& step matches Step::Read(next, read)
                    &&& self.continues_as(next, CascadeState::BulkIdentified, Phase::UserLen)
                    &&& next.count == 1
                    &&& next.filter_results.deep_view() == Seq::<PostV2>::empty()
                    &&& read == (CacheRead::Len { list: self.list(CacheList::UserCache) })
                } else {
                    &&& step matches Step::Read(next, read)
                    &&& self.continues_as(next, self.state, Phase::WatchHistory)
                    &&& next.count == self.count
                    &&& next.filter_results.deep_view() == self.filter_results.deep_view()
                    &&& next.user_len == n
                    &&& read == (CacheRead::History {
                        list: self.list(CacheList::WatchHistory),
                        schema: Self::schema_of(self.safety),
                        start: 0,
                        end: self.limits.max_watch_history_cache_len,
                    })
                },
                CacheReply::Failed => step matches Step::Failed(e) && e
                    == CascadeError::LenUnavailable,
                _ => step matches Step::Failed(e) && e == CascadeError::UnexpectedReply,
            },
            Phase::WatchHistory => match reply_watched(reply) {
                Some(watched) => {
                    &&& step matches Step::Read(next, read)
                    &&& self.continues_as(next, self.state, Phase::UserItems)
                    &&& next.count == self.count
                    &&& next.exclusion@ == watched.union(video_ids(self.filter_results.deep_view()))
                    &&& read == self.items_read(CacheList::UserCache, 0, self.user_len)
                },
                None => if reply is Failed {
                    step matches Step::Failed(e) && e == CascadeError::WatchHistoryUnavailable
                } else {
                    step matches Step::Failed(e) && e == CascadeError::UnexpectedReply
                },
            },
            Phase::UserItems => match reply_items(reply) {
                Some(items) => self.ends_with_draw(cascade_pool(items, self.exclusion@), step),
                None => if reply is Failed {
                    step matches Step::Failed(e) && e == CascadeError::UserCacheUnavailable
                } else {
                    step matches Step::Failed(e) && e == CascadeError::UnexpectedReply
                },
            },
            Phase::GlobalItems => match reply_items(reply) {
                Some(items) => self.ends_with_draw(first_by_key(items, video_key()), step),
                None => if reply is Failed {
                    step matches Step::Failed(e) && e == CascadeError::GlobalFeedUnavailable
                } else {
                    step matches Step::Failed(e) && e == CascadeError::UnexpectedReply
                },
            },
        }
    }

    /// The part of the cascade in which a state begins.
    pub open spec fn first_phase(state: CascadeState) -> Phase {
        match state {
            CascadeState::SingleAnonymous => Phase::GlobalLen,
            CascadeState::SingleIdentified => Phase::UserLen,
            CascadeState::BulkIdentified => Phase::UserLen,
            CascadeState::BulkGlobal => Phase::GlobalItems,
        }
    }

    /// The read with which a state begins: the length of the global list for
    /// one item from it, the length of the caller's personal list for the
    /// states that serve from it, all of the global list for several items
    /// from it.
    pub open spec fn first_read(self) -> CacheRead {
        match self.state {
            CascadeState::SingleAnonymous => CacheRead::Len { list: self.list(CacheList::Global) },
            CascadeState::SingleIdentified => CacheRead::Len {
                list: self.list(CacheList::UserCache),
            },
            CascadeState::BulkIdentified => CacheRead::Len {
                list: self.list(CacheList::UserCache),
            },
            CascadeState::BulkGlobal => self.items_read(
                CacheList::Global,
                0,
                self.limits.max_global_cache_len,
            ),
        }
    }

    /// `self` is a cascade at the start of `state`, to give `count` items of
    /// the safety partition `safety`, and `read` is its first read.
    pub open spec fn begins(
        self,
        read: CacheRead,
        safety: Safety,
        state: CascadeState,
        count: u32,
        filter_results: Seq<PostV2>,
        limits: CacheLimits,
    ) -> bool {
        &&& self.safety == safety
        &&& self.state == state
        &&& self.phase == Self::first_phase(state)
        &&& self.count == count
        &&& self.filter_results.deep_view() == filter_results
        &&& self.limits == limits
        &&& read == self.first_read()
    }

    /// Puts a cascade at the start of `state`.
    fn begin(
        safety: Safety,
        state: CascadeState,
        count: u32,
        take_first: bool,
        filter_results: Vec<PostItemV2>,
        limits: CacheLimits,
    ) -> (res: (Cascade, CacheRead))
        ensures
            res.0.begins(res.1, safety, state, count, filter_results.deep_view(), limits),
            res.0.take_first == take_first,
    {
        let phase = match state {
            CascadeState::SingleAnonymous => Phase::GlobalLen,
            CascadeState::SingleIdentified => Phase::UserLen,
            CascadeState::BulkIdentified => Phase::UserLen,
            CascadeState::BulkGlobal => Phase::GlobalItems,
        };
        let machine = Cascade {
            safety,
            state,
            phase,
            count,
            take_first,
            filter_results,
            exclusion: ExclusionSet::new(),
            user_len: 0,
            limits,
        };
        let read = match state {
            CascadeState::SingleAnonymous => CacheRead::Len {
                list: machine.list_id(CacheList::Global),
            },
            CascadeState::SingleIdentified => CacheRead::Len {
                list: machine.list_id(CacheList::UserCache),
            },
            CascadeState::BulkIdentified => CacheRead::Len {
                list: machine.list_id(CacheList::UserCache),
            },
            CascadeState::BulkGlobal => CacheRead::Items {
                list: machine.list_id(CacheList::Global),
                schema: machine.schema(),
                start: 0,
                end: limits.max_global_cache_len,
            },
        };
        (machine, read)
    }

    /// Starts the cascade of a request for `num_results` items, and names its
    /// first read: the length of the global list for one item and a caller
    /// without identity, the length of the caller's personal list otherwise.
    /// A caller that asked for one item gets the first item of the feed
    /// alone, and an error where there is none.
    pub fn start(
        safety: Safety,
        anonymous: bool,
        num_results: u32,
        filter_results: Vec<PostItemV2>,
        limits: CacheLimits,
    ) -> (res: (Cascade, CacheRead))
        ensures
            res.0.begins(
                res.1,
                safety,
                Self::initial_state(anonymous, num_results),
                num_results,
                filter_results.deep_view(),
                limits,
            ),
            res.0.take_first == (num_results == 1),
            res.0.wf(),
    {
        let single = num_results == 1;
        let state = if !single {
            CascadeState::BulkIdentified
        } else if anonymous {
            CascadeState::SingleAnonymous
        } else {
            CascadeState::SingleIdentified
        };
        Self::begin(safety, state, num_results, single, filter_results, limits)
    }

    /// The schema in which the lists of the request's safety partition are
    /// read.
    fn schema(&self) -> (res: Schema)
        ensures
            res == Self::schema_of(self.safety),
    {
        match self.safety {
            Safety::Clean => Schema::V3,
            Safety::Nsfw => Schema::V2,
        }
    }

    /// The list of kind `list` in the request's safety partition.
    fn list_id(&self, list: CacheList) -> (res: ListId)
        ensures
            res == self.list(list),
    {
        ListId { list, safety: self.safety }
    }

    /// Ends the cascade with `feed`.
    fn finish(self, feed: Vec<PostItemV2>) -> (step: Step)
        ensures
            self.ends_with(feed.deep_view(), step),
            step matches Step::Done(items) ==> items.len() <= feed.len() && (keys_of(
                feed.deep_view(),
                video_key(),
            ).no_duplicates() ==> keys_of(items.deep_view(), video_key()).no_duplicates()),
            self.take_first ==> (step matches Step::Done(items) ==> items.len() <= 1),
    {
        assert(feed.deep_view().len() == feed.len());
        if !self.take_first {
            Step::Done(feed)
        } else if feed.len() == 0 {
            Step::Failed(CascadeError::NoItem)
        } else {
            let first = keep_first(feed);
            assert(first.deep_view().len() == first.len());
            Step::Done(first)
        }
    }

    /// Takes the result of the read that the machine waits for, and names
    /// the next read or ends the cascade.
    ///
    /// Whatever the replies are, a cascade ends with no media identifier
    /// twice, and a well-formed one with no more items than it was to give.
    pub fn step(self, reply: CacheReply) -> (step: Step)
        ensures
            self.moves(reply, step),
            step matches Step::Done(items) ==> keys_of(
                items.deep_view(),
                video_key(),
            ).no_duplicates(),
            self.wf() ==> (step matches Step::Read(next, _) ==> next.wf()),
            self.wf() ==> (step matches Step::Done(items) ==> items.len() <= self.count),
    {
        let mut machine = self;
        match machine.phase {
            Phase::GlobalLen => match reply {
                CacheReply::Len(num_posts_in_cache) => {
                    match random_position(num_posts_in_cache) {
                        None => Step::Failed(CascadeError::EmptyCache),
                        Some(post_index) => {
                            machine.phase = Phase::GlobalItem;
                            let read = CacheRead::Items {
                                list: machine.list_id(CacheList::Global),
                                schema: machine.schema(),
                                start: post_index,
                                end: post_index + 1,
                            };
                            assert(read == self.items_read(
                                CacheList::Global,
                                post_index,
                                (post_index + 1) as u64,
                            ));
                            Step::Read(machine, read)
                        },
                    }
                },
                CacheReply::Failed => Step::Failed(CascadeError::LenUnavailable),
                _ => Step::Failed(CascadeError::UnexpectedReply),
            },
            Phase::GlobalItem => match reply {
                CacheReply::ItemsV3(feed_v3) => {
                    let feed = remove_duplicates_v2(convert_post_items_v3_to_v2(feed_v3));
                    machine.finish(feed)
                },
                CacheReply::ItemsV2(feed) => {
                    let feed = remove_duplicates_v2(feed);
                    machine.finish(feed)
                },
                CacheReply::Failed => Step::Failed(CascadeError::PostUnavailable),
                _ => Step::Failed(CascadeError::UnexpectedReply),
            },
            Phase::UserLen => match reply {
                CacheReply::Len(num_posts_in_cache) => {
                    let single = match machine.state {
                        CascadeState::SingleIdentified => true,
                        _ => false,
                    };
                    if num_posts_in_cache == 0 && single {
                        machine.state = CascadeState::SingleAnonymous;
                        machine.phase = Phase::GlobalLen;
                        let list = machine.list_id(CacheList::Global);
                        Step::Read(machine, CacheRead::Len { list })
                    } else if num_posts_in_cache == 0 {
                        machine.state = CascadeState::BulkGlobal;
                        machine.phase = Phase::GlobalItems;
                        let end = machine.limits.max_global_cache_len;
                        let list = machine.list_id(CacheList::Global);
                        let schema = machine.schema();
                        Step::Read(machine, CacheRead::Items { list, schema, start: 0, end })
                    } else if single {
                        machine.state = CascadeState::BulkIdentified;
                        machine.count = 1;
                        machine.filter_results = Vec::new();
                        assert(machine.filter_results.deep_view() =~= Seq::<PostV2>::empty());
                        let list = machine.list_id(CacheList::UserCache);
                        Step::Read(machine, CacheRead::Len { list })
                    } else {
                        machine.user_len = num_posts_in_cache;
                        machine.phase = Phase::WatchHistory;
                        let end = machine.limits.max_watch_history_cache_len;
                        let list = machine.list_id(CacheList::WatchHistory);
                        let schema = machine.schema();
                        Step::Read(machine, CacheRead::History { list, schema, start: 0, end })
                    }
                },
                CacheReply::Failed => Step::Failed(CascadeError::LenUnavailable),
                _ => Step::Failed(CascadeError::UnexpectedReply),
            },
            Phase::WatchHistory => {
                let mut exclusion = ExclusionSet::new();
                match reply {
                    CacheReply::HistoryV3(watch_history) => {
                        exclusion.add_history_v3(&watch_history);
                    },
                    CacheReply::HistoryV2(watch_history) => {
                        exclusion.add_history_v2(&watch_history);
                    },
                    CacheReply::Failed => {
                        return Step::Failed(CascadeError::WatchHistoryUnavailable);
                    },
                    _ => {
                        return Step::Failed(CascadeError::UnexpectedReply);
                    },
                }
                exclusion.add_posts(&machine.filter_results);
                assert(exclusion@ =~= reply_watched(reply).unwrap().union(
                    video_ids(machine.filter_results.deep_view()),
                ));
                machine.exclusion = exclusion;
                machine.phase = Phase::UserItems;
                let end = machine.user_len;
                let list = machine.list_id(CacheList::UserCache);
                let schema = machine.schema();
                Step::Read(machine, CacheRead::Items { list, schema, start: 0, end })
            },
            Phase::UserItems => {
                let user_cache_items = match reply {
                    CacheReply::ItemsV3(items) => convert_post_items_v3_to_v2(items),
                    CacheReply::ItemsV2(items) => items,
                    CacheReply::Failed => {
                        return Step::Failed(CascadeError::UserCacheUnavailable);
                    },
                    _ => {
                        return Step::Failed(CascadeError::UnexpectedReply);
                    },
                };
                let feed = draw_from_pool(user_cache_items, &machine.exclusion, machine.count);
                let ghost draw = feed.deep_view();
                assert(draw.len() == feed.len());
                let step = machine.finish(feed);
                assert(machine.ends_with(draw, step));
                step
            },
            Phase::GlobalItems => {
                let global_feed = match reply {
                    CacheReply::ItemsV3(items) => convert_post_items_v3_to_v2(items),
                    CacheReply::ItemsV2(items) => items,
                    CacheReply::Failed => {
                        return Step::Failed(CascadeError::GlobalFeedUnavailable);
                    },
                    _ => {
                        return Step::Failed(CascadeError::UnexpectedReply);
                    },
                };
                let exclusion = ExclusionSet::new();
                proof {
                    lemma_pool_without_exclusions(global_feed.deep_view());
                }
                let feed = draw_from_pool(global_feed, &exclusion, machine.count);
                let ghost draw = feed.deep_view();
                assert(draw.len() == feed.len());
                let step = machine.finish(feed);
                assert(machine.ends_with(draw, step));
                step
            },
        }
    }
}

/// No explicit exclusions.
fn no_filter() -> (res: Vec<PostItemV2>)
    ensures
        res.deep_view() == Seq::<PostV2>::empty(),
{
    let res: Vec<PostItemV2> = Vec::new();
    assert(res.deep_view() =~= Seq::<PostV2>::empty());
    res
}

/// State A in the clean partition: one item, sampled from the global list.
/// The cascade that is started ends with what the sampled position holds, in
/// canonical form.
pub fn get_coldstart_clean_cache_noinput_impl(limits: CacheLimits) -> (res: (Cascade, CacheRead))
    ensures
        res.0.begins(
            res.1,
            Safety::Clean,
            CascadeState::SingleAnonymous,
            1,
            Seq::empty(),
            limits,
        ),
        !res.0.take_first,
{
    Cascade::begin(
        Safety::Clean,
        CascadeState::SingleAnonymous,
        1,
        false,
        no_filter(),
        limits,
    )
}

/// State B in the clean partition: one item from the caller's personal list,
/// or, where that is empty, as in state A.
pub fn get_coldstart_clean_cache_noinput_user_impl(limits: CacheLimits) -> (res: (
    Cascade,
    CacheRead,
))
    ensures
        res.0.begins(
            res.1,
            Safety::Clean,
            CascadeState::SingleIdentified,
            1,
            Seq::empty(),
            limits,
        ),
        !res.0.take_first,
{
    Cascade::begin(
        Safety::Clean,
        CascadeState::SingleIdentified,
        1,
        false,
        no_filter(),
        limits,
    )
}

/// State D in the clean partition: a draw of `num_results` items from the
/// global list.
pub fn get_coldstart_clean_cache_input_impl(num_results: u32, limits: CacheLimits) -> (res: (
    Cascade,
    CacheRead,
))
    ensures
        res.0.begins(
            res.1,
            Safety::Clean,
            CascadeState::BulkGlobal,
            num_results,
            Seq::empty(),
            limits,
        ),
        !res.0.take_first,
        res.0.wf(),
{
    Cascade::begin(Safety::Clean, CascadeState::BulkGlobal, num_results, false, no_filter(), limits)
}

/// State C in the clean partition: a draw of `num_results` items from the
/// caller's personal list, without what was watched or is in
/// `filter_results`, or, where the personal list is empty, as in state D.
pub fn get_coldstart_clean_cache_input_user_impl(
    num_results: u32,
    filter_results: Vec<PostItemV2>,
    limits: CacheLimits,
) -> (res: (Cascade, CacheRead))
    ensures
        res.0.begins(
            res.1,
            Safety::Clean,
            CascadeState::BulkIdentified,
            num_results,
            filter_results.deep_view(),
            limits,
        ),
        !res.0.take_first,
        res.0.wf(),
{
    Cascade::begin(
        Safety::Clean,
        CascadeState::BulkIdentified,
        num_results,
        false,
        filter_results,
        limits,
    )
}

/// State A in the restricted partition: one item, sampled from the global
/// list.
pub fn get_coldstart_nsfw_cache_noinput_impl(limits: CacheLimits) -> (res: (Cascade, CacheRead))
    ensures
        res.0.begins(
            res.1,
            Safety::Nsfw,
            CascadeState::SingleAnonymous,
            1,
            Seq::empty(),
            limits,
        ),
        !res.0.take_first,
{
    Cascade::begin(
        Safety::Nsfw,
        CascadeState::SingleAnonymous,
        1,
        false,
        no_filter(),
        limits,
    )
}

/// State B in the restricted partition: one item from the caller's personal
/// list, or, where that is empty, as in state A.
pub fn get_coldstart_nsfw_cache_noinput_user_impl(limits: CacheLimits) -> (res: (
    Cascade,
    CacheRead,
))
    ensures
        res.0.begins(
            res.1,
            Safety::Nsfw,
            CascadeState::SingleIdentified,
            1,
            Seq::empty(),
            limits,
        ),
        !res.0.take_first,
{
    Cascade::begin(
        Safety::Nsfw,
        CascadeState::SingleIdentified,
        1,
        false,
        no_filter(),
        limits,
    )
}

/// State D in the restricted partition: a draw of `num_results` items from
/// the global list.
pub fn get_coldstart_nsfw_cache_input_impl(num_results: u32, limits: CacheLimits) -> (res: (
    Cascade,
    CacheRead,
))
    ensures
        res.0.begins(
            res.1,
            Safety::Nsfw,
            CascadeState::BulkGlobal,
            num_results,
            Seq::empty(),
            limits,
        ),
        !res.0.take_first,
        res.0.wf(),
{
    Cascade::begin(Safety::Nsfw, CascadeState::BulkGlobal, num_results, false, no_filter(), limits)
}

/// State C in the restricted partition: a draw of `num_results` items from
/// the caller's personal list, without what was watched or is in
/// `filter_results`, or, where the personal list is empty, as in state D.
pub fn get_coldstart_nsfw_cache_input_user_impl(
    num_results: u32,
    filter_results: Vec<PostItemV2>,
    limits: CacheLimits,
) -> (res: (Cascade, CacheRead))
    ensures
        res.0.begins(
            res.1,
            Safety::Nsfw,
            CascadeState::BulkIdentified,
            num_results,
            filter_results.deep_view(),
            limits,
        ),
        !res.0.take_first,
        res.0.wf(),
{
    Cascade::begin(
        Safety::Nsfw,
        CascadeState::BulkIdentified,
        num_results,
        false,
        filter_results,
        limits,
    )
}

} // verus!
