//! The full pipeline: history, recommendation request, exclusion filter,
//! enrichment and deduplication, as a state machine.
//!
//! [`FeedPipeline::start`] names the first read. The caller performs each
//! read, call or lookup that a step names, and hands its result to
//! [`FeedPipeline::step`], until the step is the feed or a failure.

use crate::cache::{CacheLimits, CacheList, CacheRead, ListId, Safety, Schema};
use crate::dedup::first_by_key;
use crate::enrich::{
    asked_principals, enriched, fill_canister_ids, plan_lookup, publishers, DirectoryEntry,
    LookupPlan,
};
use crate::exclusion::{history_video_ids_v2, video_ids, ExclusionSet};
use crate::history::{MLFeedCacheHistoryItemV2, MLFeedCacheHistoryItemV3};
use crate::ml_feed_py::{MlFeedRequestV3, MlPostItemResponseV3};
use crate::normalize::{convert_history_items_v3_to_v2, histories_to_v2, remove_duplicates_v2};
use crate::post::{video_key, PostItemV2, PostV2};
use crate::spillover::{is_outcome, serve_feed, FeedOutcome};
use crate::recommend::{
    accepted_v3, build_request_v3, exclusion_set_v3, filter_response_v3, is_request_v3,
    times_in_calendar_v2,
};
use vstd::prelude::*;

verus! {

/// How many recommendations a refresh of a global list asks for.
pub const GLOBAL_REFRESH_NUM_RESULTS: u32 = 3000;

/// How many items the engine answered with, and how many of them passed the
/// exclusion filter.
#[derive(Clone, Copy, Debug, PartialEq, Eq, Structural)]
pub struct FilterReport {
    pub answered: usize,
    pub accepted: usize,
}

/// The part of the pipeline that a machine is in: the answer it waits for.
#[derive(Clone, Copy, Debug, PartialEq, Eq, Structural)]
pub enum PipelinePhase {
    WatchHistory,
    SuccessHistory,
    Recommendations,
    Directory,
}

/// What the caller's read, call or lookup gave.
#[derive(Debug)]
pub enum PipelineReply {
    History(Vec<MLFeedCacheHistoryItemV3>),
    Recommendations(Vec<MlPostItemResponseV3>),
    Directory(Vec<DirectoryEntry>),
    /// It failed.
    Failed,
}

/// Why a pipeline ended without a feed.
#[derive(Clone, Copy, Debug, PartialEq, Eq, Structural)]
pub enum PipelineError {
    /// A history could not be read.
    HistoryUnavailable,
    /// The time of a history record lies beyond the calendar.
    TimestampOutOfCalendar,
    /// The engine could not be reached, or answered with a failure.
    EngineUnavailable,
    /// The directory lookup failed.
    DirectoryUnavailable,
    /// The reply does not answer what was asked for.
    UnexpectedReply,
}

/// The pipeline of one request.
#[derive(Debug)]
pub struct FeedPipeline {
    pub safety: Safety,
    pub phase: PipelinePhase,
    pub user_id: String,
    pub filter_results: Vec<PostItemV2>,
    /// How many recommendations the engine is asked for.
    pub num_results: u32,
    /// How many items the caller asked for, where the feed is to be cut to
    /// that many and the rest spilled; `None` where the whole feed is handed
    /// out.
    pub serve: Option<u32>,
    pub limits: CacheLimits,
    /// The watch history, once read.
    pub watch_history: Vec<MLFeedCacheHistoryItemV2>,
    /// What must not be served, once both histories are read.
    pub exclusion: ExclusionSet,
    /// What was accepted of the engine's answer, once it is there.
    pub posts: Vec<PostItemV2>,
    pub report: FilterReport,
}

/// What the machine asks of its caller next. Each but the last two gives the
/// machine on which to call [`FeedPipeline::step`] with the result.
#[derive(Debug)]
pub enum PipelineStep {
    /// Read this history.
    ReadHistory(FeedPipeline, CacheRead),
    /// Send this request to the engine.
    Recommend(FeedPipeline, MlFeedRequestV3),
    /// Look these identities up in the directory, in one call.
    Lookup(FeedPipeline, Vec<Vec<u8>>),
    /// The pipeline has ended with this feed, and with this left to do.
    Done(FeedOutcome, FilterReport),
    /// The pipeline has ended without a feed.
    Failed(PipelineError),
}

impl FeedPipeline {
    /// The read of all that may be read of the history `list` in the safety
    /// partition `safety`.
    pub open spec fn history_read(safety: Safety, list: CacheList, limits: CacheLimits) -> CacheRead {
        CacheRead::History {
            list: ListId { list, safety },
            schema: Schema::V3,
            start: 0,
            end: limits.max_watch_history_cache_len,
        }
    }

    /// `next` serves the same request as `self`, in phase `phase`.
    pub open spec fn continues_as(self, next: FeedPipeline, phase: PipelinePhase) -> bool {
        &&& next.safety == self.safety
        &&& next.phase == phase
        &&& next.user_id@ == self.user_id@
        &&& next.filter_results.deep_view() == self.filter_results.deep_view()
        &&& next.num_results == self.num_results
        &&& next.serve == self.serve
        &&& next.limits == self.limits
    }

    /// `outcome` is how the pipeline ends on the feed `feed`: with the whole
    /// feed and nothing left to do, or, where the feed is to be cut to what
    /// the caller asked for, with the first items of it and the rest to be
    /// spilled.
    pub open spec fn ends_with(self, feed: Seq<PostV2>, outcome: FeedOutcome) -> bool {
        match self.serve {
            Some(asked) => is_outcome(outcome, feed, asked, self.safety),
            None => outcome.posts.deep_view() == feed && outcome.task is None,
        }
    }

    /// What [`FeedPipeline::step`] does on each reply.
    pub open spec fn moves(self, reply: PipelineReply, step: PipelineStep) -> bool {
        match self.phase {
            PipelinePhase::WatchHistory => match reply {
                PipelineReply::History(records) => {
                    &&& step matches PipelineStep::ReadHistory(next, read)
                    &&& self.continues_as(next, PipelinePhase::SuccessHistory)
                    &&& next.watch_history.deep_view() == histories_to_v2(records.deep_view())
                    &&& read == Self::history_read(
                        self.safety,
                        CacheList::SuccessHistory,
                        self.limits,
                    )
                },
                PipelineReply::Failed => step matches PipelineStep::Failed(e) && e
                    == PipelineError::HistoryUnavailable,
                _ => step matches PipelineStep::Failed(e) && e == PipelineError::UnexpectedReply,
            },
            PipelinePhase::SuccessHistory => match reply {
                PipelineReply::History(records) => {
                    let watched = self.watch_history.deep_view();
                    let succeeded = histories_to_v2(records.deep_view());
                    if times_in_calendar_v2(watched) && times_in_calendar_v2(succeeded) {
                        &&& step matches PipelineStep::Recommend(next, request)
                        &&& self.continues_as(next, PipelinePhase::Recommendations)
                        &&& next.exclusion@ == video_ids(self.filter_results.deep_view()).union(
                            history_video_ids_v2(watched),
                        ).union(history_video_ids_v2(succeeded))
                        &&& is_request_v3(
                            request,
                            self.user_id@,
                            watched,
                            succeeded,
                            self.filter_results.deep_view(),
                            self.num_results,
                        )
                    } else {
                        step matches PipelineStep::Failed(e) && e
                            == PipelineError::TimestampOutOfCalendar
                    }
                },
                PipelineReply::Failed => step matches PipelineStep::Failed(e) && e
                    == PipelineError::HistoryUnavailable,
                _ => step matches PipelineStep::Failed(e) && e == PipelineError::UnexpectedReply,
            },
            PipelinePhase::Recommendations => match reply {
                PipelineReply::Recommendations(feed) => {
                    let posts = accepted_v3(feed@, self.exclusion@);
                    let counts = FilterReport { answered: feed.len(), accepted: posts.len() as usize };
                    if asked_principals(posts).len() == 0 {
                        &&& step matches PipelineStep::Done(outcome, report)
                        &&& self.ends_with(Seq::empty(), outcome)
                        &&& report == counts
                    } else {
                        &&& step matches PipelineStep::Lookup(next, principals)
                        &&& self.continues_as(next, PipelinePhase::Directory)
                        &&& next.posts.deep_view() == posts
                        &&& next.report == counts
                        &&& principals.deep_view() == asked_principals(posts)
                    }
                },
                PipelineReply::Failed => step matches PipelineStep::Failed(e) && e
                    == PipelineError::EngineUnavailable,
                _ => step matches PipelineStep::Failed(e) && e == PipelineError::UnexpectedReply,
            },
            PipelinePhase::Directory => match reply {
                PipelineReply::Directory(entries) => {
                    let posts = self.posts.deep_view();
                    &&& step matches PipelineStep::Done(outcome, report)
                    &&& self.ends_with(
                        first_by_key(
                            enriched(posts, publishers(posts), entries.deep_view()),
                            video_key(),
                        ),
                        outcome,
                    )
                    &&& report == self.report
                },
                PipelineReply::Failed => step matches PipelineStep::Failed(e) && e
                    == PipelineError::DirectoryUnavailable,
                _ => step matches PipelineStep::Failed(e) && e == PipelineError::UnexpectedReply,
            },
        }
    }

    /// Starts the pipeline of a request that asks the engine for `num_results`
    /// recommendations, and names its first read: the caller's watch history.
    pub fn start(
        safety: Safety,
        user_id: String,
        filter_results: Vec<PostItemV2>,
        num_results: u32,
        limits: CacheLimits,
    ) -> (res: (FeedPipeline, CacheRead))
        ensures
            res.0.safety == safety,
            res.0.phase == PipelinePhase::WatchHistory,
            res.0.user_id@ == user_id@,
            res.0.filter_results.deep_view() == filter_results.deep_view(),
            res.0.num_results == num_results,
            res.0.serve is None,
            res.0.limits == limits,
            res.1 == Self::history_read(safety, CacheList::WatchHistory, limits),
    {
        let machine = FeedPipeline {
            safety,
            phase: PipelinePhase::WatchHistory,
            user_id,
            filter_results,
            num_results,
            serve: None,
            limits,
            watch_history: Vec::new(),
            exclusion: ExclusionSet::new(),
            posts: Vec::new(),
            report: FilterReport { answered: 0, accepted: 0 },
        };
        (machine, CacheRead::History {
            list: ListId { list: CacheList::WatchHistory, safety },
            schema: Schema::V3,
            start: 0,
            end: limits.max_watch_history_cache_len,
        })
    }

    /// Starts the pipeline that refreshes a global list: it reads no history
    /// and excludes nothing, and asks the engine, for nobody in particular,
    /// for [`GLOBAL_REFRESH_NUM_RESULTS`] recommendations.
    pub fn refresh(safety: Safety, limits: CacheLimits) -> (res: (FeedPipeline, MlFeedRequestV3))
        ensures
            res.0.safety == safety,
            res.0.phase == PipelinePhase::Recommendations,
            res.0.exclusion@ == Set::<Seq<char>>::empty(),
            res.0.num_results == GLOBAL_REFRESH_NUM_RESULTS,
            res.0.serve is None,
            res.0.limits == limits,
            is_request_v3(
                res.1,
                Seq::empty(),
                Seq::empty(),
                Seq::empty(),
                Seq::empty(),
                GLOBAL_REFRESH_NUM_RESULTS,
            ),
    {
        let machine = FeedPipeline {
            safety,
            phase: PipelinePhase::Recommendations,
            user_id: String::new(),
            filter_results: Vec::new(),
            num_results: GLOBAL_REFRESH_NUM_RESULTS,
            serve: None,
            limits,
            watch_history: Vec::new(),
            exclusion: ExclusionSet::new(),
            posts: Vec::new(),
            report: FilterReport { answered: 0, accepted: 0 },
        };
        let request = MlFeedRequestV3 {
            user_principal_id: String::new(),
            watch_history: Vec::new(),
            success_history: Vec::new(),
            filter_posts: Vec::new(),
            num_results: GLOBAL_REFRESH_NUM_RESULTS,
        };
        (machine, request)
    }

    /// Ends the pipeline with `feed`.
    fn finish(self, feed: Vec<PostItemV2>) -> (outcome: FeedOutcome)
        ensures
            self.ends_with(feed.deep_view(), outcome),
    {
        match self.serve {
            Some(asked) => serve_feed(feed, asked, self.safety),
            None => FeedOutcome { posts: feed, task: None },
        }
    }

    /// Takes the result of what the machine waits for, and names what is to
    /// be done next or ends the pipeline.
    pub fn step(self, reply: PipelineReply) -> (step: PipelineStep)
        ensures
            self.moves(reply, step),
    {
        let mut machine = self;
        match machine.phase {
            PipelinePhase::WatchHistory => match reply {
                PipelineReply::History(watch_history_v3) => {
                    machine.watch_history = convert_history_items_v3_to_v2(watch_history_v3);
                    machine.phase = PipelinePhase::SuccessHistory;
                    let end = machine.limits.max_watch_history_cache_len;
                    let list = ListId { list: CacheList::SuccessHistory, safety: machine.safety };
                    PipelineStep::ReadHistory(
                        machine,
                        CacheRead::History { list, schema: Schema::V3, start: 0, end },
                    )
                },
                PipelineReply::Failed => PipelineStep::Failed(PipelineError::HistoryUnavailable),
                _ => PipelineStep::Failed(PipelineError::UnexpectedReply),
            },
            PipelinePhase::SuccessHistory => match reply {
                PipelineReply::History(success_history_v3) => {
                    let success_history = convert_history_items_v3_to_v2(success_history_v3);
                    let request = build_request_v3(
                        machine.user_id.clone(),
                        &machine.watch_history,
                        &success_history,
                        &machine.filter_results,
                        machine.num_results,
                    );
                    match request {
                        Some(request) => {
                            machine.exclusion = exclusion_set_v3(
                                &machine.filter_results,
                                &machine.watch_history,
                                &success_history,
                            );
                            machine.phase = PipelinePhase::Recommendations;
                            PipelineStep::Recommend(machine, request)
                        },
                        None => PipelineStep::Failed(PipelineError::TimestampOutOfCalendar),
                    }
                },
                PipelineReply::Failed => PipelineStep::Failed(PipelineError::HistoryUnavailable),
                _ => PipelineStep::Failed(PipelineError::UnexpectedReply),
            },
            PipelinePhase::Recommendations => match reply {
                PipelineReply::Recommendations(feed) => {
                    let response_items = filter_response_v3(&feed, &machine.exclusion);
                    let report = FilterReport {
                        answered: feed.len(),
                        accepted: response_items.len(),
                    };
                    match plan_lookup(&response_items) {
                        LookupPlan::Skip => {
                            let served: Vec<PostItemV2> = Vec::new();
                            assert(served.deep_view() =~= Seq::<PostV2>::empty());
                            PipelineStep::Done(machine.finish(served), report)
                        },
                        LookupPlan::Ask(principals) => {
                            machine.posts = response_items;
                            machine.report = report;
                            machine.phase = PipelinePhase::Directory;
                            PipelineStep::Lookup(machine, principals)
                        },
                    }
                },
                PipelineReply::Failed => PipelineStep::Failed(PipelineError::EngineUnavailable),
                _ => PipelineStep::Failed(PipelineError::UnexpectedReply),
            },
            PipelinePhase::Directory => match reply {
                PipelineReply::Directory(entries) => {
                    let report = machine.report;
                    let ghost posts = machine.posts.deep_view();
                    let ghost before = machine;
                    let mut machine = machine;
                    let mut accepted: Vec<PostItemV2> = Vec::new();
                    std::mem::swap(&mut machine.posts, &mut accepted);
                    let response_items = fill_canister_ids(accepted, &entries);
                    let feed = remove_duplicates_v2(response_items);
                    let outcome = machine.finish(feed);
                    assert(before.ends_with(
                        first_by_key(
                            enriched(posts, publishers(posts), entries.deep_view()),
                            video_key(),
                        ),
                        outcome,
                    ));
                    PipelineStep::Done(outcome, report)
                },
                PipelineReply::Failed => PipelineStep::Failed(PipelineError::DirectoryUnavailable),
                _ => PipelineStep::Failed(PipelineError::UnexpectedReply),
            },
        }
    }
}

/// Starts the pipeline of a clean feed: see [`FeedPipeline::start`].
pub fn get_ml_feed_clean_v3_impl(
    user_id: String,
    filter_results: Vec<PostItemV2>,
    num_results: u32,
    limits: CacheLimits,
) -> (res: (FeedPipeline, CacheRead))
    ensures
        res.0.safety == Safety::Clean,
        res.0.phase == PipelinePhase::WatchHistory,
        res.0.user_id@ == user_id@,
        res.0.filter_results.deep_view() == filter_results.deep_view(),
        res.0.num_results == num_results,
        res.0.serve is None,
        res.0.limits == limits,
        res.1 == FeedPipeline::history_read(Safety::Clean, CacheList::WatchHistory, limits),
{
    FeedPipeline::start(Safety::Clean, user_id, filter_results, num_results, limits)
}

/// Starts the pipeline of a restricted feed: see [`FeedPipeline::start`].
pub fn get_ml_feed_nsfw_v3_impl(
    user_id: String,
    filter_results: Vec<PostItemV2>,
    num_results: u32,
    limits: CacheLimits,
) -> (res: (FeedPipeline, CacheRead))
    ensures
        res.0.safety == Safety::Nsfw,
        res.0.phase == PipelinePhase::WatchHistory,
        res.0.user_id@ == user_id@,
        res.0.filter_results.deep_view() == filter_results.deep_view(),
        res.0.num_results == num_results,
        res.0.serve is None,
        res.0.limits == limits,
        res.1 == FeedPipeline::history_read(Safety::Nsfw, CacheList::WatchHistory, limits),
{
    FeedPipeline::start(Safety::Nsfw, user_id, filter_results, num_results, limits)
}

/// Starts the refresh of the clean global list: see
/// [`FeedPipeline::refresh`].
pub fn get_global_cache_clean_v3(limits: CacheLimits) -> (res: (FeedPipeline, MlFeedRequestV3))
    ensures
        res.0.safety == Safety::Clean,
        res.0.phase == PipelinePhase::Recommendations,
        res.0.exclusion@ == Set::<Seq<char>>::empty(),
        res.0.num_results == GLOBAL_REFRESH_NUM_RESULTS,
        res.0.serve is None,
        res.0.limits == limits,
        is_request_v3(
            res.1,
            Seq::empty(),
            Seq::empty(),
            Seq::empty(),
            Seq::empty(),
            GLOBAL_REFRESH_NUM_RESULTS,
        ),
{
    FeedPipeline::refresh(Safety::Clean, limits)
}

/// Starts the refresh of the restricted global list: see
/// [`FeedPipeline::refresh`].
pub fn get_global_cache_nsfw_v3(limits: CacheLimits) -> (res: (FeedPipeline, MlFeedRequestV3))
    ensures
        res.0.safety == Safety::Nsfw,
        res.0.phase == PipelinePhase::Recommendations,
        res.0.exclusion@ == Set::<Seq<char>>::empty(),
        res.0.num_results == GLOBAL_REFRESH_NUM_RESULTS,
        res.0.serve is None,
        res.0.limits == limits,
        is_request_v3(
            res.1,
            Seq::empty(),
            Seq::empty(),
            Seq::empty(),
            Seq::empty(),
            GLOBAL_REFRESH_NUM_RESULTS,
        ),
{
    FeedPipeline::refresh(Safety::Nsfw, limits)
}

} // verus!
