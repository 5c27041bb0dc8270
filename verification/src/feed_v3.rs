//! The feed endpoints' decisions: which requests are served, by which path,
//! and with how many recommendations asked for.
//!
//! Each endpoint function accepts or rejects the request and starts the
//! machine that serves it; the caller runs the machine to its end.

use crate::cache::{CacheLimits, CacheList, CacheRead, Safety};
use crate::cascade::Cascade;
use crate::pipeline::{FeedPipeline, PipelinePhase};
use crate::post::PostItemV2;
use crate::principal::{is_anonymous, text_of_principal, user_id_text, MAX_PRINCIPAL_LEN};
use vstd::prelude::*;

verus! {

/// The most items that a request may ask for.
pub const MAX_NUM_RESULTS: u32 = 500;

/// How many recommendations more than the caller asked for the engine is asked
/// for, to make up for what the exclusion filter and the enrichment drop.
pub const OVERFETCH_MARGIN: u32 = 100;

/// A request for a feed.
#[derive(Debug, PartialEq, Eq)]
pub struct FeedRequest {
    /// The caller's identity, as bytes.
    pub user_id: Vec<u8>,
    pub num_results: u32,
    /// The caller's explicit exclusions.
    pub filter_results: Vec<PostItemV2>,
}

/// The two kinds of feed request.
#[derive(Clone, Copy, Debug, PartialEq, Eq, Structural)]
pub enum FeedKind {
    /// Served from the cache alone.
    Coldstart,
    /// Served by the recommendation engine.
    Recommended,
}

/// Why a request is not served.
#[derive(Clone, Copy, Debug, PartialEq, Eq, Structural)]
pub enum FeedError {
    /// The request asks for more than [`MAX_NUM_RESULTS`] items.
    TooManyResults,
    /// The caller's identity has more bytes than an identity can have.
    InvalidIdentity,
}

/// How a request is to be served.
#[derive(Debug)]
pub enum FeedPlan {
    /// By the cascade `cascade`, which starts with `read` on the lists of
    /// `subject`.
    Cascade { subject: String, cascade: Cascade, read: CacheRead },
    /// By the pipeline `pipeline`, which starts with `read` on the lists of
    /// `subject`.
    Pipeline { subject: String, pipeline: FeedPipeline, read: CacheRead },
}

impl FeedError {
    /// The words in which the caller is told of the error.
    pub open spec fn message_text(self) -> Seq<char> {
        match self {
            FeedError::TooManyResults => "num_results must be less than 500"@,
            FeedError::InvalidIdentity => "user_id is not an identity"@,
        }
    }

    /// The words in which the caller is told of the error.
    pub fn message(&self) -> (text: String)
        ensures
            text@ == self.message_text(),
    {
        match self {
            FeedError::TooManyResults => "num_results must be less than 500".to_owned(),
            FeedError::InvalidIdentity => "user_id is not an identity".to_owned(),
        }
    }
}

/// Accepts a request's number of items, or rejects it as too many.
pub fn validate_num_results(num_results: u32) -> (res: Result<(), FeedError>)
    ensures
        res is Err <==> num_results > MAX_NUM_RESULTS,
        res is Err ==> res == Err::<(), FeedError>(FeedError::TooManyResults),
{
    if num_results > MAX_NUM_RESULTS {
        Err(FeedError::TooManyResults)
    } else {
        Ok(())
    }
}

/// How many recommendations the engine is asked for when the caller asked for
/// `num_results`.
pub fn upstream_count(num_results: u32) -> (res: u32)
    requires
        num_results <= MAX_NUM_RESULTS,
    ensures
        res == num_results + OVERFETCH_MARGIN,
{
    num_results + OVERFETCH_MARGIN
}

/// `res` is how `request` is planned: rejected where it asks for too many
/// items or has no identity; else served by the cascade where it is a
/// coldstart request and by the pipeline where it is not, each started on the
/// request.
pub open spec fn is_plan(
    res: Result<FeedPlan, FeedError>,
    kind: FeedKind,
    safety: Safety,
    request: FeedRequest,
    limits: CacheLimits,
) -> bool {
    if request.num_results > MAX_NUM_RESULTS {
        res == Err::<FeedPlan, FeedError>(FeedError::TooManyResults)
    } else if request.user_id@.len() > MAX_PRINCIPAL_LEN {
        res == Err::<FeedPlan, FeedError>(FeedError::InvalidIdentity)
    } else {
        match kind {
            FeedKind::Coldstart => {
                &&& res matches Ok(FeedPlan::Cascade { subject, cascade: machine, read })
                &&& subject@ == text_of_principal(request.user_id@)
                &&& machine.wf()
                &&& machine.begins(
                    read,
                    safety,
                    Cascade::initial_state(
                        request.user_id@ == crate::principal::anonymous(),
                        request.num_results,
                    ),
                    request.num_results,
                    request.filter_results.deep_view(),
                    limits,
                )
                &&& machine.take_first == (request.num_results == 1)
            },
            FeedKind::Recommended => {
                &&& res matches Ok(FeedPlan::Pipeline { subject, pipeline: machine, read })
                &&& subject@ == text_of_principal(request.user_id@)
                &&& machine.safety == safety
                &&& machine.phase == PipelinePhase::WatchHistory
                &&& machine.user_id@ == subject@
                &&& read == FeedPipeline::history_read(safety, CacheList::WatchHistory, limits)
                &&& machine.num_results == request.num_results + OVERFETCH_MARGIN
                &&& machine.serve == Some(request.num_results)
                &&& machine.filter_results.deep_view() == request.filter_results.deep_view()
                &&& machine.limits == limits
            },
        }
    }
}

/// Decides how a request is served. One that asks for too many items is
/// rejected before anything is read or called. A coldstart request goes to the
/// cascade, every other to the pipeline, with the overfetch margin added to
/// what the engine is asked for; the pipeline then cuts its feed to what the
/// caller asked for and spills the rest.
pub fn plan_feed(kind: FeedKind, safety: Safety, request: FeedRequest, limits: CacheLimits) -> (res:
    Result<FeedPlan, FeedError>)
    ensures
        is_plan(res, kind, safety, request, limits),
        request.num_results > MAX_NUM_RESULTS ==> res == Err::<FeedPlan, FeedError>(
            FeedError::TooManyResults,
        ),
{
    if let Err(e) = validate_num_results(request.num_results) {
        return Err(e);
    }
    let subject = match user_id_text(&request.user_id) {
        Some(text) => text,
        None => {
            return Err(FeedError::InvalidIdentity);
        },
    };
    match kind {
        FeedKind::Coldstart => {
            let anonymous = is_anonymous(&request.user_id);
            let (machine, read) = Cascade::start(
                safety,
                anonymous,
                request.num_results,
                request.filter_results,
                limits,
            );
            Ok(FeedPlan::Cascade { subject, cascade: machine, read })
        },
        FeedKind::Recommended => {
            let asked = request.num_results;
            let (mut machine, read) = FeedPipeline::start(
                safety,
                subject.clone(),
                request.filter_results,
                upstream_count(asked),
                limits,
            );
            machine.serve = Some(asked);
            Ok(FeedPlan::Pipeline { subject, pipeline: machine, read })
        },
    }
}

/// The endpoint of the clean feed: see [`plan_feed`].
pub fn get_feed_clean_v3(request: FeedRequest, limits: CacheLimits) -> (res: Result<
    FeedPlan,
    FeedError,
>)
    ensures
        is_plan(res, FeedKind::Recommended, Safety::Clean, request, limits),
        request.num_results > MAX_NUM_RESULTS ==> res == Err::<FeedPlan, FeedError>(
            FeedError::TooManyResults,
        ),
{
    plan_feed(FeedKind::Recommended, Safety::Clean, request, limits)
}

/// The endpoint of the restricted feed: see [`plan_feed`].
pub fn get_feed_nsfw_v3(request: FeedRequest, limits: CacheLimits) -> (res: Result<
    FeedPlan,
    FeedError,
>)
    ensures
        is_plan(res, FeedKind::Recommended, Safety::Nsfw, request, limits),
        request.num_results > MAX_NUM_RESULTS ==> res == Err::<FeedPlan, FeedError>(
            FeedError::TooManyResults,
        ),
{
    plan_feed(FeedKind::Recommended, Safety::Nsfw, request, limits)
}

/// The endpoint of the clean coldstart feed: see [`plan_feed`].
pub fn get_feed_coldstart_clean_v3(request: FeedRequest, limits: CacheLimits) -> (res: Result<
    FeedPlan,
    FeedError,
>)
    ensures
        is_plan(res, FeedKind::Coldstart, Safety::Clean, request, limits),
        request.num_results > MAX_NUM_RESULTS ==> res == Err::<FeedPlan, FeedError>(
            FeedError::TooManyResults,
        ),
{
    plan_feed(FeedKind::Coldstart, Safety::Clean, request, limits)
}

/// The endpoint of the restricted coldstart feed: see [`plan_feed`].
pub fn get_feed_coldstart_nsfw_v3(request: FeedRequest, limits: CacheLimits) -> (res: Result<
    FeedPlan,
    FeedError,
>)
    ensures
        is_plan(res, FeedKind::Coldstart, Safety::Nsfw, request, limits),
        request.num_results > MAX_NUM_RESULTS ==> res == Err::<FeedPlan, FeedError>(
            FeedError::TooManyResults,
        ),
{
    plan_feed(FeedKind::Coldstart, Safety::Nsfw, request, limits)
}

} // verus!
