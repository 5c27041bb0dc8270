use ml_feed::cache::{
    cache_key, CacheLimits, CacheList, CacheRead, KeyScheme, ListId, Safety, Schema,
};
use ml_feed::enrich::DirectoryEntry;
use ml_feed::history::MLFeedCacheHistoryItemV3;
use ml_feed::ml_feed_py::MlPostItemResponseV3;
use ml_feed::pipeline::{
    get_global_cache_clean_v3, get_global_cache_nsfw_v3, get_ml_feed_clean_v3_impl,
    get_ml_feed_nsfw_v3_impl, FeedPipeline, FilterReport, PipelineError, PipelinePhase,
    PipelineReply, PipelineStep, GLOBAL_REFRESH_NUM_RESULTS,
};
use ml_feed::post::PostItemV2;
use ml_feed::feed_v3::{get_feed_clean_v3, FeedPlan, FeedRequest};
use ml_feed::spillover::PostResponseTask;
use ml_feed::time::{Timestamp, MAX_CALENDAR_SECS};

const PIPELINE_LIMITS: CacheLimits =
    CacheLimits { max_global_cache_len: 3000, max_watch_history_cache_len: 5000 };

fn pipeline_record(post_id: &str, video: &str, secs: i64) -> MLFeedCacheHistoryItemV3 {
    MLFeedCacheHistoryItemV3 {
        publisher_user_id: "2vxsx-fae".to_string(),
        canister_id: "c".to_string(),
        post_id: post_id.to_string(),
        video_id: video.to_string(),
        item_type: "like_video".to_string(),
        timestamp: Timestamp { secs, nanos: 0 },
        percent_watched_bits: 50.0f32.to_bits(),
    }
}

fn pipeline_answer(publisher: &str, video: &str, post_id: u32) -> MlPostItemResponseV3 {
    MlPostItemResponseV3 {
        publisher_user_id: publisher.to_string(),
        post_id,
        video_id: video.to_string(),
        nsfw_probability_bits: 0.5f32.to_bits(),
    }
}

fn pipeline_filter(video: &str) -> PostItemV2 {
    PostItemV2 {
        publisher_user_id: "aaaaa-aa".to_string(),
        canister_id: String::new(),
        post_id: 1,
        video_id: video.to_string(),
        is_nsfw: false,
    }
}

fn pipeline_history(list: CacheList, safety: Safety) -> CacheRead {
    CacheRead::History { list: ListId { list, safety }, schema: Schema::V3, start: 0, end: 5000 }
}

fn pipeline_name(step: &PipelineStep) -> String {
    match step {
        PipelineStep::ReadHistory(_, read) => format!("read {:?}", read),
        PipelineStep::Recommend(_, request) => format!("recommend {:?}", request),
        PipelineStep::Lookup(_, principals) => format!("lookup {:?}", principals),
        PipelineStep::Done(outcome, report) => format!("done {:?} {:?}", outcome, report),
        PipelineStep::Failed(e) => format!("failed {:?}", e),
    }
}

fn pipeline_to_engine(watch: Vec<MLFeedCacheHistoryItemV3>, success: Vec<MLFeedCacheHistoryItemV3>) -> PipelineStep {
    let (machine, read) = FeedPipeline::start(
        Safety::Clean,
        "2vxsx-fae".to_string(),
        vec![pipeline_filter("f")],
        110,
        PIPELINE_LIMITS,
    );
    assert_eq!(read, pipeline_history(CacheList::WatchHistory, Safety::Clean));
    let machine = match machine.step(PipelineReply::History(watch)) {
        PipelineStep::ReadHistory(machine, read) => {
            assert_eq!(read, pipeline_history(CacheList::SuccessHistory, Safety::Clean));
            machine
        }
        other => panic!("unexpected step: {}", pipeline_name(&other)),
    };
    machine.step(PipelineReply::History(success))
}

#[test]
fn pipeline_runs_from_history_to_feed() {
    let step = pipeline_to_engine(
        vec![pipeline_record("1", "w", 0), pipeline_record("x", "dropped", 0)],
        vec![pipeline_record("2", "s", 0)],
    );
    let machine = match step {
        PipelineStep::Recommend(machine, request) => {
            assert_eq!(request.user_principal_id, "2vxsx-fae");
            assert_eq!(request.num_results, 110);
            assert_eq!(request.watch_history.len(), 1);
            assert_eq!(request.watch_history[0].video_id, "w");
            assert_eq!(request.success_history.len(), 1);
            assert_eq!(request.filter_posts.len(), 1);
            assert_eq!(machine.phase, PipelinePhase::Recommendations);
            machine
        }
        other => panic!("unexpected step: {}", pipeline_name(&other)),
    };
    let answer = vec![
        pipeline_answer("2vxsx-fae", "a", 1),
        pipeline_answer("aaaaa-aa", "w", 2),
        pipeline_answer("aaaaa-aa", "b", 3),
        pipeline_answer("2vxsx-fae", "s", 4),
        pipeline_answer("2vxsx-fae", "f", 5),
        pipeline_answer("2vxsx-fae", "a", 6),
        pipeline_answer("not an identity", "d", 8),
        pipeline_answer("2chl6-4hpzw-vqaaa-aaaaa-c", "c", 7),
    ];
    let machine = match machine.step(PipelineReply::Recommendations(answer)) {
        PipelineStep::Lookup(machine, principals) => {
            assert_eq!(principals, vec![vec![4], vec![], vec![239, 205, 171, 0, 0, 0, 0, 0, 1]]);
            assert_eq!(machine.report, FilterReport { answered: 8, accepted: 5 });
            machine
        }
        other => panic!("unexpected step: {}", pipeline_name(&other)),
    };
    let directory = vec![
        DirectoryEntry { principal: vec![4], canister_id: Some("canister-4".to_string()) },
        DirectoryEntry { principal: vec![], canister_id: None },
        DirectoryEntry {
            principal: vec![239, 205, 171, 0, 0, 0, 0, 0, 1],
            canister_id: Some("canister-c".to_string()),
        },
    ];
    match machine.step(PipelineReply::Directory(directory)) {
        PipelineStep::Done(outcome, report) => {
            assert_eq!(report, FilterReport { answered: 8, accepted: 5 });
            assert_eq!(outcome.task, None);
            let served: Vec<(&str, u64, &str, bool)> = outcome
                .posts
                .iter()
                .map(|p| (p.video_id.as_str(), p.post_id, p.canister_id.as_str(), p.is_nsfw))
                .collect();
            assert_eq!(served, vec![("a", 1, "canister-4", true), ("c", 7, "canister-c", true)]);
        }
        other => panic!("unexpected step: {}", pipeline_name(&other)),
    }
}

#[test]
fn pipeline_ends_early_when_nothing_is_accepted() {
    let machine = match pipeline_to_engine(vec![pipeline_record("1", "w", 0)], vec![]) {
        PipelineStep::Recommend(machine, _) => machine,
        other => panic!("unexpected step: {}", pipeline_name(&other)),
    };
    let answer = vec![pipeline_answer("not an identity", "w", 2), pipeline_answer("x", "f", 3)];
    match machine.step(PipelineReply::Recommendations(answer)) {
        PipelineStep::Done(outcome, report) => {
            assert!(outcome.posts.is_empty());
            assert_eq!(outcome.task, None);
            assert_eq!(report, FilterReport { answered: 2, accepted: 0 });
        }
        other => panic!("unexpected step: {}", pipeline_name(&other)),
    }
}

#[test]
fn pipeline_reports_each_failure() {
    let fail = |step: PipelineStep| match step {
        PipelineStep::Failed(e) => e,
        other => panic!("unexpected step: {}", pipeline_name(&other)),
    };
    let start =
        || FeedPipeline::start(Safety::Nsfw, "u".to_string(), vec![], 10, PIPELINE_LIMITS).0;
    assert_eq!(fail(start().step(PipelineReply::Failed)), PipelineError::HistoryUnavailable);
    assert_eq!(
        fail(start().step(PipelineReply::Directory(vec![]))),
        PipelineError::UnexpectedReply
    );
    let second = match start().step(PipelineReply::History(vec![])) {
        PipelineStep::ReadHistory(machine, _) => machine,
        other => panic!("unexpected step: {}", pipeline_name(&other)),
    };
    assert_eq!(fail(second.step(PipelineReply::Failed)), PipelineError::HistoryUnavailable);
    assert_eq!(
        fail(pipeline_to_engine(vec![pipeline_record("1", "w", MAX_CALENDAR_SECS + 1)], vec![])),
        PipelineError::TimestampOutOfCalendar
    );
    let engine = || match pipeline_to_engine(vec![], vec![]) {
        PipelineStep::Recommend(machine, _) => machine,
        other => panic!("unexpected step: {}", pipeline_name(&other)),
    };
    assert_eq!(fail(engine().step(PipelineReply::Failed)), PipelineError::EngineUnavailable);
    let lookup = match engine().step(PipelineReply::Recommendations(vec![pipeline_answer("aaaaa-aa", "a", 1)])) {
        PipelineStep::Lookup(machine, _) => machine,
        other => panic!("unexpected step: {}", pipeline_name(&other)),
    };
    assert_eq!(fail(lookup.step(PipelineReply::Failed)), PipelineError::DirectoryUnavailable);
}

#[test]
fn refresh_asks_for_three_thousand_and_excludes_nothing() {
    assert_eq!(GLOBAL_REFRESH_NUM_RESULTS, 3000);
    let (machine, request) = FeedPipeline::refresh(Safety::Clean, PIPELINE_LIMITS);
    assert_eq!(request.user_principal_id, "");
    assert_eq!(request.num_results, 3000);
    assert!(request.watch_history.is_empty());
    assert!(request.success_history.is_empty());
    assert!(request.filter_posts.is_empty());
    let answer = vec![pipeline_answer("2vxsx-fae", "a", 1), pipeline_answer("2vxsx-fae", "a", 2)];
    let machine = match machine.step(PipelineReply::Recommendations(answer)) {
        PipelineStep::Lookup(machine, principals) => {
            assert_eq!(principals, vec![vec![4]]);
            machine
        }
        other => panic!("unexpected step: {}", pipeline_name(&other)),
    };
    let directory = vec![DirectoryEntry { principal: vec![4], canister_id: Some("c".to_string()) }];
    match machine.step(PipelineReply::Directory(directory)) {
        PipelineStep::Done(outcome, _) => {
            assert_eq!(outcome.task, None);
            assert_eq!(outcome.posts.len(), 1);
            assert_eq!(outcome.posts[0].post_id, 1);
            assert_eq!(outcome.posts[0].canister_id, "c");
        }
        other => panic!("unexpected step: {}", pipeline_name(&other)),
    }
}

#[test]
fn cache_keys_are_subject_then_suffix() {
    assert_eq!(cache_key("2vxsx-fae", "_cache_clean"), "2vxsx-fae_cache_clean");
    assert_eq!(cache_key("", "global"), "global");
    assert_eq!(cache_key("abc", ""), "abc");
    assert_ne!(cache_key("a", "_watch_clean"), cache_key("a", "_watch_nsfw"));
    assert_ne!(cache_key("a", "_watch_clean"), cache_key("b", "_watch_clean"));
}

#[test]
fn named_entry_points_pick_the_safety_partition() {
    let (machine, read) = get_ml_feed_clean_v3_impl("u".to_string(), vec![], 5, PIPELINE_LIMITS);
    assert_eq!(machine.safety, Safety::Clean);
    assert_eq!(machine.num_results, 5);
    assert_eq!(read, pipeline_history(CacheList::WatchHistory, Safety::Clean));
    let (machine, read) = get_ml_feed_nsfw_v3_impl("u".to_string(), vec![], 5, PIPELINE_LIMITS);
    assert_eq!(machine.safety, Safety::Nsfw);
    assert_eq!(read, pipeline_history(CacheList::WatchHistory, Safety::Nsfw));
    let (machine, request) = get_global_cache_clean_v3(PIPELINE_LIMITS);
    assert_eq!(machine.safety, Safety::Clean);
    assert_eq!(request.num_results, 3000);
    let (machine, request) = get_global_cache_nsfw_v3(PIPELINE_LIMITS);
    assert_eq!(machine.safety, Safety::Nsfw);
    assert_eq!(request.num_results, 3000);
}

#[test]
fn key_scheme_names_each_list() {
    let scheme = KeyScheme {
        global_clean: "global_clean".to_string(),
        global_nsfw: "global_nsfw".to_string(),
        user_cache_clean: "_cache_clean".to_string(),
        user_cache_nsfw: "_cache_nsfw".to_string(),
        watch_history_clean: "_watch_clean".to_string(),
        watch_history_nsfw: "_watch_nsfw".to_string(),
        success_history_clean: "_success_clean".to_string(),
        success_history_nsfw: "_success_nsfw".to_string(),
    };
    let key = |list: CacheList, safety: Safety| scheme.list_key(ListId { list, safety }, "user");
    assert_eq!(key(CacheList::Global, Safety::Clean), "global_clean");
    assert_eq!(key(CacheList::Global, Safety::Nsfw), "global_nsfw");
    assert_eq!(key(CacheList::UserCache, Safety::Clean), "user_cache_clean");
    assert_eq!(key(CacheList::UserCache, Safety::Nsfw), "user_cache_nsfw");
    assert_eq!(key(CacheList::WatchHistory, Safety::Clean), "user_watch_clean");
    assert_eq!(key(CacheList::WatchHistory, Safety::Nsfw), "user_watch_nsfw");
    assert_eq!(key(CacheList::SuccessHistory, Safety::Clean), "user_success_clean");
    assert_eq!(key(CacheList::SuccessHistory, Safety::Nsfw), "user_success_nsfw");
}

#[test]
fn pipeline_ends_without_a_lookup_where_no_publisher_is_an_identity() {
    let machine = match pipeline_to_engine(vec![], vec![]) {
        PipelineStep::Recommend(machine, _) => machine,
        other => panic!("unexpected step: {}", pipeline_name(&other)),
    };
    let answer = vec![pipeline_answer("not an identity", "a", 1), pipeline_answer("", "b", 2)];
    match machine.step(PipelineReply::Recommendations(answer)) {
        PipelineStep::Done(outcome, report) => {
            assert!(outcome.posts.is_empty());
            assert_eq!(outcome.task, None);
            assert_eq!(report, FilterReport { answered: 2, accepted: 2 });
        }
        other => panic!("unexpected step: {}", pipeline_name(&other)),
    }
}

#[test]
fn endpoint_serves_what_was_asked_for_and_spills_the_rest() {
    let request = FeedRequest { user_id: vec![4], num_results: 2, filter_results: vec![] };
    let machine = match get_feed_clean_v3(request, PIPELINE_LIMITS) {
        Ok(FeedPlan::Pipeline { pipeline, .. }) => pipeline,
        _ => panic!("not planned as a pipeline"),
    };
    let machine = match machine.step(PipelineReply::History(vec![])) {
        PipelineStep::ReadHistory(machine, _) => machine,
        other => panic!("unexpected step: {}", pipeline_name(&other)),
    };
    let machine = match machine.step(PipelineReply::History(vec![])) {
        PipelineStep::Recommend(machine, request) => {
            assert_eq!(request.num_results, 102);
            machine
        }
        other => panic!("unexpected step: {}", pipeline_name(&other)),
    };
    let answer: Vec<MlPostItemResponseV3> =
        (0..5).map(|i| pipeline_answer("2vxsx-fae", &format!("v{}", i), i)).collect();
    let machine = match machine.step(PipelineReply::Recommendations(answer)) {
        PipelineStep::Lookup(machine, _) => machine,
        other => panic!("unexpected step: {}", pipeline_name(&other)),
    };
    let directory = vec![DirectoryEntry { principal: vec![4], canister_id: Some("c".to_string()) }];
    match machine.step(PipelineReply::Directory(directory)) {
        PipelineStep::Done(outcome, _) => {
            let served: Vec<u64> = outcome.posts.iter().map(|p| p.post_id).collect();
            assert_eq!(served, vec![0, 1]);
            match outcome.task {
                Some(PostResponseTask::WriteUserCache { list, items }) => {
                    assert_eq!(list, ListId { list: CacheList::UserCache, safety: Safety::Clean });
                    let spilled: Vec<u64> = items.iter().map(|p| p.post_id).collect();
                    assert_eq!(spilled, vec![2, 3, 4]);
                }
                None => panic!("nothing was spilled"),
            }
        }
        other => panic!("unexpected step: {}", pipeline_name(&other)),
    }
}
