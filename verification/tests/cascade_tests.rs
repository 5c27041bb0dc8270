use ml_feed::cache::{CacheLimits, CacheList, CacheRead, ListId, Safety, Schema};
use ml_feed::cascade::{
    get_coldstart_clean_cache_input_impl, get_coldstart_clean_cache_input_user_impl,
    get_coldstart_clean_cache_noinput_impl, get_coldstart_clean_cache_noinput_user_impl,
    get_coldstart_nsfw_cache_input_impl, get_coldstart_nsfw_cache_input_user_impl,
    get_coldstart_nsfw_cache_noinput_impl, get_coldstart_nsfw_cache_noinput_user_impl, CacheReply,
    Cascade, CascadeError, CascadeState, Phase, Step,
};
use ml_feed::history::{MLFeedCacheHistoryItemV2, MLFeedCacheHistoryItemV3};
use ml_feed::post::{PostItemV2, PostItemV3};
use ml_feed::time::Timestamp;

const CASCADE_LIMITS: CacheLimits =
    CacheLimits { max_global_cache_len: 3000, max_watch_history_cache_len: 5000 };

fn cascade_list(list: CacheList) -> ListId {
    ListId { list, safety: Safety::Clean }
}

fn cascade_v3(post_id: &str, video: &str) -> PostItemV3 {
    PostItemV3 {
        publisher_user_id: format!("publisher-{}", video),
        canister_id: format!("canister-{}", video),
        post_id: post_id.to_string(),
        video_id: video.to_string(),
        is_nsfw: false,
    }
}

fn cascade_v2(post_id: u64, video: &str) -> PostItemV2 {
    PostItemV2 {
        publisher_user_id: format!("publisher-{}", video),
        canister_id: format!("canister-{}", video),
        post_id,
        video_id: video.to_string(),
        is_nsfw: true,
    }
}

fn cascade_watched_v3(video: &str) -> MLFeedCacheHistoryItemV3 {
    MLFeedCacheHistoryItemV3 {
        publisher_user_id: "p".to_string(),
        canister_id: "c".to_string(),
        post_id: "not a number".to_string(),
        video_id: video.to_string(),
        item_type: "video_watched".to_string(),
        timestamp: Timestamp { secs: 1, nanos: 0 },
        percent_watched_bits: 0,
    }
}

fn cascade_watched_v2(video: &str) -> MLFeedCacheHistoryItemV2 {
    MLFeedCacheHistoryItemV2 {
        publisher_user_id: "p".to_string(),
        canister_id: "c".to_string(),
        post_id: 1,
        video_id: video.to_string(),
        item_type: "video_watched".to_string(),
        timestamp: Timestamp { secs: 1, nanos: 0 },
        percent_watched_bits: 0,
    }
}

fn cascade_global_cache() -> Vec<PostItemV3> {
    (0..10).map(|i| cascade_v3(&i.to_string(), &format!("video{}", i))).collect()
}

fn cascade_sorted_videos(posts: &[PostItemV2]) -> Vec<String> {
    let mut videos: Vec<String> = posts.iter().map(|p| p.video_id.clone()).collect();
    videos.sort();
    videos
}

fn cascade_expect_read(step: Step) -> (Cascade, CacheRead) {
    match step {
        Step::Read(machine, read) => (machine, read),
        Step::Done(_) => panic!("the cascade ended with a feed"),
        Step::Failed(e) => panic!("the cascade failed: {:?}", e),
    }
}

fn cascade_expect_done(step: Step) -> Vec<PostItemV2> {
    match step {
        Step::Done(feed) => feed,
        Step::Read(_, read) => panic!("the cascade asked for {:?}", read),
        Step::Failed(e) => panic!("the cascade failed: {:?}", e),
    }
}

fn cascade_expect_failed(step: Step) -> CascadeError {
    match step {
        Step::Failed(e) => e,
        Step::Read(_, read) => panic!("the cascade asked for {:?}", read),
        Step::Done(_) => panic!("the cascade ended with a feed"),
    }
}

#[test]
fn single_anonymous_request_samples_the_global_cache() {
    let global = cascade_global_cache();
    for _ in 0..50 {
        let (machine, read) = Cascade::start(Safety::Clean, true, 1, vec![], CASCADE_LIMITS);
        assert_eq!(machine.state, CascadeState::SingleAnonymous);
        assert_eq!(read, CacheRead::Len { list: cascade_list(CacheList::Global) });
        let (machine, read) = cascade_expect_read(machine.step(CacheReply::Len(10)));
        let index = match read {
            CacheRead::Items { list, schema: Schema::V3, start, end } => {
                assert_eq!(list, cascade_list(CacheList::Global));
                assert!(start < 10);
                assert_eq!(end, start + 1);
                start as usize
            }
            other => panic!("unexpected read {:?}", other),
        };
        let feed = cascade_expect_done(machine.step(CacheReply::ItemsV3(vec![global[index].clone()])));
        assert_eq!(feed.len(), 1);
        assert_eq!(feed[0].video_id, global[index].video_id);
        assert_eq!(feed[0].post_id, index as u64);
    }
}

#[test]
fn single_identified_request_with_empty_personal_cache_samples_the_global_cache() {
    let global = cascade_global_cache();
    let (machine, read) = Cascade::start(Safety::Clean, false, 1, vec![], CASCADE_LIMITS);
    assert_eq!(machine.state, CascadeState::SingleIdentified);
    assert_eq!(read, CacheRead::Len { list: cascade_list(CacheList::UserCache) });
    let (machine, read) = cascade_expect_read(machine.step(CacheReply::Len(0)));
    assert_eq!(machine.state, CascadeState::SingleAnonymous);
    assert_eq!(read, CacheRead::Len { list: cascade_list(CacheList::Global) });
    let (machine, read) = cascade_expect_read(machine.step(CacheReply::Len(10)));
    let index = match read {
        CacheRead::Items { list, schema: Schema::V3, start, end }
            if end == start + 1 && list == cascade_list(CacheList::Global) =>
        {
            start as usize
        }
        other => panic!("unexpected read {:?}", other),
    };
    assert!(index < 10);
    let feed = cascade_expect_done(machine.step(CacheReply::ItemsV3(vec![global[index].clone()])));
    assert_eq!(feed.len(), 1);
    assert_eq!(feed[0].video_id, global[index].video_id);
}

#[test]
fn single_identified_request_takes_one_unwatched_item_of_the_personal_cache() {
    let filter = vec![cascade_v2(9, "video2")];
    let (machine, _) = Cascade::start(Safety::Clean, false, 1, filter, CASCADE_LIMITS);
    let (machine, read) = cascade_expect_read(machine.step(CacheReply::Len(3)));
    assert_eq!(machine.state, CascadeState::BulkIdentified);
    assert_eq!(machine.count, 1);
    assert!(machine.filter_results.is_empty());
    assert_eq!(read, CacheRead::Len { list: cascade_list(CacheList::UserCache) });
    let (machine, read) = cascade_expect_read(machine.step(CacheReply::Len(3)));
    assert_eq!(machine.phase, Phase::WatchHistory);
    assert_eq!(read, CacheRead::History {
            list: cascade_list(CacheList::WatchHistory),
            schema: Schema::V3,
            start: 0,
            end: 5000
        });
    let (machine, read) =
        cascade_expect_read(machine.step(CacheReply::HistoryV3(vec![cascade_watched_v3("video0")])));
    assert_eq!(read, CacheRead::Items {
            list: cascade_list(CacheList::UserCache),
            schema: Schema::V3,
            start: 0,
            end: 3
        });
    let items = vec![cascade_v3("0", "video0"), cascade_v3("1", "video1"), cascade_v3("2", "video2")];
    let feed = cascade_expect_done(machine.step(CacheReply::ItemsV3(items)));
    assert_eq!(feed.len(), 1);
    assert!(feed[0].video_id == "video1" || feed[0].video_id == "video2");
}

#[test]
fn bulk_request_with_empty_personal_cache_reads_the_global_list() {
    let (machine, read) = Cascade::start(Safety::Clean, false, 4, vec![], CASCADE_LIMITS);
    assert_eq!(machine.state, CascadeState::BulkIdentified);
    assert_eq!(read, CacheRead::Len { list: cascade_list(CacheList::UserCache) });
    let (machine, read) = cascade_expect_read(machine.step(CacheReply::Len(0)));
    assert_eq!(machine.state, CascadeState::BulkGlobal);
    assert_eq!(read, CacheRead::Items {
            list: cascade_list(CacheList::Global),
            schema: Schema::V3,
            start: 0,
            end: 3000
        });
    let feed = cascade_expect_done(machine.step(CacheReply::ItemsV3(cascade_global_cache())));
    assert_eq!(feed.len(), 4);
    let videos = cascade_sorted_videos(&feed);
    let mut unique = videos.clone();
    unique.dedup();
    assert_eq!(videos, unique);
    assert!(videos.iter().all(|v| v.starts_with("video")));
}

#[test]
fn bulk_anonymous_request_goes_through_the_personal_cache_state() {
    let (machine, read) = Cascade::start(Safety::Clean, true, 2, vec![], CASCADE_LIMITS);
    assert_eq!(machine.state, CascadeState::BulkIdentified);
    assert_eq!(read, CacheRead::Len { list: cascade_list(CacheList::UserCache) });
    let (machine, read) = Cascade::start(Safety::Clean, true, 0, vec![], CASCADE_LIMITS);
    assert_eq!(machine.state, CascadeState::BulkIdentified);
    assert!(!machine.take_first);
    assert_eq!(read, CacheRead::Len { list: cascade_list(CacheList::UserCache) });
}

#[test]
fn bulk_request_excludes_watched_and_filtered_items() {
    let filter = vec![cascade_v2(77, "video3")];
    let (machine, _) = Cascade::start(Safety::Clean, false, 10, filter, CASCADE_LIMITS);
    let (machine, _) = cascade_expect_read(machine.step(CacheReply::Len(6)));
    let history = vec![cascade_watched_v2("video1"), cascade_watched_v2("video1")];
    let (machine, read) = cascade_expect_read(machine.step(CacheReply::HistoryV2(history)));
    assert_eq!(read, CacheRead::Items {
            list: cascade_list(CacheList::UserCache),
            schema: Schema::V3,
            start: 0,
            end: 6
        });
    let items = vec![
        cascade_v2(0, "video0"),
        cascade_v2(1, "video1"),
        cascade_v2(2, "video2"),
        cascade_v2(3, "video3"),
        cascade_v2(4, "video0"),
        cascade_v2(5, "video5"),
    ];
    let feed = cascade_expect_done(machine.step(CacheReply::ItemsV2(items)));
    assert_eq!(cascade_sorted_videos(&feed), vec!["video0", "video2", "video5"]);
    let first_video0 = feed.iter().find(|p| p.video_id == "video0").unwrap();
    assert_eq!(first_video0.post_id, 0);
}

#[test]
fn cascade_reports_each_failed_read() {
    let (machine, _) = Cascade::start(Safety::Clean, true, 1, vec![], CASCADE_LIMITS);
    assert_eq!(cascade_expect_failed(machine.step(CacheReply::Failed)), CascadeError::LenUnavailable);

    let (machine, _) = Cascade::start(Safety::Clean, true, 1, vec![], CASCADE_LIMITS);
    let (machine, _) = cascade_expect_read(machine.step(CacheReply::Len(3)));
    assert_eq!(cascade_expect_failed(machine.step(CacheReply::Failed)), CascadeError::PostUnavailable);

    let (machine, _) = Cascade::start(Safety::Clean, false, 5, vec![], CASCADE_LIMITS);
    assert_eq!(cascade_expect_failed(machine.step(CacheReply::Failed)), CascadeError::LenUnavailable);

    let (machine, _) = Cascade::start(Safety::Clean, false, 5, vec![], CASCADE_LIMITS);
    let (machine, _) = cascade_expect_read(machine.step(CacheReply::Len(0)));
    assert_eq!(
        cascade_expect_failed(machine.step(CacheReply::Failed)),
        CascadeError::GlobalFeedUnavailable
    );

    let (machine, _) = Cascade::start(Safety::Clean, false, 5, vec![], CASCADE_LIMITS);
    let (machine, _) = cascade_expect_read(machine.step(CacheReply::Len(2)));
    assert_eq!(
        cascade_expect_failed(machine.step(CacheReply::Failed)),
        CascadeError::WatchHistoryUnavailable
    );

    let (machine, _) = Cascade::start(Safety::Clean, false, 5, vec![], CASCADE_LIMITS);
    let (machine, _) = cascade_expect_read(machine.step(CacheReply::Len(2)));
    let (machine, _) = cascade_expect_read(machine.step(CacheReply::HistoryV3(vec![])));
    assert_eq!(
        cascade_expect_failed(machine.step(CacheReply::Failed)),
        CascadeError::UserCacheUnavailable
    );
}

#[test]
fn cascade_fails_on_an_empty_global_cache() {
    let (machine, _) = Cascade::start(Safety::Clean, true, 1, vec![], CASCADE_LIMITS);
    assert_eq!(cascade_expect_failed(machine.step(CacheReply::Len(0))), CascadeError::EmptyCache);
}

#[test]
fn cascade_fails_when_the_single_item_is_not_there() {
    let (machine, _) = Cascade::start(Safety::Clean, true, 1, vec![], CASCADE_LIMITS);
    let (machine, _) = cascade_expect_read(machine.step(CacheReply::Len(1)));
    let unparseable = vec![cascade_v3("not-a-number", "video0")];
    assert_eq!(
        cascade_expect_failed(machine.step(CacheReply::ItemsV3(unparseable))),
        CascadeError::NoItem
    );
}

#[test]
fn cascade_rejects_a_reply_to_another_read() {
    let (machine, _) = Cascade::start(Safety::Clean, true, 1, vec![], CASCADE_LIMITS);
    assert_eq!(
        cascade_expect_failed(machine.step(CacheReply::ItemsV2(vec![]))),
        CascadeError::UnexpectedReply
    );
    let (machine, _) = Cascade::start(Safety::Clean, false, 3, vec![], CASCADE_LIMITS);
    let (machine, _) = cascade_expect_read(machine.step(CacheReply::Len(2)));
    assert_eq!(
        cascade_expect_failed(machine.step(CacheReply::Len(2))),
        CascadeError::UnexpectedReply
    );
}

fn cascade_global_draw(items: Vec<PostItemV3>, count: u32) -> Vec<PostItemV2> {
    let (machine, read) = get_coldstart_clean_cache_input_impl(count, CASCADE_LIMITS);
    assert_eq!(machine.state, CascadeState::BulkGlobal);
    assert_eq!(
        read,
        CacheRead::Items {
            list: cascade_list(CacheList::Global),
            schema: Schema::V3,
            start: 0,
            end: 3000
        }
    );
    cascade_expect_done(machine.step(CacheReply::ItemsV3(items)))
}

#[test]
fn global_draw_returns_the_requested_count() {
    for count in 0..=10u32 {
        let feed = cascade_global_draw(cascade_global_cache(), count);
        assert_eq!(feed.len(), count as usize);
        let videos = cascade_sorted_videos(&feed);
        let mut unique = videos.clone();
        unique.dedup();
        assert_eq!(videos, unique);
    }
}

#[test]
fn global_draw_returns_the_whole_pool_when_more_is_asked_for() {
    let mut items = cascade_global_cache();
    items.push(cascade_v3("100", "video3"));
    items.push(cascade_v3("oops", "video99"));
    let feed = cascade_global_draw(items, 25);
    let expected: Vec<String> = {
        let mut v: Vec<String> = (0..10).map(|i| format!("video{}", i)).collect();
        v.sort();
        v
    };
    assert_eq!(cascade_sorted_videos(&feed), expected);
    let video3 = feed.iter().find(|p| p.video_id == "video3").unwrap();
    assert_eq!(video3.post_id, 3);
}

#[test]
fn global_draw_is_not_always_in_cache_order() {
    let in_order: Vec<String> = (0..10).map(|i| format!("video{}", i)).collect();
    let mut saw_other_order = false;
    for _ in 0..64 {
        let (machine, read) = get_coldstart_nsfw_cache_input_impl(10, CASCADE_LIMITS);
        assert_eq!(
            read,
            CacheRead::Items {
                list: ListId { list: CacheList::Global, safety: Safety::Nsfw },
                schema: Schema::V2,
                start: 0,
                end: 3000
            }
        );
        let items = (0..10).map(|i| cascade_v2(i, &format!("video{}", i))).collect();
        let feed = cascade_expect_done(machine.step(CacheReply::ItemsV2(items)));
        let videos: Vec<String> = feed.iter().map(|p| p.video_id.clone()).collect();
        if videos != in_order {
            saw_other_order = true;
        }
    }
    assert!(saw_other_order);
}

#[test]
fn personal_draw_excludes_history_and_filter() {
    let filter = vec![cascade_v2(0, "video2")];
    let (machine, read) = get_coldstart_clean_cache_input_user_impl(10, filter, CASCADE_LIMITS);
    assert_eq!(machine.state, CascadeState::BulkIdentified);
    assert_eq!(read, CacheRead::Len { list: cascade_list(CacheList::UserCache) });
    let (machine, _) = cascade_expect_read(machine.step(CacheReply::Len(5)));
    let (machine, _) =
        cascade_expect_read(machine.step(CacheReply::HistoryV3(vec![cascade_watched_v3("video1")])));
    let items = vec![
        cascade_v3("1", "video1"),
        cascade_v3("2", "video2"),
        cascade_v3("3", "video3"),
        cascade_v3("4", "video4"),
        cascade_v3("5", "video3"),
    ];
    let feed = cascade_expect_done(machine.step(CacheReply::ItemsV3(items)));
    assert_eq!(cascade_sorted_videos(&feed), vec!["video3", "video4"]);
    assert_eq!(feed.iter().find(|p| p.video_id == "video3").unwrap().post_id, 3);
}

#[test]
fn personal_draw_of_restricted_items_excludes_history_and_filter() {
    let filter = vec![cascade_v2(0, "video2")];
    let (machine, read) = get_coldstart_nsfw_cache_input_user_impl(1, filter, CASCADE_LIMITS);
    assert_eq!(
        read,
        CacheRead::Len { list: ListId { list: CacheList::UserCache, safety: Safety::Nsfw } }
    );
    let (machine, _) = cascade_expect_read(machine.step(CacheReply::Len(3)));
    let (machine, _) =
        cascade_expect_read(machine.step(CacheReply::HistoryV2(vec![cascade_watched_v2("video1")])));
    let items = vec![cascade_v2(1, "video1"), cascade_v2(2, "video2"), cascade_v2(3, "video3")];
    let feed = cascade_expect_done(machine.step(CacheReply::ItemsV2(items)));
    assert_eq!(cascade_sorted_videos(&feed), vec!["video3"]);
}

#[test]
fn sampled_items_are_normalised_and_deduplicated() {
    let (machine, read) = get_coldstart_clean_cache_noinput_impl(CASCADE_LIMITS);
    assert_eq!(machine.state, CascadeState::SingleAnonymous);
    assert_eq!(read, CacheRead::Len { list: cascade_list(CacheList::Global) });
    let (machine, _) = cascade_expect_read(machine.step(CacheReply::Len(3)));
    let feed = cascade_expect_done(machine.step(CacheReply::ItemsV3(vec![
        cascade_v3("7", "a"),
        cascade_v3("x", "b"),
        cascade_v3("8", "a"),
    ])));
    assert_eq!(feed.len(), 1);
    assert_eq!(feed[0].post_id, 7);

    let (machine, _) = get_coldstart_nsfw_cache_noinput_impl(CASCADE_LIMITS);
    let (machine, _) = cascade_expect_read(machine.step(CacheReply::Len(3)));
    let feed = cascade_expect_done(
        machine.step(CacheReply::ItemsV2(vec![cascade_v2(7, "a"), cascade_v2(8, "a")])),
    );
    assert_eq!(feed.len(), 1);
    assert_eq!(feed[0].post_id, 7);

    let (machine, _) = get_coldstart_clean_cache_noinput_impl(CASCADE_LIMITS);
    let (machine, _) = cascade_expect_read(machine.step(CacheReply::Len(3)));
    let feed = cascade_expect_done(machine.step(CacheReply::ItemsV3(vec![cascade_v3("x", "b")])));
    assert!(feed.is_empty());
}

#[test]
fn identified_single_item_function_falls_back_to_the_global_sample() {
    let global = cascade_global_cache();
    let starts: [fn(CacheLimits) -> (Cascade, CacheRead); 2] =
        [get_coldstart_clean_cache_noinput_user_impl, get_coldstart_nsfw_cache_noinput_user_impl];
    for start in starts {
        let (machine, read) = start(CASCADE_LIMITS);
        let safety = machine.safety;
        assert_eq!(machine.state, CascadeState::SingleIdentified);
        assert_eq!(read, CacheRead::Len { list: ListId { list: CacheList::UserCache, safety } });
        let (machine, read) = cascade_expect_read(machine.step(CacheReply::Len(0)));
        assert_eq!(machine.state, CascadeState::SingleAnonymous);
        assert_eq!(read, CacheRead::Len { list: ListId { list: CacheList::Global, safety } });
        let (machine, read) = cascade_expect_read(machine.step(CacheReply::Len(10)));
        let index = match read {
            CacheRead::Items { list, start, end, .. } => {
                assert_eq!(list, ListId { list: CacheList::Global, safety });
                assert_eq!(end, start + 1);
                start as usize
            }
            other => panic!("unexpected read {:?}", other),
        };
        let feed =
            cascade_expect_done(machine.step(CacheReply::ItemsV3(vec![global[index].clone()])));
        assert_eq!(feed.len(), 1);
        assert_eq!(feed[0].video_id, global[index].video_id);
    }
}

#[test]
fn identified_single_item_function_draws_one_from_the_personal_cache() {
    let (machine, _) = get_coldstart_clean_cache_noinput_user_impl(CASCADE_LIMITS);
    let (machine, read) = cascade_expect_read(machine.step(CacheReply::Len(2)));
    assert_eq!(machine.count, 1);
    assert_eq!(read, CacheRead::Len { list: cascade_list(CacheList::UserCache) });
    let (machine, _) = cascade_expect_read(machine.step(CacheReply::Len(2)));
    let (machine, _) = cascade_expect_read(machine.step(CacheReply::HistoryV3(vec![])));
    let items = vec![cascade_v3("1", "video1"), cascade_v3("2", "video2")];
    let feed = cascade_expect_done(machine.step(CacheReply::ItemsV3(items)));
    assert_eq!(feed.len(), 1);
}

#[test]
fn restricted_cascade_reads_the_restricted_lists_in_the_numeric_schema() {
    let nsfw = |list: CacheList| ListId { list, safety: Safety::Nsfw };
    let (machine, read) = Cascade::start(Safety::Nsfw, true, 1, vec![], CASCADE_LIMITS);
    assert_eq!(read, CacheRead::Len { list: nsfw(CacheList::Global) });
    let (machine, read) = cascade_expect_read(machine.step(CacheReply::Len(1)));
    assert_eq!(
        read,
        CacheRead::Items { list: nsfw(CacheList::Global), schema: Schema::V2, start: 0, end: 1 }
    );
    let feed = cascade_expect_done(machine.step(CacheReply::ItemsV2(vec![cascade_v2(3, "x")])));
    assert_eq!(feed, vec![cascade_v2(3, "x")]);

    let (machine, read) = Cascade::start(Safety::Nsfw, false, 7, vec![], CASCADE_LIMITS);
    assert_eq!(read, CacheRead::Len { list: nsfw(CacheList::UserCache) });
    let (machine, read) = cascade_expect_read(machine.step(CacheReply::Len(2)));
    assert_eq!(
        read,
        CacheRead::History {
            list: nsfw(CacheList::WatchHistory),
            schema: Schema::V2,
            start: 0,
            end: 5000
        }
    );
    let (_, read) = cascade_expect_read(machine.step(CacheReply::HistoryV2(vec![])));
    assert_eq!(
        read,
        CacheRead::Items { list: nsfw(CacheList::UserCache), schema: Schema::V2, start: 0, end: 2 }
    );
}
