use ml_feed::exclusion::ExclusionSet;
use ml_feed::history::{MLFeedCacheHistoryItem, MLFeedCacheHistoryItemV2};
use ml_feed::ml_feed_py::{
    MlPostItem, MlPostItemResponse, MlPostItemResponseV3, MlPostItemV3, SuccessHistoryItem,
    SuccessHistoryItemV3, WatchHistoryItem, WatchHistoryItemV3,
};
use ml_feed::post::{PostItem, PostItemV2};
use ml_feed::recommend::{
    build_request, build_request_v3, collect_history, exceeds_nsfw_threshold, exclusion_set,
    exclusion_set_v3, filter_response, filter_response_v3, get_ml_feed_clean_impl,
    get_ml_feed_mixed_impl, get_ml_feed_nsfw_impl, is_high_filter_rate,
};
use ml_feed::time::{Timestamp, MAX_CALENDAR_SECS};

fn recommend_history(video: &str, post_id: u64, secs: i64) -> MLFeedCacheHistoryItemV2 {
    MLFeedCacheHistoryItemV2 {
        publisher_user_id: format!("publisher-{}", video),
        canister_id: format!("canister-{}", video),
        post_id,
        video_id: video.to_string(),
        item_type: "like_video".to_string(),
        timestamp: Timestamp { secs, nanos: 0 },
        percent_watched_bits: 75.5f32.to_bits(),
    }
}

fn recommend_history_v1(video: &str, post_id: u64, secs: i64) -> MLFeedCacheHistoryItem {
    MLFeedCacheHistoryItem {
        canister_id: format!("canister-{}", video),
        post_id,
        video_id: video.to_string(),
        item_type: "share_video".to_string(),
        timestamp: Timestamp { secs, nanos: 0 },
        percent_watched_bits: 10.0f32.to_bits(),
    }
}

fn recommend_post(video: &str, post_id: u64) -> PostItemV2 {
    PostItemV2 {
        publisher_user_id: format!("publisher-{}", video),
        canister_id: String::new(),
        post_id,
        video_id: video.to_string(),
        is_nsfw: false,
    }
}

fn recommend_answer(video: &str, post_id: u32, score: f32) -> MlPostItemResponseV3 {
    MlPostItemResponseV3 {
        publisher_user_id: format!("publisher-{}", video),
        post_id,
        video_id: video.to_string(),
        nsfw_probability_bits: score.to_bits(),
    }
}

#[test]
fn two_of_five_recommendations_are_excluded() {
    let mut exclusion = ExclusionSet::new();
    exclusion.insert("b".to_string());
    exclusion.insert("d".to_string());
    let feed = vec![
        recommend_answer("a", 1, 0.0),
        recommend_answer("b", 2, 0.0),
        recommend_answer("c", 3, 0.0),
        recommend_answer("d", 4, 0.0),
        recommend_answer("e", 5, 0.0),
    ];
    let res = filter_response_v3(&feed, &exclusion);
    assert_eq!(res.len(), 3);
    let videos: Vec<&str> = res.iter().map(|p| p.video_id.as_str()).collect();
    assert_eq!(videos, vec!["a", "c", "e"]);
}

#[test]
fn accepted_recommendations_are_put_into_canonical_form() {
    let res = filter_response_v3(&vec![recommend_answer("a", 7, 0.9)], &ExclusionSet::new());
    assert_eq!(
        res,
        vec![PostItemV2 {
            publisher_user_id: "publisher-a".to_string(),
            canister_id: String::new(),
            post_id: 7,
            video_id: "a".to_string(),
            is_nsfw: true,
        }]
    );
}

#[test]
fn filter_of_the_oldest_schema_keeps_scores() {
    let mut exclusion = ExclusionSet::new();
    exclusion.insert("b".to_string());
    let answer = |video: &str, post_id: u32| MlPostItemResponse {
        canister_id: format!("canister-{}", video),
        post_id,
        video_id: video.to_string(),
        nsfw_probability_bits: 0.25f32.to_bits(),
    };
    let res = filter_response(&vec![answer("a", 1), answer("b", 2), answer("a", 3)], &exclusion);
    assert_eq!(
        res,
        vec![
            PostItem {
                canister_id: "canister-a".to_string(),
                post_id: 1,
                video_id: "a".to_string(),
                nsfw_probability_bits: 0.25f32.to_bits(),
            },
            PostItem {
                canister_id: "canister-a".to_string(),
                post_id: 3,
                video_id: "a".to_string(),
                nsfw_probability_bits: 0.25f32.to_bits(),
            },
        ]
    );
}

#[test]
fn safety_flag_follows_the_comparison_of_scores() {
    let samples: [f32; 18] = [
        0.0,
        -0.0,
        0.1,
        0.39999998,
        0.4,
        0.40000004,
        0.41,
        0.5,
        1.0,
        2.5,
        -0.5,
        -1.0,
        f32::MIN_POSITIVE,
        f32::MAX,
        f32::MIN,
        f32::INFINITY,
        f32::NEG_INFINITY,
        f32::NAN,
    ];
    for score in samples {
        assert_eq!(exceeds_nsfw_threshold(score.to_bits()), score > 0.4, "on {}", score);
    }
    assert!(!exceeds_nsfw_threshold((-f32::NAN).to_bits()));
    assert!(!exceeds_nsfw_threshold(0x7FC0_0001));
    assert!(!exceeds_nsfw_threshold(0.4f32.to_bits()));
    assert!(exceeds_nsfw_threshold(0.4f32.to_bits() + 1));
}

#[test]
fn filter_rate_is_high_above_twenty_removed() {
    assert!(!is_high_filter_rate(100, 100));
    assert!(!is_high_filter_rate(100, 80));
    assert!(is_high_filter_rate(100, 79));
    assert!(is_high_filter_rate(21, 0));
    assert!(!is_high_filter_rate(20, 0));
    assert!(!is_high_filter_rate(0, 5));
}

#[test]
fn exclusion_set_is_the_union_of_filter_and_histories() {
    let exclusion = exclusion_set_v3(
        &vec![recommend_post("a", 1)],
        &vec![recommend_history("b", 2, 0)],
        &vec![recommend_history("c", 3, 0), recommend_history("a", 4, 0)],
    );
    for video in ["a", "b", "c"] {
        assert!(exclusion.contains(&video.to_string()));
    }
    assert!(!exclusion.contains(&"d".to_string()));
    assert!(!exclusion.contains(&String::new()));

    let post = PostItem {
        canister_id: "c".to_string(),
        post_id: 1,
        video_id: "x".to_string(),
        nsfw_probability_bits: 0,
    };
    let exclusion = exclusion_set(
        &vec![post],
        &vec![recommend_history_v1("y", 2, 0)],
        &vec![recommend_history_v1("z", 3, 0)],
    );
    for video in ["x", "y", "z"] {
        assert!(exclusion.contains(&video.to_string()));
    }
    assert!(!exclusion.contains(&"a".to_string()));
}

#[test]
fn request_holds_one_message_per_record_and_exclusion() {
    let request = build_request_v3(
        "user".to_string(),
        &vec![recommend_history("w", (1u64 << 32) + 5, 1_431_648_000)],
        &vec![recommend_history("s", 6, 0)],
        &vec![recommend_post("f", u64::MAX)],
        150,
    )
    .expect("every time lies within the calendar");
    assert_eq!(request.user_principal_id, "user");
    assert_eq!(request.num_results, 150);
    assert_eq!(
        request.watch_history,
        vec![WatchHistoryItemV3 {
            post_id: 5,
            publisher_user_id: "publisher-w".to_string(),
            video_id: "w".to_string(),
            percent_watched_bits: 75.5f32.to_bits(),
            timestamp: "2015-05-15T00:00:00+00:00".to_string(),
        }]
    );
    assert_eq!(
        request.success_history,
        vec![SuccessHistoryItemV3 {
            post_id: 6,
            publisher_user_id: "publisher-s".to_string(),
            video_id: "s".to_string(),
            item_type: "like_video".to_string(),
            percent_watched_bits: 75.5f32.to_bits(),
            timestamp: "1970-01-01T00:00:00+00:00".to_string(),
        }]
    );
    assert_eq!(
        request.filter_posts,
        vec![MlPostItemV3 {
            publisher_user_id: "publisher-f".to_string(),
            post_id: u32::MAX,
            video_id: "f".to_string(),
        }]
    );
}

#[test]
fn request_of_the_oldest_schema_holds_storage_locations() {
    let post = PostItem {
        canister_id: "canister-f".to_string(),
        post_id: 9,
        video_id: "f".to_string(),
        nsfw_probability_bits: 0,
    };
    let request = build_request(
        "canister".to_string(),
        &vec![recommend_history_v1("w", 1, 0)],
        &vec![recommend_history_v1("s", 2, 60)],
        &vec![post],
        30,
    )
    .expect("every time lies within the calendar");
    assert_eq!(request.canister_id, "canister");
    assert_eq!(request.num_results, 30);
    assert_eq!(
        request.watch_history,
        vec![WatchHistoryItem {
            post_id: 1,
            canister_id: "canister-w".to_string(),
            video_id: "w".to_string(),
            percent_watched_bits: 10.0f32.to_bits(),
            timestamp: "1970-01-01T00:00:00+00:00".to_string(),
        }]
    );
    assert_eq!(
        request.success_history,
        vec![SuccessHistoryItem {
            post_id: 2,
            canister_id: "canister-s".to_string(),
            video_id: "s".to_string(),
            item_type: "share_video".to_string(),
            percent_watched_bits: 10.0f32.to_bits(),
            timestamp: "1970-01-01T00:01:00+00:00".to_string(),
        }]
    );
    assert_eq!(
        request.filter_posts,
        vec![MlPostItem {
            canister_id: "canister-f".to_string(),
            post_id: 9,
            video_id: "f".to_string(),
        }]
    );
}

#[test]
fn request_is_refused_for_a_time_beyond_the_calendar() {
    let beyond = recommend_history("w", 1, MAX_CALENDAR_SECS + 1);
    assert!(build_request_v3("u".to_string(), &vec![beyond], &vec![], &vec![], 1).is_none());
    let beyond = recommend_history("w", 1, MAX_CALENDAR_SECS + 1);
    assert!(build_request_v3("u".to_string(), &vec![], &vec![beyond], &vec![], 1).is_none());
    let mut bad_nanos = recommend_history("w", 1, 0);
    bad_nanos.timestamp.nanos = 1_000_000_000;
    assert!(build_request_v3("u".to_string(), &vec![bad_nanos], &vec![], &vec![], 1).is_none());
    let last = recommend_history("w", 1, MAX_CALENDAR_SECS);
    assert!(build_request_v3("u".to_string(), &vec![last], &vec![], &vec![], 1).is_some());
    let beyond = recommend_history_v1("w", 1, i64::MIN);
    assert!(build_request("c".to_string(), &vec![beyond], &vec![], &vec![], 1).is_none());
}

#[test]
fn mixed_history_is_clean_then_restricted() {
    let clean = vec![recommend_history_v1("a", 1, 0), recommend_history_v1("b", 2, 0)];
    let nsfw = vec![recommend_history_v1("c", 3, 0)];
    let videos = |records: Vec<MLFeedCacheHistoryItem>| {
        records.into_iter().map(|r| r.video_id).collect::<Vec<String>>()
    };
    assert_eq!(
        videos(collect_history(Some(clean), Some(nsfw))),
        vec!["a".to_string(), "b".to_string(), "c".to_string()]
    );
    let nsfw = vec![recommend_history_v1("c", 3, 0)];
    assert_eq!(videos(collect_history(None, Some(nsfw))), vec!["c".to_string()]);
    let clean = vec![recommend_history_v1("a", 1, 0)];
    assert_eq!(videos(collect_history(Some(clean), None)), vec!["a".to_string()]);
    assert!(collect_history(None, None).is_empty());
}

#[test]
fn mixed_feed_asks_with_both_partitions_and_excludes_both() {
    let filter = vec![PostItem {
        canister_id: "c".to_string(),
        post_id: 1,
        video_id: "f".to_string(),
        nsfw_probability_bits: 0,
    }];
    let prepared = get_ml_feed_mixed_impl(
        "canister".to_string(),
        Some(vec![recommend_history_v1("wc", 1, 0)]),
        Some(vec![recommend_history_v1("wn", 2, 0)]),
        None,
        Some(vec![recommend_history_v1("sn", 3, 0)]),
        &filter,
        40,
    )
    .expect("every time lies within the calendar");
    let watched: Vec<&str> =
        prepared.request.watch_history.iter().map(|m| m.video_id.as_str()).collect();
    assert_eq!(watched, vec!["wc", "wn"]);
    let succeeded: Vec<&str> =
        prepared.request.success_history.iter().map(|m| m.video_id.as_str()).collect();
    assert_eq!(succeeded, vec!["sn"]);
    assert_eq!(prepared.request.num_results, 40);
    assert_eq!(prepared.request.canister_id, "canister");
    for video in ["f", "wc", "wn", "sn"] {
        assert!(prepared.exclusion.contains(&video.to_string()));
    }
    assert!(!prepared.exclusion.contains(&"sc".to_string()));
}

#[test]
fn single_partition_feeds_prepare_request_and_exclusion() {
    let watch = vec![recommend_history_v1("w", 1, 0)];
    let success = vec![recommend_history_v1("s", 2, 0)];
    let prepared = get_ml_feed_clean_impl("canister".to_string(), &watch, &success, &vec![], 10)
        .expect("every time lies within the calendar");
    assert_eq!(prepared.request.watch_history.len(), 1);
    assert_eq!(prepared.request.success_history.len(), 1);
    assert!(prepared.exclusion.contains(&"w".to_string()));
    assert!(prepared.exclusion.contains(&"s".to_string()));
    let prepared = get_ml_feed_nsfw_impl("canister".to_string(), &watch, &vec![], &vec![], 10)
        .expect("every time lies within the calendar");
    assert_eq!(prepared.request.num_results, 10);
    assert!(!prepared.exclusion.contains(&"s".to_string()));
    let beyond = vec![recommend_history_v1("w", 1, MAX_CALENDAR_SECS + 1)];
    assert!(get_ml_feed_clean_impl("c".to_string(), &beyond, &vec![], &vec![], 1).is_none());
}
