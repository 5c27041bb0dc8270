use ml_feed::ml_feed_impl::{
    feed_response_logic, feed_response_logic_without_caching, get_feed_coldstart,
    get_feed_request_logic, get_feed_request_logic_nsfw, ledger_of, send_to_ml_feed_cache,
    send_to_offchain, video_uri, CustomMlFeedCacheItem, FeedRequest, FilterPost, LedgerSuccessItem,
    LedgerWatchItem, PostItemResponse,
};
use ml_feed::ml_feed_py::{MlPostItem, MlPostItemResponse, SuccessHistoryItem, WatchHistoryItem};
use ml_feed::time::SystemTime;

fn impl_request(num_results: u32) -> FeedRequest {
    FeedRequest {
        canister_id: "aaaaa-aa".to_string(),
        filter_posts: vec![FilterPost {
            canister_id: "c9".to_string(),
            post_id: 9,
            video_id: "abc".to_string(),
        }],
        num_results,
    }
}

fn impl_watch(secs: u64) -> LedgerWatchItem {
    LedgerWatchItem {
        post_id: (3u64 << 32) + 11,
        publisher_canister_id: vec![4],
        cf_video_id: "w".to_string(),
        percentage_watched_bits: 33.0f32.to_bits(),
        viewed_at: SystemTime { nanos_since_epoch: 0, secs_since_epoch: secs },
    }
}

fn impl_success(secs: u64) -> LedgerSuccessItem {
    LedgerSuccessItem {
        post_id: 12,
        publisher_canister_id: vec![],
        cf_video_id: "s".to_string(),
        percentage_watched_bits: 66.0f32.to_bits(),
        interacted_at: SystemTime { nanos_since_epoch: 2_000_000_000, secs_since_epoch: secs },
        item_type: "like_video".to_string(),
    }
}

fn impl_answer(canister: &str, post_id: u32) -> MlPostItemResponse {
    MlPostItemResponse {
        canister_id: canister.to_string(),
        post_id,
        video_id: format!("v{}", post_id),
        nsfw_probability_bits: 0,
    }
}

fn impl_item(canister: &str, post_id: u32) -> PostItemResponse {
    PostItemResponse { canister_id: canister.to_string(), post_id }
}

#[test]
fn video_files_are_named_after_the_media() {
    assert_eq!(video_uri("abc"), "gs://yral-videos/abc.mp4");
    assert_eq!(video_uri(""), "gs://yral-videos/.mp4");
}

#[test]
fn ledger_is_addressed_by_identity() {
    assert_eq!(ledger_of("aaaaa-aa"), Some(vec![]));
    assert_eq!(ledger_of("2vxsx-fae"), Some(vec![4]));
    assert_eq!(ledger_of("nobody"), None);
    assert_eq!(ledger_of(""), None);
}

#[test]
fn request_logic_adds_fifteen() {
    let request =
        get_feed_request_logic(impl_request(20), Some(vec![impl_watch(0)]), Some(vec![impl_success(58)]))
            .expect("the records can be put into messages");
    assert_eq!(request.canister_id, "aaaaa-aa");
    assert_eq!(request.num_results, 35);
    assert_eq!(
        request.watch_history,
        vec![WatchHistoryItem {
            post_id: 11,
            canister_id: "2vxsx-fae".to_string(),
            video_id: "gs://yral-videos/w.mp4".to_string(),
            percent_watched_bits: 33.0f32.to_bits(),
            timestamp: "1970-01-01T00:00:00+00:00".to_string(),
        }]
    );
    assert_eq!(
        request.success_history,
        vec![SuccessHistoryItem {
            post_id: 12,
            canister_id: "aaaaa-aa".to_string(),
            video_id: "gs://yral-videos/s.mp4".to_string(),
            item_type: "like_video".to_string(),
            percent_watched_bits: 66.0f32.to_bits(),
            timestamp: "1970-01-01T00:01:00+00:00".to_string(),
        }]
    );
    assert_eq!(
        request.filter_posts,
        vec![MlPostItem {
            canister_id: "c9".to_string(),
            post_id: 9,
            video_id: "gs://yral-videos/abc.mp4".to_string(),
        }]
    );
}

#[test]
fn restricted_request_logic_adds_ten() {
    let request = get_feed_request_logic_nsfw(impl_request(20), None, None).unwrap();
    assert_eq!(request.num_results, 30);
    assert!(request.watch_history.is_empty());
    assert!(request.success_history.is_empty());
    assert_eq!(request.filter_posts.len(), 1);
}

#[test]
fn request_logic_refuses_what_cannot_be_written() {
    assert!(get_feed_request_logic(impl_request(u32::MAX - 14), None, None).is_none());
    assert!(get_feed_request_logic(impl_request(u32::MAX - 15), None, None).is_some());
    assert!(get_feed_request_logic_nsfw(impl_request(u32::MAX - 9), None, None).is_none());
    assert!(get_feed_request_logic(impl_request(1), Some(vec![impl_watch(u64::MAX)]), None).is_none());
    assert!(get_feed_request_logic(impl_request(1), Some(vec![impl_watch(8_210_266_876_800)]), None)
        .is_none());
    assert!(get_feed_request_logic(impl_request(1), Some(vec![impl_watch(8_210_266_876_799)]), None)
        .is_some());
    assert!(get_feed_request_logic(impl_request(1), None, Some(vec![impl_success(8_210_266_876_798)]))
        .is_none());
    let mut long_identity = impl_watch(0);
    long_identity.publisher_canister_id = vec![1; 30];
    assert!(get_feed_request_logic(impl_request(1), Some(vec![long_identity]), None).is_none());
}

#[test]
fn coldstart_request_has_no_history_and_no_margin() {
    let request = get_feed_coldstart(impl_request(20));
    assert_eq!(request.canister_id, "aaaaa-aa");
    assert_eq!(request.num_results, 20);
    assert!(request.watch_history.is_empty());
    assert!(request.success_history.is_empty());
    assert_eq!(request.filter_posts[0].video_id, "gs://yral-videos/abc.mp4");
}

#[test]
fn answer_is_deduplicated_by_location_and_number() {
    let feed = vec![
        impl_answer("c1", 1),
        impl_answer("c1", 2),
        impl_answer("c2", 1),
        impl_answer("c1", 1),
        impl_answer("c2", 1),
    ];
    assert_eq!(
        feed_response_logic_without_caching(&feed),
        vec![impl_item("c1", 1), impl_item("c1", 2), impl_item("c2", 1)]
    );
}

#[test]
fn answer_is_cut_to_the_limit_and_sampled_from_its_end() {
    let feed: Vec<MlPostItemResponse> = (0..40).map(|i| impl_answer("c", i % 20)).collect();
    let parts = feed_response_logic(&feed, 5);
    assert_eq!(parts.feed, (0..5).map(|i| impl_item("c", i)).collect::<Vec<_>>());
    assert_eq!(parts.cache_items, (5..20).rev().map(|i| impl_item("c", i)).collect::<Vec<_>>());
    let parts = feed_response_logic(&feed, 100);
    assert_eq!(parts.feed.len(), 20);
    let few: Vec<MlPostItemResponse> = (0..3).map(|i| impl_answer("c", i)).collect();
    let parts = feed_response_logic(&few, 0);
    assert!(parts.feed.is_empty());
    assert_eq!(parts.cache_items, vec![impl_item("c", 2), impl_item("c", 1), impl_item("c", 0)]);
}

#[test]
fn cache_items_carry_location_and_number_only() {
    let expected = vec![
        CustomMlFeedCacheItem {
            post_id: 7,
            canister_id: "c1".to_string(),
            video_id: String::new(),
            creator_principal_id: String::new(),
        },
        CustomMlFeedCacheItem {
            post_id: u32::MAX as u64,
            canister_id: "c2".to_string(),
            video_id: String::new(),
            creator_principal_id: String::new(),
        },
    ];
    assert_eq!(send_to_ml_feed_cache(vec![impl_item("c1", 7), impl_item("c2", u32::MAX)]), expected);
    assert_eq!(send_to_offchain(vec![impl_item("c1", 7), impl_item("c2", u32::MAX)]), expected);
}
