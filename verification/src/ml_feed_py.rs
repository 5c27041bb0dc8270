//! The messages exchanged with the recommendation engine.
//!
//! Shares and scores travel by their bit pattern as 32-bit IEEE 754 numbers,
//! timestamps as RFC 3339 text.

use vstd::prelude::*;

verus! {

/// A watched item, addressed by storage location.
#[derive(Debug, PartialEq, Eq)]
pub struct WatchHistoryItem {
    pub post_id: u32,
    pub canister_id: String,
    pub video_id: String,
    pub percent_watched_bits: u32,
    pub timestamp: String,
}

/// A successful interaction with an item, addressed by storage location.
#[derive(Debug, PartialEq, Eq)]
pub struct SuccessHistoryItem {
    pub post_id: u32,
    pub canister_id: String,
    pub video_id: String,
    pub item_type: String,
    pub percent_watched_bits: u32,
    pub timestamp: String,
}

/// An item that the engine is asked not to recommend, addressed by storage
/// location.
#[derive(Debug, PartialEq, Eq)]
pub struct MlPostItem {
    pub canister_id: String,
    pub post_id: u32,
    pub video_id: String,
}

/// A request for recommendations, items addressed by storage location.
#[derive(Debug, PartialEq, Eq)]
pub struct MlFeedRequest {
    pub canister_id: String,
    pub watch_history: Vec<WatchHistoryItem>,
    pub success_history: Vec<SuccessHistoryItem>,
    pub filter_posts: Vec<MlPostItem>,
    pub num_results: u32,
}

/// A recommended item, addressed by storage location.
#[derive(Debug, PartialEq, Eq)]
pub struct MlPostItemResponse {
    pub canister_id: String,
    pub post_id: u32,
    pub video_id: String,
    pub nsfw_probability_bits: u32,
}

/// A watched item, addressed by publisher.
#[derive(Debug, PartialEq, Eq)]
pub struct WatchHistoryItemV3 {
    pub post_id: u32,
    pub publisher_user_id: String,
    pub video_id: String,
    pub percent_watched_bits: u32,
    pub timestamp: String,
}

/// A successful interaction with an item, addressed by publisher.
#[derive(Debug, PartialEq, Eq)]
pub struct SuccessHistoryItemV3 {
    pub post_id: u32,
    pub publisher_user_id: String,
    pub video_id: String,
    pub item_type: String,
    pub percent_watched_bits: u32,
    pub timestamp: String,
}

/// An item that the engine is asked not to recommend, addressed by publisher.
#[derive(Debug, PartialEq, Eq)]
pub struct MlPostItemV3 {
    pub publisher_user_id: String,
    pub post_id: u32,
    pub video_id: String,
}

/// A request for recommendations, items addressed by publisher.
#[derive(Debug, PartialEq, Eq)]
pub struct MlFeedRequestV3 {
    pub user_principal_id: String,
    pub watch_history: Vec<WatchHistoryItemV3>,
    pub success_history: Vec<SuccessHistoryItemV3>,
    pub filter_posts: Vec<MlPostItemV3>,
    pub num_results: u32,
}

/// A recommended item, addressed by publisher.
#[derive(Debug, PartialEq, Eq)]
pub struct MlPostItemResponseV3 {
    pub publisher_user_id: String,
    pub post_id: u32,
    pub video_id: String,
    pub nsfw_probability_bits: u32,
}

} // verus!
