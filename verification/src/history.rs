//! Records of past watch and success interactions, in their schema versions.
//!
//! The share of an item that was watched is held by its bit pattern as a
//! 32-bit IEEE 754 number; this library passes it on and never computes on it.

use crate::time::Timestamp;
use vstd::prelude::*;

verus! {

/// Ghost mirror of [`MLFeedCacheHistoryItem`].
pub struct HistoryV1 {
    pub canister_id: Seq<char>,
    pub post_id: u64,
    pub video_id: Seq<char>,
    pub item_type: Seq<char>,
    pub timestamp: Timestamp,
    pub percent_watched_bits: u32,
}

/// A history record of the oldest schema.
#[derive(Debug, PartialEq, Eq)]
pub struct MLFeedCacheHistoryItem {
    pub canister_id: String,
    pub post_id: u64,
    pub video_id: String,
    pub item_type: String,
    pub timestamp: Timestamp,
    pub percent_watched_bits: u32,
}

impl View for MLFeedCacheHistoryItem {
    type V = HistoryV1;

    open spec fn view(&self) -> HistoryV1 {
        HistoryV1 {
            canister_id: self.canister_id@,
            post_id: self.post_id,
            video_id: self.video_id@,
            item_type: self.item_type@,
            timestamp: self.timestamp,
            percent_watched_bits: self.percent_watched_bits,
        }
    }
}

impl DeepView for MLFeedCacheHistoryItem {
    type V = HistoryV1;

    open spec fn deep_view(&self) -> HistoryV1 {
        self@
    }
}

/// Ghost mirror of [`MLFeedCacheHistoryItemV2`].
pub struct HistoryV2 {
    pub publisher_user_id: Seq<char>,
    pub canister_id: Seq<char>,
    pub post_id: u64,
    pub video_id: Seq<char>,
    pub item_type: Seq<char>,
    pub timestamp: Timestamp,
    pub percent_watched_bits: u32,
}

/// A history record with a numeric content identifier.
#[derive(Debug, PartialEq, Eq)]
pub struct MLFeedCacheHistoryItemV2 {
    pub publisher_user_id: String,
    pub canister_id: String,
    pub post_id: u64,
    pub video_id: String,
    pub item_type: String,
    pub timestamp: Timestamp,
    pub percent_watched_bits: u32,
}

impl View for MLFeedCacheHistoryItemV2 {
    type V = HistoryV2;

    open spec fn view(&self) -> HistoryV2 {
        HistoryV2 {
            publisher_user_id: self.publisher_user_id@,
            canister_id: self.canister_id@,
            post_id: self.post_id,
            video_id: self.video_id@,
            item_type: self.item_type@,
            timestamp: self.timestamp,
            percent_watched_bits: self.percent_watched_bits,
        }
    }
}

impl DeepView for MLFeedCacheHistoryItemV2 {
    type V = HistoryV2;

    open spec fn deep_view(&self) -> HistoryV2 {
        self@
    }
}

/// Ghost mirror of [`MLFeedCacheHistoryItemV3`].
pub struct HistoryV3 {
    pub publisher_user_id: Seq<char>,
    pub canister_id: Seq<char>,
    pub post_id: Seq<char>,
    pub video_id: Seq<char>,
    pub item_type: Seq<char>,
    pub timestamp: Timestamp,
    pub percent_watched_bits: u32,
}

/// A history record of the newer schema: the content identifier is free text.
#[derive(Debug, PartialEq, Eq)]
pub struct MLFeedCacheHistoryItemV3 {
    pub publisher_user_id: String,
    pub canister_id: String,
    pub post_id: String,
    pub video_id: String,
    pub item_type: String,
    pub timestamp: Timestamp,
    pub percent_watched_bits: u32,
}

impl View for MLFeedCacheHistoryItemV3 {
    type V = HistoryV3;

    open spec fn view(&self) -> HistoryV3 {
        HistoryV3 {
            publisher_user_id: self.publisher_user_id@,
            canister_id: self.canister_id@,
            post_id: self.post_id@,
            video_id: self.video_id@,
            item_type: self.item_type@,
            timestamp: self.timestamp,
            percent_watched_bits: self.percent_watched_bits,
        }
    }
}

impl DeepView for MLFeedCacheHistoryItemV3 {
    type V = HistoryV3;

    open spec fn deep_view(&self) -> HistoryV3 {
        self@
    }
}

} // verus!
