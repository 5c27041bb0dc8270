//! Content items in their schema versions, and their ghost views.

use vstd::prelude::*;

verus! {

/// Ghost mirror of [`PostItemV2`], with strings as character sequences.
pub struct PostV2 {
    pub publisher_user_id: Seq<char>,
    pub canister_id: Seq<char>,
    pub post_id: u64,
    pub video_id: Seq<char>,
    pub is_nsfw: bool,
}

/// The canonical content unit: numeric content identifier, boolean safety flag.
///
/// `canister_id` is the publisher's storage location; it is empty until the
/// item has been enriched.
#[derive(Debug, PartialEq, Eq)]
pub struct PostItemV2 {
    pub publisher_user_id: String,
    pub canister_id: String,
    pub post_id: u64,
    pub video_id: String,
    pub is_nsfw: bool,
}

impl View for PostItemV2 {
    type V = PostV2;

    open spec fn view(&self) -> PostV2 {
        PostV2 {
            publisher_user_id: self.publisher_user_id@,
            canister_id: self.canister_id@,
            post_id: self.post_id,
            video_id: self.video_id@,
            is_nsfw: self.is_nsfw,
        }
    }
}

impl DeepView for PostItemV2 {
    type V = PostV2;

    open spec fn deep_view(&self) -> PostV2 {
        self@
    }
}

impl Clone for PostItemV2 {
    fn clone(&self) -> (res: Self)
        ensures
            res == *self,
    {
        PostItemV2 {
            publisher_user_id: self.publisher_user_id.clone(),
            canister_id: self.canister_id.clone(),
            post_id: self.post_id,
            video_id: self.video_id.clone(),
            is_nsfw: self.is_nsfw,
        }
    }
}

/// Ghost mirror of [`PostItemV3`].
pub struct PostV3 {
    pub publisher_user_id: Seq<char>,
    pub canister_id: Seq<char>,
    pub post_id: Seq<char>,
    pub video_id: Seq<char>,
    pub is_nsfw: bool,
}

/// The newer item schema: the content identifier is free text.
#[derive(Debug, PartialEq, Eq)]
pub struct PostItemV3 {
    pub publisher_user_id: String,
    pub canister_id: String,
    pub post_id: String,
    pub video_id: String,
    pub is_nsfw: bool,
}

impl View for PostItemV3 {
    type V = PostV3;

    open spec fn view(&self) -> PostV3 {
        PostV3 {
            publisher_user_id: self.publisher_user_id@,
            canister_id: self.canister_id@,
            post_id: self.post_id@,
            video_id: self.video_id@,
            is_nsfw: self.is_nsfw,
        }
    }
}

impl DeepView for PostItemV3 {
    type V = PostV3;

    open spec fn deep_view(&self) -> PostV3 {
        self@
    }
}

impl Clone for PostItemV3 {
    fn clone(&self) -> (res: Self)
        ensures
            res == *self,
    {
        PostItemV3 {
            publisher_user_id: self.publisher_user_id.clone(),
            canister_id: self.canister_id.clone(),
            post_id: self.post_id.clone(),
            video_id: self.video_id.clone(),
            is_nsfw: self.is_nsfw,
        }
    }
}

/// Ghost mirror of [`PostItem`].
pub struct PostV1 {
    pub canister_id: Seq<char>,
    pub post_id: u64,
    pub video_id: Seq<char>,
    pub nsfw_probability_bits: u32,
}

/// The oldest item schema: content is addressed by storage location and
/// number, and safety is a score.
///
/// The score is held by its bit pattern as a 32-bit IEEE 754 number.
#[derive(Debug, PartialEq, Eq)]
pub struct PostItem {
    pub canister_id: String,
    pub post_id: u64,
    pub video_id: String,
    pub nsfw_probability_bits: u32,
}

impl View for PostItem {
    type V = PostV1;

    open spec fn view(&self) -> PostV1 {
        PostV1 {
            canister_id: self.canister_id@,
            post_id: self.post_id,
            video_id: self.video_id@,
            nsfw_probability_bits: self.nsfw_probability_bits,
        }
    }
}

impl DeepView for PostItem {
    type V = PostV1;

    open spec fn deep_view(&self) -> PostV1 {
        self@
    }
}

impl Clone for PostItem {
    fn clone(&self) -> (res: Self)
        ensures
            res == *self,
    {
        PostItem {
            canister_id: self.canister_id.clone(),
            post_id: self.post_id,
            video_id: self.video_id.clone(),
            nsfw_probability_bits: self.nsfw_probability_bits,
        }
    }
}

/// The key by which canonical items are told apart: the media identifier.
pub open spec fn video_key() -> spec_fn(PostV2) -> Seq<char> {
    |p: PostV2| p.video_id
}

/// The key by which items of the oldest schema are told apart: the media
/// identifier.
pub open spec fn video_key_v1() -> spec_fn(PostV1) -> Seq<char> {
    |p: PostV1| p.video_id
}

} // verus!
