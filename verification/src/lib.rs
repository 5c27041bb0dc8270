//! Feed composition for a content service: schema normalisation, exclusion
//! filtering, metadata enrichment, the cache-only coldstart cascade and the
//! spill-over of surplus recommendations.
//!
//! Everything here is a function from plain values to plain values. Remote
//! reads and writes are performed by the caller, which hands their results in.

pub mod cache;
pub mod cascade;
pub mod dedup;
pub mod enrich;
pub mod exclusion;
pub mod feed_v3;
pub mod history;
pub mod ml_feed_impl;
pub mod ml_feed_py;
pub mod normalize;
pub mod pipeline;
pub mod post;
pub mod principal;
pub mod recommend;
pub mod seqs;
pub mod shuffle;
pub mod spillover;
pub mod time;
pub mod v2;
