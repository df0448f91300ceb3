//! Incremental synchronisation of a blog's liked posts: cursor pagination,
//! failure classification, merging into the persisted set, and the planning
//! of media downloads.

pub mod auth;
pub mod callback;
pub mod client;
pub mod download;
pub mod fetch;
pub mod media;
pub mod merge;
pub mod persist;
pub mod stream;
pub mod text;
pub mod tumblr;
