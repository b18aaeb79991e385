//! Relay of parliamentary interjections: the pure decisions of a feed poller
//! and of a queue consumer, with contracts.

pub mod cursor;
pub mod dedup;
pub mod extract;
pub mod feed;
pub mod json;
pub mod memos;
pub mod producer;
pub mod relay;
pub mod social_media;
pub mod text;
pub mod time;
