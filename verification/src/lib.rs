//! Verified core of an HTTP aggregation gateway for Twitch chat emotes.
//!
//! The library models and verifies the gateway's logic: a TTL cache keyed by
//! strings, the image decode/transcode pipeline (frames, sprite atlas), the
//! refreshing OAuth token state, the per-provider catalog conversions, the
//! catalog merge of the aggregator, and the route/response classification.
//! Network and file I/O, the async runtime and serialization live outside the
//! library; callers hand plain values in and take plain values back.

pub mod atlas;

pub mod bttv;

pub mod cache;

pub mod catalog;

pub mod cli;

pub mod codec;

pub mod emote;

pub mod ffz;

pub mod frame;

pub mod manager;

pub mod platform;

pub mod routes;

pub mod seventv;

pub mod token;

pub mod twitch;
