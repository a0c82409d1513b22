//! Change-detection and notification-lifecycle engine for a channel bot that
//! watches speedrun leaderboards and live streams.
//!
//! The library holds the verified core: the personal-best selection rule, the
//! per-runner and per-streamer polling decisions, the in-memory live-session
//! table, the registry model, and the text formatting that the notifications
//! are built from. Network transport, durable storage and the chat client are
//! collaborators that live outside the library.

pub mod apitypes;
pub mod config;
pub mod embeds;
pub mod registry;
pub mod runs;
pub mod selection;
pub mod streams;
pub mod strutil;
pub mod timefmt;
