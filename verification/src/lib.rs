//! Core of a per-guild chat-bot backend: a write-through cache of guild
//! configuration, a per-guild music queue state machine with idle eviction,
//! and the text helpers used to render queue entries and time spans.

pub mod cache;
pub mod config;
pub mod player;
pub mod registry;
pub mod responses;
pub mod text;
pub mod track;
