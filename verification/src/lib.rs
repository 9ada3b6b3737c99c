//! Per-tenant playback engine for a chat-driven jukebox.
//!
//! The library holds the verified core: the per-tenant track queue, the
//! registry mapping tenant ids to their state, the player's state
//! transitions, the command grammar and dispatch decisions, and the parsing
//! of playlist-expander output. Network and voice-transport plumbing lives
//! outside the library and talks to it through plain values.

pub mod commands;
pub mod laws;
pub mod models;
pub mod player;
pub mod playlists;
pub mod registry;
pub mod textfmt;

use vstd::prelude::*;

verus! {

/// A track handle identifier: the engine's stand-in for the transport's
/// opaque handle to the currently rendering track. The host assigns one per
/// started track and keeps the real handle keyed by tenant.
pub type HandleId = u64;

} // verus!
