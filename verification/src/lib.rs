//! Playback bookkeeping for a voice-chat music bot.
//!
//! The crate holds the decisions of the player: which of a track's encoded
//! variants is streamed, how the per-room playlists, the track ownership
//! table and the listener registry change under each operation, and what an
//! ingestion run does on each event it waits for. Networking, processes and
//! the voice transport live with the caller.

pub mod config;
pub mod control;
pub mod error;
pub mod model;
pub mod pipeline;
pub mod player_data;
pub mod reaction;
pub mod satisfaction;
pub mod scope;
pub mod text;
pub mod track;
