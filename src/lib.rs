//! Tiered cache-aside data access for a chat bot's per-entity state, and the
//! decision logic of a read-through client for a scrobble-tracking service.

pub mod text;
pub mod key_codec;
pub mod config;
pub mod format;
pub mod model;
pub mod local_cache;
pub mod tiered;
pub mod server_cache;
pub mod color;
pub mod lastfm;
pub mod signing;
pub mod now_playing;
pub mod play_counts;
