//! Core of a per-session music playback service: a queue store keyed by
//! session (guild) id, a resolver that turns user input into canonical
//! track records, argument builders for the external download/transcode
//! pipeline, and the continuation engine that advances playback until the
//! queue is exhausted.
//!
//! All queue mutations, the engine's advance step, and the resolver's
//! decision logic are verified; subprocess and network I/O live outside
//! this crate and hand plain values in and out.

pub mod pipeline;
pub mod pot;
pub mod resolver;
pub mod session;
pub mod setup;

pub use pot::PlaylistItem;
pub use pot::SystemPlaylist;
pub use pot::SystemPlaylistData;
