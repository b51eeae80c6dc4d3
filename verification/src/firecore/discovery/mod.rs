//! Searching the providers the player knows and turning hits into playable URLs.
pub mod types;
pub mod ytdl;
pub mod tiktok;
pub mod session;
