//! Playback-session core of a chat bot that streams media URLs and curated
//! radio stations into a voice channel.

pub mod station;
pub mod track;
pub mod provider;
pub mod session;
pub mod commands;
pub mod posts;
