//! Verified core of the Spotify Companion Widget: the domain model, the
//! playback-state reducer, session counters, Spotify payload interpretation,
//! OAuth callback validation, settings handling and window placement.

pub mod domain;
pub mod error;
pub mod outside;
pub mod text;
pub mod window;
pub mod sessions;
pub mod storage;
pub mod platform;
pub mod playback;
pub mod coordinator;
pub mod spotify;
pub mod auth;
pub mod logs;
