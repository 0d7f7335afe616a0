//! Core logic of a music player client: the play queue, scrobble
//! bookkeeping, query-cache invalidation rules and authentication choices.

pub mod art;
pub mod auth;
pub mod backend;
pub mod catalog;
pub mod error;
pub mod ffi;
pub mod jellyfin;
pub mod login;
pub mod models;
pub mod playback;
pub mod query;
pub mod queue;
pub mod scrobble;
pub mod settings;
pub mod sink;
pub mod subsonic;
pub mod subsonic_dto;
pub mod queue_laws;
pub mod text;
pub mod tui;
