//! What audio engines report.

use vstd::prelude::*;

verus! {

/// The playback status reported by the audio engine.
#[derive(Debug, Clone, Copy, PartialEq, Eq, Structural)]
pub enum PlayerStatus {
    /// Playback is completely stopped or no media is loaded.
    Stopped,
    /// Media is currently playing.
    Playing,
    /// Playback is temporarily paused.
    Paused,
    /// A track is being loaded.
    Buffering,
}

/// An event that an audio engine reports to its listeners.
#[derive(Debug, Clone, Copy, PartialEq, Eq, Structural)]
pub enum EngineEvent {
    Status(PlayerStatus),
    TrackStarted,
    EndOfTrack,
}

/// A watched property of the mpv engine that changed.
#[derive(Debug, Clone, Copy, PartialEq, Eq, Structural)]
pub enum MpvChange {
    /// "pause" became this.
    Pause(bool),
    /// "idle-active" became this.
    IdleActive(bool),
    /// "playlist-pos" became this (-1 when nothing is selected).
    PlaylistPos(i64),
}

/// What the mpv engine reports when a watched property changes: a pause
/// flag gives the paused or playing status, going idle the stopped status,
/// and a new playlist position a track start.
pub fn mpv_change_event(change: MpvChange) -> (r: Option<EngineEvent>)
    ensures
        r == match change {
            MpvChange::Pause(p) => Some(EngineEvent::Status(if p { PlayerStatus::Paused } else { PlayerStatus::Playing })),
            MpvChange::IdleActive(idle) => if idle { Some(EngineEvent::Status(PlayerStatus::Stopped)) } else { None },
            MpvChange::PlaylistPos(pos) => if pos >= 0 { Some(EngineEvent::TrackStarted) } else { None },
        },
{
    match change {
        MpvChange::Pause(p) => Some(EngineEvent::Status(if p { PlayerStatus::Paused } else { PlayerStatus::Playing })),
        MpvChange::IdleActive(idle) => if idle {
            Some(EngineEvent::Status(PlayerStatus::Stopped))
        } else {
            None
        },
        MpvChange::PlaylistPos(pos) => if pos >= 0 {
            Some(EngineEvent::TrackStarted)
        } else {
            None
        },
    }
}

} // verus!
