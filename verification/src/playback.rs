//! Small decisions of playback: the volume adjustment and the status the mpv
//! engine is in.

use vstd::prelude::*;

use crate::backend::PlayerStatus;
use crate::models::ReplayGainMode;
use crate::text::str_eq;

verus! {

/// `a`, else `b`.
pub open spec fn or_else<G>(a: Option<G>, b: Option<G>) -> Option<G> {
    match a {
        Some(x) => Some(x),
        None => b,
    }
}

/// The ReplayGain to apply under `mode`, from the track's and the album's
/// gains; `consecutive` tells that the previous queue entry is from the same
/// album. `None` means no adjustment (a gain of zero).
pub open spec fn gain_choice<G>(mode: ReplayGainMode, track: Option<G>, album: Option<G>, consecutive: bool) -> Option<G> {
    match mode {
        ReplayGainMode::Disabled => None,
        ReplayGainMode::Track => or_else(track, album),
        ReplayGainMode::Album => or_else(album, track),
        ReplayGainMode::Auto => if consecutive {
            or_else(album, track)
        } else {
            or_else(track, album)
        },
    }
}

/// The ReplayGain to apply under `mode`.
pub fn choose_gain<G: Copy>(mode: ReplayGainMode, track: Option<G>, album: Option<G>, consecutive: bool) -> (r:
    Option<G>)
    ensures
        r == gain_choice(mode, track, album, consecutive),
{
    let track_first = match track {
        Some(t) => Some(t),
        None => album,
    };
    let album_first = match album {
        Some(a) => Some(a),
        None => track,
    };
    match mode {
        ReplayGainMode::Disabled => None,
        ReplayGainMode::Track => track_first,
        ReplayGainMode::Album => album_first,
        ReplayGainMode::Auto => if consecutive {
            album_first
        } else {
            track_first
        },
    }
}

/// Whether the current track follows one of the same, named album.
pub fn same_album_as_previous(current_album: &str, previous_album: Option<&str>) -> (r: bool)
    ensures
        r == match previous_album {
            Some(p) => current_album@.len() > 0 && current_album@ == p@,
            None => false,
        },
{
    match previous_album {
        Some(p) => current_album.unicode_len() > 0 && str_eq(current_album, p),
        None => false,
    }
}

/// The status of the mpv engine from its flags: idle means stopped; a
/// loading or seeking engine is buffering; else paused or playing.
pub fn mpv_status(idle: bool, paused: bool, core_idle: bool, seeking: bool) -> (r: PlayerStatus)
    ensures
        r == if idle {
            PlayerStatus::Stopped
        } else if core_idle || seeking {
            PlayerStatus::Buffering
        } else if paused {
            PlayerStatus::Paused
        } else {
            PlayerStatus::Playing
        },
{
    if idle {
        PlayerStatus::Stopped
    } else if core_idle || seeking {
        PlayerStatus::Buffering
    } else if paused {
        PlayerStatus::Paused
    } else {
        PlayerStatus::Playing
    }
}

} // verus!
