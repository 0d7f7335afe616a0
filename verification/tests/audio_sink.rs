use musicbirb::backend::{EngineEvent, PlayerStatus};
use musicbirb::sink::{RodioState, SinkAction};

fn loaded(urls: &[&str]) -> RodioState {
    let mut s = RodioState::new();
    for u in urls {
        s.add(u.to_string());
    }
    s
}

fn start(urls: &[&str], index: i64) -> RodioState {
    let mut s = loaded(urls);
    s.load_track(index, false);
    s.track_loaded(index, false);
    s
}

#[test]
fn new_engine_is_stopped_and_empty() {
    let s = RodioState::new();
    assert_eq!(s.status(), PlayerStatus::Stopped);
    assert_eq!(s.current_index(), -1);
    assert_eq!(s.playlist_len(), 0);
}

#[test]
fn load_track_buffers_then_plays() {
    let mut s = loaded(&["a", "b"]);
    let actions = s.load_track(1, false);
    assert_eq!(
        actions,
        vec![
            SinkAction::ResetSeekOffset,
            SinkAction::Emit(EngineEvent::Status(PlayerStatus::Buffering)),
            SinkAction::StartLoading { index: 1, url: "b".to_string(), is_preload: false },
        ]
    );
    assert_eq!(s.status(), PlayerStatus::Buffering);
    let actions = s.track_loaded(1, false);
    assert_eq!(
        actions,
        vec![
            SinkAction::Clear,
            SinkAction::AppendLoaded,
            SinkAction::RestartClock,
            SinkAction::Emit(EngineEvent::TrackStarted),
            SinkAction::Play,
            SinkAction::Emit(EngineEvent::Status(PlayerStatus::Playing)),
        ]
    );
    assert_eq!(s.status(), PlayerStatus::Playing);
    assert_eq!(s.current_index(), 1);
}

#[test]
fn loading_a_missing_entry_stops() {
    let mut s = loaded(&["a"]);
    let actions = s.load_track(5, false);
    assert_eq!(
        actions,
        vec![
            SinkAction::ResetSeekOffset,
            SinkAction::Emit(EngineEvent::Status(PlayerStatus::Buffering)),
            SinkAction::Clear,
            SinkAction::Emit(EngineEvent::Status(PlayerStatus::Stopped)),
        ]
    );
    assert_eq!(s.status(), PlayerStatus::Stopped);
}

#[test]
fn a_stale_load_is_dropped() {
    let mut s = loaded(&["a", "b"]);
    s.load_track(0, false);
    s.load_track(1, false);
    assert!(s.track_loaded(0, false).is_empty());
    assert!(s.track_load_failed(0, false).is_empty());
    assert_eq!(s.status(), PlayerStatus::Buffering);
}

#[test]
fn a_failed_load_stops() {
    let mut s = loaded(&["a"]);
    s.load_track(0, false);
    let actions = s.track_load_failed(0, false);
    assert_eq!(actions, vec![SinkAction::Emit(EngineEvent::Status(PlayerStatus::Stopped))]);
    assert_eq!(s.status(), PlayerStatus::Stopped);
}

#[test]
fn pause_and_toggle() {
    let mut s = start(&["a"], 0);
    assert_eq!(
        s.pause(),
        vec![SinkAction::Pause, SinkAction::Emit(EngineEvent::Status(PlayerStatus::Paused))]
    );
    assert_eq!(
        s.toggle_pause(),
        vec![SinkAction::Play, SinkAction::Emit(EngineEvent::Status(PlayerStatus::Playing))]
    );
    assert_eq!(s.status(), PlayerStatus::Playing);
}

#[test]
fn pause_while_stopped_only_pauses_the_sink() {
    let mut s = RodioState::new();
    assert_eq!(s.pause(), vec![SinkAction::Pause]);
    assert_eq!(s.status(), PlayerStatus::Stopped);
    assert_eq!(s.toggle_pause(), vec![SinkAction::QueuePlay]);
}

#[test]
fn play_when_stopped_reloads_the_current_entry() {
    let mut s = start(&["a", "b"], 1);
    s.stop();
    assert_eq!(s.play(), vec![SinkAction::QueueLoad { index: 1, is_preload: false }]);
}

#[test]
fn insert_before_current_shifts_it() {
    let mut s = start(&["a", "b"], 1);
    s.insert("x".to_string(), 0);
    assert_eq!(s.current_index(), 2);
    assert_eq!(s.playlist_len(), 3);
}

#[test]
fn insert_past_the_end_appends() {
    let mut s = start(&["a"], 0);
    s.insert("x".to_string(), 10);
    s.insert("y".to_string(), -1);
    assert_eq!(s.current_index(), 0);
    assert_eq!(s.playlist_len(), 3);
}

#[test]
fn removing_the_current_entry_asks_to_stop() {
    let mut s = start(&["a", "b"], 1);
    assert_eq!(s.remove_index(1), vec![SinkAction::QueueStop]);
    assert!(s.remove_index(0).is_empty());
    assert_eq!(s.current_index(), 0);
    assert!(s.remove_index(7).is_empty());
}

#[test]
fn tick_preloads_the_next_entry() {
    let mut s = start(&["a", "b", "c"], 0);
    let actions = s.tick(1);
    assert_eq!(
        actions,
        vec![SinkAction::QueueLoad { index: 1, is_preload: true }, SinkAction::ReportPosition]
    );
    assert_eq!(s.tick(1), vec![SinkAction::ReportPosition]);
    assert_eq!(s.track_loaded(1, true), vec![SinkAction::AppendLoaded]);
}

#[test]
fn tick_follows_finished_tracks() {
    let mut s = start(&["a", "b", "c"], 0);
    s.tick(1);
    s.track_loaded(1, true);
    let actions = s.tick(1);
    assert_eq!(
        actions,
        vec![
            SinkAction::RestartClock,
            SinkAction::Emit(EngineEvent::EndOfTrack),
            SinkAction::Emit(EngineEvent::TrackStarted),
            SinkAction::QueueLoad { index: 2, is_preload: true },
            SinkAction::ReportPosition,
        ]
    );
    assert_eq!(s.current_index(), 1);
}

#[test]
fn tick_on_a_dry_sink_moves_on_or_stops() {
    let mut s = start(&["a", "b"], 0);
    assert_eq!(
        s.tick(0),
        vec![SinkAction::Emit(EngineEvent::EndOfTrack), SinkAction::QueueLoad { index: 1, is_preload: false }]
    );
    let mut s = start(&["a"], 0);
    assert_eq!(
        s.tick(0),
        vec![SinkAction::Emit(EngineEvent::EndOfTrack), SinkAction::Emit(EngineEvent::Status(PlayerStatus::Stopped))]
    );
    assert_eq!(s.status(), PlayerStatus::Stopped);
    assert!(s.tick(0).is_empty());
}

#[test]
fn clear_playlist_resets_everything() {
    let mut s = start(&["a", "b"], 1);
    let actions = s.clear_playlist();
    assert_eq!(
        actions,
        vec![
            SinkAction::Clear,
            SinkAction::ClearClock,
            SinkAction::Emit(EngineEvent::Status(PlayerStatus::Stopped)),
        ]
    );
    assert_eq!(s.playlist_len(), 0);
    assert_eq!(s.current_index(), -1);
}
