use musicbirb::backend::PlayerStatus;
use musicbirb::models::{RepeatMode, ShuffleType, TrackId};
use musicbirb::queue::{arrange_tracks, Effect, QueueEngine};

fn track(id: &str) -> TrackId {
    TrackId(id.to_string())
}

fn three_tracks(start: usize) -> QueueEngine<TrackId> {
    let mut engine = QueueEngine::new();
    engine.replace_tracks(vec![track("1"), track("2"), track("3")], start);
    engine
}

#[test]
fn test_compute_next_index_normal() {
    let mut engine = three_tracks(0);
    assert_eq!(engine.compute_next_index(false), Some(1));
    engine.play_index(2);
    assert_eq!(engine.compute_next_index(false), None);
    engine.set_repeat_mode(RepeatMode::All);
    assert_eq!(engine.compute_next_index(false), Some(0));
}

#[test]
fn test_compute_next_index_repeat_one() {
    let mut engine = three_tracks(1);
    engine.set_repeat_mode(RepeatMode::One);
    assert_eq!(engine.compute_next_index(false), Some(1));
    assert_eq!(engine.compute_next_index(true), Some(2));
}

#[test]
fn test_stop_after_current() {
    let mut engine = three_tracks(0);
    engine.set_stop_after_current(true);
    assert_eq!(engine.compute_next_index(false), None);
}

#[test]
fn empty_queue_has_no_next() {
    let mut engine: QueueEngine<TrackId> = QueueEngine::new();
    assert_eq!(engine.compute_next_index(true), None);
    assert_eq!(engine.position(), 0);
    assert!(engine.queue().is_empty());
    assert_eq!(engine.repeat_mode(), RepeatMode::Off);
    assert!(!engine.shuffle());
    assert_eq!(engine.shuffle_type(), ShuffleType::Smart);
    assert!(!engine.consume());
    assert!(!engine.stop_after_current());
}

#[test]
fn force_advance_wraps_at_the_end() {
    let mut engine = three_tracks(2);
    assert_eq!(engine.compute_next_index(false), None);
    assert_eq!(engine.compute_next_index(true), Some(0));
}

#[test]
fn replace_tracks_starts_playing() {
    let mut engine = QueueEngine::new();
    let effects = engine.replace_tracks(vec![track("a"), track("b")], 1);
    assert_eq!(
        effects,
        vec![
            Effect::ResetPlayer,
            Effect::FetchStreamUrl { index: 1, is_preload: false },
            Effect::RefreshArt,
            Effect::Publish,
        ]
    );
    assert_eq!(engine.position(), 1);
    assert_eq!(engine.next_position(), None);
}

#[test]
fn replace_tracks_past_the_end_starts_at_the_first() {
    let mut engine = QueueEngine::new();
    engine.replace_tracks(vec![track("a"), track("b")], 9);
    assert_eq!(engine.position(), 0);
    assert_eq!(engine.next_position(), Some(1));
}

#[test]
fn play_index_past_the_end_is_ignored() {
    let mut engine = three_tracks(0);
    assert!(engine.play_index(7).is_empty());
    assert_eq!(engine.position(), 0);
}

#[test]
fn url_ready_loads_and_preloads() {
    let mut engine = three_tracks(0);
    let effects = engine.url_ready("http://a".to_string(), 0, false);
    assert!(effects.contains(&Effect::AppendUrl("http://a".to_string())));
    assert!(effects.contains(&Effect::FetchStreamUrl { index: 1, is_preload: true }));
}

#[test]
fn stale_url_is_dropped() {
    let mut engine = three_tracks(0);
    let effects = engine.url_ready("http://late".to_string(), 2, false);
    assert!(!effects.contains(&Effect::AppendUrl("http://late".to_string())));
}

#[test]
fn move_index_keeps_the_current_track() {
    let mut engine = three_tracks(0);
    engine.move_index(0, 2);
    let ids: Vec<String> = engine.queue().iter().map(|t| t.0.clone()).collect();
    assert_eq!(ids, vec!["2", "3", "1"]);
    assert_eq!(engine.position(), 2);
    assert_eq!(engine.track_at(engine.position()), Some(&track("1")));
}

#[test]
fn move_index_out_of_range_changes_nothing() {
    let mut engine = three_tracks(0);
    assert!(engine.move_index(0, 5).is_empty());
    assert!(engine.move_index(1, 1).is_empty());
    assert_eq!(engine.queue().len(), 3);
}

#[test]
fn remove_before_current_keeps_the_current_track() {
    let mut engine = three_tracks(2);
    engine.remove_index(0);
    assert_eq!(engine.queue().len(), 2);
    assert_eq!(engine.position(), 1);
    assert_eq!(engine.track_at(1), Some(&track("3")));
    assert_eq!(engine.track_at(2), None);
}

#[test]
fn removing_the_last_track_stops() {
    let mut engine = QueueEngine::new();
    engine.replace_tracks(vec![track("only")], 0);
    let effects = engine.remove_index(0);
    assert!(engine.queue().is_empty());
    assert!(effects.contains(&Effect::ResetPlayer));
}

#[test]
fn add_tracks_to_an_empty_queue_starts_playing() {
    let mut engine = QueueEngine::new();
    let effects = engine.add_tracks(vec![track("x"), track("y")], false);
    assert_eq!(engine.queue().len(), 2);
    assert!(effects.contains(&Effect::FetchStreamUrl { index: 0, is_preload: false }));
}

#[test]
fn add_tracks_next_inserts_after_the_current() {
    let mut engine = three_tracks(0);
    engine.add_tracks(vec![track("n")], true);
    let ids: Vec<String> = engine.queue().iter().map(|t| t.0.clone()).collect();
    assert_eq!(ids, vec!["1", "n", "2", "3"]);
    assert_eq!(engine.position(), 0);
}

#[test]
fn add_tracks_appends_at_the_end() {
    let mut engine = three_tracks(0);
    engine.add_tracks(vec![track("z")], false);
    let ids: Vec<String> = engine.queue().iter().map(|t| t.0.clone()).collect();
    assert_eq!(ids, vec!["1", "2", "3", "z"]);
}

#[test]
fn next_and_prev_walk_the_queue() {
    let mut engine = three_tracks(0);
    engine.next();
    assert_eq!(engine.position(), 1);
    engine.prev();
    assert_eq!(engine.position(), 0);
}

#[test]
fn prev_on_the_first_track_wraps_when_repeating_all() {
    let mut engine = three_tracks(0);
    engine.set_repeat_mode(RepeatMode::All);
    engine.prev();
    assert_eq!(engine.position(), 2);
}

#[test]
fn consume_removes_the_played_track() {
    let mut engine = three_tracks(0);
    engine.set_consume(true);
    engine.next();
    let ids: Vec<String> = engine.queue().iter().map(|t| t.0.clone()).collect();
    assert_eq!(ids, vec!["2", "3"]);
    assert_eq!(engine.position(), 0);
}

#[test]
fn clear_empties_and_stops() {
    let mut engine = three_tracks(1);
    let effects = engine.clear();
    assert_eq!(effects, vec![Effect::ResetPlayer, Effect::PublishStopped, Effect::RefreshArt]);
    assert!(engine.queue().is_empty());
    assert_eq!(engine.position(), 0);
}

#[test]
fn status_update_while_playing_only_publishes() {
    let mut engine = three_tracks(0);
    let effects = engine.status_update(PlayerStatus::Playing, PlayerStatus::Playing);
    assert_eq!(effects, vec![Effect::Publish]);
}

#[test]
fn smart_shuffle_round_visits_every_other_track() {
    let mut engine = QueueEngine::new();
    engine.replace_tracks((0..6).map(|i| track(&i.to_string())).collect(), 0);
    engine.set_shuffle(true);
    let mut seen = vec![0usize];
    for _ in 0..5 {
        engine.next();
        seen.push(engine.position());
    }
    seen.sort();
    assert_eq!(seen, vec![0, 1, 2, 3, 4, 5]);
}

#[test]
fn arrange_tracks_keeps_the_tracks() {
    let mut tracks = vec![1, 2, 3, 4, 5];
    arrange_tracks(&mut tracks, false);
    assert_eq!(tracks, vec![1, 2, 3, 4, 5]);
    arrange_tracks(&mut tracks, true);
    tracks.sort();
    assert_eq!(tracks, vec![1, 2, 3, 4, 5]);
}

#[test]
fn prev_after_skip_returns_while_smart_shuffling() {
    let mut engine = QueueEngine::new();
    engine.replace_tracks((0..5).map(|i| track(&i.to_string())).collect(), 3);
    engine.set_shuffle(true);
    engine.next();
    assert_ne!(engine.position(), 3);
    engine.prev();
    assert_eq!(engine.position(), 3);
}

#[test]
fn random_shuffle_stays_in_the_queue() {
    let mut engine = three_tracks(0);
    engine.set_shuffle_type(ShuffleType::Random);
    engine.set_shuffle(true);
    for _ in 0..20 {
        let next = engine.compute_next_index(false);
        assert!(matches!(next, Some(i) if i < 3));
    }
}

#[test]
fn loading_state_is_visible() {
    let mut engine = three_tracks(0);
    assert!(engine.auto_play());
    assert!(!engine.holds_current());
    engine.url_ready("http://a".to_string(), 0, false);
    assert!(engine.holds_current());
    let effects = engine.status_update(PlayerStatus::Stopped, PlayerStatus::Stopped);
    assert!(effects.contains(&Effect::FetchStreamUrl { index: 1, is_preload: false }));
    assert_eq!(engine.position(), 1);
}

#[test]
fn track_started_publishes() {
    let mut engine = three_tracks(0);
    assert_eq!(engine.track_started(0), vec![Effect::Publish]);
    engine.url_ready("http://a".to_string(), 0, false);
    engine.url_ready("http://b".to_string(), 1, true);
    let effects = engine.track_started(1);
    assert_eq!(effects.first(), Some(&Effect::RemovePlayerEntry(0)));
    assert_eq!(effects.last(), Some(&Effect::Publish));
    assert_eq!(engine.position(), 1);
}

#[test]
fn adding_after_the_current_track_is_checked() {
    let mut engine = three_tracks(1);
    assert!(engine.can_add_after_current(2));
    engine.set_shuffle(true);
    assert!(engine.can_add_after_current(2));
    assert!(!engine.can_add_after_current(usize::MAX));
    let empty: QueueEngine<TrackId> = QueueEngine::new();
    assert!(!empty.can_add_after_current(1));
}
