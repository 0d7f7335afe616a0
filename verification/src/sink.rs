//! The playlist logic of the built-in audio engine. The engine keeps its own
//! playlist of stream URLs, loads entries into an audio sink one by one (the
//! next one ahead of time, for gapless playback) and watches the sink drain.
//!
//! Each command returns the [`SinkAction`]s that the caller performs on the
//! sink, its clock and its listeners, in order.

use vstd::prelude::*;

use crate::backend::{EngineEvent, PlayerStatus};

verus! {

/// What the caller must do on behalf of the engine.
#[derive(Debug, Clone, PartialEq, Eq)]
pub enum SinkAction {
    /// Resume the sink.
    Play,
    /// Pause the sink.
    Pause,
    /// Drop everything queued in the sink.
    Clear,
    /// Append the track that just finished loading to the sink.
    AppendLoaded,
    /// Tell the listeners, if any.
    Emit(EngineEvent),
    /// Send the engine a command to load playlist entry `index`.
    QueueLoad { index: i64, is_preload: bool },
    /// Send the engine a command to resume.
    QueuePlay,
    /// Send the engine a command to stop.
    QueueStop,
    /// Open and decode `url`, then report entry `index` as loaded or failed.
    StartLoading { index: i64, url: String, is_preload: bool },
    /// Take the sink's position as the start of the current track and forget
    /// any seek offset.
    RestartClock,
    /// Forget any seek offset.
    ResetSeekOffset,
    /// Zero the track start and the seek offset.
    ClearClock,
    /// Report the playback position to the listeners.
    ReportPosition,
}

/// The engine's state as plain values.
#[verifier::ext_equal]
pub struct SinkModel {
    pub playlist: Seq<String>,
    /// The playlist entry playing, or -1.
    pub current: i64,
    /// How many entries the sink holds.
    pub queued: usize,
    /// The last entry loaded ahead of time, or -1.
    pub last_preloaded: i64,
    pub status: PlayerStatus,
    /// The entry whose load is awaited to play, or -1.
    pub expected: i64,
}

/// `index` names an entry of a playlist of length `len`.
pub open spec fn names_entry(index: i64, len: nat) -> bool {
    index >= 0 && (index as usize) < len
}

/// The actions of `k` tracks finishing while the sink keeps playing.
pub open spec fn finish_actions(k: nat) -> Seq<SinkAction>
    decreases k,
{
    if k == 0 {
        Seq::empty()
    } else {
        finish_actions((k - 1) as nat) + seq![
            SinkAction::RestartClock,
            SinkAction::Emit(EngineEvent::EndOfTrack),
            SinkAction::Emit(EngineEvent::TrackStarted),
        ]
    }
}

impl SinkModel {
    /// The state once `url` is inserted at `index`: entries at or after
    /// `index` move up by one, and so do the positions naming them; past
    /// the end (a negative index counts as past the end) `url` is appended.
    pub open spec fn inserted(self, url: String, index: i64) -> SinkModel {
        if (index as usize) <= self.playlist.len() {
            SinkModel {
                playlist: self.playlist.insert((index as usize) as int, url),
                current: if self.current >= index { (self.current + 1) as i64 } else { self.current },
                last_preloaded: if self.current >= index {
                    (self.last_preloaded + 1) as i64
                } else {
                    self.last_preloaded
                },
                expected: if self.expected >= index { (self.expected + 1) as i64 } else { self.expected },
                ..self
            }
        } else {
            SinkModel { playlist: self.playlist.push(url), ..self }
        }
    }

    /// The state once the entry at `index` is removed (nothing changes past
    /// the end): entries after it move down by one, and so do the positions
    /// naming them.
    pub open spec fn removed(self, index: i64) -> SinkModel {
        if (index as usize) < self.playlist.len() {
            SinkModel {
                playlist: self.playlist.remove((index as usize) as int),
                current: if self.current > index { (self.current - 1) as i64 } else { self.current },
                last_preloaded: if self.current > index {
                    (self.last_preloaded - 1) as i64
                } else {
                    self.last_preloaded
                },
                expected: if self.expected > index { (self.expected - 1) as i64 } else { self.expected },
                ..self
            }
        } else {
            self
        }
    }
}

/// The playlist state of the audio engine.
pub struct RodioState {
    playlist: Vec<String>,
    current_index: i64,
    queued_count: usize,
    last_preloaded_index: i64,
    status: PlayerStatus,
    expected_load_index: i64,
}

impl View for RodioState {
    type V = SinkModel;

    closed spec fn view(&self) -> SinkModel {
        SinkModel {
            playlist: self.playlist@,
            current: self.current_index,
            queued: self.queued_count,
            last_preloaded: self.last_preloaded_index,
            status: self.status,
            expected: self.expected_load_index,
        }
    }
}

impl RodioState {
    /// An empty, stopped engine.
    pub fn new() -> (r: Self)
        ensures
            r@ == (SinkModel {
                playlist: Seq::empty(),
                current: -1i64,
                queued: 0,
                last_preloaded: -1i64,
                status: PlayerStatus::Stopped,
                expected: -1i64,
            }),
    {
        RodioState {
            playlist: Vec::new(),
            current_index: -1,
            queued_count: 0,
            last_preloaded_index: -1,
            status: PlayerStatus::Stopped,
            expected_load_index: -1,
        }
    }

    /// The playback status.
    pub fn status(&self) -> (r: PlayerStatus)
        ensures
            r == self@.status,
    {
        self.status
    }

    /// The playlist entry playing, or -1.
    pub fn current_index(&self) -> (r: i64)
        ensures
            r == self@.current,
    {
        self.current_index
    }

    /// The number of playlist entries.
    pub fn playlist_len(&self) -> (r: usize)
        ensures
            r == self@.playlist.len(),
    {
        self.playlist.len()
    }

    /// Resumes a paused engine, or starts a stopped one on its current entry.
    pub fn play(&mut self) -> (actions: Vec<SinkAction>)
        ensures
            ({
                let m = old(self)@;
                if m.status == PlayerStatus::Paused {
                    &&& final(self)@ == SinkModel { status: PlayerStatus::Playing, ..m }
                    &&& actions@ == seq![SinkAction::Play, SinkAction::Emit(EngineEvent::Status(PlayerStatus::Playing))]
                } else if m.status == PlayerStatus::Stopped && names_entry(m.current, m.playlist.len()) {
                    &&& final(self)@ == m
                    &&& actions@ == seq![SinkAction::QueueLoad { index: m.current, is_preload: false }]
                } else {
                    final(self)@ == m && actions@.len() == 0
                }
            }),
    {
        let mut actions: Vec<SinkAction> = Vec::new();
        if self.status == PlayerStatus::Paused {
            actions.push(SinkAction::Play);
            self.status = PlayerStatus::Playing;
            actions.push(SinkAction::Emit(EngineEvent::Status(PlayerStatus::Playing)));
        } else if self.status == PlayerStatus::Stopped {
            if self.current_index >= 0 && (self.current_index as usize) < self.playlist.len() {
                actions.push(SinkAction::QueueLoad { index: self.current_index, is_preload: false });
            }
        }
        actions
    }

    /// Pauses the sink; a playing or loading engine becomes paused.
    pub fn pause(&mut self) -> (actions: Vec<SinkAction>)
        ensures
            ({
                let m = old(self)@;
                if m.status != PlayerStatus::Stopped {
                    &&& final(self)@ == SinkModel { status: PlayerStatus::Paused, ..m }
                    &&& actions@ == seq![SinkAction::Pause, SinkAction::Emit(EngineEvent::Status(PlayerStatus::Paused))]
                } else {
                    final(self)@ == m && actions@ == seq![SinkAction::Pause]
                }
            }),
    {
        let mut actions: Vec<SinkAction> = Vec::new();
        actions.push(SinkAction::Pause);
        if self.status != PlayerStatus::Stopped {
            self.status = PlayerStatus::Paused;
            actions.push(SinkAction::Emit(EngineEvent::Status(PlayerStatus::Paused)));
        }
        actions
    }

    /// Pauses a playing engine, resumes a paused one, starts a stopped one.
    pub fn toggle_pause(&mut self) -> (actions: Vec<SinkAction>)
        ensures
            ({
                let m = old(self)@;
                match m.status {
                    PlayerStatus::Playing => {
                        &&& final(self)@ == SinkModel { status: PlayerStatus::Paused, ..m }
                        &&& actions@ == seq![SinkAction::Pause, SinkAction::Emit(EngineEvent::Status(PlayerStatus::Paused))]
                    },
                    PlayerStatus::Paused => {
                        &&& final(self)@ == SinkModel { status: PlayerStatus::Playing, ..m }
                        &&& actions@ == seq![SinkAction::Play, SinkAction::Emit(EngineEvent::Status(PlayerStatus::Playing))]
                    },
                    PlayerStatus::Stopped => final(self)@ == m && actions@ == seq![SinkAction::QueuePlay],
                    PlayerStatus::Buffering => final(self)@ == m && actions@.len() == 0,
                }
            }),
    {
        let mut actions: Vec<SinkAction> = Vec::new();
        if self.status == PlayerStatus::Playing {
            actions.push(SinkAction::Pause);
            self.status = PlayerStatus::Paused;
            actions.push(SinkAction::Emit(EngineEvent::Status(PlayerStatus::Paused)));
        } else if self.status == PlayerStatus::Paused {
            actions.push(SinkAction::Play);
            self.status = PlayerStatus::Playing;
            actions.push(SinkAction::Emit(EngineEvent::Status(PlayerStatus::Playing)));
        } else if self.status == PlayerStatus::Stopped {
            actions.push(SinkAction::QueuePlay);
        }
        actions
    }

    /// Empties the sink and stops; the playlist and its position stay.
    pub fn stop(&mut self) -> (actions: Vec<SinkAction>)
        ensures
            final(self)@ == (SinkModel { status: PlayerStatus::Stopped, queued: 0, expected: -1i64, ..old(self)@ }),
            actions@ == seq![SinkAction::Clear, SinkAction::Emit(EngineEvent::Status(PlayerStatus::Stopped))],
    {
        let mut actions: Vec<SinkAction> = Vec::new();
        actions.push(SinkAction::Clear);
        self.status = PlayerStatus::Stopped;
        self.queued_count = 0;
        self.expected_load_index = -1;
        actions.push(SinkAction::Emit(EngineEvent::Status(PlayerStatus::Stopped)));
        actions
    }

    /// Appends `url` to the playlist.
    pub fn add(&mut self, url: String)
        ensures
            final(self)@ == (SinkModel { playlist: old(self)@.playlist.push(url), ..old(self)@ }),
    {
        self.playlist.push(url);
    }

    /// Inserts `url` at `index`, or appends it when `index` is past the end
    /// (a negative index counts as past the end). Entries at or after
    /// `index` move up by one, and so do the positions naming them.
    pub fn insert(&mut self, url: String, index: i64)
        requires
            (index as usize) <= old(self)@.playlist.len() ==> {
                &&& old(self)@.current >= index ==> old(self)@.current < i64::MAX && old(self)@.last_preloaded
                    < i64::MAX
                &&& old(self)@.expected >= index ==> old(self)@.expected < i64::MAX
            },
        ensures
            final(self)@ == old(self)@.inserted(url, index),
    {
        let idx = index as usize;
        if idx <= self.playlist.len() {
            self.playlist.insert(idx, url);
            if self.current_index >= index {
                self.current_index = self.current_index + 1;
                self.last_preloaded_index = self.last_preloaded_index + 1;
            }
            if self.expected_load_index >= index {
                self.expected_load_index = self.expected_load_index + 1;
            }
        } else {
            self.playlist.push(url);
        }
    }

    /// Removes the entry at `index` (nothing happens past the end).
    /// Removing the current entry stops the engine; entries after it move
    /// down by one, and so do the positions naming them.
    pub fn remove_index(&mut self, index: i64) -> (actions: Vec<SinkAction>)
        requires
            (index as usize) < old(self)@.playlist.len() && old(self)@.current > index ==> old(self)@.last_preloaded
                > i64::MIN,
        ensures
            final(self)@ == old(self)@.removed(index),
            actions@ == if (index as usize) < old(self)@.playlist.len() && old(self)@.current == index {
                seq![SinkAction::QueueStop]
            } else {
                Seq::empty()
            },
    {
        let mut actions: Vec<SinkAction> = Vec::new();
        let idx = index as usize;
        if idx < self.playlist.len() {
            self.playlist.remove(idx);
            if self.current_index == index {
                actions.push(SinkAction::QueueStop);
            } else if self.current_index > index {
                self.current_index = self.current_index - 1;
                self.last_preloaded_index = self.last_preloaded_index - 1;
            }
            if self.expected_load_index > index {
                self.expected_load_index = self.expected_load_index - 1;
            }
        }
        actions
    }

    /// Empties the playlist and the sink, and stops.
    pub fn clear_playlist(&mut self) -> (actions: Vec<SinkAction>)
        ensures
            final(self)@ == (SinkModel {
                playlist: Seq::empty(),
                current: -1i64,
                queued: 0,
                last_preloaded: -1i64,
                status: PlayerStatus::Stopped,
                expected: -1i64,
            }),
            actions@ == seq![
                SinkAction::Clear,
                SinkAction::ClearClock,
                SinkAction::Emit(EngineEvent::Status(PlayerStatus::Stopped)),
            ],
    {
        let mut actions: Vec<SinkAction> = Vec::new();
        self.playlist.clear();
        actions.push(SinkAction::Clear);
        self.status = PlayerStatus::Stopped;
        self.current_index = -1;
        self.queued_count = 0;
        self.last_preloaded_index = -1;
        actions.push(SinkAction::ClearClock);
        self.expected_load_index = -1;
        actions.push(SinkAction::Emit(EngineEvent::Status(PlayerStatus::Stopped)));
        actions
    }

    /// Loads playlist entry `index`: to play it (the engine buffers it and
    /// awaits it) or ahead of time. An index that names no entry stops the
    /// engine, unless it was a preload.
    pub fn load_track(&mut self, index: i64, is_preload: bool) -> (actions: Vec<SinkAction>)
        ensures
            ({
                let m = old(self)@;
                let m1 = if is_preload {
                    m
                } else {
                    SinkModel {
                        expected: index,
                        status: PlayerStatus::Buffering,
                        current: index,
                        queued: 0,
                        last_preloaded: index,
                        ..m
                    }
                };
                let head = if is_preload {
                    Seq::<SinkAction>::empty()
                } else {
                    seq![SinkAction::ResetSeekOffset, SinkAction::Emit(EngineEvent::Status(PlayerStatus::Buffering))]
                };
                if names_entry(index, m.playlist.len()) {
                    &&& final(self)@ == m1
                    &&& actions@.len() == head.len() + 1
                    &&& actions@.take(head.len() as int) == head
                    &&& actions@.last() matches SinkAction::StartLoading { index: i, url, is_preload: p }
                        && i == index && p == is_preload && url == m.playlist[(index as usize) as int]
                } else if !is_preload {
                    &&& final(self)@ == SinkModel { status: PlayerStatus::Stopped, ..m1 }
                    &&& actions@ == head + seq![SinkAction::Clear, SinkAction::Emit(EngineEvent::Status(PlayerStatus::Stopped))]
                } else {
                    final(self)@ == m1 && actions@ == head
                }
            }),
    {
        let mut actions: Vec<SinkAction> = Vec::new();
        if !is_preload {
            self.expected_load_index = index;
            self.status = PlayerStatus::Buffering;
            self.current_index = index;
            self.queued_count = 0;
            self.last_preloaded_index = index;
            actions.push(SinkAction::ResetSeekOffset);
            actions.push(SinkAction::Emit(EngineEvent::Status(PlayerStatus::Buffering)));
        }
        let ghost head = actions@;
        if index >= 0 && (index as usize) < self.playlist.len() {
            let url = self.playlist[index as usize].clone();
            actions.push(SinkAction::StartLoading { index, url, is_preload });
            proof {
                assert(actions@.take(head.len() as int) =~= head);
            }
        } else if !is_preload {
            actions.push(SinkAction::Clear);
            self.status = PlayerStatus::Stopped;
            actions.push(SinkAction::Emit(EngineEvent::Status(PlayerStatus::Stopped)));
            proof {
                assert(actions@ =~= head + seq![
                    SinkAction::Clear,
                    SinkAction::Emit(EngineEvent::Status(PlayerStatus::Stopped)),
                ]);
            }
        }
        actions
    }

    /// Entry `index` finished loading. A preload is appended to the sink if
    /// it is still the one expected ahead and the engine is not stopped; a
    /// track to play replaces the sink's contents if it is still awaited,
    /// and starts unless the engine is paused. Stale loads are dropped.
    pub fn track_loaded(&mut self, index: i64, is_preload: bool) -> (actions: Vec<SinkAction>)
        requires
            is_preload ==> old(self)@.queued < usize::MAX,
        ensures
            ({
                let m = old(self)@;
                if is_preload {
                    if index == m.last_preloaded && m.status != PlayerStatus::Stopped {
                        &&& final(self)@ == SinkModel { queued: (m.queued + 1) as usize, ..m }
                        &&& actions@ == seq![SinkAction::AppendLoaded]
                    } else {
                        final(self)@ == m && actions@.len() == 0
                    }
                } else if index == m.expected {
                    let head = seq![
                        SinkAction::Clear,
                        SinkAction::AppendLoaded,
                        SinkAction::RestartClock,
                        SinkAction::Emit(EngineEvent::TrackStarted),
                    ];
                    if m.status != PlayerStatus::Paused {
                        &&& final(self)@ == SinkModel { queued: 1, status: PlayerStatus::Playing, ..m }
                        &&& actions@ == head + seq![
                            SinkAction::Play,
                            SinkAction::Emit(EngineEvent::Status(PlayerStatus::Playing)),
                        ]
                    } else {
                        &&& final(self)@ == SinkModel { queued: 1, ..m }
                        &&& actions@ == head
                    }
                } else {
                    final(self)@ == m && actions@.len() == 0
                }
            }),
    {
        let mut actions: Vec<SinkAction> = Vec::new();
        if is_preload {
            if index == self.last_preloaded_index && self.status != PlayerStatus::Stopped {
                actions.push(SinkAction::AppendLoaded);
                self.queued_count = self.queued_count + 1;
            }
        } else if index == self.expected_load_index {
            actions.push(SinkAction::Clear);
            actions.push(SinkAction::AppendLoaded);
            self.queued_count = 1;
            actions.push(SinkAction::RestartClock);
            actions.push(SinkAction::Emit(EngineEvent::TrackStarted));
            if self.status != PlayerStatus::Paused {
                actions.push(SinkAction::Play);
                self.status = PlayerStatus::Playing;
                actions.push(SinkAction::Emit(EngineEvent::Status(PlayerStatus::Playing)));
            }
        }
        actions
    }

    /// Entry `index` could not be loaded: if it was awaited to play, the
    /// engine stops.
    pub fn track_load_failed(&mut self, index: i64, is_preload: bool) -> (actions: Vec<SinkAction>)
        ensures
            ({
                let m = old(self)@;
                if !is_preload && index == m.expected {
                    &&& final(self)@ == SinkModel { status: PlayerStatus::Stopped, queued: 0, ..m }
                    &&& actions@ == seq![SinkAction::Emit(EngineEvent::Status(PlayerStatus::Stopped))]
                } else {
                    final(self)@ == m && actions@.len() == 0
                }
            }),
    {
        let mut actions: Vec<SinkAction> = Vec::new();
        if !is_preload && index == self.expected_load_index {
            self.status = PlayerStatus::Stopped;
            self.queued_count = 0;
            actions.push(SinkAction::Emit(EngineEvent::Status(PlayerStatus::Stopped)));
        }
        actions
    }

    /// The periodic check of a playing engine, given `sink_len`, the number
    /// of tracks the sink still holds. A sink that ran dry moves on to the
    /// next entry (or stops at the end); tracks that finished while the
    /// sink kept playing advance the current entry; with one track left the
    /// next entry is loaded ahead of time; the position is reported.
    pub fn tick(&mut self, sink_len: usize) -> (actions: Vec<SinkAction>)
        requires
            old(self)@.status == PlayerStatus::Playing ==> old(self)@.current + old(self)@.queued + 1
                <= i64::MAX,
        ensures
            final(self)@.current >= old(self)@.current,
            final(self)@.playlist == old(self)@.playlist,
            ({
                let m = old(self)@;
                if m.status != PlayerStatus::Playing {
                    final(self)@ == m && actions@.len() == 0
                } else if sink_len == 0 && m.queued > 0 {
                    let next = (m.current + 1) as i64;
                    if names_entry(next, m.playlist.len()) {
                        &&& final(self)@ == SinkModel { current: next, queued: 0, ..m }
                        &&& actions@ == seq![
                            SinkAction::Emit(EngineEvent::EndOfTrack),
                            SinkAction::QueueLoad { index: next, is_preload: false },
                        ]
                    } else {
                        &&& final(self)@ == SinkModel { current: next, queued: 0, status: PlayerStatus::Stopped, ..m }
                        &&& actions@ == seq![
                            SinkAction::Emit(EngineEvent::EndOfTrack),
                            SinkAction::Emit(EngineEvent::Status(PlayerStatus::Stopped)),
                        ]
                    }
                } else if sink_len > 0 {
                    let finished: nat = if sink_len < m.queued { (m.queued - sink_len) as nat } else { 0 };
                    let cur = (m.current + finished) as i64;
                    let m1 = SinkModel {
                        current: cur,
                        queued: if sink_len < m.queued { sink_len } else { m.queued },
                        ..m
                    };
                    let next = (cur + 1) as i64;
                    let preload = sink_len == 1 && names_entry(next, m.playlist.len()) && next != m.last_preloaded;
                    &&& final(self)@ == if preload { SinkModel { last_preloaded: next, ..m1 } } else { m1 }
                    &&& actions@ == finish_actions(finished) + (if preload {
                        seq![SinkAction::QueueLoad { index: next, is_preload: true }]
                    } else {
                        Seq::<SinkAction>::empty()
                    }) + seq![SinkAction::ReportPosition]
                } else {
                    final(self)@ == m && actions@.len() == 0
                }
            }),
    {
        let mut actions: Vec<SinkAction> = Vec::new();
        if self.status != PlayerStatus::Playing {
            return actions;
        }
        if sink_len == 0 && self.queued_count > 0 {
            actions.push(SinkAction::Emit(EngineEvent::EndOfTrack));
            self.current_index = self.current_index + 1;
            self.queued_count = 0;
            let next_index = self.current_index;
            if next_index >= 0 && (next_index as usize) < self.playlist.len() {
                actions.push(SinkAction::QueueLoad { index: next_index, is_preload: false });
            } else {
                self.status = PlayerStatus::Stopped;
                actions.push(SinkAction::Emit(EngineEvent::Status(PlayerStatus::Stopped)));
            }
        } else if sink_len > 0 {
            let ghost m = self@;
            if sink_len < self.queued_count {
                let finished = self.queued_count - sink_len;
                let mut i: usize = 0;
                while i < finished
                    invariant
                        i <= finished,
                        finished == m.queued - sink_len,
                        m.current + m.queued + 1 <= i64::MAX,
                        self@ == (SinkModel { current: (m.current + i) as i64, ..m }),
                        actions@ == finish_actions(i as nat),
                    decreases finished - i,
                {
                    self.current_index = self.current_index + 1;
                    actions.push(SinkAction::RestartClock);
                    actions.push(SinkAction::Emit(EngineEvent::EndOfTrack));
                    actions.push(SinkAction::Emit(EngineEvent::TrackStarted));
                    i = i + 1;
                }
                self.queued_count = sink_len;
            }
            let ghost head = actions@;
            if sink_len == 1 {
                let next_index = self.current_index + 1;
                if next_index >= 0 && (next_index as usize) < self.playlist.len() && next_index
                    != self.last_preloaded_index {
                    self.last_preloaded_index = next_index;
                    actions.push(SinkAction::QueueLoad { index: next_index, is_preload: true });
                }
            }
            actions.push(SinkAction::ReportPosition);
            proof {
                let finished: nat = if sink_len < m.queued { (m.queued - sink_len) as nat } else { 0 };
                assert(head == finish_actions(finished));
                let cur = (m.current + finished) as i64;
                let next = (cur + 1) as i64;
                let preload = sink_len == 1 && names_entry(next, m.playlist.len()) && next != m.last_preloaded;
                assert(actions@ =~= head + (if preload {
                    seq![SinkAction::QueueLoad { index: next, is_preload: true }]
                } else {
                    Seq::<SinkAction>::empty()
                }) + seq![SinkAction::ReportPosition]);
            }
        }
        actions
    }
}

/// Inserting an entry keeps the entry that plays: the current position
/// follows it. (An index or a position that a 32-bit `usize` would cut
/// short is left out.)
pub proof fn law_insert_keeps_playing_entry(m: SinkModel, url: String, index: i64)
    requires
        0 <= m.current < m.playlist.len(),
        m.current < i64::MAX,
        m.playlist.len() < usize::MAX,
        0 <= index <= m.playlist.len() || (index as usize) > m.playlist.len(),
    ensures
        names_entry(m.inserted(url, index).current, m.inserted(url, index).playlist.len()),
        m.inserted(url, index).playlist[m.inserted(url, index).current as int] == m.playlist[m.current as int],
{
    if (index as usize) <= m.playlist.len() {
        assert((index as usize) as int == index as int);
    }
}

/// Removing an entry other than the one that plays keeps the entry that
/// plays: the current position follows it. (An index or a position that a
/// 32-bit `usize` would cut short is left out.)
pub proof fn law_remove_keeps_playing_entry(m: SinkModel, index: i64)
    requires
        0 <= m.current < m.playlist.len(),
        m.playlist.len() <= usize::MAX,
        index != m.current,
        0 <= index < m.playlist.len() || (index as usize) >= m.playlist.len(),
    ensures
        names_entry(m.removed(index).current, m.removed(index).playlist.len()),
        m.removed(index).playlist[m.removed(index).current as int] == m.playlist[m.current as int],
{
    if (index as usize) < m.playlist.len() {
        assert((index as usize) as int == index as int);
    }
}

} // verus!
