//! The play queue: which track plays, which one comes next, and what the
//! audio engine must be told after each user request or player event.
//!
//! The engine never talks to the audio backend itself. Every request returns
//! the list of [`Effect`]s that the caller performs, in order.

use rand::seq::SliceRandom;
use vstd::prelude::*;

use crate::backend::PlayerStatus;
use crate::models::{RepeatMode, ShuffleType};

verus! {

/// What the caller must do on behalf of the queue engine.
#[derive(Debug, Clone, PartialEq, Eq)]
pub enum Effect {
    /// Stop the audio engine and clear its playlist.
    ResetPlayer,
    /// Remove the entry at this index of the audio engine's playlist.
    RemovePlayerEntry(usize),
    /// Resolve the stream URL of the queue entry at `index`, then report it
    /// back through [`QueueEngine::url_ready`].
    FetchStreamUrl { index: usize, is_preload: bool },
    /// Append this stream URL to the audio engine's playlist.
    AppendUrl(String),
    /// Pause the audio engine.
    PausePlayer,
    /// Start the audio engine on this entry of its playlist.
    StartPlayerAt(usize),
    /// Resume the audio engine.
    ResumePlayer,
    /// Load the cover art of the current track.
    RefreshArt,
    /// Publish the queue and the player's state to observers.
    Publish,
    /// Publish the queue with the playback status forced to stopped.
    PublishStopped,
}

/// The mathematical state of a [`QueueEngine`].
#[verifier::ext_equal]
pub struct QueueModel<T> {
    /// The tracks of the queue.
    pub queue: Seq<T>,
    /// Index of the current track.
    pub pos: usize,
    /// Positions played before, while smart shuffling (most recent last).
    pub history: Seq<usize>,
    /// Positions not yet played in this smart shuffle round (next one last).
    pub unplayed: Seq<usize>,
    /// The position that follows the current one, if any.
    pub next: Option<usize>,
    /// The audio engine holds the current track.
    pub has_current: bool,
    /// The audio engine holds the following track too.
    pub has_next: bool,
    /// Position whose stream URL is being resolved to play it.
    pub fetching_current: Option<usize>,
    /// Position whose stream URL is being resolved to preload it.
    pub fetching_preload: Option<usize>,
    /// Playback starts by itself once a track is loaded.
    pub auto_play: bool,
    pub repeat_mode: RepeatMode,
    pub shuffle: bool,
    pub shuffle_type: ShuffleType,
    /// Played tracks leave the queue.
    pub consume: bool,
    /// Playback stops when the current track ends.
    pub stop_after: bool,
}

/// The positions `lo, lo + 1, .., hi - 1`.
pub open spec fn index_range(lo: int, hi: int) -> Seq<usize> {
    if hi <= lo {
        Seq::empty()
    } else {
        Seq::new((hi - lo) as nat, |i: int| (lo + i) as usize)
    }
}

/// The positions `0, 1, .., len - 1` without `skip`, in ascending order.
pub open spec fn range_without(len: int, skip: usize) -> Seq<usize>
    decreases len,
{
    if len <= 0 {
        Seq::empty()
    } else if (len - 1) == skip {
        range_without(len - 1, skip)
    } else {
        range_without(len - 1, skip).push((len - 1) as usize)
    }
}

/// `a` holds the same elements as `b`, as many times, in any order.
pub open spec fn is_permutation(a: Seq<usize>, b: Seq<usize>) -> bool {
    a.to_multiset() =~= b.to_multiset()
}

/// Every element of `s` is at most `bound`.
pub open spec fn all_at_most(s: Seq<usize>, bound: int) -> bool {
    forall|i: int| 0 <= i < s.len() ==> s[i] <= bound
}

/// Removes every occurrence of position `idx` and moves the positions above
/// it down by one: the positions of the same tracks once `idx` is gone.
pub open spec fn drop_position(s: Seq<usize>, idx: usize) -> Seq<usize> {
    s.filter_map(
        |e: usize|
            if e == idx {
                None
            } else if e > idx {
                Some((e - 1) as usize)
            } else {
                Some(e)
            },
    )
}

/// Moves the positions at or above `at` up by `n`: the positions of the same
/// tracks once `n` tracks are inserted at `at`.
pub open spec fn open_gap(s: Seq<usize>, at: usize, n: usize) -> Seq<usize> {
    s.map_values(|e: usize| if e >= at { (e + n) as usize } else { e })
}

/// Where the track at position `e` stands once the track at `from` is moved to `to`.
pub open spec fn moved_position(e: usize, from: usize, to: usize) -> usize {
    if e == from {
        to
    } else if from < e && e <= to {
        (e - 1) as usize
    } else if from > e && e >= to {
        (e + 1) as usize
    } else {
        e
    }
}

impl<T> QueueModel<T> {
    /// Smart shuffling is on.
    pub open spec fn smart(self) -> bool {
        self.shuffle && self.shuffle_type == ShuffleType::Smart
    }

    /// Moving on from the current track is possible: when played tracks
    /// leave the queue, the current position must name a track.
    pub open spec fn can_advance(self) -> bool {
        self.consume && self.queue.len() > 0 ==> self.pos < self.queue.len()
    }

    /// Choosing the next position starts a new smart shuffle round.
    pub open spec fn starts_new_round(self, force_advance: bool) -> bool {
        &&& self.queue.len() > 0
        &&& !(self.stop_after && !force_advance)
        &&& !(self.repeat_mode == RepeatMode::One && !force_advance)
        &&& self.smart()
        &&& self.unplayed.len() == 0
        &&& (self.repeat_mode == RepeatMode::All || force_advance)
    }

    /// `after` (with `choice`) is a possible outcome of choosing the position
    /// that follows the current one in `self`. `force_advance` is set when
    /// the user asked to skip: it overrides "repeat one", "stop after current"
    /// and the end of the queue.
    pub open spec fn next_choice(self, force_advance: bool, after: Self, choice: Option<usize>) -> bool {
        let len = self.queue.len();
        &&& after =~= QueueModel { unplayed: after.unplayed, ..self }
        &&& if self.starts_new_round(force_advance) {
            is_permutation(after.unplayed, range_without(len as int, self.pos))
        } else {
            after.unplayed == self.unplayed
        }
        &&& if len == 0 {
            choice is None
        } else if self.stop_after && !force_advance {
            choice is None
        } else if self.repeat_mode == RepeatMode::One && !force_advance {
            choice == Some(self.pos)
        } else if self.shuffle {
            match self.shuffle_type {
                ShuffleType::Random => choice matches Some(c) && c < len,
                ShuffleType::Smart => choice == if after.unplayed.len() > 0 {
                    Some(after.unplayed.last())
                } else {
                    None::<usize>
                },
            }
        } else if self.pos + 1 < len {
            choice == Some((self.pos + 1) as usize)
        } else if self.repeat_mode == RepeatMode::All || force_advance {
            choice == Some(0usize)
        } else {
            choice is None
        }
    }

    /// `after` is a possible outcome of recomputing the following position.
    pub open spec fn recalculated(self, after: Self) -> bool {
        self.next_choice(false, QueueModel { next: self.next, ..after }, after.next)
    }

    /// The state once the track at `idx` has left the queue.
    pub open spec fn removed(self, idx: usize) -> Self {
        QueueModel {
            queue: self.queue.remove(idx as int),
            history: drop_position(self.history, idx),
            unplayed: drop_position(self.unplayed, idx),
            pos: if self.pos > idx { (self.pos - 1) as usize } else { self.pos },
            ..self
        }
    }

    /// The state once playback has moved on to position `new_idx`.
    pub open spec fn committed(self, new_idx: usize) -> Self {
        let m = if self.smart() {
            QueueModel {
                history: self.history.push(self.pos),
                unplayed: self.unplayed.remove_value(new_idx),
                ..self
            }
        } else {
            self
        };
        if self.consume {
            QueueModel {
                pos: if new_idx > self.pos { (new_idx - 1) as usize } else { new_idx },
                ..m.removed(self.pos)
            }
        } else {
            QueueModel { pos: new_idx, ..m }
        }
    }
}


impl<T> QueueModel<T> {
    /// Preloading: once the current track is loaded, resolve the stream of
    /// the following one, unless that is already under way.
    pub open spec fn preload_checked(self) -> (Self, Seq<Effect>) {
        if self.has_current && !self.has_next && self.next is Some && !self.stop_after
            && self.fetching_preload != self.next {
            (
                QueueModel { fetching_preload: self.next, ..self },
                seq![Effect::FetchStreamUrl { index: self.next->0, is_preload: true }],
            )
        } else {
            (self, Seq::empty())
        }
    }

    /// Drops a preloaded following track (it may no longer follow), then
    /// preloads again.
    pub open spec fn preload_fixed(self) -> (Self, Seq<Effect>) {
        if self.has_next {
            let m = QueueModel { has_next: false, fetching_preload: None, ..self };
            (m.preload_checked().0, seq![Effect::RemovePlayerEntry(1)] + m.preload_checked().1)
        } else {
            self.preload_checked()
        }
    }

    /// The state once playback has stopped and the audio engine is empty.
    pub open spec fn stopped(self) -> Self {
        QueueModel {
            pos: 0,
            has_current: false,
            has_next: false,
            auto_play: false,
            fetching_current: None,
            fetching_preload: None,
            ..self
        }
    }

    /// `after` and `effects` are a possible outcome of starting playback
    /// afresh at `index`: the audio engine is emptied and the stream of the
    /// track at `index`, if there is one, is resolved.
    pub open spec fn played_at(self, index: usize, auto_play: bool, after: Self, effects: Seq<Effect>) -> bool {
        let m = QueueModel {
            pos: index,
            has_current: false,
            has_next: false,
            fetching_current: None,
            fetching_preload: None,
            auto_play,
            ..self
        };
        let fetch = index < self.queue.len();
        &&& m.recalculated(QueueModel { fetching_current: None, ..after })
        &&& after.fetching_current == if fetch { Some(index) } else { None::<usize> }
        &&& effects == seq![Effect::ResetPlayer] + (if fetch {
            seq![Effect::FetchStreamUrl { index, is_preload: false }]
        } else {
            Seq::<Effect>::empty()
        }) + seq![Effect::RefreshArt, Effect::Publish]
    }

    /// `after` and `effects` are a possible outcome of the usual end of a
    /// request: recompute the following position, fix the preloaded track,
    /// publish.
    pub open spec fn settled(self, after: Self, effects: Seq<Effect>) -> bool {
        let m = QueueModel { next: after.next, unplayed: after.unplayed, ..self };
        &&& self.recalculated(m)
        &&& after =~= m.preload_fixed().0
        &&& effects == m.preload_fixed().1.push(Effect::Publish)
    }
}


impl<T> QueueModel<T> {
    /// `after` and `effects` are a possible outcome of adding `tracks` to
    /// the queue, where `chunk` is the random order given to their positions
    /// in the smart shuffle round, and `mid` the state once the following
    /// position was first recomputed (an empty queue starts playing at once).
    pub open spec fn tracks_added(
        self,
        tracks: Seq<T>,
        next: bool,
        chunk: Seq<usize>,
        mid: Self,
        after: Self,
        effects: Seq<Effect>,
    ) -> bool {
        let len = self.queue.len();
        let n = tracks.len();
        if len == 0 {
            let m1 = QueueModel {
                queue: tracks,
                unplayed: if self.smart() { chunk } else { self.unplayed },
                ..self
            };
            &&& self.smart() ==> is_permutation(chunk, index_range(1, n as int))
            &&& m1.recalculated(mid)
            &&& mid.played_at(0, true, after, effects)
        } else if next {
            let at = (self.pos + 1) as usize;
            let evict = self.has_next;
            let m0 = if evict {
                QueueModel { has_next: false, fetching_preload: None, ..self }
            } else {
                self
            };
            let m1 = QueueModel {
                queue: self.queue.subrange(0, at as int) + tracks + self.queue.subrange(at as int, len as int),
                history: open_gap(self.history, at, n as usize),
                unplayed: open_gap(self.unplayed, at, n as usize) + if self.smart() {
                    chunk
                } else {
                    Seq::<usize>::empty()
                },
                ..m0
            };
            let k: int = if evict { 1 } else { 0 };
            &&& self.smart() ==> is_permutation(chunk, index_range(at as int, at + n))
            &&& effects.len() >= k
            &&& effects.take(k) == (if evict { seq![Effect::RemovePlayerEntry(1)] } else { Seq::<Effect>::empty() })
            &&& m1.settled(after, effects.skip(k))
        } else {
            let m1 = QueueModel {
                queue: self.queue + tracks,
                unplayed: self.unplayed + if self.smart() { chunk } else { Seq::<usize>::empty() },
                ..self
            };
            &&& self.smart() ==> is_permutation(chunk, index_range(len as int, (len + n) as int))
            &&& m1.settled(after, effects)
        }
    }

    /// `after` and `effects` are a possible outcome of replacing the queue by
    /// `tracks` and playing from `start` (from the first track when `start`
    /// is past the end), with `chunk` the new smart shuffle round.
    pub open spec fn tracks_replaced(
        self,
        tracks: Seq<T>,
        start: usize,
        chunk: Seq<usize>,
        after: Self,
        effects: Seq<Effect>,
    ) -> bool {
        let idx: usize = if start < tracks.len() { start } else { 0 };
        let m1 = QueueModel {
            queue: tracks,
            history: Seq::empty(),
            unplayed: if self.smart() { chunk } else { self.unplayed },
            pos: idx,
            ..self
        };
        &&& self.smart() ==> is_permutation(chunk, range_without(tracks.len() as int, idx))
        &&& m1.played_at(idx, true, after, effects)
    }

    /// `after` is a possible outcome of switching to shuffle settings
    /// `shuffle` and `shuffle_type`: entering smart shuffling forgets the
    /// history and starts a new round, `chunk`.
    pub open spec fn reshuffled(
        self,
        shuffle: bool,
        shuffle_type: ShuffleType,
        chunk: Seq<usize>,
        after: Self,
        effects: Seq<Effect>,
    ) -> bool {
        let fresh = shuffle && shuffle_type == ShuffleType::Smart;
        let m1 = QueueModel {
            shuffle,
            shuffle_type,
            history: if fresh { Seq::empty() } else { self.history },
            unplayed: if fresh { chunk } else { self.unplayed },
            ..self
        };
        &&& fresh ==> is_permutation(chunk, range_without(self.queue.len() as int, self.pos))
        &&& m1.settled(after, effects)
    }

    /// `after` and `effects` are a possible outcome of skipping to the next
    /// track, `choice` being the position chosen in state `mid`. When no
    /// position can be chosen the queue starts over, paused.
    pub open spec fn skipped(self, mid: Self, choice: Option<usize>, after: Self, effects: Seq<Effect>) -> bool {
        &&& self.next_choice(true, mid, choice)
        &&& match choice {
            Some(i) => mid.committed(i).played_at(mid.committed(i).pos, true, after, effects),
            None => if mid.queue.len() > 0 {
                mid.committed(0).played_at(mid.committed(0).pos, false, after, effects)
            } else {
                after == mid && effects.len() == 0
            },
        }
    }

    /// `after` and `effects` are a possible outcome of the audio engine
    /// reporting that it moved on by `advanced` entries of its playlist,
    /// `mid` being the state once the following position was recomputed.
    pub open spec fn track_advanced(self, advanced: usize, mid: Self, after: Self, effects: Seq<Effect>) -> bool {
        let target = match self.next {
            Some(i) => i,
            None => (self.pos + 1) as usize,
        };
        let m2 = QueueModel {
            has_current: true,
            has_next: false,
            stop_after: false,
            ..self.committed(target)
        };
        &&& m2.recalculated(mid)
        &&& after =~= mid.preload_checked().0
        &&& effects == Seq::new(advanced as nat, |i: int| Effect::RemovePlayerEntry(0)) + seq![Effect::RefreshArt]
            + mid.preload_checked().1 + seq![Effect::Publish]
    }

    /// `after` and `effects` are a possible outcome of the current track
    /// ending with nothing loaded after it: playback moves on to the
    /// following position, or stops when there is none.
    pub open spec fn ran_out(self, mid: Self, after: Self, effects: Seq<Effect>) -> bool {
        let m1 = QueueModel { has_current: false, stop_after: false, ..self };
        &&& m1.recalculated(mid)
        &&& match mid.next {
            Some(i) => mid.committed(i).played_at(mid.committed(i).pos, !self.stop_after, after, effects),
            None => after =~= mid.stopped() && effects == seq![Effect::ResetPlayer, Effect::PublishStopped],
        }
    }
}

/// The queue of a player and the bookkeeping that keeps the audio engine's
/// own playlist in step with it.
pub struct QueueEngine<T> {
    queue: Vec<T>,
    queue_position: usize,
    player_has_current: bool,
    player_has_next: bool,
    fetching_current_for: Option<usize>,
    fetching_preload_for: Option<usize>,
    auto_play: bool,
    repeat_mode: RepeatMode,
    shuffle: bool,
    shuffle_type: ShuffleType,
    consume: bool,
    stop_after_current: bool,
    shuffle_history: Vec<usize>,
    shuffle_unplayed: Vec<usize>,
    next_in_sequence: Option<usize>,
}

impl<T> View for QueueEngine<T> {
    type V = QueueModel<T>;

    closed spec fn view(&self) -> QueueModel<T> {
        QueueModel {
            queue: self.queue@,
            pos: self.queue_position,
            history: self.shuffle_history@,
            unplayed: self.shuffle_unplayed@,
            next: self.next_in_sequence,
            has_current: self.player_has_current,
            has_next: self.player_has_next,
            fetching_current: self.fetching_current_for,
            fetching_preload: self.fetching_preload_for,
            auto_play: self.auto_play,
            repeat_mode: self.repeat_mode,
            shuffle: self.shuffle,
            shuffle_type: self.shuffle_type,
            consume: self.consume,
            stop_after: self.stop_after_current,
        }
    }
}

/// Shuffles `v` in place.
///
/// Calls `rand::seq::SliceRandom::shuffle` with the thread-local generator.
/// Trusted: the result is a permutation of the input; which permutation is
/// left open, as it rests on chance.
#[verifier::external_body]
fn shuffle_in_place<T>(v: &mut Vec<T>)
    ensures
        final(v)@.to_multiset() =~= old(v)@.to_multiset(),
{
    v.shuffle(&mut rand::rng());
}

/// Puts a batch of tracks in random order when asked to, before it is
/// queued.
pub fn arrange_tracks<T>(tracks: &mut Vec<T>, shuffle: bool)
    ensures
        shuffle ==> final(tracks)@.to_multiset() =~= old(tracks)@.to_multiset(),
        !shuffle ==> final(tracks)@ == old(tracks)@,
{
    if shuffle {
        shuffle_in_place(tracks);
    }
}

/// A position drawn at random below `n`.
///
/// Calls `rand::random_range(0..n)`. Trusted: the result lies in `0..n`; which
/// one is left open, as it rests on chance.
#[verifier::external_body]
fn random_position(n: usize) -> (r: usize)
    requires
        n > 0,
    ensures
        r < n,
{
    rand::random_range(0..n)
}

/// The positions `0..len` without `skip`, ascending.
fn positions_without(len: usize, skip: usize) -> (v: Vec<usize>)
    ensures
        v@ == range_without(len as int, skip),
{
    let mut v: Vec<usize> = Vec::new();
    let mut i: usize = 0;
    while i < len
        invariant
            i <= len,
            v@ == range_without(i as int, skip),
        decreases len - i,
    {
        if i != skip {
            v.push(i);
        }
        i = i + 1;
    }
    v
}

/// The positions `lo..hi`, ascending.
fn positions_between(lo: usize, hi: usize) -> (v: Vec<usize>)
    requires
        lo <= hi,
    ensures
        v@ == index_range(lo as int, hi as int),
{
    let mut v: Vec<usize> = Vec::new();
    let mut i: usize = lo;
    while i < hi
        invariant
            lo <= i <= hi,
            v@ =~= index_range(lo as int, i as int),
        decreases hi - i,
    {
        v.push(i);
        i = i + 1;
    }
    v
}

/// `drop_position` applied to a vector.
fn drop_position_vec(v: &Vec<usize>, idx: usize) -> (r: Vec<usize>)
    ensures
        r@ == drop_position(v@, idx),
{
    let mut r: Vec<usize> = Vec::new();
    let mut i: usize = 0;
    while i < v.len()
        invariant
            i <= v.len(),
            r@ == drop_position(v@.take(i as int), idx),
        decreases v.len() - i,
    {
        let e = v[i];
        proof {
            assert(v@.take(i as int + 1).drop_last() =~= v@.take(i as int));
        }
        if e != idx {
            if e > idx {
                r.push(e - 1);
            } else {
                r.push(e);
            }
        }
        i = i + 1;
    }
    proof {
        assert(v@.take(v@.len() as int) =~= v@);
    }
    r
}


/// Where the track at `e` stands once the track at `from` moved to `to`.
fn moved(e: usize, from: usize, to: usize) -> (r: usize)
    ensures
        r == moved_position(e, from, to),
{
    if e == from {
        to
    } else if from < e && e <= to {
        e - 1
    } else if from > e && e >= to {
        e + 1
    } else {
        e
    }
}

/// `moved_position` applied to every element of `v`.
fn move_positions(v: &Vec<usize>, from: usize, to: usize) -> (r: Vec<usize>)
    ensures
        r@ == v@.map_values(|e: usize| moved_position(e, from, to)),
{
    let mut r: Vec<usize> = Vec::new();
    let mut i: usize = 0;
    while i < v.len()
        invariant
            i <= v.len(),
            r@ =~= v@.take(i as int).map_values(|e: usize| moved_position(e, from, to)),
        decreases v.len() - i,
    {
        r.push(moved(v[i], from, to));
        i = i + 1;
    }
    r
}


/// `open_gap` applied to a vector.
fn open_gap_vec(v: &Vec<usize>, at: usize, n: usize) -> (r: Vec<usize>)
    requires
        all_at_most(v@, usize::MAX - n),
    ensures
        r@ == open_gap(v@, at, n),
{
    let mut r: Vec<usize> = Vec::new();
    let mut i: usize = 0;
    while i < v.len()
        invariant
            i <= v.len(),
            all_at_most(v@, usize::MAX - n),
            r@ =~= open_gap(v@.take(i as int), at, n),
        decreases v.len() - i,
    {
        let e = v[i];
        if e >= at {
            r.push(e + n);
        } else {
            r.push(e);
        }
        i = i + 1;
    }
    r
}

/// The positions `lo..hi` in random order.
fn shuffled_between(lo: usize, hi: usize) -> (v: Vec<usize>)
    ensures
        is_permutation(v@, index_range(lo as int, hi as int)),
{
    let mut v = if lo <= hi { positions_between(lo, hi) } else { Vec::new() };
    proof {
        if lo > hi {
            assert(v@ =~= index_range(lo as int, hi as int));
        }
    }
    shuffle_in_place(&mut v);
    v
}

impl<T> QueueEngine<T> {
    /// An empty queue: nothing playing, no repeat, no shuffle.
    pub fn new() -> (r: Self)
        ensures
            r@ == (QueueModel::<T> {
                queue: Seq::empty(),
                pos: 0,
                history: Seq::empty(),
                unplayed: Seq::empty(),
                next: None,
                has_current: false,
                has_next: false,
                fetching_current: None,
                fetching_preload: None,
                auto_play: true,
                repeat_mode: RepeatMode::Off,
                shuffle: false,
                shuffle_type: ShuffleType::Smart,
                consume: false,
                stop_after: false,
            }),
    {
        QueueEngine {
            queue: Vec::new(),
            queue_position: 0,
            player_has_current: false,
            player_has_next: false,
            fetching_current_for: None,
            fetching_preload_for: None,
            auto_play: true,
            repeat_mode: RepeatMode::Off,
            shuffle: false,
            shuffle_type: ShuffleType::Smart,
            consume: false,
            stop_after_current: false,
            shuffle_history: Vec::new(),
            shuffle_unplayed: Vec::new(),
            next_in_sequence: None,
        }
    }

    /// Starts a new smart shuffle round: every position but the current one,
    /// in random order.
    fn refill_unplayed(&mut self)
        ensures
            final(self)@ =~= (QueueModel { unplayed: final(self)@.unplayed, ..old(self)@ }),
            is_permutation(final(self)@.unplayed, range_without(old(self)@.queue.len() as int, old(self)@.pos)),
    {
        let mut fresh = positions_without(self.queue.len(), self.queue_position);
        shuffle_in_place(&mut fresh);
        self.shuffle_unplayed = fresh;
    }

    /// Chooses the position that follows the current one.
    pub fn compute_next_index(&mut self, force_advance: bool) -> (r: Option<usize>)
        ensures
            old(self)@.next_choice(force_advance, final(self)@, r),
    {
        if self.queue.len() == 0 {
            return None;
        }
        if self.stop_after_current && !force_advance {
            return None;
        }
        if self.repeat_mode == RepeatMode::One && !force_advance {
            return Some(self.queue_position);
        }
        if self.shuffle {
            match self.shuffle_type {
                ShuffleType::Random => Some(random_position(self.queue.len())),
                ShuffleType::Smart => {
                    if self.shuffle_unplayed.len() == 0 {
                        if self.repeat_mode == RepeatMode::All || force_advance {
                            self.refill_unplayed();
                        } else {
                            return None;
                        }
                    }
                    let n = self.shuffle_unplayed.len();
                    if n > 0 {
                        Some(self.shuffle_unplayed[n - 1])
                    } else {
                        None
                    }
                },
            }
        } else {
            if self.queue_position < self.queue.len() - 1 {
                Some(self.queue_position + 1)
            } else if self.repeat_mode == RepeatMode::All || force_advance {
                Some(0)
            } else {
                None
            }
        }
    }

    /// Recomputes the position that follows the current one.
    fn recalculate_next(&mut self)
        ensures
            old(self)@.recalculated(final(self)@),
    {
        let r = self.compute_next_index(false);
        self.next_in_sequence = r;
    }

    /// Takes the track at `idx` out of the queue, keeping every recorded
    /// position pointing at the same track.
    fn remove_index_internal(&mut self, idx: usize)
        requires
            idx < old(self)@.queue.len(),
        ensures
            final(self)@ =~= old(self)@.removed(idx),
    {
        self.queue.remove(idx);
        self.shuffle_history = drop_position_vec(&self.shuffle_history, idx);
        self.shuffle_unplayed = drop_position_vec(&self.shuffle_unplayed, idx);
        if self.queue_position > idx {
            self.queue_position = self.queue_position - 1;
        }
    }

    /// Moves playback on to position `new_idx`.
    fn commit_transition(&mut self, new_idx: usize)
        requires
            old(self)@.consume ==> old(self)@.pos < old(self)@.queue.len(),
        ensures
            final(self)@ =~= old(self)@.committed(new_idx),
    {
        let ghost m0 = self@;
        let mut new_idx = new_idx;
        if self.shuffle && self.shuffle_type == ShuffleType::Smart {
            self.shuffle_history.push(self.queue_position);
            let mut k: usize = 0;
            let mut found = false;
            while !found && k < self.shuffle_unplayed.len()
                invariant
                    k <= self.shuffle_unplayed.len(),
                    self.shuffle_unplayed@ == m0.unplayed,
                    forall|j: int| 0 <= j < k ==> self.shuffle_unplayed@[j] != new_idx,
                    found ==> k < self.shuffle_unplayed.len() && self.shuffle_unplayed@[k as int] == new_idx,
                decreases self.shuffle_unplayed.len() - k + (if found { 0int } else { 1int }),
            {
                if self.shuffle_unplayed[k] == new_idx {
                    found = true;
                } else {
                    k = k + 1;
                }
            }
            proof {
                m0.unplayed.index_of_first_ensures(new_idx);
            }
            if found {
                self.shuffle_unplayed.remove(k);
            }
            proof {
                assert(self.shuffle_unplayed@ =~= m0.unplayed.remove_value(new_idx));
            }
        }
        if self.consume {
            let old_pos = self.queue_position;
            self.remove_index_internal(old_pos);
            if new_idx > old_pos {
                new_idx = new_idx - 1;
            }
        }
        self.queue_position = new_idx;
    }

    /// Preloads the following track when the current one is loaded.
    fn check_preload(&mut self) -> (effects: Vec<Effect>)
        ensures
            final(self)@ =~= old(self)@.preload_checked().0,
            effects@ == old(self)@.preload_checked().1,
    {
        let mut effects: Vec<Effect> = Vec::new();
        if self.player_has_current && !self.player_has_next {
            if let Some(next_idx) = self.next_in_sequence {
                if !self.stop_after_current {
                    if self.fetching_preload_for != Some(next_idx) {
                        self.fetching_preload_for = Some(next_idx);
                        effects.push(Effect::FetchStreamUrl { index: next_idx, is_preload: true });
                    }
                }
            }
        }
        effects
    }

    /// Evicts the preloaded following track, then preloads again.
    fn fix_preload(&mut self) -> (effects: Vec<Effect>)
        ensures
            final(self)@ =~= old(self)@.preload_fixed().0,
            effects@ == old(self)@.preload_fixed().1,
    {
        let mut effects: Vec<Effect> = Vec::new();
        if self.player_has_next {
            effects.push(Effect::RemovePlayerEntry(1));
            self.player_has_next = false;
            self.fetching_preload_for = None;
        }
        let mut more = self.check_preload();
        effects.append(&mut more);
        effects
    }

    /// Stops playback and empties the audio engine.
    fn stop_playback(&mut self) -> (effects: Vec<Effect>)
        ensures
            final(self)@ =~= old(self)@.stopped(),
            effects@ == seq![Effect::ResetPlayer, Effect::PublishStopped],
    {
        self.queue_position = 0;
        self.player_has_current = false;
        self.player_has_next = false;
        self.auto_play = false;
        self.fetching_current_for = None;
        self.fetching_preload_for = None;
        let mut effects: Vec<Effect> = Vec::new();
        effects.push(Effect::ResetPlayer);
        effects.push(Effect::PublishStopped);
        effects
    }

    /// Empties the audio engine and starts playback afresh at `index`.
    fn play_track_at(&mut self, index: usize, auto_play: bool) -> (effects: Vec<Effect>)
        ensures
            old(self)@.played_at(index, auto_play, final(self)@, effects@),
    {
        self.queue_position = index;
        self.player_has_current = false;
        self.player_has_next = false;
        self.fetching_current_for = None;
        self.fetching_preload_for = None;
        self.auto_play = auto_play;
        self.recalculate_next();
        let mut effects: Vec<Effect> = Vec::new();
        effects.push(Effect::ResetPlayer);
        if index < self.queue.len() {
            self.fetching_current_for = Some(index);
            effects.push(Effect::FetchStreamUrl { index, is_preload: false });
        }
        effects.push(Effect::RefreshArt);
        effects.push(Effect::Publish);
        proof {
            let fetch = index < old(self)@.queue.len();
            assert(effects@ =~= seq![Effect::ResetPlayer] + (if fetch {
                seq![Effect::FetchStreamUrl { index, is_preload: false }]
            } else {
                Seq::<Effect>::empty()
            }) + seq![Effect::RefreshArt, Effect::Publish]);
        }
        effects
    }

    /// The usual end of a request: recompute the following position, fix the
    /// preloaded track, publish.
    fn settle(&mut self) -> (effects: Vec<Effect>)
        ensures
            old(self)@.settled(final(self)@, effects@),
    {
        self.recalculate_next();
        let mut effects = self.fix_preload();
        effects.push(Effect::Publish);
        effects
    }

    /// Empties the queue and stops playback; also what happens when the
    /// music provider changes.
    pub fn clear(&mut self) -> (effects: Vec<Effect>)
        ensures
            final(self)@ =~= (QueueModel {
                queue: Seq::empty(),
                history: Seq::empty(),
                unplayed: Seq::empty(),
                next: None,
                ..old(self)@
            }).stopped(),
            effects@ == seq![Effect::ResetPlayer, Effect::PublishStopped, Effect::RefreshArt],
    {
        self.queue.clear();
        self.shuffle_history.clear();
        self.shuffle_unplayed.clear();
        self.next_in_sequence = None;
        let mut effects = self.stop_playback();
        effects.push(Effect::RefreshArt);
        effects
    }

    /// Turns "played tracks leave the queue" on or off.
    pub fn set_consume(&mut self, consume: bool) -> (effects: Vec<Effect>)
        ensures
            final(self)@ =~= (QueueModel { consume, ..old(self)@ }),
            effects@ == seq![Effect::Publish],
    {
        self.consume = consume;
        let mut effects: Vec<Effect> = Vec::new();
        effects.push(Effect::Publish);
        effects
    }

    /// Sets the repeat mode.
    pub fn set_repeat_mode(&mut self, mode: RepeatMode) -> (effects: Vec<Effect>)
        ensures
            (QueueModel { repeat_mode: mode, ..old(self)@ }).settled(final(self)@, effects@),
    {
        self.repeat_mode = mode;
        self.settle()
    }

    /// Turns "stop after the current track" on or off.
    pub fn set_stop_after_current(&mut self, stop: bool) -> (effects: Vec<Effect>)
        ensures
            (QueueModel { stop_after: stop, ..old(self)@ }).settled(final(self)@, effects@),
    {
        self.stop_after_current = stop;
        self.settle()
    }

    /// Jumps to the track at `index`; an index past the end is ignored.
    pub fn play_index(&mut self, index: usize) -> (effects: Vec<Effect>)
        ensures
            if index < old(self)@.queue.len() {
                (QueueModel { pos: index, ..old(self)@ }).played_at(index, true, final(self)@, effects@)
            } else {
                final(self)@ == old(self)@ && effects@.len() == 0
            },
    {
        if index < self.queue.len() {
            self.queue_position = index;
            self.play_track_at(index, true)
        } else {
            Vec::new()
        }
    }

    /// Goes back: to the previously played track while smart shuffling,
    /// else to the track before the current one, wrapping to the last track
    /// when repeating the whole queue.
    pub fn prev(&mut self) -> (effects: Vec<Effect>)
        ensures
            ({
                let m = old(self)@;
                if m.smart() && m.history.len() > 0 {
                    let target = m.history.last();
                    (QueueModel {
                        history: m.history.drop_last(),
                        unplayed: m.unplayed.push(m.pos),
                        pos: target,
                        ..m
                    }).played_at(target, true, final(self)@, effects@)
                } else if m.pos > 0 {
                    (QueueModel { pos: (m.pos - 1) as usize, ..m }).played_at(
                        (m.pos - 1) as usize,
                        true,
                        final(self)@,
                        effects@,
                    )
                } else if m.queue.len() > 0 {
                    if m.repeat_mode == RepeatMode::All {
                        (QueueModel { pos: (m.queue.len() - 1) as usize, ..m }).played_at(
                            (m.queue.len() - 1) as usize,
                            true,
                            final(self)@,
                            effects@,
                        )
                    } else {
                        m.played_at(0, true, final(self)@, effects@)
                    }
                } else {
                    final(self)@ == m && effects@.len() == 0
                }
            }),
    {
        if self.shuffle && self.shuffle_type == ShuffleType::Smart && self.shuffle_history.len() > 0 {
            let prev_idx = self.shuffle_history.pop().unwrap();
            self.shuffle_unplayed.push(self.queue_position);
            self.queue_position = prev_idx;
            self.play_track_at(prev_idx, true)
        } else if self.queue_position > 0 {
            self.queue_position = self.queue_position - 1;
            let p = self.queue_position;
            self.play_track_at(p, true)
        } else if self.queue.len() > 0 {
            if self.repeat_mode == RepeatMode::All {
                self.queue_position = self.queue.len() - 1;
                let p = self.queue_position;
                self.play_track_at(p, true)
            } else {
                self.play_track_at(0, true)
            }
        } else {
            Vec::new()
        }
    }

    /// The stream URL of the track at `index` is known. A preload is
    /// appended to the audio engine if that track still follows the current
    /// one; otherwise the track is loaded and started if it is still the
    /// current one. Stale answers change nothing else.
    pub fn url_ready(&mut self, url: String, index: usize, is_preload: bool) -> (effects: Vec<Effect>)
        ensures
            ({
                let m = old(self)@;
                if is_preload {
                    let m1 = QueueModel {
                        fetching_preload: if m.fetching_preload == Some(index) {
                            None
                        } else {
                            m.fetching_preload
                        },
                        ..m
                    };
                    if m.next == Some(index) {
                        &&& final(self)@ =~= (QueueModel { has_next: true, ..m1 })
                        &&& effects@ == seq![Effect::AppendUrl(url)]
                    } else {
                        &&& final(self)@ =~= m1
                        &&& effects@.len() == 0
                    }
                } else {
                    let m1 = QueueModel {
                        fetching_current: if m.fetching_current == Some(index) {
                            None
                        } else {
                            m.fetching_current
                        },
                        ..m
                    };
                    if index == m.pos {
                        let m2 = QueueModel { has_current: true, ..m1 };
                        &&& final(self)@ =~= m2.preload_checked().0
                        &&& effects@ == seq![Effect::AppendUrl(url)] + (if m.auto_play {
                            seq![Effect::StartPlayerAt(0), Effect::ResumePlayer]
                        } else {
                            seq![Effect::PausePlayer, Effect::StartPlayerAt(0)]
                        }) + m2.preload_checked().1.push(Effect::Publish)
                    } else {
                        &&& final(self)@ =~= m1
                        &&& effects@.len() == 0
                    }
                }
            }),
    {
        let mut effects: Vec<Effect> = Vec::new();
        let ghost url_g: String = url;
        if is_preload {
            if self.fetching_preload_for == Some(index) {
                self.fetching_preload_for = None;
            }
            if Some(index) == self.next_in_sequence {
                effects.push(Effect::AppendUrl(url));
                self.player_has_next = true;
            }
        } else {
            if self.fetching_current_for == Some(index) {
                self.fetching_current_for = None;
            }
            if index == self.queue_position {
                effects.push(Effect::AppendUrl(url));
                if !self.auto_play {
                    effects.push(Effect::PausePlayer);
                }
                effects.push(Effect::StartPlayerAt(0));
                if self.auto_play {
                    effects.push(Effect::ResumePlayer);
                }
                let ghost head = effects@;
                proof {
                    assert(head =~= seq![Effect::AppendUrl(url_g)] + (if self.auto_play {
                        seq![Effect::StartPlayerAt(0), Effect::ResumePlayer]
                    } else {
                        seq![Effect::PausePlayer, Effect::StartPlayerAt(0)]
                    }));
                }
                self.player_has_current = true;
                let ghost m2 = self@;
                let mut more = self.check_preload();
                effects.append(&mut more);
                effects.push(Effect::Publish);
                proof {
                    assert(effects@ =~= head + m2.preload_checked().1.push(Effect::Publish));
                }
            }
        }
        effects
    }

    /// Moves the track at `from` to `to`; the current track stays current.
    /// Out of range or equal positions are ignored.
    pub fn move_index(&mut self, from: usize, to: usize) -> (effects: Vec<Effect>)
        ensures
            ({
                let m = old(self)@;
                if from >= m.queue.len() || to >= m.queue.len() || from == to {
                    final(self)@ == m && effects@.len() == 0
                } else {
                    (QueueModel {
                        queue: m.queue.remove(from as int).insert(to as int, m.queue[from as int]),
                        history: m.history.map_values(|e: usize| moved_position(e, from, to)),
                        unplayed: m.unplayed.map_values(|e: usize| moved_position(e, from, to)),
                        pos: moved_position(m.pos, from, to),
                        ..m
                    }).settled(final(self)@, effects@)
                }
            }),
    {
        if from >= self.queue.len() || to >= self.queue.len() || from == to {
            return Vec::new();
        }
        let item = self.queue.remove(from);
        self.queue.insert(to, item);
        self.shuffle_history = move_positions(&self.shuffle_history, from, to);
        self.shuffle_unplayed = move_positions(&self.shuffle_unplayed, from, to);
        self.queue_position = moved(self.queue_position, from, to);
        self.settle()
    }

    /// Removes the track at `index` (ignored past the end). Removing the
    /// current track plays the one that would have followed it.
    pub fn remove_index(&mut self, index: usize) -> (effects: Vec<Effect>)
        ensures
            ({
                let m = old(self)@;
                if index >= m.queue.len() {
                    final(self)@ == m && effects@.len() == 0
                } else if index == m.pos {
                    let m1 = m.removed(index);
                    if m1.queue.len() == 0 {
                        final(self)@ =~= m1.stopped()
                            && effects@ == seq![Effect::ResetPlayer, Effect::PublishStopped]
                    } else {
                        exists|mid: QueueModel<T>| #[trigger] m1.recalculated(mid)
                            && mid.played_at(
                                QueueEngine::<T>::replacement_position(mid),
                                true,
                                final(self)@,
                                effects@,
                            )
                    }
                } else {
                    m.removed(index).settled(final(self)@, effects@)
                }
            }),
    {
        if index >= self.queue.len() {
            return Vec::new();
        }
        let playing_removed = index == self.queue_position;
        self.remove_index_internal(index);
        if playing_removed {
            if self.queue.len() == 0 {
                self.stop_playback()
            } else {
                self.recalculate_next();
                let ghost mid = self@;
                let next = match self.next_in_sequence {
                    Some(n) => n,
                    None => self.queue_position,
                };
                let last = self.queue.len() - 1;
                let actual = if next < last { next } else { last };
                let effects = self.play_track_at(actual, true);
                assert(mid.played_at(QueueEngine::<T>::replacement_position(mid), true, self@, effects@));
                effects
            }
        } else {
            self.settle()
        }
    }

    /// The track played once the current one was removed: the one that was
    /// to follow it, or the one now at its place, but never past the end.
    pub open spec fn replacement_position(m: QueueModel<T>) -> usize {
        let next = match m.next {
            Some(n) => n,
            None => m.pos,
        };
        if next < m.queue.len() - 1 {
            next
        } else {
            (m.queue.len() - 1) as usize
        }
    }

    /// Adds `tracks` after the current track (`next`) or at the end of the
    /// queue. An empty queue starts playing the first added track.
    pub fn add_tracks(&mut self, tracks: Vec<T>, next: bool) -> (effects: Vec<Effect>)
        requires
            old(self)@.queue.len() + tracks@.len() <= usize::MAX,
            next && old(self)@.queue.len() > 0 ==> {
                &&& old(self)@.pos < old(self)@.queue.len()
                &&& all_at_most(old(self)@.history, usize::MAX - tracks@.len())
                &&& all_at_most(old(self)@.unplayed, usize::MAX - tracks@.len())
            },
        ensures
            exists|chunk: Seq<usize>, mid: QueueModel<T>|
                #[trigger] old(self)@.tracks_added(tracks@, next, chunk, mid, final(self)@, effects@),
    {
        let ghost m = self@;
        let ghost t = tracks@;
        let mut tracks = tracks;
        let was_empty = self.queue.len() == 0;
        let new_count = tracks.len();
        if was_empty {
            self.queue.append(&mut tracks);
            let ghost mut chunk = Seq::<usize>::empty();
            if self.shuffle && self.shuffle_type == ShuffleType::Smart {
                let fresh = shuffled_between(1, self.queue.len());
                proof {
                    chunk = fresh@;
                }
                self.shuffle_unplayed = fresh;
            }
            let ghost m1 = self@;
            self.recalculate_next();
            let ghost mid = self@;
            let effects = self.play_track_at(0, true);
            proof {
                assert(m1 =~= QueueModel {
                    queue: t,
                    unplayed: if m.smart() { chunk } else { m.unplayed },
                    ..m
                });
                assert(m.tracks_added(t, next, chunk, mid, self@, effects@));
            }
            effects
        } else {
            let ghost mut chunk = Seq::<usize>::empty();
            let mut effects: Vec<Effect> = Vec::new();
            if next {
                let insert_pos = self.queue_position + 1;
                self.shuffle_history = open_gap_vec(&self.shuffle_history, insert_pos, new_count);
                let mut gapped = open_gap_vec(&self.shuffle_unplayed, insert_pos, new_count);
                if self.shuffle && self.shuffle_type == ShuffleType::Smart {
                    let mut fresh = shuffled_between(insert_pos, insert_pos + new_count);
                    proof {
                        chunk = fresh@;
                    }
                    gapped.append(&mut fresh);
                }
                self.shuffle_unplayed = gapped;
                if self.player_has_next {
                    effects.push(Effect::RemovePlayerEntry(1));
                    self.player_has_next = false;
                    self.fetching_preload_for = None;
                }
                let mut tail = self.queue.split_off(insert_pos);
                self.queue.append(&mut tracks);
                self.queue.append(&mut tail);
            } else {
                let start_idx = self.queue.len();
                if self.shuffle && self.shuffle_type == ShuffleType::Smart {
                    let mut fresh = shuffled_between(start_idx, start_idx + new_count);
                    proof {
                        chunk = fresh@;
                    }
                    self.shuffle_unplayed.append(&mut fresh);
                }
                self.queue.append(&mut tracks);
            }
            let ghost m1 = self@;
            let ghost head = effects@;
            let mut rest = self.settle();
            let ghost rest_g = rest@;
            effects.append(&mut rest);
            proof {
                let k: int = if next && m.has_next { 1 } else { 0 };
                assert(head.len() == k);
                assert(effects@ =~= head + rest_g);
                assert(effects@.take(k) =~= head);
                assert(effects@.skip(k) =~= rest_g);
                if next {
                    let at = (m.pos + 1) as usize;
                    assert(m1.queue =~= m.queue.subrange(0, at as int) + t + m.queue.subrange(
                        at as int,
                        m.queue.len() as int,
                    ));
                } else {
                    assert(m1.queue =~= m.queue + t);
                }
                assert(m.tracks_added(t, next, chunk, m, self@, effects@));
            }
            effects
        }
    }

    /// Replaces the queue by `tracks` and plays the one at `start_index`
    /// (the first one when `start_index` is past the end).
    pub fn replace_tracks(&mut self, tracks: Vec<T>, start_index: usize) -> (effects: Vec<Effect>)
        ensures
            exists|chunk: Seq<usize>|
                #[trigger] old(self)@.tracks_replaced(tracks@, start_index, chunk, final(self)@, effects@),
    {
        let ghost m = self@;
        let ghost t = tracks@;
        self.queue = tracks;
        let idx = if start_index < self.queue.len() { start_index } else { 0 };
        self.shuffle_history.clear();
        let ghost mut chunk = Seq::<usize>::empty();
        if self.shuffle && self.shuffle_type == ShuffleType::Smart {
            let mut fresh = positions_without(self.queue.len(), idx);
            shuffle_in_place(&mut fresh);
            proof {
                chunk = fresh@;
            }
            self.shuffle_unplayed = fresh;
        }
        self.queue_position = idx;
        let effects = self.play_track_at(idx, true);
        proof {
            assert(m.tracks_replaced(t, start_index, chunk, self@, effects@));
        }
        effects
    }

    /// Switches to the given shuffle settings; entering smart shuffling
    /// starts a new round.
    fn apply_shuffle(&mut self, shuffle: bool, shuffle_type: ShuffleType) -> (effects: Vec<Effect>)
        ensures
            exists|chunk: Seq<usize>|
                #[trigger] old(self)@.reshuffled(shuffle, shuffle_type, chunk, final(self)@, effects@),
    {
        let ghost m = self@;
        self.shuffle = shuffle;
        self.shuffle_type = shuffle_type;
        let ghost mut chunk = Seq::<usize>::empty();
        if shuffle && shuffle_type == ShuffleType::Smart {
            self.shuffle_history.clear();
            let mut fresh = positions_without(self.queue.len(), self.queue_position);
            shuffle_in_place(&mut fresh);
            proof {
                chunk = fresh@;
            }
            self.shuffle_unplayed = fresh;
        }
        let effects = self.settle();
        proof {
            assert(m.reshuffled(shuffle, shuffle_type, chunk, self@, effects@));
        }
        effects
    }

    /// Turns shuffling on or off; no change when already so.
    pub fn set_shuffle(&mut self, shuffle: bool) -> (effects: Vec<Effect>)
        ensures
            if shuffle != old(self)@.shuffle {
                exists|chunk: Seq<usize>|
                    #[trigger] old(self)@.reshuffled(shuffle, old(self)@.shuffle_type, chunk, final(self)@, effects@)
            } else {
                final(self)@ == old(self)@ && effects@.len() == 0
            },
    {
        if self.shuffle != shuffle {
            let t = self.shuffle_type;
            self.apply_shuffle(shuffle, t)
        } else {
            Vec::new()
        }
    }

    /// Changes the shuffle strategy; no change when already so.
    pub fn set_shuffle_type(&mut self, shuffle_type: ShuffleType) -> (effects: Vec<Effect>)
        ensures
            if shuffle_type != old(self)@.shuffle_type {
                exists|chunk: Seq<usize>|
                    #[trigger] old(self)@.reshuffled(old(self)@.shuffle, shuffle_type, chunk, final(self)@, effects@)
            } else {
                final(self)@ == old(self)@ && effects@.len() == 0
            },
    {
        if !(self.shuffle_type == shuffle_type) {
            let ghost m = self@;
            let s = self.shuffle;
            let effects = self.apply_shuffle(s, shuffle_type);
            proof {
                let c = choose|c: Seq<usize>| #[trigger] m.reshuffled(s, shuffle_type, c, self@, effects@);
                assert(m.reshuffled(m.shuffle, shuffle_type, c, self@, effects@));
            }
            effects
        } else {
            Vec::new()
        }
    }

    /// Skips to the next track. When no track can follow (smart shuffling
    /// a single track) the queue starts over, paused.
    pub fn next(&mut self) -> (effects: Vec<Effect>)
        requires
            old(self)@.can_advance(),
        ensures
            exists|mid: QueueModel<T>, choice: Option<usize>|
                #[trigger] old(self)@.skipped(mid, choice, final(self)@, effects@),
    {
        let ghost m = self@;
        let choice = self.compute_next_index(true);
        let ghost mid = self@;
        match choice {
            Some(idx) => {
                self.commit_transition(idx);
                let p = self.queue_position;
                let effects = self.play_track_at(p, true);
                proof {
                    assert(m.skipped(mid, choice, self@, effects@));
                }
                effects
            },
            None => {
                if self.queue.len() > 0 {
                    self.commit_transition(0);
                    let p = self.queue_position;
                    let effects = self.play_track_at(p, false);
                    proof {
                        assert(m.skipped(mid, choice, self@, effects@));
                    }
                    effects
                } else {
                    let effects: Vec<Effect> = Vec::new();
                    proof {
                        assert(m.skipped(mid, choice, self@, effects@));
                    }
                    effects
                }
            },
        }
    }

    /// The audio engine started a track at `playlist_index` of its own
    /// playlist. A positive index means it moved on to preloaded tracks: the
    /// finished entries are dropped and the queue moves on with it. The
    /// state is published either way.
    pub fn track_started(&mut self, playlist_index: i64) -> (effects: Vec<Effect>)
        requires
            playlist_index > 0 && old(self)@.consume ==> old(self)@.pos < old(self)@.queue.len(),
            playlist_index > 0 && old(self)@.next is None ==> old(self)@.pos < usize::MAX,
        ensures
            if playlist_index > 0 {
                exists|mid: QueueModel<T>|
                    #[trigger] old(self)@.track_advanced(playlist_index as usize, mid, final(self)@, effects@)
            } else {
                final(self)@ == old(self)@ && effects@ == seq![Effect::Publish]
            },
    {
        let mut effects: Vec<Effect> = Vec::new();
        if playlist_index <= 0 {
            effects.push(Effect::Publish);
            return effects;
        }
        let ghost m = self@;
        let advanced_by = playlist_index as usize;
        let mut i: usize = 0;
        while i < advanced_by
            invariant
                i <= advanced_by,
                effects@ =~= Seq::new(i as nat, |j: int| Effect::RemovePlayerEntry(0)),
            decreases advanced_by - i,
        {
            effects.push(Effect::RemovePlayerEntry(0));
            i = i + 1;
        }
        let ghost removals = effects@;
        let target = match self.next_in_sequence {
            Some(n) => n,
            None => self.queue_position + 1,
        };
        self.commit_transition(target);
        let ghost m1 = self@;
        self.player_has_current = true;
        self.player_has_next = false;
        if self.stop_after_current {
            self.stop_after_current = false;
        }
        effects.push(Effect::RefreshArt);
        self.recalculate_next();
        let ghost mid = self@;
        let ghost head = effects@;
        let mut more = self.check_preload();
        let ghost more_g = more@;
        effects.append(&mut more);
        effects.push(Effect::Publish);
        proof {
            assert(effects@ =~= head + more_g + seq![Effect::Publish]);
            assert(head =~= removals + seq![Effect::RefreshArt]);
            assert(m1 =~= m.committed(target));
            let m2 = QueueModel { has_current: true, has_next: false, stop_after: false, ..m.committed(target) };
            assert(m2.recalculated(mid));
            assert(m.track_advanced(advanced_by, mid, self@, effects@));
        }
        effects
    }

    /// The audio engine reported `status` while its actual state is
    /// `actual`. When it ran dry during automatic playback, playback moves
    /// on to the following track or stops; any other report is published.
    pub fn status_update(&mut self, status: PlayerStatus, actual: PlayerStatus) -> (effects: Vec<Effect>)
        requires
            status == PlayerStatus::Stopped && old(self)@.auto_play && old(self)@.has_current && actual
                == PlayerStatus::Stopped ==> old(self)@.can_advance(),
        ensures
            if status == PlayerStatus::Stopped && old(self)@.auto_play && old(self)@.has_current
                && actual == PlayerStatus::Stopped {
                exists|mid: QueueModel<T>| #[trigger] old(self)@.ran_out(mid, final(self)@, effects@)
            } else {
                final(self)@ == old(self)@ && effects@ == seq![Effect::Publish]
            },
    {
        if status == PlayerStatus::Stopped && self.auto_play && self.player_has_current
            && actual == PlayerStatus::Stopped {
            let ghost m = self@;
            self.player_has_current = false;
            let was_stop_after = self.stop_after_current;
            if was_stop_after {
                self.stop_after_current = false;
            }
            self.recalculate_next();
            let ghost mid = self@;
            match self.next_in_sequence {
                Some(next_idx) => {
                    self.commit_transition(next_idx);
                    let p = self.queue_position;
                    let effects = self.play_track_at(p, !was_stop_after);
                    proof {
                        assert(m.ran_out(mid, self@, effects@));
                    }
                    effects
                },
                None => {
                    let effects = self.stop_playback();
                    proof {
                        assert(m.ran_out(mid, self@, effects@));
                    }
                    effects
                },
            }
        } else {
            let mut effects: Vec<Effect> = Vec::new();
            effects.push(Effect::Publish);
            effects
        }
    }

    /// Whether `n` tracks can be added after the current one: the current
    /// position names a track, and every recorded position stays within
    /// `usize` once moved past the added tracks.
    pub fn can_add_after_current(&self, n: usize) -> (r: bool)
        ensures
            r == (self@.pos < self@.queue.len() && all_at_most(self@.history, usize::MAX - n) && all_at_most(
                self@.unplayed,
                usize::MAX - n,
            )),
    {
        if self.queue_position >= self.queue.len() {
            return false;
        }
        let bound = usize::MAX - n;
        let mut i: usize = 0;
        while i < self.shuffle_history.len()
            invariant
                i <= self.shuffle_history.len(),
                bound == usize::MAX - n,
                forall|j: int| 0 <= j < i ==> self.shuffle_history@[j] <= bound,
            decreases self.shuffle_history.len() - i,
        {
            if self.shuffle_history[i] > bound {
                return false;
            }
            i = i + 1;
        }
        let mut k: usize = 0;
        while k < self.shuffle_unplayed.len()
            invariant
                k <= self.shuffle_unplayed.len(),
                bound == usize::MAX - n,
                forall|j: int| 0 <= j < self.shuffle_history@.len() ==> self.shuffle_history@[j] <= bound,
                forall|j: int| 0 <= j < k ==> self.shuffle_unplayed@[j] <= bound,
            decreases self.shuffle_unplayed.len() - k,
        {
            if self.shuffle_unplayed[k] > bound {
                return false;
            }
            k = k + 1;
        }
        true
    }

    /// The tracks of the queue, in play order.
    pub fn queue(&self) -> (r: &Vec<T>)
        ensures
            r@ == self@.queue,
    {
        &self.queue
    }

    /// The track at `index`, if there is one.
    pub fn track_at(&self, index: usize) -> (r: Option<&T>)
        ensures
            index < self@.queue.len() ==> r == Some(&self@.queue[index as int]),
            index >= self@.queue.len() ==> r is None,
    {
        if index < self.queue.len() {
            Some(&self.queue[index])
        } else {
            None
        }
    }

    /// Index of the current track.
    pub fn position(&self) -> (r: usize)
        ensures
            r == self@.pos,
    {
        self.queue_position
    }

    /// The position that follows the current one, as last chosen.
    pub fn next_position(&self) -> (r: Option<usize>)
        ensures
            r == self@.next,
    {
        self.next_in_sequence
    }

    /// The repeat mode.
    pub fn repeat_mode(&self) -> (r: RepeatMode)
        ensures
            r == self@.repeat_mode,
    {
        self.repeat_mode
    }

    /// Whether the queue plays in random order.
    pub fn shuffle(&self) -> (r: bool)
        ensures
            r == self@.shuffle,
    {
        self.shuffle
    }

    /// The shuffle strategy.
    pub fn shuffle_type(&self) -> (r: ShuffleType)
        ensures
            r == self@.shuffle_type,
    {
        self.shuffle_type
    }

    /// Whether playback starts by itself once a track is loaded.
    pub fn auto_play(&self) -> (r: bool)
        ensures
            r == self@.auto_play,
    {
        self.auto_play
    }

    /// Whether the audio engine holds the current track.
    pub fn holds_current(&self) -> (r: bool)
        ensures
            r == self@.has_current,
    {
        self.player_has_current
    }

    /// Whether played tracks leave the queue.
    pub fn consume(&self) -> (r: bool)
        ensures
            r == self@.consume,
    {
        self.consume
    }

    /// Whether playback stops when the current track ends.
    pub fn stop_after_current(&self) -> (r: bool)
        ensures
            r == self@.stop_after,
    {
        self.stop_after_current
    }
}

} // verus!
