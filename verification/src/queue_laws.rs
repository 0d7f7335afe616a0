//! Properties of the play queue that hold across requests.

use vstd::multiset::Multiset;
use vstd::prelude::*;

use crate::models::ShuffleType;
use crate::queue::{drop_position, index_range, is_permutation, moved_position, open_gap, range_without, QueueModel};

verus! {

/// Moving a track keeps every position pointing at the same track: the
/// track found at `e` before the move is found at `moved_position(e, ..)`
/// after it. In particular the current track stays current.
pub proof fn law_move_keeps_tracks<T>(queue: Seq<T>, from: usize, to: usize, e: usize)
    requires
        from < queue.len(),
        to < queue.len(),
        e < queue.len(),
    ensures
        moved_position(e, from, to) < queue.len(),
        queue.remove(from as int).insert(to as int, queue[from as int])[moved_position(e, from, to) as int]
            == queue[e as int],
{
    let q1 = queue.remove(from as int);
    let q2 = q1.insert(to as int, queue[from as int]);
    queue.remove_ensures(from as int);
    q1.insert_ensures(to as int, queue[from as int]);
}

/// Removing a track other than the current one keeps the current track
/// current.
pub proof fn law_remove_keeps_current<T>(m: QueueModel<T>, idx: usize)
    requires
        m.pos < m.queue.len(),
        idx < m.queue.len(),
        idx != m.pos,
    ensures
        m.removed(idx).pos < m.removed(idx).queue.len(),
        m.removed(idx).queue[m.removed(idx).pos as int] == m.queue[m.pos as int],
{
    m.queue.remove_ensures(idx as int);
}

/// Inserting tracks at `at` keeps every position pointing at the same
/// track (`open_gap` moves it past the inserted ones), and the inserted
/// tracks take the positions `at..at + n`.
pub proof fn law_insert_keeps_tracks<T>(queue: Seq<T>, tracks: Seq<T>, at: usize, e: usize, i: int)
    requires
        at <= queue.len(),
        e < queue.len(),
        queue.len() + tracks.len() <= usize::MAX,
        0 <= i < tracks.len(),
    ensures
        ({
            let q = queue.subrange(0, at as int) + tracks + queue.subrange(at as int, queue.len() as int);
            let moved = open_gap(seq![e], at, tracks.len() as usize)[0];
            &&& moved < q.len()
            &&& q[moved as int] == queue[e as int]
            &&& q[at + i] == tracks[i]
        }),
{
}

/// Moving on to another track, whether or not played tracks leave the
/// queue, makes the chosen track the current one.
pub proof fn law_commit_reaches_choice<T>(m: QueueModel<T>, new_idx: usize)
    requires
        m.pos < m.queue.len(),
        new_idx < m.queue.len(),
        new_idx != m.pos,
    ensures
        m.committed(new_idx).pos < m.committed(new_idx).queue.len(),
        m.committed(new_idx).queue[m.committed(new_idx).pos as int] == m.queue[new_idx as int],
{
    m.queue.remove_ensures(m.pos as int);
}

/// While smart shuffling without consuming, going back right after moving
/// on returns to the track that was playing.
pub proof fn law_back_after_skip<T>(m: QueueModel<T>, new_idx: usize)
    requires
        m.smart(),
        !m.consume,
    ensures
        m.committed(new_idx).smart(),
        m.committed(new_idx).history.len() > 0,
        m.committed(new_idx).history.last() == m.pos,
{
}

/// A new smart shuffle round holds every position of the queue except the
/// current one, each exactly once.
pub proof fn law_round_covers_queue(len: int, skip: usize, i: usize)
    requires
        len <= usize::MAX,
    ensures
        range_without(len, skip).to_multiset().count(i) == if i < len && i != skip { 1nat } else { 0nat },
    decreases len,
{
    broadcast use vstd::seq_lib::group_to_multiset_ensures;
    broadcast use vstd::multiset::group_multiset_axioms;

    let s = range_without(len, skip);
    if len <= 0 {
        assert(s.to_multiset() =~= Multiset::empty());
    } else {
        law_round_covers_queue(len - 1, skip, i);
        let r = range_without(len - 1, skip);
        if (len - 1) != skip {
            assert(s == r.push((len - 1) as usize));
            assert(s.to_multiset() =~= r.to_multiset().insert((len - 1) as usize));
        }
    }
}

/// A new smart shuffle round over a queue of `len` tracks, `skip` being
/// the current one, holds `len - 1` positions (`len` when `skip` is past
/// the end).
pub proof fn lemma_round_len(len: int, skip: usize)
    requires
        len >= 0,
    ensures
        range_without(len, skip).len() == if skip < len { len - 1 } else { len },
    decreases len,
{
    if len > 0 {
        lemma_round_len(len - 1, skip);
    }
}

/// When the current track runs out and a following track exists, that
/// track is loaded and started on its own unless "stop after the current
/// track" was set: then it is loaded paused. With no following track,
/// playback stops and nothing starts on its own.
pub proof fn law_stop_after_current_pauses<T>(m: QueueModel<T>, mid: QueueModel<T>, after: QueueModel<T>, effects: Seq<
    crate::queue::Effect,
>)
    requires
        m.ran_out(mid, after, effects),
    ensures
        mid.next is Some ==> after.auto_play == !m.stop_after,
        mid.next is None ==> !after.auto_play,
        !after.stop_after,
{
}

/// A skip asked for by the user moves on whatever "stop after the current
/// track" and "repeat one" say: without shuffling to the next track (the
/// first one after the last), with random shuffling to some track of the
/// queue, and with smart shuffling to some track whenever the queue holds
/// another one.
pub proof fn law_skip_moves_on<T>(m: QueueModel<T>, after: QueueModel<T>, choice: Option<usize>)
    requires
        m.next_choice(true, after, choice),
        0 <= m.pos < m.queue.len(),
    ensures
        !m.shuffle ==> choice == Some(if m.pos + 1 < m.queue.len() { (m.pos + 1) as usize } else { 0usize }),
        m.shuffle && m.shuffle_type == ShuffleType::Random ==> (choice matches Some(c) && c < m.queue.len()),
        m.smart() && m.queue.len() >= 2 ==> choice is Some,
{
    broadcast use vstd::seq_lib::group_to_multiset_ensures;

    if m.smart() && m.queue.len() >= 2 && m.unplayed.len() == 0 {
        lemma_round_len(m.queue.len() as int, m.pos);
        assert(after.unplayed.to_multiset().len() == range_without(m.queue.len() as int, m.pos).to_multiset().len());
    }
}

/// Without a skip asked for, "stop after the current track" means that no
/// track follows.
pub proof fn law_stop_after_current_stops<T>(m: QueueModel<T>, after: QueueModel<T>, choice: Option<usize>)
    requires
        m.next_choice(false, after, choice),
        m.stop_after,
    ensures
        choice is None,
{
}

/// Replacing the queue while smart shuffling starts a new round over the
/// new tracks: every position other than the one that starts playing,
/// each once, and none past the end of the new queue.
pub proof fn law_replace_starts_new_round<T>(
    m: QueueModel<T>,
    tracks: Seq<T>,
    start: usize,
    chunk: Seq<usize>,
    after: QueueModel<T>,
    effects: Seq<crate::queue::Effect>,
)
    requires
        m.tracks_replaced(tracks, start, chunk, after, effects),
        m.smart(),
    ensures
        is_permutation(after.unplayed, range_without(tracks.len() as int, if start < tracks.len() { start } else { 0 })),
        after.queue == tracks,
        after.pos == if start < tracks.len() { start } else { 0 },
{
}

/// The entries of `s` other than `idx`, in order.
pub open spec fn other_than(s: Seq<usize>, idx: usize) -> Seq<usize> {
    s.filter(|e: usize| e != idx)
}

/// Dropping the track at `idx` keeps every recorded position other than
/// `idx` on its track: the `k`-th entry left names, in the shortened queue,
/// the track that the `k`-th entry other than `idx` named before, and lies
/// within the shortened queue.
pub proof fn law_removal_keeps_positions_on_their_tracks<T>(queue: Seq<T>, s: Seq<usize>, idx: usize)
    requires
        idx < queue.len(),
        forall|i: int| 0 <= i < s.len() ==> s[i] < queue.len(),
    ensures
        drop_position(s, idx).len() == other_than(s, idx).len(),
        forall|k: int|
            0 <= k < drop_position(s, idx).len() ==> {
                &&& #[trigger] drop_position(s, idx)[k] < queue.len() - 1
                &&& queue.remove(idx as int)[drop_position(s, idx)[k] as int] == queue[other_than(s, idx)[k] as int]
            },
    decreases s.len(),
{
    reveal(Seq::filter);
    if s.len() > 0 {
        let rest = s.drop_last();
        law_removal_keeps_positions_on_their_tracks(queue, rest, idx);
        assert(other_than(s, idx) == if s.last() != idx {
            other_than(rest, idx).push(s.last())
        } else {
            other_than(rest, idx)
        });
        let e = s.last();
        if e != idx {
            let e2: usize = if e > idx { (e - 1) as usize } else { e };
            assert(drop_position(s, idx) == drop_position(rest, idx) + seq![e2]);
        } else {
            assert(drop_position(s, idx) == drop_position(rest, idx));
        }
    }
}

/// While smart shuffling, appending tracks puts every one of them in the
/// current round, after the positions still waiting in it, which stay as
/// they were.
pub proof fn law_appended_tracks_join_round<T>(
    m: QueueModel<T>,
    tracks: Seq<T>,
    chunk: Seq<usize>,
    mid: QueueModel<T>,
    after: QueueModel<T>,
    effects: Seq<crate::queue::Effect>,
)
    requires
        m.tracks_added(tracks, false, chunk, mid, after, effects),
        m.queue.len() > 0,
        tracks.len() > 0,
        m.smart(),
    ensures
        after.unplayed.len() == m.unplayed.len() + tracks.len(),
        after.unplayed.take(m.unplayed.len() as int) == m.unplayed,
        is_permutation(
            after.unplayed.skip(m.unplayed.len() as int),
            index_range(m.queue.len() as int, (m.queue.len() + tracks.len()) as int),
        ),
        after.queue == m.queue + tracks,
{
    broadcast use vstd::seq_lib::group_to_multiset_ensures;

    let len = m.queue.len();
    let n = tracks.len();
    assert(chunk.to_multiset().len() == index_range(len as int, (len + n) as int).to_multiset().len());
    assert(chunk.len() == n);
    let m1 = QueueModel { queue: m.queue + tracks, unplayed: m.unplayed + chunk, ..m };
    assert(m1.unplayed.len() > 0);
    assert((m.unplayed + chunk).take(m.unplayed.len() as int) =~= m.unplayed);
    assert((m.unplayed + chunk).skip(m.unplayed.len() as int) =~= chunk);
}

/// While smart shuffling, adding tracks after the current one puts every
/// one of them in the current round, after the positions still waiting in
/// it, which move past the added tracks and keep naming their tracks.
pub proof fn law_inserted_tracks_join_round<T>(
    m: QueueModel<T>,
    tracks: Seq<T>,
    chunk: Seq<usize>,
    mid: QueueModel<T>,
    after: QueueModel<T>,
    effects: Seq<crate::queue::Effect>,
)
    requires
        m.tracks_added(tracks, true, chunk, mid, after, effects),
        m.queue.len() > 0,
        tracks.len() > 0,
        m.smart(),
    ensures
        after.unplayed.len() == m.unplayed.len() + tracks.len(),
        after.unplayed.take(m.unplayed.len() as int) == open_gap(m.unplayed, (m.pos + 1) as usize, tracks.len() as usize),
        is_permutation(
            after.unplayed.skip(m.unplayed.len() as int),
            index_range((m.pos + 1) as usize as int, (m.pos + 1) as usize + tracks.len()),
        ),
{
    broadcast use vstd::seq_lib::group_to_multiset_ensures;

    let at = (m.pos + 1) as usize;
    let n = tracks.len();
    assert(chunk.to_multiset().len() == index_range(at as int, at + n).to_multiset().len());
    assert(chunk.len() == n);
    let g = open_gap(m.unplayed, at, n as usize);
    assert((g + chunk).take(m.unplayed.len() as int) =~= g);
    assert((g + chunk).skip(m.unplayed.len() as int) =~= chunk);
}

/// Removing the track at `idx` from the queue keeps the smart shuffle round
/// and the history on their tracks: each position left names, in the new
/// queue, the track it named before, and none lies past its end.
pub proof fn law_removed_round_names_same_tracks<T>(m: QueueModel<T>, idx: usize)
    requires
        idx < m.queue.len(),
        forall|i: int| 0 <= i < m.unplayed.len() ==> m.unplayed[i] < m.queue.len(),
        forall|i: int| 0 <= i < m.history.len() ==> m.history[i] < m.queue.len(),
    ensures
        m.removed(idx).unplayed.len() == other_than(m.unplayed, idx).len(),
        forall|k: int|
            0 <= k < m.removed(idx).unplayed.len() ==> {
                &&& #[trigger] m.removed(idx).unplayed[k] < m.removed(idx).queue.len()
                &&& m.removed(idx).queue[m.removed(idx).unplayed[k] as int] == m.queue[other_than(m.unplayed, idx)[k] as int]
            },
        m.removed(idx).history.len() == other_than(m.history, idx).len(),
        forall|k: int|
            0 <= k < m.removed(idx).history.len() ==> {
                &&& #[trigger] m.removed(idx).history[k] < m.removed(idx).queue.len()
                &&& m.removed(idx).queue[m.removed(idx).history[k] as int] == m.queue[other_than(m.history, idx)[k] as int]
            },
{
    law_removal_keeps_positions_on_their_tracks(m.queue, m.unplayed, idx);
    law_removal_keeps_positions_on_their_tracks(m.queue, m.history, idx);
}

} // verus!
