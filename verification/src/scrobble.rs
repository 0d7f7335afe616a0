//! Scrobbles waiting to be sent to the server.

use vstd::prelude::*;

use crate::models::TrackId;

verus! {

/// A finished listen: the track and the time it started, in milliseconds
/// since the Unix epoch.
#[derive(Debug)]
pub struct ScrobbleEntry {
    pub id: String,
    pub timestamp: u64,
}

/// The queue of scrobbles not yet accepted by the server, oldest first.
///
/// Persisting the queue is left to the caller: it is saved after each
/// change (a push, or a flush that removed entries).
pub struct ScrobbleManager {
    queue: Vec<ScrobbleEntry>,
}

impl View for ScrobbleManager {
    type V = Seq<(Seq<char>, u64)>;

    closed spec fn view(&self) -> Seq<(Seq<char>, u64)> {
        self.queue@.map_values(|e: ScrobbleEntry| (e.id@, e.timestamp))
    }
}

impl ScrobbleManager {
    /// A queue holding `entries`, oldest first (as loaded from storage).
    pub fn from_entries(entries: Vec<ScrobbleEntry>) -> (r: Self)
        ensures
            r@ == entries@.map_values(|e: ScrobbleEntry| (e.id@, e.timestamp)),
    {
        ScrobbleManager { queue: entries }
    }

    /// The entries, oldest first, for storage.
    pub fn entries(&self) -> (r: &Vec<ScrobbleEntry>)
        ensures
            r@.map_values(|e: ScrobbleEntry| (e.id@, e.timestamp)) == self@,
    {
        &self.queue
    }

    /// Records a listen of `track_id` that started at `timestamp`.
    pub fn push(&mut self, track_id: &TrackId, timestamp: u64)
        ensures
            final(self)@ == old(self)@.push((track_id.0@, timestamp)),
    {
        self.queue.push(ScrobbleEntry { id: track_id.0.clone(), timestamp });
        proof {
            assert(self@ =~= old(self)@.push((track_id.0@, timestamp)));
        }
    }

    /// Every pending scrobble, oldest first.
    pub fn get_all(&self) -> (r: Vec<(TrackId, u64)>)
        ensures
            r@.map_values(|p: (TrackId, u64)| (p.0.0@, p.1)) == self@,
    {
        let mut r: Vec<(TrackId, u64)> = Vec::new();
        let mut i: usize = 0;
        while i < self.queue.len()
            invariant
                i <= self.queue.len(),
                r@.map_values(|p: (TrackId, u64)| (p.0.0@, p.1)) =~= self@.take(i as int),
            decreases self.queue.len() - i,
        {
            let e = &self.queue[i];
            let ghost before = r@;
            r.push((TrackId(e.id.clone()), e.timestamp));
            proof {
                assert(r@ =~= before.push((TrackId(e.id), e.timestamp)));
                assert(self@.take(i as int + 1) =~= self@.take(i as int).push(self@[i as int]));
                assert(r@.map_values(|p: (TrackId, u64)| (p.0.0@, p.1)) =~= before.map_values(
                    |p: (TrackId, u64)| (p.0.0@, p.1),
                ).push((e.id@, e.timestamp)));
            }
            i = i + 1;
        }
        proof {
            assert(self@.take(self@.len() as int) =~= self@);
        }
        r
    }

    /// Drops the `count` oldest scrobbles once the server accepted them.
    /// A count larger than the queue changes nothing. Returns whether the
    /// queue changed (and must be saved).
    pub fn remove_flushed(&mut self, count: usize) -> (changed: bool)
        ensures
            changed == (count <= old(self)@.len()),
            final(self)@ == if changed { old(self)@.skip(count as int) } else { old(self)@ },
    {
        if count <= self.queue.len() {
            let rest = self.queue.split_off(count);
            self.queue = rest;
            proof {
                assert(self@ =~= old(self)@.skip(count as int));
            }
            true
        } else {
            false
        }
    }
}

/// Flushing the scrobbles that were read before pushing more keeps exactly
/// the ones pushed since, in order.
pub proof fn law_flush_keeps_later(read: Seq<(Seq<char>, u64)>, later: Seq<(Seq<char>, u64)>)
    ensures
        (read + later).skip(read.len() as int) == later,
{
    assert((read + later).skip(read.len() as int) =~= later);
}

/// The queue `q` once each of `pushes` was recorded, in order.
pub open spec fn after_pushes(q: Seq<(Seq<char>, u64)>, pushes: Seq<(Seq<char>, u64)>) -> Seq<(Seq<char>, u64)>
    decreases pushes.len(),
{
    if pushes.len() == 0 {
        q
    } else {
        after_pushes(q, pushes.drop_last()).push(pushes.last())
    }
}

/// Recording listens one after another keeps them all, in the order they
/// were pushed, after those already waiting; from an empty queue, reading
/// them back (`get_all`) gives exactly the listens pushed, in push order.
pub proof fn law_pushes_read_back_in_order(q: Seq<(Seq<char>, u64)>, pushes: Seq<(Seq<char>, u64)>)
    ensures
        after_pushes(q, pushes) == q + pushes,
        after_pushes(Seq::empty(), pushes) == pushes,
    decreases pushes.len(),
{
    if pushes.len() > 0 {
        law_pushes_read_back_in_order(q, pushes.drop_last());
        assert(q + pushes =~= (q + pushes.drop_last()).push(pushes.last()));
        assert(Seq::<(Seq<char>, u64)>::empty() + pushes =~= pushes);
        assert(Seq::<(Seq<char>, u64)>::empty() + pushes.drop_last() =~= pushes.drop_last());
    }
}

} // verus!
