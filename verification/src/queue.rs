//! The play queue: the current playlist and the ids waiting to be played.

use vstd::prelude::*;
use std::collections::VecDeque;
use crate::ids::{PlaylistId, TrackId};
use crate::data::Track;

verus! {

/// The ids of the playable tracks that have an id, in playlist order.
pub open spec fn playable_ids(tracks: Seq<Track>) -> Seq<TrackId>
    decreases tracks.len(),
{
    if tracks.len() == 0 {
        Seq::empty()
    } else {
        let rest = playable_ids(tracks.drop_last());
        let t = tracks.last();
        if t.playable && t.id is Some {
            rest.push(t.id->0)
        } else {
            rest
        }
    }
}

/// A playlist's track contributes `id` to the queue.
pub open spec fn contributes(t: Track, id: TrackId) -> bool {
    t.playable && t.id == Some(id)
}

/// What the play queue holds: the playlist it was filled from, if one is
/// recorded, and the ids to play, the next one first.
pub struct Queue {
    current_playlist: Option<PlaylistId>,
    queue: VecDeque<TrackId>,
}

impl Queue {
    /// The ids waiting to be played, the next one first.
    pub closed spec fn queued(&self) -> Seq<TrackId> {
        self.queue@
    }

    /// The id of the recorded playlist, if any.
    pub closed spec fn playlist(&self) -> Option<Seq<char>> {
        match self.current_playlist {
            Some(p) => Some(p@),
            None => None,
        }
    }

    /// An empty queue with no playlist.
    pub fn new() -> (res: Queue)
        ensures
            res.queued() == Seq::<TrackId>::empty(),
            res.playlist() is None,
    {
        Queue { current_playlist: None, queue: VecDeque::new() }
    }

    /// Replaces the queue with the ids of the playlist's playable tracks, in
    /// playlist order; tracks that are not playable or have no id are
    /// skipped. The recorded playlist is left as it was.
    pub fn set_playlist(&mut self, tracks: Vec<Track>)
        ensures
            final(self).queued() == playable_ids(tracks@),
            final(self).playlist() == old(self).playlist(),
    {
        let ghost all = tracks@;
        let mut next: VecDeque<TrackId> = VecDeque::new();
        for t in it: tracks.into_iter()
            invariant
                it.seq() == all,
                next@ == playable_ids(all.take(it.index() as int)),
        {
            proof {
                assert(all.take(it.index() + 1).drop_last() =~= all.take(it.index() as int));
            }
            if t.playable {
                match t.id {
                    Some(id) => next.push_back(id),
                    None => {},
                }
            }
        }
        proof {
            assert(all.take(all.len() as int) =~= all);
        }
        self.queue = next;
    }

    /// Puts `id` at the front of the queue, to be played next.
    pub fn add_track(&mut self, id: TrackId)
        ensures
            final(self).queued() == seq![id] + old(self).queued(),
            final(self).playlist() == old(self).playlist(),
    {
        self.queue.push_front(id);
    }

    /// A copy of the queued ids, the next one first.
    pub fn tracks(&self) -> (res: Vec<TrackId>)
        ensures
            res@ == self.queued(),
    {
        let mut out: Vec<TrackId> = Vec::new();
        let n = self.queue.len();
        let mut i: usize = 0;
        while i < n
            invariant
                n == self.queue@.len(),
                i <= n,
                out@ == self.queue@.take(i as int),
            decreases n - i,
        {
            let id = self.queue[i].clone();
            proof {
                assert(self.queue@.take(i + 1) =~= self.queue@.take(i as int).push(id));
            }
            out.push(id);
            i = i + 1;
        }
        proof {
            assert(self.queue@.take(n as int) =~= self.queue@);
        }
        out
    }

    /// A copy of the recorded playlist id, if any.
    pub fn current_playlist(&self) -> (res: Option<PlaylistId>)
        ensures
            match res {
                Some(p) => self.playlist() == Some(p@),
                None => self.playlist() is None,
            },
    {
        match &self.current_playlist {
            Some(p) => Some(p.clone()),
            None => None,
        }
    }
}

/// An id is queued from a playlist exactly when some track of the playlist
/// is playable and has that id.
pub proof fn lemma_playable_ids_members(tracks: Seq<Track>, id: TrackId)
    ensures
        playable_ids(tracks).contains(id) <==> exists|j: int|
            0 <= j < tracks.len() && #[trigger] contributes(tracks[j], id),
    decreases tracks.len(),
{
    if tracks.len() > 0 {
        let pre = tracks.drop_last();
        lemma_playable_ids_members(pre, id);
        let rest = playable_ids(pre);
        let t = tracks.last();
        if playable_ids(tracks).contains(id) {
            if t.playable && t.id is Some {
                let k = choose|k: int| 0 <= k < rest.push(t.id->0).len() && rest.push(t.id->0)[k] == id;
                if k == rest.len() {
                    assert(contributes(tracks[tracks.len() - 1], id));
                } else {
                    assert(rest.contains(id));
                    let j = choose|j: int| 0 <= j < pre.len() && #[trigger] contributes(pre[j], id);
                    assert(contributes(tracks[j], id));
                }
            } else {
                assert(rest.contains(id));
                let j = choose|j: int| 0 <= j < pre.len() && #[trigger] contributes(pre[j], id);
                assert(contributes(tracks[j], id));
            }
        }
        if exists|j: int| 0 <= j < tracks.len() && #[trigger] contributes(tracks[j], id) {
            let j = choose|j: int| 0 <= j < tracks.len() && #[trigger] contributes(tracks[j], id);
            if j == tracks.len() - 1 {
                assert(playable_ids(tracks) == rest.push(id));
                assert(playable_ids(tracks)[rest.len() as int] == id);
            } else {
                assert(contributes(pre[j], id));
                assert(rest.contains(id));
                let k = choose|k: int| 0 <= k < rest.len() && rest[k] == id;
                assert(playable_ids(tracks)[k] == id);
            }
        }
    }
}

/// The queue never holds more ids than the playlist has tracks.
pub proof fn lemma_playable_ids_len(tracks: Seq<Track>)
    ensures
        playable_ids(tracks).len() <= tracks.len(),
    decreases tracks.len(),
{
    if tracks.len() > 0 {
        lemma_playable_ids_len(tracks.drop_last());
    }
}

/// A single track queues its id exactly when it is playable and has one.
pub proof fn lemma_playable_ids_one(t: Track)
    ensures
        playable_ids(seq![t]) == (if t.playable && t.id is Some {
            seq![t.id->0]
        } else {
            Seq::<TrackId>::empty()
        }),
{
    let s = seq![t];
    assert(s.drop_last() =~= Seq::<Track>::empty());
    assert(s.last() == t);
    assert(playable_ids(s.drop_last()) == Seq::<TrackId>::empty());
    if t.playable && t.id is Some {
        assert(Seq::<TrackId>::empty().push(t.id->0) =~= seq![t.id->0]);
    }
}

/// Queuing two runs of tracks one after the other queues the ids of the
/// first run followed by those of the second: the queue keeps playlist order.
pub proof fn lemma_playable_ids_append(a: Seq<Track>, b: Seq<Track>)
    ensures
        playable_ids(a + b) == playable_ids(a) + playable_ids(b),
    decreases b.len(),
{
    if b.len() == 0 {
        assert(a + b =~= a);
        assert(playable_ids(a) + playable_ids(b) =~= playable_ids(a));
    } else {
        lemma_playable_ids_append(a, b.drop_last());
        assert((a + b).drop_last() =~= a + b.drop_last());
        assert((a + b).last() == b.last());
        let t = b.last();
        if t.playable && t.id is Some {
            assert((playable_ids(a) + playable_ids(b.drop_last())).push(t.id->0) =~= playable_ids(a)
                + playable_ids(b.drop_last()).push(t.id->0));
        }
    }
}

/// When every track of the playlist is playable and has an id, the queue is
/// exactly those ids, position by position.
pub proof fn lemma_all_playable_queued_in_order(tracks: Seq<Track>)
    requires
        forall|i: int| 0 <= i < tracks.len() ==> (#[trigger] tracks[i]).playable && tracks[i].id is Some,
    ensures
        playable_ids(tracks).len() == tracks.len(),
        forall|i: int| 0 <= i < tracks.len() ==> #[trigger] playable_ids(tracks)[i] == tracks[i].id->0,
    decreases tracks.len(),
{
    if tracks.len() > 0 {
        let pre = tracks.drop_last();
        assert forall|i: int| 0 <= i < pre.len() implies (#[trigger] pre[i]).playable && pre[i].id is Some by {
            assert(pre[i] == tracks[i]);
        }
        lemma_all_playable_queued_in_order(pre);
        let t = tracks[tracks.len() - 1];
        assert(t.playable && t.id is Some);
        assert forall|i: int| 0 <= i < tracks.len() implies #[trigger] playable_ids(tracks)[i] == tracks[i].id->0 by {
            if i < pre.len() {
                assert(playable_ids(pre)[i] == pre[i].id->0);
                assert(pre[i] == tracks[i]);
            }
        }
    }
}

} // verus!
