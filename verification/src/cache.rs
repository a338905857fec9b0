//! Keys of the response cache, and looking up one playlist among the cached
//! ones.

use vstd::prelude::*;
use crate::data::PlaylistInfo;
use crate::ids::PlaylistId;

verus! {

/// The cache key for an entry named `text` of the kind `kind` (the name of
/// the stored value's type): `<kind>-<text>`.
pub fn make_key(kind: &str, text: &str) -> (res: String)
    ensures
        res@ == kind@ + "-"@ + text@,
{
    let mut key = String::from_str(kind);
    key.append("-");
    key.append(text);
    key
}

/// Keys for one type never collide: different names give different keys.
pub proof fn lemma_cache_key_injective(kind: Seq<char>, a: Seq<char>, b: Seq<char>)
    requires
        kind + "-"@ + a == kind + "-"@ + b,
    ensures
        a == b,
{
    let p = kind + "-"@;
    assert(p + a == p + b);
    assert(a =~= (p + a).skip(p.len() as int));
    assert(b =~= (p + b).skip(p.len() as int));
}

/// The first playlist with the given id, if any.
pub fn find_playlist(playlists: Vec<PlaylistInfo>, id: &PlaylistId) -> (res: Option<PlaylistInfo>)
    ensures
        match res {
            Some(p) => exists|i: int|
                0 <= i < playlists@.len() && playlists@[i] == p && p.id@ == id@ && forall|j: int|
                    0 <= j < i ==> (#[trigger] playlists@[j]).id@ != id@,
            None => forall|j: int| 0 <= j < playlists@.len() ==> (#[trigger] playlists@[j]).id@ != id@,
        },
{
    let ghost all = playlists@;
    for p in it: playlists.into_iter()
        invariant
            it.seq() == all,
            forall|j: int| 0 <= j < it.index() ==> (#[trigger] all[j]).id@ != id@,
    {
        if p.id == *id {
            assert(all[it.index() as int] == p);
            return Some(p);
        }
    }
    None
}

/// Where a read through the cache stands.
#[derive(Clone, Copy, Debug, PartialEq, Eq, Structural)]
pub enum ReadThroughPhase {
    Looking,
    Fetching,
    Storing,
    Done,
}

/// What the last step of a read through the cache found.
#[derive(Clone, Copy, Debug, PartialEq, Eq, Structural)]
pub enum ReadThroughEvent {
    /// The cache held the entry.
    Hit,
    /// The cache did not hold the entry.
    Miss,
    /// The entry was fetched from the Web API.
    Fetched,
    /// The fetched entry was written to the cache.
    Stored,
}

/// The next step of a read through the cache.
#[derive(Clone, Copy, Debug, PartialEq, Eq, Structural)]
pub enum ReadThroughAction {
    /// Look the entry up in the cache.
    Lookup,
    /// Hand out the cached entry.
    ReturnCached,
    /// Fetch the entry from the Web API.
    Fetch,
    /// Write the fetched entry to the cache.
    Store,
    /// Hand out the fetched entry.
    ReturnFetched,
}

/// The phase and step that follow an event, or `None` for an event that
/// cannot occur in that phase.
pub open spec fn read_through_transition(phase: ReadThroughPhase, event: ReadThroughEvent) -> Option<(ReadThroughPhase, ReadThroughAction)> {
    match (phase, event) {
        (ReadThroughPhase::Looking, ReadThroughEvent::Hit) => Some((ReadThroughPhase::Done, ReadThroughAction::ReturnCached)),
        (ReadThroughPhase::Looking, ReadThroughEvent::Miss) => Some((ReadThroughPhase::Fetching, ReadThroughAction::Fetch)),
        (ReadThroughPhase::Fetching, ReadThroughEvent::Fetched) => Some((ReadThroughPhase::Storing, ReadThroughAction::Store)),
        (ReadThroughPhase::Storing, ReadThroughEvent::Stored) => Some((ReadThroughPhase::Done, ReadThroughAction::ReturnFetched)),
        _ => None,
    }
}

/// A read through the cache: a hit is handed out as it is; a miss is
/// fetched, written to the cache, and then handed out.
pub struct ReadThrough {
    phase: ReadThroughPhase,
}

impl ReadThrough {
    pub closed spec fn current(&self) -> ReadThroughPhase {
        self.phase
    }

    /// A read about to look in the cache, with that as its first step.
    pub fn start() -> (res: (ReadThrough, ReadThroughAction))
        ensures
            res.0.current() == ReadThroughPhase::Looking,
            res.1 == ReadThroughAction::Lookup,
    {
        (ReadThrough { phase: ReadThroughPhase::Looking }, ReadThroughAction::Lookup)
    }

    /// The phase the read is in.
    pub fn phase(&self) -> (res: ReadThroughPhase)
        ensures
            res == self.current(),
    {
        self.phase
    }

    /// Takes in the outcome of the last step and gives the next one; an
    /// event that cannot occur in the current phase gives `None` and leaves
    /// the phase as it was.
    pub fn step(&mut self, event: ReadThroughEvent) -> (res: Option<ReadThroughAction>)
        ensures
            match read_through_transition(old(self).current(), event) {
                Some((p, a)) => final(self).current() == p && res == Some(a),
                None => final(self).current() == old(self).current() && res is None,
            },
    {
        let next = match (self.phase, event) {
            (ReadThroughPhase::Looking, ReadThroughEvent::Hit) => Some((ReadThroughPhase::Done, ReadThroughAction::ReturnCached)),
            (ReadThroughPhase::Looking, ReadThroughEvent::Miss) => Some((ReadThroughPhase::Fetching, ReadThroughAction::Fetch)),
            (ReadThroughPhase::Fetching, ReadThroughEvent::Fetched) => Some((ReadThroughPhase::Storing, ReadThroughAction::Store)),
            (ReadThroughPhase::Storing, ReadThroughEvent::Stored) => Some((ReadThroughPhase::Done, ReadThroughAction::ReturnFetched)),
            _ => None,
        };
        match next {
            Some((p, a)) => {
                self.phase = p;
                Some(a)
            },
            None => None,
        }
    }
}

/// A cache hit is handed out at once and never fetched.
pub proof fn lemma_hit_never_fetches(phase: ReadThroughPhase, event: ReadThroughEvent)
    ensures
        event == ReadThroughEvent::Hit ==> match read_through_transition(phase, event) {
            Some((p, a)) => p == ReadThroughPhase::Done && a == ReadThroughAction::ReturnCached,
            None => true,
        },
{
}

/// A fetched entry is handed out only once it has been written to the cache.
pub proof fn lemma_fetched_returned_after_store(phase: ReadThroughPhase, event: ReadThroughEvent)
    ensures
        read_through_transition(phase, event) matches Some((_, a)) && a == ReadThroughAction::ReturnFetched
            ==> phase == ReadThroughPhase::Storing && event == ReadThroughEvent::Stored,
{
}

} // verus!
