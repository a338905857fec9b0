//! Tracks and playlists as the server hands them out, and the conversion of
//! the Web API's track, episode and playable-item records into tracks.

use vstd::prelude::*;
use crate::ids::{ItemId, PlaylistId, TrackId};

verus! {

/// A partial conversion: `None` where the value has no counterpart.
pub trait OptFrom<T>: Sized {
    fn opt_from(value: T) -> Option<Self>;
}

/// Something that can be played, as listed in a playlist.
#[derive(Debug)]
pub struct Track {
    pub id: Option<TrackId>,
    pub name: String,
    pub playable: bool,
}

/// A playlist of the current user: its id and its name.
#[derive(Debug)]
pub struct PlaylistInfo {
    pub id: PlaylistId,
    pub name: String,
}

impl Clone for Track {
    fn clone(&self) -> (res: Self)
        ensures
            res == *self,
    {
        let id = match &self.id {
            Some(id) => Some(id.clone()),
            None => None,
        };
        Track { id, name: self.name.clone(), playable: self.playable }
    }
}

impl Clone for PlaylistInfo {
    fn clone(&self) -> (res: Self)
        ensures
            res == *self,
    {
        PlaylistInfo { id: self.id.clone(), name: self.name.clone() }
    }
}

/// What a full track record of the Web API holds that a `Track` needs.
pub struct FullTrack {
    /// The track's id; local files have none.
    pub id: Option<ItemId>,
    pub name: String,
    /// Whether the track can be played in the requested market, when the API says.
    pub is_playable: Option<bool>,
}

/// What a full episode record of the Web API holds that a `Track` needs.
pub struct FullEpisode {
    pub id: ItemId,
    pub name: String,
    pub is_playable: bool,
}

/// An entry of a playlist: a track, an episode, or something unrecognised.
pub enum PlayableItem {
    Track(FullTrack),
    Episode(FullEpisode),
    Unknown,
}

/// The track that a full track record stands for.
pub open spec fn track_of_full_track(t: FullTrack) -> Track {
    Track {
        id: match t.id {
            Some(id) => Some(TrackId::Track(id)),
            None => None,
        },
        name: t.name,
        playable: match t.is_playable {
            Some(b) => b,
            None => false,
        },
    }
}

/// The track, if any, that a playable item stands for.
pub open spec fn track_of_item(item: PlayableItem) -> Option<Track> {
    match item {
        PlayableItem::Track(t) => Some(track_of_full_track(t)),
        PlayableItem::Episode(e) => Some(
            Track { id: Some(TrackId::Episode(e.id)), name: e.name, playable: e.is_playable },
        ),
        PlayableItem::Unknown => None,
    }
}

/// The tracks of a list of playlist entries, in order: entries without an
/// item, and items that stand for no track, are left out.
pub open spec fn tracks_of_items(items: Seq<Option<PlayableItem>>) -> Seq<Track>
    decreases items.len(),
{
    if items.len() == 0 {
        Seq::empty()
    } else {
        let rest = tracks_of_items(items.drop_last());
        match items.last() {
            Some(item) => match track_of_item(item) {
                Some(t) => rest.push(t),
                None => rest,
            },
            None => rest,
        }
    }
}

impl OptFrom<FullTrack> for Track {
    /// A full track always converts: its id becomes a track id, and a track
    /// whose playability is unknown counts as not playable.
    fn opt_from(value: FullTrack) -> (res: Option<Track>)
        ensures
            res == Some(track_of_full_track(value)),
    {
        let id = match value.id {
            Some(id) => Some(TrackId::Track(id)),
            None => None,
        };
        let playable = match value.is_playable {
            Some(b) => b,
            None => false,
        };
        Some(Track { id, name: value.name, playable })
    }
}

impl OptFrom<PlayableItem> for Track {
    /// Tracks convert as full tracks do, episodes keep their id, name and
    /// playability, and unrecognised items give `None`.
    fn opt_from(value: PlayableItem) -> (res: Option<Track>)
        ensures
            res == track_of_item(value),
    {
        match value {
            PlayableItem::Track(full_track) => <Track as OptFrom<FullTrack>>::opt_from(full_track),
            PlayableItem::Episode(ep) => Some(
                Track { id: Some(TrackId::Episode(ep.id)), name: ep.name, playable: ep.is_playable },
            ),
            PlayableItem::Unknown => None,
        }
    }
}

/// The tracks of a page of playlist entries, in order, skipping entries
/// that hold no item or an item that is neither a track nor an episode.
pub fn tracks_from_items(items: Vec<Option<PlayableItem>>) -> (res: Vec<Track>)
    ensures
        res@ == tracks_of_items(items@),
{
    let ghost all = items@;
    let mut out: Vec<Track> = Vec::new();
    for item in it: items.into_iter()
        invariant
            it.seq() == all,
            out@ == tracks_of_items(all.take(it.index() as int)),
    {
        proof {
            assert(all.take(it.index() + 1).drop_last() =~= all.take(it.index() as int));
        }
        match item {
            Some(i) => match <Track as OptFrom<PlayableItem>>::opt_from(i) {
                Some(t) => out.push(t),
                None => {},
            },
            None => {},
        }
    }
    proof {
        assert(all.take(all.len() as int) =~= all);
    }
    out
}

/// An episode becomes a track with the episode's id, name and playability.
pub proof fn lemma_episode_converts(e: FullEpisode)
    ensures
        track_of_item(PlayableItem::Episode(e)) matches Some(t) && t.id == Some(TrackId::Episode(e.id))
            && t.name == e.name && t.playable == e.is_playable,
{
}

/// A full track becomes a track with its id as a track id, its name, and
/// playable exactly when the API says it is playable.
pub proof fn lemma_full_track_converts(f: FullTrack)
    ensures
        track_of_item(PlayableItem::Track(f)) == Some(track_of_full_track(f)),
        track_of_full_track(f).name == f.name,
        track_of_full_track(f).playable <==> f.is_playable == Some(true),
        f.id is None ==> track_of_full_track(f).id is None,
        f.id matches Some(i) ==> track_of_full_track(f).id == Some(TrackId::Track(i)),
{
}

/// Unrecognised items become no track.
pub proof fn lemma_unknown_converts_to_nothing()
    ensures
        track_of_item(PlayableItem::Unknown) is None,
{
}

/// One entry lists its item's track, whatever the track's playability, or
/// nothing when it holds no item or an unrecognised one.
pub proof fn lemma_tracks_of_one_entry(entry: Option<PlayableItem>)
    ensures
        tracks_of_items(seq![entry]) == match entry {
            Some(item) => match track_of_item(item) {
                Some(t) => seq![t],
                None => Seq::<Track>::empty(),
            },
            None => Seq::<Track>::empty(),
        },
{
    let s = seq![entry];
    assert(s.drop_last() =~= Seq::<Option<PlayableItem>>::empty());
    assert(s.last() == entry);
    assert(tracks_of_items(s.drop_last()) == Seq::<Track>::empty());
    match entry {
        Some(item) => match track_of_item(item) {
            Some(t) => {
                assert(Seq::<Track>::empty().push(t) =~= seq![t]);
            },
            None => {},
        },
        None => {},
    }
}

/// Listing two runs of entries one after the other lists the tracks of the
/// first run followed by those of the second: the listing keeps the order of
/// the entries and drops or adds nothing across the boundary.
pub proof fn lemma_tracks_of_append(a: Seq<Option<PlayableItem>>, b: Seq<Option<PlayableItem>>)
    ensures
        tracks_of_items(a + b) == tracks_of_items(a) + tracks_of_items(b),
    decreases b.len(),
{
    if b.len() == 0 {
        assert(a + b =~= a);
        assert(tracks_of_items(a) + tracks_of_items(b) =~= tracks_of_items(a));
    } else {
        lemma_tracks_of_append(a, b.drop_last());
        assert((a + b).drop_last() =~= a + b.drop_last());
        assert((a + b).last() == b.last());
        let ta = tracks_of_items(a);
        let tb = tracks_of_items(b.drop_last());
        match b.last() {
            Some(item) => match track_of_item(item) {
                Some(t) => {
                    assert((ta + tb).push(t) =~= ta + tb.push(t));
                },
                None => {},
            },
            None => {},
        }
    }
}

/// The listing has one track per entry that holds an item standing for a
/// track.
pub open spec fn count_convertible(items: Seq<Option<PlayableItem>>) -> nat
    decreases items.len(),
{
    if items.len() == 0 {
        0
    } else {
        let here: nat = match items[0] {
            Some(item) => if track_of_item(item) is Some { 1 } else { 0 },
            None => 0,
        };
        here + count_convertible(items.drop_first())
    }
}

/// The listing holds exactly as many tracks as there are entries whose item
/// stands for a track.
pub proof fn lemma_tracks_count(items: Seq<Option<PlayableItem>>)
    ensures
        tracks_of_items(items).len() == count_convertible(items),
    decreases items.len(),
{
    if items.len() > 0 {
        lemma_tracks_count(items.drop_first());
        lemma_tracks_of_append(seq![items[0]], items.drop_first());
        assert(seq![items[0]] + items.drop_first() =~= items);
        lemma_tracks_of_one_entry(items[0]);
    }
}

} // verus!
