//! What the request handlers decide before they touch the player or the
//! Web API: which listing is asked for, and what an "add" makes the player do.

use vstd::prelude::*;
use crate::ids::{IdError, PlaylistId, TrackId, is_valid_id, playable_uri};

verus! {

/// What a listing request asks for.
pub enum ListTarget {
    /// The current user's playlists.
    Playlists,
    /// The tracks of one playlist.
    PlaylistSongs(PlaylistId),
}

/// The listing asked for by the optional path segment: no segment lists
/// the playlists; a segment must be a valid playlist id, whose tracks are
/// listed, and is otherwise refused with `InvalidId`.
pub fn list_target(pid: Option<String>) -> (res: Result<ListTarget, IdError>)
    ensures
        match pid {
            None => res matches Ok(ListTarget::Playlists),
            Some(s) => if is_valid_id(s@) {
                res matches Ok(ListTarget::PlaylistSongs(p)) && p@ == s@
            } else {
                res == Err::<ListTarget, IdError>(IdError::InvalidId)
            },
        },
{
    match pid {
        None => Ok(ListTarget::Playlists),
        Some(s) => match PlaylistId::from_id(s.as_str()) {
            Ok(p) => Ok(ListTarget::PlaylistSongs(p)),
            Err(e) => Err(e),
        },
    }
}

/// A request to add something to what is played.
pub enum Add {
    Track(TrackId),
    Playlist(PlaylistId),
}

/// What the player is told to load.
pub struct LoadRequest {
    /// The URI of what to load.
    pub uri: String,
    /// Whether to start playing at once.
    pub start_playing: bool,
    /// Where to start, in milliseconds.
    pub position_ms: u32,
}

/// Adding a track loads it into the player and plays it from the start.
/// Adding a playlist is not supported, and is left out.
pub fn load_request(add: &Add) -> (res: LoadRequest)
    requires
        add is Track,
    ensures
        res.uri@ == playable_uri(add->Track_0),
        res.start_playing,
        res.position_ms == 0,
{
    match add {
        Add::Track(track) => LoadRequest { uri: track.uri(), start_playing: true, position_ms: 0 },
        Add::Playlist(_) => {
            proof {
                assert(false);
            }
            LoadRequest { uri: String::new(), start_playing: true, position_ms: 0 }
        },
    }
}

} // verus!
