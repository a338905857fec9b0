//! Spotify identifiers: playlist ids (validated) and playable ids (tracks and
//! episodes), with their `spotify:type:id` URIs.

use vstd::prelude::*;

verus! {

/// A character that the Spotify id grammar accepts: an ASCII letter or digit.
pub open spec fn is_id_char(c: char) -> bool {
    ('0' <= c && c <= '9') || ('a' <= c && c <= 'z') || ('A' <= c && c <= 'Z')
}

/// An id string is valid when every character is an ASCII letter or digit.
/// (The empty string is accepted as well.)
pub open spec fn is_valid_id(s: Seq<char>) -> bool {
    forall|i: int| 0 <= i < s.len() ==> #[trigger] is_id_char(s[i])
}

/// Why an id could not be parsed.
#[derive(Clone, Copy, Debug, PartialEq, Eq, Structural)]
pub enum IdError {
    /// The URI does not start with `spotify:` or `spotify/`.
    InvalidPrefix,
    /// The URI cannot be split into a type and an id.
    InvalidFormat,
    /// The URI names an unknown or unexpected type.
    InvalidType,
    /// The id holds a character that is not an ASCII letter or digit.
    InvalidId,
}

/// `rspotify::model::PlaylistId::id_is_valid`: per its source, true exactly when
/// every character of `id` is ASCII alphanumeric.
#[verifier::external_body]
fn playlist_id_is_valid(id: &str) -> (valid: bool)
    ensures
        valid == is_valid_id(id@),
{
    rspotify::model::PlaylistId::id_is_valid(id)
}

/// The id of a playlist. Its characters are always ASCII letters or digits.
#[derive(Debug)]
pub struct PlaylistId {
    id: String,
}

impl View for PlaylistId {
    type V = Seq<char>;

    closed spec fn view(&self) -> Seq<char> {
        self.id@
    }
}

impl PartialEq for PlaylistId {
    fn eq(&self, other: &PlaylistId) -> (res: bool) {
        self.id == other.id
    }
}

impl vstd::std_specs::cmp::PartialEqSpecImpl for PlaylistId {
    open spec fn obeys_eq_spec() -> bool {
        true
    }

    open spec fn eq_spec(&self, other: &PlaylistId) -> bool {
        self@ == other@
    }
}

impl Eq for PlaylistId {
}

impl Clone for PlaylistId {
    fn clone(&self) -> (res: Self)
        ensures
            res == *self,
    {
        proof {
            use_type_invariant(self);
        }
        PlaylistId { id: self.id.clone() }
    }
}

impl PlaylistId {
    #[verifier::type_invariant]
    spec fn well_formed(self) -> bool {
        is_valid_id(self.id@)
    }

    /// Parses a playlist id: it is accepted exactly when every character is
    /// an ASCII letter or digit; otherwise the error is `InvalidId`.
    pub fn from_id(id: &str) -> (res: Result<PlaylistId, IdError>)
        ensures
            is_valid_id(id@) <==> res is Ok,
            res matches Ok(p) ==> p@ == id@,
            res matches Err(e) ==> e == IdError::InvalidId,
    {
        if playlist_id_is_valid(id) {
            Ok(PlaylistId { id: String::from_str(id) })
        } else {
            Err(IdError::InvalidId)
        }
    }

    /// The bare id, without the `spotify:playlist:` prefix.
    pub fn id(&self) -> (res: &str)
        ensures
            res@ == self@,
            is_valid_id(self@),
    {
        proof {
            use_type_invariant(self);
        }
        self.id.as_str()
    }

    /// The URI `spotify:playlist:<id>`.
    pub fn uri(&self) -> (res: String)
        ensures
            res@ == "spotify:"@ + "playlist"@ + ":"@ + self@,
    {
        let mut s = String::from_str("spotify:");
        s.append("playlist");
        s.append(":");
        s.append(self.id.as_str());
        s
    }
}

/// `rspotify::model::TrackId::id_is_valid`: per its source, true exactly when
/// every character of `id` is ASCII alphanumeric.
#[verifier::external_body]
fn track_id_is_valid(id: &str) -> (valid: bool)
    ensures
        valid == is_valid_id(id@),
{
    rspotify::model::TrackId::id_is_valid(id)
}

/// `rspotify::model::EpisodeId::id_is_valid`: per its source, true exactly when
/// every character of `id` is ASCII alphanumeric.
#[verifier::external_body]
fn episode_id_is_valid(id: &str) -> (valid: bool)
    ensures
        valid == is_valid_id(id@),
{
    rspotify::model::EpisodeId::id_is_valid(id)
}

/// The bare id of a track or of an episode. Its characters are always ASCII
/// letters or digits.
#[derive(Debug)]
pub struct ItemId {
    id: String,
}

impl View for ItemId {
    type V = Seq<char>;

    closed spec fn view(&self) -> Seq<char> {
        self.id@
    }
}

impl PartialEq for ItemId {
    fn eq(&self, other: &ItemId) -> (res: bool) {
        self.id == other.id
    }
}

impl vstd::std_specs::cmp::PartialEqSpecImpl for ItemId {
    open spec fn obeys_eq_spec() -> bool {
        true
    }

    open spec fn eq_spec(&self, other: &ItemId) -> bool {
        self@ == other@
    }
}

impl Eq for ItemId {
}

impl Clone for ItemId {
    fn clone(&self) -> (res: Self)
        ensures
            res == *self,
    {
        proof {
            use_type_invariant(self);
        }
        ItemId { id: self.id.clone() }
    }
}

impl ItemId {
    #[verifier::type_invariant]
    spec fn well_formed(self) -> bool {
        is_valid_id(self.id@)
    }

    /// Parses the id of a track: accepted exactly when every character is an
    /// ASCII letter or digit; otherwise the error is `InvalidId`.
    pub fn from_track_id(id: &str) -> (res: Result<ItemId, IdError>)
        ensures
            is_valid_id(id@) <==> res is Ok,
            res matches Ok(p) ==> p@ == id@,
            res matches Err(e) ==> e == IdError::InvalidId,
    {
        if track_id_is_valid(id) {
            Ok(ItemId { id: String::from_str(id) })
        } else {
            Err(IdError::InvalidId)
        }
    }

    /// Parses the id of an episode: accepted exactly when every character is
    /// an ASCII letter or digit; otherwise the error is `InvalidId`.
    pub fn from_episode_id(id: &str) -> (res: Result<ItemId, IdError>)
        ensures
            is_valid_id(id@) <==> res is Ok,
            res matches Ok(p) ==> p@ == id@,
            res matches Err(e) ==> e == IdError::InvalidId,
    {
        if episode_id_is_valid(id) {
            Ok(ItemId { id: String::from_str(id) })
        } else {
            Err(IdError::InvalidId)
        }
    }

    /// The id as text.
    pub fn id(&self) -> (res: &str)
        ensures
            res@ == self@,
            is_valid_id(self@),
    {
        proof {
            use_type_invariant(self);
        }
        self.id.as_str()
    }

}

/// The id of something that can be played: a track or a podcast episode.
#[derive(Debug, PartialEq, Eq)]
pub enum TrackId {
    Track(ItemId),
    Episode(ItemId),
}

/// The type name that a URI gives each kind of playable id.
pub open spec fn playable_type_name(t: TrackId) -> Seq<char> {
    match t {
        TrackId::Track(_) => "track"@,
        TrackId::Episode(_) => "episode"@,
    }
}

/// The bare id of a playable id.
pub open spec fn playable_id(t: TrackId) -> Seq<char> {
    match t {
        TrackId::Track(id) => id@,
        TrackId::Episode(id) => id@,
    }
}

/// The URI `spotify:<type>:<id>` of a playable id.
pub open spec fn playable_uri(t: TrackId) -> Seq<char> {
    "spotify:"@ + playable_type_name(t) + ":"@ + playable_id(t)
}

impl Clone for TrackId {
    fn clone(&self) -> (res: Self)
        ensures
            res == *self,
    {
        match self {
            TrackId::Track(id) => TrackId::Track(id.clone()),
            TrackId::Episode(id) => TrackId::Episode(id.clone()),
        }
    }
}

impl TrackId {
    /// The id of a track, checked as `ItemId::from_track_id` checks it.
    pub fn track(id: &str) -> (res: Result<TrackId, IdError>)
        ensures
            is_valid_id(id@) <==> res is Ok,
            res matches Ok(t) ==> t is Track && playable_id(t) == id@,
            res matches Err(e) ==> e == IdError::InvalidId,
    {
        match ItemId::from_track_id(id) {
            Ok(i) => Ok(TrackId::Track(i)),
            Err(e) => Err(e),
        }
    }

    /// The id of an episode, checked as `ItemId::from_episode_id` checks it.
    pub fn episode(id: &str) -> (res: Result<TrackId, IdError>)
        ensures
            is_valid_id(id@) <==> res is Ok,
            res matches Ok(t) ==> t is Episode && playable_id(t) == id@,
            res matches Err(e) ==> e == IdError::InvalidId,
    {
        match ItemId::from_episode_id(id) {
            Ok(i) => Ok(TrackId::Episode(i)),
            Err(e) => Err(e),
        }
    }

    /// The bare id, without the `spotify:<type>:` prefix; always made of
    /// ASCII letters and digits.
    pub fn id(&self) -> (res: &str)
        ensures
            res@ == playable_id(*self),
            is_valid_id(res@),
    {
        match self {
            TrackId::Track(id) => id.id(),
            TrackId::Episode(id) => id.id(),
        }
    }

    /// The URI `spotify:track:<id>` or `spotify:episode:<id>`.
    pub fn uri(&self) -> (res: String)
        ensures
            res@ == playable_uri(*self),
    {
        let mut s = String::from_str("spotify:");
        match self {
            TrackId::Track(id) => {
                s.append("track");
                s.append(":");
                s.append(id.id());
            },
            TrackId::Episode(id) => {
                s.append("episode");
                s.append(":");
                s.append(id.id());
            },
        }
        s
    }
}

} // verus!
