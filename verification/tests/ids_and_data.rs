use spotify_remote::{FullEpisode, FullTrack, IdError, ItemId, OptFrom, PlayableItem, PlaylistId, Track, TrackId};
use spotify_remote::data::tracks_from_items;

#[test]
fn playlist_id_accepts_alphanumeric() {
    let p = PlaylistId::from_id("37i9dQZF1DXcBWIGoYBM5M").unwrap();
    assert_eq!(p.id(), "37i9dQZF1DXcBWIGoYBM5M");
    assert_eq!(p.uri(), "spotify:playlist:37i9dQZF1DXcBWIGoYBM5M");
}

#[test]
fn playlist_id_rejects_other_characters() {
    assert!(matches!(PlaylistId::from_id("spotify:playlist:abc"), Err(IdError::InvalidId)));
    assert!(matches!(PlaylistId::from_id("a b"), Err(IdError::InvalidId)));
    assert!(matches!(PlaylistId::from_id("é"), Err(IdError::InvalidId)));
}

#[test]
fn playlist_id_accepts_empty() {
    let p = PlaylistId::from_id("").unwrap();
    assert_eq!(p.id(), "");
}

#[test]
fn playlist_ids_compare_by_id() {
    let a = PlaylistId::from_id("abc").unwrap();
    let b = PlaylistId::from_id("abc").unwrap();
    let c = PlaylistId::from_id("abd").unwrap();
    assert!(a == b);
    assert!(a != c);
    assert!(a.clone() == a);
}

#[test]
fn playable_uris() {
    let t = TrackId::track("4iV5W9uYEdYUVa79Axb7Rh").unwrap();
    let e = TrackId::episode("512ojhOuo1ktJprKbVcKyQ").unwrap();
    assert_eq!(t.uri(), "spotify:track:4iV5W9uYEdYUVa79Axb7Rh");
    assert_eq!(e.uri(), "spotify:episode:512ojhOuo1ktJprKbVcKyQ");
    assert_eq!(e.id(), "512ojhOuo1ktJprKbVcKyQ");
    assert_eq!(t.clone(), t);
}

fn full_track(id: Option<&str>, name: &str, playable: Option<bool>) -> FullTrack {
    FullTrack { id: id.map(|s| ItemId::from_track_id(s).unwrap()), name: name.to_string(), is_playable: playable }
}

#[test]
fn full_track_converts() {
    let t: Track = Track::opt_from(full_track(Some("abc"), "Song", Some(true))).unwrap();
    assert_eq!(t.id, Some(TrackId::track("abc").unwrap()));
    assert_eq!(t.name, "Song");
    assert!(t.playable);
}

#[test]
fn full_track_unknown_playability_is_not_playable() {
    let t: Track = Track::opt_from(full_track(None, "Local", None)).unwrap();
    assert_eq!(t.id, None);
    assert!(!t.playable);
}

#[test]
fn episode_converts() {
    let item = PlayableItem::Episode(FullEpisode { id: ItemId::from_episode_id("ep1").unwrap(), name: "Talk".to_string(), is_playable: false });
    let t: Track = Track::opt_from(item).unwrap();
    assert_eq!(t.id, Some(TrackId::episode("ep1").unwrap()));
    assert_eq!(t.name, "Talk");
    assert!(!t.playable);
}

#[test]
fn unknown_item_converts_to_nothing() {
    let t: Option<Track> = Track::opt_from(PlayableItem::Unknown);
    assert!(t.is_none());
}

#[test]
fn track_item_converts_like_full_track() {
    let t: Track = Track::opt_from(PlayableItem::Track(full_track(Some("x1"), "X", Some(false)))).unwrap();
    assert_eq!(t.id, Some(TrackId::track("x1").unwrap()));
    assert!(!t.playable);
}

#[test]
fn items_skip_missing_and_unknown() {
    let items = vec![
        Some(PlayableItem::Track(full_track(Some("a"), "A", Some(true)))),
        None,
        Some(PlayableItem::Unknown),
        Some(PlayableItem::Episode(FullEpisode { id: ItemId::from_episode_id("b").unwrap(), name: "B".to_string(), is_playable: true })),
    ];
    let tracks = tracks_from_items(items);
    assert_eq!(tracks.len(), 2);
    assert_eq!(tracks[0].name, "A");
    assert_eq!(tracks[1].id, Some(TrackId::episode("b").unwrap()));
}

#[test]
fn playable_ids_are_checked() {
    assert!(matches!(TrackId::track("abc/def"), Err(IdError::InvalidId)));
    assert!(matches!(TrackId::episode("a b"), Err(IdError::InvalidId)));
    assert!(matches!(ItemId::from_track_id("x-1"), Err(IdError::InvalidId)));
    assert!(matches!(ItemId::from_episode_id("x:1"), Err(IdError::InvalidId)));
    assert_eq!(ItemId::from_track_id("Ab9").unwrap().id(), "Ab9");
    assert_eq!(TrackId::episode("Ep2").unwrap().id(), "Ep2");
    assert!(matches!(TrackId::track("t1"), Ok(TrackId::Track(_))));
    assert!(matches!(TrackId::episode("e1"), Ok(TrackId::Episode(_))));
}
