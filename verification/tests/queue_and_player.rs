use spotify_remote::{PlabackState, PlaybackMessage, PlayerEvent, PlayerMessage, PlayerState, Queue, Repeat, Track, TrackId};
use spotify_remote::player::{apply_playback_message, handle_player_event, playback_message};

fn track(id: Option<&str>, playable: bool) -> Track {
    Track { id: id.map(|s| TrackId::track(s).unwrap()), name: "n".to_string(), playable }
}

#[test]
fn new_queue_is_empty() {
    let q = Queue::new();
    assert!(q.tracks().is_empty());
    assert!(q.current_playlist().is_none());
}

#[test]
fn set_playlist_keeps_playable_tracks_with_ids() {
    let mut q = Queue::new();
    q.set_playlist(vec![track(Some("a"), true), track(Some("b"), false), track(None, true), track(Some("c"), true)]);
    assert_eq!(q.tracks(), vec![TrackId::track("a").unwrap(), TrackId::track("c").unwrap()]);
    assert!(q.current_playlist().is_none());
}

#[test]
fn set_playlist_replaces_queue() {
    let mut q = Queue::new();
    q.add_track(TrackId::episode("old").unwrap());
    q.set_playlist(vec![track(Some("new"), true)]);
    assert_eq!(q.tracks(), vec![TrackId::track("new").unwrap()]);
}

#[test]
fn add_track_goes_first() {
    let mut q = Queue::new();
    q.set_playlist(vec![track(Some("a"), true), track(Some("b"), true)]);
    q.add_track(TrackId::track("z").unwrap());
    assert_eq!(
        q.tracks(),
        vec![TrackId::track("z").unwrap(), TrackId::track("a").unwrap(), TrackId::track("b").unwrap()]
    );
}

#[test]
fn player_state_defaults() {
    let s = PlayerState::default();
    assert_eq!(s.playback, PlabackState::Stopped);
    assert!(!s.shuffled);
    assert_eq!(s.sorting, Repeat::No);
    assert_eq!(PlabackState::default(), PlabackState::Stopped);
    assert_eq!(Repeat::default(), Repeat::No);
}

#[test]
fn events_map_to_messages() {
    assert_eq!(playback_message(PlayerEvent::Stopped), Some(PlaybackMessage::Stopped));
    assert_eq!(playback_message(PlayerEvent::Loading), Some(PlaybackMessage::Loading));
    assert_eq!(playback_message(PlayerEvent::Playing), Some(PlaybackMessage::Started));
    assert_eq!(playback_message(PlayerEvent::Paused), Some(PlaybackMessage::Paused));
    assert_eq!(playback_message(PlayerEvent::EndOfTrack), Some(PlaybackMessage::TrackEnded));
    assert_eq!(playback_message(PlayerEvent::Unavailable), Some(PlaybackMessage::Unavailable));
    assert_eq!(playback_message(PlayerEvent::TrackChanged), Some(PlaybackMessage::TrackChanged));
    assert_eq!(playback_message(PlayerEvent::Other), None);
}

#[test]
fn messages_set_playback() {
    let mut s = PlayerState { playback: PlabackState::Stopped, shuffled: true, sorting: Repeat::Playlist };
    apply_playback_message(&mut s, PlaybackMessage::Loading);
    assert_eq!(s.playback, PlabackState::Playing { paused: false });
    apply_playback_message(&mut s, PlaybackMessage::Paused);
    assert_eq!(s.playback, PlabackState::Playing { paused: true });
    apply_playback_message(&mut s, PlaybackMessage::TrackEnded);
    assert_eq!(s.playback, PlabackState::Stopped);
    assert!(s.shuffled);
    assert_eq!(s.sorting, Repeat::Playlist);
}

#[test]
fn handling_events() {
    let mut s = PlayerState::default();
    let m = handle_player_event(&mut s, PlayerEvent::Playing);
    assert_eq!(m, Some(PlayerMessage::PlaybackMessage(PlaybackMessage::Started)));
    assert_eq!(s.playback, PlabackState::Playing { paused: false });
    let before = s;
    assert_eq!(handle_player_event(&mut s, PlayerEvent::Other), None);
    assert_eq!(s, before);
    handle_player_event(&mut s, PlayerEvent::Paused);
    let once = s;
    handle_player_event(&mut s, PlayerEvent::Paused);
    assert_eq!(s, once);
}
