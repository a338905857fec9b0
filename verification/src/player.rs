//! The player's state and how player events move it: each event that the
//! server cares about becomes a playback message and sets the playback state.

use vstd::prelude::*;

verus! {

/// Whether something is playing, and if so whether it is paused.
#[derive(Clone, Copy, Debug, PartialEq, Eq, Structural)]
pub enum PlabackState {
    Playing { paused: bool },
    Stopped,
}

impl Default for PlabackState {
    fn default() -> (res: Self)
        ensures
            res == PlabackState::Stopped,
    {
        PlabackState::Stopped
    }
}

/// The repeat mode.
#[derive(Clone, Copy, Debug, PartialEq, Eq, Structural)]
pub enum Repeat {
    No,
    Single,
    Playlist,
}

impl Default for Repeat {
    fn default() -> (res: Self)
        ensures
            res == Repeat::No,
    {
        Repeat::No
    }
}

/// The state of the player as the server tracks it.
#[derive(Clone, Copy, Debug, PartialEq, Eq, Structural)]
pub struct PlayerState {
    pub playback: PlabackState,
    pub shuffled: bool,
    pub sorting: Repeat,
}

impl Default for PlayerState {
    /// Stopped, not shuffled, not repeating.
    fn default() -> (res: Self)
        ensures
            res == (PlayerState {
                playback: PlabackState::Stopped,
                shuffled: false,
                sorting: Repeat::No,
            }),
    {
        PlayerState { playback: PlabackState::Stopped, shuffled: false, sorting: Repeat::No }
    }
}

/// A change of playback that the server reports to its listeners.
#[derive(Clone, Copy, Debug, PartialEq, Eq, Structural)]
pub enum PlaybackMessage {
    Stopped,
    Started,
    Paused,
    TrackChanged,
    Loading,
    TrackEnded,
    Unavailable,
}

/// A message from the player to the server's listeners.
#[derive(Clone, Copy, Debug, PartialEq, Eq, Structural)]
pub enum PlayerMessage {
    PlaybackMessage(PlaybackMessage),
}

/// The kinds of event that the audio player emits, as far as the server
/// tells them apart; every other event is `Other`.
#[derive(Clone, Copy, Debug, PartialEq, Eq, Structural)]
pub enum PlayerEvent {
    Stopped,
    Loading,
    Playing,
    Paused,
    EndOfTrack,
    Unavailable,
    TrackChanged,
    Other,
}

/// The playback message that an event is reported as, if any.
pub open spec fn message_of_event(event: PlayerEvent) -> Option<PlaybackMessage> {
    match event {
        PlayerEvent::Stopped => Some(PlaybackMessage::Stopped),
        PlayerEvent::Loading => Some(PlaybackMessage::Loading),
        PlayerEvent::Playing => Some(PlaybackMessage::Started),
        PlayerEvent::Paused => Some(PlaybackMessage::Paused),
        PlayerEvent::EndOfTrack => Some(PlaybackMessage::TrackEnded),
        PlayerEvent::Unavailable => Some(PlaybackMessage::Unavailable),
        PlayerEvent::TrackChanged => Some(PlaybackMessage::TrackChanged),
        PlayerEvent::Other => None,
    }
}

/// The playback state that a message leaves the player in.
pub open spec fn playback_after(msg: PlaybackMessage) -> PlabackState {
    match msg {
        PlaybackMessage::Stopped | PlaybackMessage::Unavailable | PlaybackMessage::TrackEnded => PlabackState::Stopped,
        PlaybackMessage::Started | PlaybackMessage::Loading | PlaybackMessage::TrackChanged => PlabackState::Playing { paused: false },
        PlaybackMessage::Paused => PlabackState::Playing { paused: true },
    }
}

/// The player state after an event: only the playback changes, and only for
/// events that are reported.
pub open spec fn state_after_event(state: PlayerState, event: PlayerEvent) -> PlayerState {
    match message_of_event(event) {
        Some(m) => PlayerState { playback: playback_after(m), ..state },
        None => state,
    }
}

/// The playback message that the server sends for an event, if any.
pub fn playback_message(event: PlayerEvent) -> (res: Option<PlaybackMessage>)
    ensures
        res == message_of_event(event),
{
    match event {
        PlayerEvent::Stopped => Some(PlaybackMessage::Stopped),
        PlayerEvent::Loading => Some(PlaybackMessage::Loading),
        PlayerEvent::Playing => Some(PlaybackMessage::Started),
        PlayerEvent::Paused => Some(PlaybackMessage::Paused),
        PlayerEvent::EndOfTrack => Some(PlaybackMessage::TrackEnded),
        PlayerEvent::Unavailable => Some(PlaybackMessage::Unavailable),
        PlayerEvent::TrackChanged => Some(PlaybackMessage::TrackChanged),
        PlayerEvent::Other => None,
    }
}

/// Records the effect of a playback message on the player state.
pub fn apply_playback_message(state: &mut PlayerState, msg: PlaybackMessage)
    ensures
        final(state).playback == playback_after(msg),
        final(state).shuffled == old(state).shuffled,
        final(state).sorting == old(state).sorting,
{
    match msg {
        PlaybackMessage::Stopped | PlaybackMessage::Unavailable | PlaybackMessage::TrackEnded => {
            state.playback = PlabackState::Stopped
        },
        PlaybackMessage::Started | PlaybackMessage::Loading | PlaybackMessage::TrackChanged => {
            state.playback = PlabackState::Playing { paused: false }
        },
        PlaybackMessage::Paused => state.playback = PlabackState::Playing { paused: true },
    }
}

/// One step of the player-event loop: updates the state for the event and
/// returns the message to send, or `None` for an event that is ignored (the
/// state is then left as it was).
pub fn handle_player_event(state: &mut PlayerState, event: PlayerEvent) -> (res: Option<PlayerMessage>)
    ensures
        *final(state) == state_after_event(*old(state), event),
        res == (match message_of_event(event) {
            Some(m) => Some(PlayerMessage::PlaybackMessage(m)),
            None => None,
        }),
{
    match playback_message(event) {
        Some(msg) => {
            apply_playback_message(state, msg);
            Some(PlayerMessage::PlaybackMessage(msg))
        },
        None => None,
    }
}

/// Handling the same event twice leaves the player as handling it once.
pub proof fn lemma_event_idempotent(state: PlayerState, event: PlayerEvent)
    ensures
        state_after_event(state_after_event(state, event), event) == state_after_event(state, event),
{
}

/// Events never change the shuffle or repeat settings.
pub proof fn lemma_events_keep_settings(state: PlayerState, event: PlayerEvent)
    ensures
        state_after_event(state, event).shuffled == state.shuffled,
        state_after_event(state, event).sorting == state.sorting,
{
}

/// The player is paused after an event exactly when the event is a pause.
pub proof fn lemma_paused_iff_pause_event(state: PlayerState, event: PlayerEvent)
    requires
        event != PlayerEvent::Other,
    ensures
        (state_after_event(state, event).playback == PlabackState::Playing { paused: true })
            <==> event == PlayerEvent::Paused,
{
}

/// Stopping, becoming unavailable and reaching the end of a track leave the
/// player stopped, whatever it was doing before.
pub proof fn lemma_stop_events_stop(state: PlayerState)
    ensures
        state_after_event(state, PlayerEvent::Stopped).playback == PlabackState::Stopped,
        state_after_event(state, PlayerEvent::Unavailable).playback == PlabackState::Stopped,
        state_after_event(state, PlayerEvent::EndOfTrack).playback == PlabackState::Stopped,
{
}

/// Playing, loading and changing track leave the player playing and not
/// paused, whatever it was doing before.
pub proof fn lemma_play_events_play(state: PlayerState)
    ensures
        state_after_event(state, PlayerEvent::Playing).playback == (PlabackState::Playing { paused: false }),
        state_after_event(state, PlayerEvent::Loading).playback == (PlabackState::Playing { paused: false }),
        state_after_event(state, PlayerEvent::TrackChanged).playback == (PlabackState::Playing { paused: false }),
        state_after_event(state, PlayerEvent::Paused).playback == (PlabackState::Playing { paused: true }),
{
}

/// For a reported event, the player ends up stopped exactly after a stop,
/// an unavailable track or the end of a track, and playing unpaused exactly
/// after playing, loading or a track change.
pub proof fn lemma_playback_classes(state: PlayerState, event: PlayerEvent)
    requires
        event != PlayerEvent::Other,
    ensures
        (state_after_event(state, event).playback == PlabackState::Stopped) <==> (event
            == PlayerEvent::Stopped || event == PlayerEvent::Unavailable || event
            == PlayerEvent::EndOfTrack),
        (state_after_event(state, event).playback == (PlabackState::Playing { paused: false }))
            <==> (event == PlayerEvent::Playing || event == PlayerEvent::Loading || event
            == PlayerEvent::TrackChanged),
{
}

/// An ignored event leaves the whole state as it was, and a reported event
/// is reported as the message of the same name.
pub proof fn lemma_reported_messages(state: PlayerState, event: PlayerEvent)
    ensures
        event == PlayerEvent::Other ==> state_after_event(state, event) == state,
        event == PlayerEvent::Stopped ==> message_of_event(event) == Some(PlaybackMessage::Stopped),
        event == PlayerEvent::Loading ==> message_of_event(event) == Some(PlaybackMessage::Loading),
        event == PlayerEvent::Playing ==> message_of_event(event) == Some(PlaybackMessage::Started),
        event == PlayerEvent::Paused ==> message_of_event(event) == Some(PlaybackMessage::Paused),
        event == PlayerEvent::EndOfTrack ==> message_of_event(event) == Some(PlaybackMessage::TrackEnded),
        event == PlayerEvent::Unavailable ==> message_of_event(event) == Some(PlaybackMessage::Unavailable),
        event == PlayerEvent::TrackChanged ==> message_of_event(event) == Some(PlaybackMessage::TrackChanged),
{
}

} // verus!
