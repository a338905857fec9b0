//! The decision logic of a small Spotify remote-control server: identifiers,
//! track and playlist records, the play queue, the player state machine, the
//! OAuth reply check and the cache keys.

pub mod ids;

pub use ids::{IdError, ItemId, PlaylistId, TrackId};
pub mod data;
pub use data::{FullEpisode, FullTrack, OptFrom, PlayableItem, PlaylistInfo, Track};
pub mod queue;
pub use queue::Queue;
pub mod player;
pub use player::{PlabackState, PlaybackMessage, PlayerEvent, PlayerMessage, PlayerState, Repeat};
pub mod scopes;
pub mod auth;
pub mod error;
pub mod routes;
pub mod cache;
pub use error::{Error, ErrorJson};
pub use routes::{Add, ListTarget, LoadRequest};
pub use cache::make_key;
