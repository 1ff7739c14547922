//! Handles, decisions and text rules of a client for the native Spotify library.
//!
//! The native library itself is reached from the `app` crate; this crate holds
//! what that glue decides and computes, with its contracts proved.

pub mod native;
pub mod events;
pub mod text;
pub mod artist;
pub mod track;
pub mod playlist;
pub mod search;
pub mod session;
pub mod link;
pub mod player;

pub use artist::Artist;
pub use events::{ChannelAction, Event, SpSessionCallback};
pub use link::{Link, LinkProgress, LinkStep};
pub use native::{
    SpAlbum, SpAlbumbrowse, SpArtist, SpAudioBufferFormat, SpAudioformat, SpConnectionState,
    SpError, SpLink, SpLinkType, SpPlaylist, SpPlaylistContainer, SpPlaylistType, SpSearchType,
    SpSession, SpTrack,
};
pub use player::{DeliveryPlan, MusicPlayer};
pub use playlist::Playlist;
pub use search::{Search, SearchRequest};
pub use session::{Session, SessionSettings};
pub use track::Track;
