use vstd::prelude::*;

verus! {

/// The signed-in user's profile.
#[derive(Debug, Clone, PartialEq, Eq)]
pub struct Account {
    pub id: String,
    pub display_name: Option<String>,
}

/// A music track on the remote service.
#[derive(Debug, Clone, PartialEq, Eq)]
pub struct Track {
    /// `None` for a local file, which the service cannot play.
    pub id: Option<String>,
    pub name: String,
    pub artists: Vec<String>,
    pub duration_ms: u64,
}

/// A podcast episode on the remote service.
#[derive(Debug, Clone, PartialEq, Eq)]
pub struct Episode {
    pub name: String,
    pub show_name: String,
    pub duration_ms: u64,
}

/// What the remote service can be playing.
#[derive(Debug, Clone, PartialEq, Eq)]
pub enum PlayableItem {
    Track(Track),
    Episode(Episode),
}

/// What was playing, and how far into it, at the moment of one fetch.
#[derive(Debug, Clone, PartialEq, Eq)]
pub struct PlaybackSnapshot {
    pub item: Option<PlayableItem>,
    pub progress_ms: Option<u64>,
    pub is_playing: bool,
}

/// A playlist of the signed-in user.
#[derive(Debug, Clone, PartialEq, Eq)]
pub struct Playlist {
    pub id: String,
    pub name: String,
}

/// One entry of a playlist.
#[derive(Debug, Clone, PartialEq, Eq)]
pub struct PlaylistItem {
    pub is_local: bool,
    pub track: Option<PlayableItem>,
}

} // verus!
