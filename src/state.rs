use vstd::prelude::*;

use crate::io::IoEvent;
use crate::model::{Account, PlaybackSnapshot, Playlist, PlaylistItem};

verus! {

/// The snapshot of remote account data that the render loop reads every
/// frame. Each field holds the result of the last successful fetch of its
/// kind, or nothing if there was none.
#[derive(Debug, Clone, PartialEq, Eq)]
pub struct SpotifyState {
    pub me: Option<Account>,
    /// `None` also when the last fetch found nothing playing.
    pub playback: Option<PlaybackSnapshot>,
    pub playlists: Option<Vec<Playlist>>,
    pub selected_playlist: Option<Playlist>,
    pub selected_playlist_items: Option<Vec<PlaylistItem>>,
}

/// The complete result of one successful fetch from the remote service.
#[derive(Debug, Clone, PartialEq, Eq)]
pub enum Fetched {
    Profile(Account),
    Playback(Option<PlaybackSnapshot>),
    Playlists(Vec<Playlist>),
    PlaylistItems(Vec<PlaylistItem>),
}

/// A failed remote call; the message is for the error sink only.
#[derive(Debug, Clone, PartialEq, Eq)]
pub struct FetchError {
    pub message: String,
}

/// The state after committing one fetch result: exactly one field is
/// replaced, as a whole.
pub open spec fn committed(s: SpotifyState, f: Fetched) -> SpotifyState {
    match f {
        Fetched::Profile(a) => SpotifyState { me: Some(a), ..s },
        Fetched::Playback(p) => SpotifyState { playback: p, ..s },
        Fetched::Playlists(l) => SpotifyState { playlists: Some(l), ..s },
        Fetched::PlaylistItems(i) => SpotifyState { selected_playlist_items: Some(i), ..s },
    }
}

/// The state after the outcome of one remote call: a success is committed,
/// a failure changes nothing.
pub open spec fn after_outcome(s: SpotifyState, outcome: Result<Fetched, FetchError>) -> SpotifyState {
    match outcome {
        Ok(f) => committed(s, f),
        Err(_) => s,
    }
}

/// The state after a sequence of outcomes, taken in the order they completed.
pub open spec fn after_outcomes(s: SpotifyState, outcomes: Seq<Result<Fetched, FetchError>>) -> SpotifyState
    decreases outcomes.len(),
{
    if outcomes.len() == 0 {
        s
    } else {
        after_outcome(after_outcomes(s, outcomes.drop_last()), outcomes.last())
    }
}

/// The profile of the last successful profile fetch in `outcomes`.
pub open spec fn last_profile(outcomes: Seq<Result<Fetched, FetchError>>) -> Option<Account>
    decreases outcomes.len(),
{
    if outcomes.len() == 0 {
        None
    } else {
        match outcomes.last() {
            Ok(Fetched::Profile(a)) => Some(a),
            _ => last_profile(outcomes.drop_last()),
        }
    }
}

/// The playback of the last successful playback fetch in `outcomes`.
pub open spec fn last_playback(outcomes: Seq<Result<Fetched, FetchError>>) -> Option<Option<PlaybackSnapshot>>
    decreases outcomes.len(),
{
    if outcomes.len() == 0 {
        None
    } else {
        match outcomes.last() {
            Ok(Fetched::Playback(p)) => Some(p),
            _ => last_playback(outcomes.drop_last()),
        }
    }
}

/// The playlists of the last successful playlists fetch in `outcomes`.
pub open spec fn last_playlists(outcomes: Seq<Result<Fetched, FetchError>>) -> Option<Vec<Playlist>>
    decreases outcomes.len(),
{
    if outcomes.len() == 0 {
        None
    } else {
        match outcomes.last() {
            Ok(Fetched::Playlists(l)) => Some(l),
            _ => last_playlists(outcomes.drop_last()),
        }
    }
}

/// The entries of the last successful playlist-items fetch in `outcomes`.
pub open spec fn last_playlist_items(outcomes: Seq<Result<Fetched, FetchError>>) -> Option<Vec<PlaylistItem>>
    decreases outcomes.len(),
{
    if outcomes.len() == 0 {
        None
    } else {
        match outcomes.last() {
            Ok(Fetched::PlaylistItems(i)) => Some(i),
            _ => last_playlist_items(outcomes.drop_last()),
        }
    }
}

/// `latest` if there is one, else `current`.
pub open spec fn or_else<T>(latest: Option<T>, current: Option<T>) -> Option<T> {
    match latest {
        Some(v) => Some(v),
        None => current,
    }
}

impl SpotifyState {
    /// The state of a process that has fetched nothing yet.
    pub fn new() -> (r: SpotifyState)
        ensures
            r.me is None,
            r.playback is None,
            r.playlists is None,
            r.selected_playlist is None,
            r.selected_playlist_items is None,
    {
        SpotifyState {
            me: None,
            playback: None,
            playlists: None,
            selected_playlist: None,
            selected_playlist_items: None,
        }
    }

    /// Replaces the one field that `fetched` is for with it, leaving the
    /// others as they were. Called with the guard held, after the remote call
    /// has completed.
    pub fn commit(&mut self, fetched: Fetched)
        ensures
            *final(self) == committed(*old(self), fetched),
    {
        match fetched {
            Fetched::Profile(a) => {
                self.me = Some(a);
            },
            Fetched::Playback(p) => {
                self.playback = p;
            },
            Fetched::Playlists(l) => {
                self.playlists = Some(l);
            },
            Fetched::PlaylistItems(i) => {
                self.selected_playlist_items = Some(i);
            },
        }
    }

    /// Commits a successful outcome; a failed one leaves the state unchanged.
    pub fn apply(&mut self, outcome: Result<Fetched, FetchError>)
        ensures
            *final(self) == after_outcome(*old(self), outcome),
            outcome is Err ==> *final(self) == *old(self),
    {
        match outcome {
            Ok(f) => self.commit(f),
            Err(_) => {},
        }
    }

    /// Marks `playlist` as the one whose entries are shown, and returns the
    /// request that fetches those entries.
    pub fn select_playlist(&mut self, playlist: Playlist) -> (r: IoEvent)
        ensures
            final(self).selected_playlist == Some(playlist),
            r == IoEvent::FetchPlaylistItems(playlist.id),
            final(self).me == old(self).me,
            final(self).playback == old(self).playback,
            final(self).playlists == old(self).playlists,
            final(self).selected_playlist_items == old(self).selected_playlist_items,
    {
        let id = playlist.id.clone();
        self.selected_playlist = Some(playlist);
        IoEvent::FetchPlaylistItems(id)
    }
}

impl Default for SpotifyState {
    fn default() -> (r: SpotifyState)
        ensures
            r.me is None,
            r.playback is None,
            r.playlists is None,
            r.selected_playlist is None,
            r.selected_playlist_items is None,
    {
        SpotifyState::new()
    }
}

/// Whatever the interleaving of user commands and poller ticks, each field of
/// the state after a run of remote calls holds the result of the last
/// successful fetch of its kind, whole, or its earlier value if no fetch of
/// that kind succeeded; the selection is never touched by a fetch.
pub proof fn lemma_last_write_wins(s: SpotifyState, outcomes: Seq<Result<Fetched, FetchError>>)
    ensures
        after_outcomes(s, outcomes).me == or_else(last_profile(outcomes), s.me),
        after_outcomes(s, outcomes).playback == match last_playback(outcomes) {
            Some(p) => p,
            None => s.playback,
        },
        after_outcomes(s, outcomes).playlists == or_else(last_playlists(outcomes), s.playlists),
        after_outcomes(s, outcomes).selected_playlist_items
            == or_else(last_playlist_items(outcomes), s.selected_playlist_items),
        after_outcomes(s, outcomes).selected_playlist == s.selected_playlist,
    decreases outcomes.len(),
{
    if outcomes.len() > 0 {
        lemma_last_write_wins(s, outcomes.drop_last());
    }
}

} // verus!
