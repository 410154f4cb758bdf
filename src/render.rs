use vstd::prelude::*;

use crate::display::{clock_text, format_millis};
use crate::io::IoEvent;
use crate::model::{Account, PlayableItem, PlaybackSnapshot, PlaylistItem, Track};

verus! {

/// The requests sent on the first frame, before any user interaction.
pub fn fetch_init_state() -> (r: Vec<IoEvent>)
    ensures
        r@ == seq![IoEvent::FetchUserInfo, IoEvent::FetchPlaylists, IoEvent::FetchCurrentPlayback],
{
    let mut r: Vec<IoEvent> = Vec::new();
    r.push(IoEvent::FetchUserInfo);
    r.push(IoEvent::FetchPlaylists);
    r.push(IoEvent::FetchCurrentPlayback);
    r
}

/// The requests a frame sends of its own accord: the bootstrap batch on the
/// first frame, nothing afterwards.
pub fn frame_requests(first_run: bool) -> (r: Vec<IoEvent>)
    ensures
        first_run ==> r@ == seq![IoEvent::FetchUserInfo, IoEvent::FetchPlaylists, IoEvent::FetchCurrentPlayback],
        !first_run ==> r@.len() == 0,
{
    if first_run {
        fetch_init_state()
    } else {
        Vec::new()
    }
}

/// The playback position shown to the user: the stored progress, advanced by
/// the time since the fetch while the item is playing. It is not clamped to
/// the item's duration.
pub open spec fn displayed_position(stored_ms: nat, is_playing: bool, elapsed_ms: nat) -> nat {
    if is_playing {
        stored_ms + elapsed_ms
    } else {
        stored_ms
    }
}

/// Extrapolates the playback position from a stored progress and the time
/// elapsed since it was fetched.
pub fn displayed_progress(stored_ms: u64, is_playing: bool, elapsed_ms: u64) -> (r: u128)
    ensures
        r == displayed_position(stored_ms as nat, is_playing, elapsed_ms as nat),
{
    if is_playing {
        stored_ms as u128 + elapsed_ms as u128
    } else {
        stored_ms as u128
    }
}

/// The position shown for `snapshot`, where `elapsed_ms` is the time since the
/// last playback fetch (`None` when none is on record, which counts as no time).
/// A missing progress counts as zero.
pub fn playback_position(snapshot: &PlaybackSnapshot, elapsed_ms: Option<u64>) -> (r: u128)
    ensures
        r == displayed_position(
            match snapshot.progress_ms {
                Some(p) => p as nat,
                None => 0,
            },
            snapshot.is_playing,
            match elapsed_ms {
                Some(e) => e as nat,
                None => 0,
            },
        ),
{
    let stored = match snapshot.progress_ms {
        Some(p) => p,
        None => 0,
    };
    let elapsed = match elapsed_ms {
        Some(e) => e,
        None => 0,
    };
    displayed_progress(stored, snapshot.is_playing, elapsed)
}

/// The parts of `names`, separated by a comma and a space.
pub open spec fn comma_joined(names: Seq<String>) -> Seq<char>
    decreases names.len(),
{
    if names.len() == 0 {
        Seq::empty()
    } else if names.len() == 1 {
        names[0]@
    } else {
        comma_joined(names.drop_last()) + ", "@ + names.last()@
    }
}

/// Joins artist names for display ("A, B").
pub fn join_names(names: &Vec<String>) -> (r: String)
    ensures
        r@ == comma_joined(names@),
{
    let mut r = String::new();
    let mut i: usize = 0;
    while i < names.len()
        invariant
            i <= names.len(),
            r@ == comma_joined(names@.subrange(0, i as int)),
        decreases names.len() - i,
    {
        proof {
            assert(names@.subrange(0, i + 1).drop_last() =~= names@.subrange(0, i as int));
        }
        if i > 0 {
            r.append(", ");
        }
        r.append(names[i].as_str());
        i = i + 1;
    }
    proof {
        assert(names@.subrange(0, names.len() as int) =~= names@);
    }
    r
}

impl PlayableItem {
    /// The track's or the episode's name.
    pub open spec fn title_spec(&self) -> String {
        match self {
            PlayableItem::Track(t) => t.name,
            PlayableItem::Episode(e) => e.name,
        }
    }

    /// The names credited under the title: a track's artists, an episode's show.
    pub open spec fn credits_spec(&self) -> Seq<String> {
        match self {
            PlayableItem::Track(t) => t.artists@,
            PlayableItem::Episode(e) => seq![e.show_name],
        }
    }

    pub open spec fn duration_spec(&self) -> u64 {
        match self {
            PlayableItem::Track(t) => t.duration_ms,
            PlayableItem::Episode(e) => e.duration_ms,
        }
    }

    pub fn title(&self) -> (r: &String)
        ensures
            *r == self.title_spec(),
    {
        match self {
            PlayableItem::Track(t) => &t.name,
            PlayableItem::Episode(e) => &e.name,
        }
    }

    pub fn credits(&self) -> (r: Vec<String>)
        ensures
            r@ == self.credits_spec(),
    {
        match self {
            PlayableItem::Track(t) => {
                let mut r: Vec<String> = Vec::new();
                let mut i: usize = 0;
                while i < t.artists.len()
                    invariant
                        i <= t.artists.len(),
                        r@ == t.artists@.subrange(0, i as int),
                    decreases t.artists.len() - i,
                {
                    r.push(t.artists[i].clone());
                    proof {
                        assert(r@ =~= t.artists@.subrange(0, i + 1));
                    }
                    i = i + 1;
                }
                proof {
                    assert(t.artists@.subrange(0, t.artists.len() as int) =~= t.artists@);
                }
                r
            },
            PlayableItem::Episode(e) => {
                let mut r: Vec<String> = Vec::new();
                r.push(e.show_name.clone());
                r
            },
        }
    }

    pub fn duration_ms(&self) -> (r: u64)
        ensures
            r == self.duration_spec(),
    {
        match self {
            PlayableItem::Track(t) => t.duration_ms,
            PlayableItem::Episode(e) => e.duration_ms,
        }
    }
}

/// The text under the playback title: position and duration, "1:02 / 3:30".
pub fn progress_label(position_ms: u128, duration_ms: u128) -> (r: String)
    ensures
        r@ == clock_text(position_ms as nat) + " / "@ + clock_text(duration_ms as nat),
{
    let mut r = format_millis(position_ms);
    r.append(" / ");
    let d = format_millis(duration_ms);
    r.append(d.as_str());
    r
}

/// The line naming the signed-in user; an account without a display name
/// shows an empty name.
pub fn logged_in_label(account: &Account) -> (r: String)
    ensures
        r@ == "Logged-in as: "@ + match account.display_name {
            Some(n) => n@,
            None => Seq::empty(),
        },
{
    let mut r = String::from_str("Logged-in as: ");
    match &account.display_name {
        Some(n) => r.append(n.as_str()),
        None => {},
    }
    r
}

/// Whether an entry is listed among the tracks: one that the service can play
/// and that is a track, not an episode.
pub open spec fn is_listed(item: PlaylistItem) -> bool {
    !item.is_local && item.track matches Some(PlayableItem::Track(_))
}

/// The positions of the listed entries of `items`, in order.
pub open spec fn listed_positions(items: Seq<PlaylistItem>) -> Seq<usize>
    decreases items.len(),
{
    if items.len() == 0 {
        Seq::empty()
    } else if is_listed(items.last()) {
        listed_positions(items.drop_last()).push((items.len() - 1) as usize)
    } else {
        listed_positions(items.drop_last())
    }
}

/// The positions of the entries of a playlist that the track list shows.
pub fn visible_tracks(items: &Vec<PlaylistItem>) -> (r: Vec<usize>)
    ensures
        r@ == listed_positions(items@),
{
    let mut r: Vec<usize> = Vec::new();
    let mut i: usize = 0;
    while i < items.len()
        invariant
            i <= items.len(),
            r@ == listed_positions(items@.subrange(0, i as int)),
        decreases items.len() - i,
    {
        proof {
            assert(items@.subrange(0, i + 1).drop_last() =~= items@.subrange(0, i as int));
        }
        let listed = !items[i].is_local && match &items[i].track {
            Some(PlayableItem::Track(_)) => true,
            _ => false,
        };
        if listed {
            r.push(i);
        }
        i = i + 1;
    }
    proof {
        assert(items@.subrange(0, items.len() as int) =~= items@);
    }
    r
}

/// Whether `track` is the track being played, by id; an item without an id is
/// never the one playing.
pub open spec fn playing_now(track: Track, playback: Option<PlaybackSnapshot>) -> bool {
    match playback {
        Some(p) => match p.item {
            Some(PlayableItem::Track(current)) => track.id is Some && current.id is Some
                && track.id->0@ == current.id->0@,
            _ => false,
        },
        _ => false,
    }
}

/// Whether the track list highlights `track` as the one playing.
pub fn is_now_playing(track: &Track, playback: &Option<PlaybackSnapshot>) -> (r: bool)
    ensures
        r == playing_now(*track, *playback),
{
    match playback {
        Some(p) => match &p.item {
            Some(PlayableItem::Track(current)) => match (&track.id, &current.id) {
                (Some(a), Some(b)) => *a == *b,
                _ => false,
            },
            _ => false,
        },
        _ => false,
    }
}

/// The request sent when the user picks `track`: play it, if it has an id.
pub fn track_selected(track: &Track) -> (r: Option<IoEvent>)
    ensures
        track.id is Some <==> r is Some,
        track.id is Some ==> r == Some(IoEvent::PushPlayback(track.id->0)),
{
    match &track.id {
        Some(id) => Some(IoEvent::PushPlayback(id.clone())),
        None => None,
    }
}

} // verus!
