use imspotify::display::format_millis;
use imspotify::render::{
    displayed_progress, join_names, logged_in_label, playback_position, progress_label,
};
use imspotify::model::{Account, Episode, PlayableItem, PlaybackSnapshot, Track};

#[test]
fn format_millis_pads_seconds() {
    assert_eq!(format_millis(125_000), "2:05");
}

#[test]
fn format_millis_rolls_over_to_next_minute() {
    assert_eq!(format_millis(60_000), "1:00");
}

#[test]
fn format_millis_drops_partial_seconds() {
    assert_eq!(format_millis(0), "0:00");
    assert_eq!(format_millis(59_999), "0:59");
    assert_eq!(format_millis(61_999), "1:01");
}

#[test]
fn format_millis_long_durations() {
    assert_eq!(format_millis(3_600_000), "60:00");
    assert_eq!(format_millis(754_321), "12:34");
}

#[test]
fn progress_advances_while_playing() {
    assert_eq!(displayed_progress(10_000, true, 2_500), 12_500);
}

#[test]
fn progress_holds_while_paused() {
    assert_eq!(displayed_progress(10_000, false, 2_500), 10_000);
    assert_eq!(displayed_progress(10_000, false, 999_999), 10_000);
}

#[test]
fn progress_is_not_clamped_and_does_not_overflow() {
    assert_eq!(
        displayed_progress(u64::MAX, true, u64::MAX),
        2 * (u64::MAX as u128)
    );
}

fn track(id: Option<&str>, name: &str, artists: &[&str], duration_ms: u64) -> Track {
    Track {
        id: id.map(|s| s.to_string()),
        name: name.to_string(),
        artists: artists.iter().map(|a| a.to_string()).collect(),
        duration_ms,
    }
}

#[test]
fn position_of_snapshot() {
    let snap = PlaybackSnapshot {
        item: Some(PlayableItem::Track(track(Some("t1"), "Song", &["A"], 200_000))),
        progress_ms: Some(10_000),
        is_playing: true,
    };
    assert_eq!(playback_position(&snap, Some(2_500)), 12_500);
    assert_eq!(playback_position(&snap, None), 10_000);
    let paused = PlaybackSnapshot { is_playing: false, ..snap.clone() };
    assert_eq!(playback_position(&paused, Some(2_500)), 10_000);
    let unknown = PlaybackSnapshot { progress_ms: None, ..snap };
    assert_eq!(playback_position(&unknown, Some(2_500)), 2_500);
}

#[test]
fn join_names_separates_with_comma() {
    let none: Vec<String> = vec![];
    assert_eq!(join_names(&none), "");
    assert_eq!(join_names(&vec!["A".to_string()]), "A");
    assert_eq!(
        join_names(&vec!["A".to_string(), "B".to_string(), "C".to_string()]),
        "A, B, C"
    );
}

#[test]
fn progress_label_shows_position_and_duration() {
    assert_eq!(progress_label(62_000, 210_000), "1:02 / 3:30");
}

#[test]
fn logged_in_label_with_and_without_name() {
    let named = Account { id: "u".to_string(), display_name: Some("Ann".to_string()) };
    assert_eq!(logged_in_label(&named), "Logged-in as: Ann");
    let anon = Account { id: "u".to_string(), display_name: None };
    assert_eq!(logged_in_label(&anon), "Logged-in as: ");
}

#[test]
fn item_title_credits_duration() {
    let t = PlayableItem::Track(track(Some("t1"), "Song", &["A", "B"], 1234));
    assert_eq!(t.title(), "Song");
    assert_eq!(t.credits(), vec!["A".to_string(), "B".to_string()]);
    assert_eq!(t.duration_ms(), 1234);
    let e = PlayableItem::Episode(Episode {
        name: "Ep".to_string(),
        show_name: "Show".to_string(),
        duration_ms: 99,
    });
    assert_eq!(e.title(), "Ep");
    assert_eq!(e.credits(), vec!["Show".to_string()]);
    assert_eq!(e.duration_ms(), 99);
}
