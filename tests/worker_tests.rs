use imspotify::io::{IoEvent, IoState, Lifecycle, Phase, PollAction, WorkerAction, REFRESH_INTERVAL_MS};
use imspotify::model::PlaybackSnapshot;
use imspotify::state::{FetchError, Fetched, SpotifyState};

fn playback_ok() -> Result<Fetched, FetchError> {
    Ok(Fetched::Playback(Some(PlaybackSnapshot { item: None, progress_ms: Some(0), is_playing: false })))
}

#[test]
fn interval_is_five_seconds() {
    assert_eq!(REFRESH_INTERVAL_MS, 5_000);
}

#[test]
fn poller_waits_from_its_start_without_a_fetch() {
    let io = IoState::new();
    let l = Lifecycle::new();
    assert_eq!(l.poll(&io, 100, 100), PollAction::SleepFor(5_000));
    assert_eq!(l.poll(&io, 100, 5_099), PollAction::SleepFor(1));
    assert_eq!(l.poll(&io, 100, 5_100), PollAction::Fetch);
}

#[test]
fn manual_fetch_delays_next_poll() {
    let mut io = IoState::new();
    let l = Lifecycle::new();
    // The poller started at 0 and would fetch at 5 000; a manual fetch at 3 000 moves that.
    io.record(&playback_ok(), 3_000);
    assert_eq!(io.playback_last_fetch, Some(3_000));
    assert_eq!(l.poll(&io, 0, 5_000), PollAction::SleepFor(3_000));
    assert_eq!(l.poll(&io, 0, 7_999), PollAction::SleepFor(1));
    assert_eq!(l.poll(&io, 0, 8_000), PollAction::Fetch);
}

#[test]
fn only_successful_playback_fetches_are_recorded() {
    assert_eq!(IoState::default(), IoState::new());
    let mut io = IoState::new();
    io.record(&Err(FetchError { message: "x".to_string() }), 10);
    assert_eq!(io.playback_last_fetch, None);
    io.record(&Ok(Fetched::Playlists(vec![])), 20);
    assert_eq!(io.playback_last_fetch, None);
    io.record(&playback_ok(), 30);
    assert_eq!(io.playback_last_fetch, Some(30));
}

#[test]
fn closing_during_sleep_stops_poller() {
    let mut io = IoState::new();
    io.record(&playback_ok(), 1_000);
    let mut l = Lifecycle::new();
    // Mid-sleep: the poller went to sleep until 6 000.
    assert_eq!(l.poll(&io, 0, 2_000), PollAction::SleepFor(4_000));
    l.close();
    assert_eq!(l.phase, Phase::Draining);
    // At the next check point, past the due instant, it stops instead of fetching.
    assert_eq!(l.poll(&io, 0, 6_000), PollAction::Stop);
}

#[test]
fn worker_drains_then_finishes() {
    let mut l = Lifecycle::new();
    l.close();
    assert_eq!(l.receive(Some(IoEvent::FetchPlaylists)), WorkerAction::Execute(IoEvent::FetchPlaylists));
    assert_eq!(l.phase, Phase::Draining);
    assert_eq!(l.receive(None), WorkerAction::Finish);
    assert_eq!(l.phase, Phase::Stopped);
    assert_eq!(l.receive(Some(IoEvent::FetchUserInfo)), WorkerAction::Finish);
}

#[test]
fn channel_closing_while_running_is_fatal() {
    let mut l = Lifecycle::new();
    assert_eq!(l.receive(None), WorkerAction::Fatal);
    assert_eq!(l.phase, Phase::Stopped);
}

#[test]
fn worker_continues_after_failed_call() {
    let mut l = Lifecycle::new();
    let mut s = SpotifyState::new();
    let mut io = IoState::new();
    assert_eq!(l.receive(Some(IoEvent::FetchCurrentPlayback)), WorkerAction::Execute(IoEvent::FetchCurrentPlayback));
    let failed: Result<Fetched, FetchError> = Err(FetchError { message: "timeout".to_string() });
    io.record(&failed, 500);
    s.apply(failed);
    assert_eq!(s, SpotifyState::new());
    assert_eq!(io.playback_last_fetch, None);
    assert_eq!(l.phase, Phase::Running);
    assert_eq!(l.receive(Some(IoEvent::FetchUserInfo)), WorkerAction::Execute(IoEvent::FetchUserInfo));
}
