use vstd::prelude::*;

use crate::model::PlaybackSnapshot;
use crate::state::{after_outcome, FetchError, Fetched, SpotifyState};

verus! {

/// How long the poller waits after the last completed playback fetch, of any
/// origin, before it fetches the playback again, in milliseconds.
pub const REFRESH_INTERVAL_MS: u64 = 5000;

/// A request from the render loop to the worker. Requests are consumed in the
/// order they were sent.
#[derive(Debug, Clone, PartialEq, Eq)]
pub enum IoEvent {
    FetchUserInfo,
    FetchPlaylists,
    /// Fetch the entries of the playlist with this id.
    FetchPlaylistItems(String),
    FetchCurrentPlayback,
    /// Start playing the track with this id.
    PushPlayback(String),
}

/// The worker's own bookkeeping, kept apart from the state that the render
/// loop reads. Instants are milliseconds on a monotonic clock.
#[derive(Debug, Clone, Copy, PartialEq, Eq, Structural)]
pub struct IoState {
    pub playback_last_fetch: Option<u64>,
}

/// The bookkeeping after the outcome of a remote call completed at `now`:
/// only a successful playback fetch is recorded.
pub open spec fn recorded(io: IoState, outcome: Result<Fetched, FetchError>, now: u64) -> IoState {
    match outcome {
        Ok(Fetched::Playback(_)) => IoState { playback_last_fetch: Some(now) },
        _ => io,
    }
}

/// The instant from which the poller counts its interval: the last completed
/// playback fetch, or, when none has completed, the instant at which the
/// poller started its current wait.
pub open spec fn wait_base(io: IoState, anchor: u64) -> u64 {
    match io.playback_last_fetch {
        Some(t) => t,
        None => anchor,
    }
}

/// When the poller's next fetch is due.
pub open spec fn due(io: IoState, anchor: u64) -> int {
    wait_base(io, anchor) + REFRESH_INTERVAL_MS
}

impl IoState {
    /// No playback fetch on record.
    pub fn new() -> (r: IoState)
        ensures
            r.playback_last_fetch is None,
    {
        IoState { playback_last_fetch: None }
    }

    /// Records the outcome of a remote call that completed at `now`.
    pub fn record(&mut self, outcome: &Result<Fetched, FetchError>, now: u64)
        ensures
            *final(self) == recorded(*old(self), *outcome, now),
    {
        match outcome {
            Ok(Fetched::Playback(_)) => {
                self.playback_last_fetch = Some(now);
            },
            _ => {},
        }
    }
}

impl Default for IoState {
    fn default() -> (r: IoState)
        ensures
            r.playback_last_fetch is None,
    {
        IoState::new()
    }
}

/// The worker's life: it runs while the render loop may send, drains what
/// is queued once the render loop is gone, and then stops.
#[derive(Debug, Clone, Copy, PartialEq, Eq, Structural)]
pub enum Phase {
    Running,
    Draining,
    Stopped,
}

/// What the worker does with the next message of the channel.
#[derive(Debug, Clone, PartialEq, Eq)]
pub enum WorkerAction {
    /// Perform this request and commit its result.
    Execute(IoEvent),
    /// The queue is drained: return.
    Finish,
    /// The channel closed while its sender was still alive.
    Fatal,
}

/// What the poller does at a check point.
#[derive(Debug, Clone, Copy, PartialEq, Eq, Structural)]
pub enum PollAction {
    /// Wait this many milliseconds, then decide again.
    SleepFor(u64),
    /// Fetch the current playback now.
    Fetch,
    /// The worker is shutting down: return without fetching.
    Stop,
}

/// The worker's phase, shared by its request loop and its poller.
#[derive(Debug, Clone, Copy, PartialEq, Eq, Structural)]
pub struct Lifecycle {
    pub phase: Phase,
}

/// The phase once the render loop has exited and dropped its sender.
pub open spec fn closed_phase(p: Phase) -> Phase {
    match p {
        Phase::Running => Phase::Draining,
        other => other,
    }
}

/// Whether the poller fetches at a check point at `now`: only while running,
/// and only once the refresh interval has passed since the base of its wait.
pub open spec fn fetch_due(phase: Phase, io: IoState, anchor: u64, now: u64) -> bool {
    phase is Running && now >= due(io, anchor)
}

/// The worker's next lifecycle and action on `message`: a queued request is
/// executed until the worker has stopped; an empty, closed channel ends a
/// draining worker and is fatal to a running one.
pub open spec fn received(l: Lifecycle, message: Option<IoEvent>) -> (Lifecycle, WorkerAction) {
    match (l.phase, message) {
        (Phase::Stopped, _) => (l, WorkerAction::Finish),
        (_, Some(e)) => (l, WorkerAction::Execute(e)),
        (Phase::Draining, None) => (Lifecycle { phase: Phase::Stopped }, WorkerAction::Finish),
        (Phase::Running, None) => (Lifecycle { phase: Phase::Stopped }, WorkerAction::Fatal),
    }
}

impl Lifecycle {
    /// A worker that has just started.
    pub fn new() -> (r: Lifecycle)
        ensures
            r.phase is Running,
    {
        Lifecycle { phase: Phase::Running }
    }

    /// The render loop has exited and dropped the sending half of the channel.
    pub fn close(&mut self)
        ensures
            final(self).phase == closed_phase(old(self).phase),
    {
        match self.phase {
            Phase::Running => {
                self.phase = Phase::Draining;
            },
            _ => {},
        }
    }

    /// Decides what to do with `message`, the result of one receive on the
    /// channel (`None` once it is closed and empty). Queued requests are still
    /// executed while draining; an outcome of an earlier request plays no part.
    pub fn receive(&mut self, message: Option<IoEvent>) -> (r: WorkerAction)
        ensures
            (*final(self), r) == received(*old(self), message),
    {
        match self.phase {
            Phase::Stopped => WorkerAction::Finish,
            Phase::Running => match message {
                Some(e) => WorkerAction::Execute(e),
                None => {
                    self.phase = Phase::Stopped;
                    WorkerAction::Fatal
                },
            },
            Phase::Draining => match message {
                Some(e) => WorkerAction::Execute(e),
                None => {
                    self.phase = Phase::Stopped;
                    WorkerAction::Finish
                },
            },
        }
    }

    /// The poller's decision at a check point at `now`. `anchor` is the instant
    /// at which the poller started its current wait; it counts only while no
    /// playback fetch is on record. A fetch is issued only once the refresh
    /// interval has passed since the last completed fetch of any origin, and
    /// never once the channel is closed. A sleep never runs past the due
    /// instant; measured from the base of the wait it ends exactly there.
    pub fn poll(&self, io: &IoState, anchor: u64, now: u64) -> (r: PollAction)
        ensures
            r is Stop <==> !(self.phase is Running),
            r is Fetch <==> fetch_due(self.phase, *io, anchor, now),
            r is SleepFor ==> r->0 > 0 && now + r->0 <= due(*io, anchor),
            r is SleepFor && now >= wait_base(*io, anchor) ==> now + r->0 == due(*io, anchor),
            r is SleepFor && now < wait_base(*io, anchor) ==> now + r->0 == wait_base(*io, anchor),
    {
        match self.phase {
            Phase::Running => {},
            _ => {
                return PollAction::Stop;
            },
        }
        let base = match io.playback_last_fetch {
            Some(t) => t,
            None => anchor,
        };
        if now < base {
            PollAction::SleepFor(base - now)
        } else if now - base >= REFRESH_INTERVAL_MS {
            PollAction::Fetch
        } else {
            PollAction::SleepFor(REFRESH_INTERVAL_MS - (now - base))
        }
    }
}

/// After a playback fetch completes at `t0`, from the command path or from the
/// poller itself, the poller issues no fetch before `t0` plus the refresh
/// interval.
pub proof fn lemma_poller_respects_interval(
    io: IoState,
    snapshot: Option<PlaybackSnapshot>,
    t0: u64,
    phase: Phase,
    anchor: u64,
    now: u64,
)
    ensures
        fetch_due(phase, recorded(io, Ok(Fetched::Playback(snapshot)), t0), anchor, now)
            ==> now >= t0 + REFRESH_INTERVAL_MS,
{
}

/// A failed remote call changes neither the shared state nor the bookkeeping,
/// and the worker, which has not stopped, executes the next request it receives.
pub proof fn lemma_failure_keeps_worker(
    s: SpotifyState,
    io: IoState,
    e: FetchError,
    now: u64,
    l: Lifecycle,
    next: IoEvent,
)
    requires
        !(l.phase is Stopped),
    ensures
        after_outcome(s, Err(e)) == s,
        recorded(io, Err(e), now) == io,
        received(l, Some(next)) == (l, WorkerAction::Execute(next)),
{
}

/// Once the render loop has closed the channel, every later check point of
/// the poller stops it without a fetch, whatever the clock and the bookkeeping
/// say, and the request loop ends normally when it finds the channel empty.
pub proof fn lemma_close_stops_worker(phase: Phase, io: IoState, anchor: u64, now: u64)
    ensures
        !(closed_phase(phase) is Running),
        !fetch_due(closed_phase(phase), io, anchor, now),
        received(Lifecycle { phase: closed_phase(phase) }, None).0.phase is Stopped,
        received(Lifecycle { phase: closed_phase(phase) }, None).1 is Finish,
{
}

} // verus!
