//! The Spotify session counters: how long the Spotify process has been
//! open and how long playback was confirmed, with a debounce for short
//! process absences and the exclusion of suspend-sized gaps.
//!
//! Monotonic time is given in milliseconds from an origin chosen by the
//! caller; wall-clock time in milliseconds since the UNIX epoch.

use vstd::prelude::*;

use crate::domain::SessionView;
use crate::outside::{new_session_id, utc_now_millis};
use crate::storage::{CheckpointModel, SessionCheckpoint};
use crate::text::str_eq;

verus! {

/// A process absence shorter than this does not end the session.
pub const PROCESS_EXIT_DEBOUNCE_MS: u64 = 3000;

/// A gap between two observations longer than this is not counted: it is
/// taken to be a suspend of the machine.
pub const MAX_UNVERIFIED_DELTA_MS: u64 = 8000;

/// The mathematical content of a session tracker.
pub struct SessionModel {
    pub session_id: u128,
    pub process_identity: Option<Seq<char>>,
    pub started_at: i64,
    pub spotify_open_ms: u64,
    pub active_listening_ms: u64,
    pub running: bool,
    pub confirmed_playing: bool,
    pub sleeping: bool,
    pub last_tick: u64,
    pub absent_since: Option<u64>,
    pub recovered: Option<CheckpointModel>,
}

/// Tracks the Spotify process session and its two counters.
#[derive(Debug)]
pub struct SessionTracker {
    session_id: u128,
    process_identity: Option<String>,
    started_at: i64,
    spotify_open_ms: u64,
    active_listening_ms: u64,
    running: bool,
    confirmed_playing: bool,
    sleeping: bool,
    last_tick: u64,
    absent_since: Option<u64>,
    recovered: Option<SessionCheckpoint>,
}

/// The view of an optional string.
pub open spec fn opt_seq(s: Option<String>) -> Option<Seq<char>> {
    match s {
        Some(v) => Some(v@),
        None => None,
    }
}

/// The view of an optional checkpoint.
pub open spec fn opt_checkpoint(c: Option<SessionCheckpoint>) -> Option<CheckpointModel> {
    match c {
        Some(v) => Some(v@),
        None => None,
    }
}

impl View for SessionTracker {
    type V = SessionModel;

    closed spec fn view(&self) -> SessionModel {
        SessionModel {
            session_id: self.session_id,
            process_identity: opt_seq(self.process_identity),
            started_at: self.started_at,
            spotify_open_ms: self.spotify_open_ms,
            active_listening_ms: self.active_listening_ms,
            running: self.running,
            confirmed_playing: self.confirmed_playing,
            sleeping: self.sleeping,
            last_tick: self.last_tick,
            absent_since: self.absent_since,
            recovered: opt_checkpoint(self.recovered),
        }
    }
}

/// `a.saturating_add(b)`.
pub open spec fn sat_add(a: u64, b: u64) -> u64 {
    if a + b > u64::MAX {
        u64::MAX
    } else {
        (a + b) as u64
    }
}

/// `a.saturating_sub(b)`.
pub open spec fn sat_sub(a: u64, b: u64) -> u64 {
    if a >= b {
        (a - b) as u64
    } else {
        0
    }
}

/// The structural invariant: a session is running exactly when a process
/// identity is recorded, and an absence is only tracked while running.
pub open spec fn session_wf(m: SessionModel) -> bool {
    &&& m.running <==> m.process_identity is Some
    &&& m.absent_since is Some ==> m.running
}

/// Listening time never exceeds open time, for the live counters and for
/// a checkpoint waiting to be recovered.
pub open spec fn counters_consistent(m: SessionModel) -> bool {
    &&& m.active_listening_ms <= m.spotify_open_ms
    &&& (m.recovered matches Some(c) ==> c.active_listening_ms <= c.spotify_open_ms)
}

/// Advances the clock to `now`, counting the elapsed time when the process
/// runs, the machine is awake and the gap is not suspend-sized; listening
/// time grows only while playback is confirmed.
pub open spec fn accumulate_model(m: SessionModel, now: u64) -> SessionModel {
    let elapsed = sat_sub(now, m.last_tick);
    let ticked = SessionModel { last_tick: now, ..m };
    if m.sleeping || !m.running || elapsed > MAX_UNVERIFIED_DELTA_MS {
        ticked
    } else {
        SessionModel {
            spotify_open_ms: sat_add(m.spotify_open_ms, elapsed),
            active_listening_ms: if m.confirmed_playing {
                sat_add(m.active_listening_ms, elapsed)
            } else {
                m.active_listening_ms
            },
            ..ticked
        }
    }
}

/// Starts a session for `identity`: the waiting checkpoint is consumed, and
/// restored when it belongs to the same process; otherwise the counters
/// start from zero under the fresh identifier `fresh_id`.
pub open spec fn start_model(
    m: SessionModel,
    identity: Seq<char>,
    wall_now: i64,
    now: u64,
    fresh_id: u128,
) -> SessionModel {
    let base = SessionModel {
        process_identity: Some(identity),
        last_tick: now,
        recovered: None,
        confirmed_playing: false,
        ..m
    };
    match m.recovered {
        Some(c) if c.platform_process_identity == identity => SessionModel {
            session_id: c.session_id,
            started_at: c.started_at,
            spotify_open_ms: c.spotify_open_ms,
            active_listening_ms: c.active_listening_ms,
            ..base
        },
        _ => SessionModel {
            session_id: fresh_id,
            started_at: wall_now,
            spotify_open_ms: 0,
            active_listening_ms: 0,
            ..base
        },
    }
}

/// Ends the session: not running, counters reset under a fresh identifier.
pub open spec fn end_model(m: SessionModel, wall_now: i64, fresh_id: u128) -> SessionModel {
    SessionModel {
        running: false,
        confirmed_playing: false,
        process_identity: None,
        absent_since: None,
        session_id: fresh_id,
        started_at: wall_now,
        spotify_open_ms: 0,
        active_listening_ms: 0,
        ..m
    }
}

/// The identity used when the process has none.
pub open spec fn default_identity() -> Seq<char> {
    "spotify-process"@
}

/// One observation of the Spotify process at monotonic time `now`.
pub open spec fn observe_model(
    m: SessionModel,
    present: bool,
    identity: Option<Seq<char>>,
    now: u64,
    wall_now: i64,
    fresh_id: u128,
) -> SessionModel {
    let a = accumulate_model(m, now);
    if present {
        let id = match identity {
            Some(i) => i,
            None => default_identity(),
        };
        let cleared = SessionModel { absent_since: None, ..a };
        let started = if !cleared.running || cleared.process_identity != Some(id) {
            start_model(cleared, id, wall_now, now, fresh_id)
        } else {
            cleared
        };
        SessionModel { running: true, ..started }
    } else if a.running {
        let since = match a.absent_since {
            Some(t) => t,
            None => now,
        };
        let marked = SessionModel { absent_since: Some(since), ..a };
        if sat_sub(now, since) >= PROCESS_EXIT_DEBOUNCE_MS {
            end_model(marked, wall_now, fresh_id)
        } else {
            marked
        }
    } else {
        a
    }
}

impl SessionTracker {
    /// The structural invariant of the tracker.
    pub closed spec fn wf(&self) -> bool {
        session_wf(self@)
    }

    /// A tracker with no session, clock at `now`, holding `recovered` to be
    /// restored when a session of the same process starts.
    pub fn new(recovered: Option<SessionCheckpoint>, now: u64) -> (r: Self)
        ensures
            r.wf(),
            r@.process_identity is None,
            r@.spotify_open_ms == 0,
            r@.active_listening_ms == 0,
            !r@.running,
            !r@.confirmed_playing,
            !r@.sleeping,
            r@.last_tick == now,
            r@.absent_since is None,
            r@.recovered == opt_checkpoint(recovered),
            (recovered matches Some(c) ==> c.active_listening_ms <= c.spotify_open_ms)
                ==> counters_consistent(r@),
    {
        let r = SessionTracker {
            session_id: new_session_id(),
            process_identity: None,
            started_at: utc_now_millis(),
            spotify_open_ms: 0,
            active_listening_ms: 0,
            running: false,
            confirmed_playing: false,
            sleeping: false,
            last_tick: now,
            absent_since: None,
            recovered,
        };
        proof {
            reveal_wf(&r);
        }
        r
    }

    /// Advances the clock to `now`; see `accumulate_model`.
    pub fn accumulate(&mut self, now: u64)
        requires
            old(self).wf(),
        ensures
            final(self).wf(),
            final(self)@ == accumulate_model(old(self)@, now),
            counters_consistent(old(self)@) ==> counters_consistent(final(self)@),
    {
        let elapsed = now.saturating_sub(self.last_tick);
        self.last_tick = now;
        if !(self.sleeping || !self.running || elapsed > MAX_UNVERIFIED_DELTA_MS) {
            self.spotify_open_ms = self.spotify_open_ms.saturating_add(elapsed);
            if self.confirmed_playing {
                self.active_listening_ms = self.active_listening_ms.saturating_add(elapsed);
            }
        }
        proof {
            reveal_wf(self);
        }
    }

    fn start_session(&mut self, identity: String, wall_now: i64, now: u64) -> (fresh: Ghost<u128>)
        ensures
            final(self)@ == start_model(old(self)@, identity@, wall_now, now, fresh@),
    {
        let recovered = self.recovered.take();
        let restored = match recovered {
            Some(checkpoint) => {
                if str_eq(checkpoint.platform_process_identity.as_str(), identity.as_str()) {
                    Some(checkpoint)
                } else {
                    None
                }
            },
            None => None,
        };
        let ghost mut fresh: u128 = 0;
        match restored {
            Some(checkpoint) => {
                self.session_id = checkpoint.session_id;
                self.started_at = checkpoint.started_at;
                self.spotify_open_ms = checkpoint.spotify_open_ms;
                self.active_listening_ms = checkpoint.active_listening_ms;
                self.confirmed_playing = false;
            },
            None => {
                let id = new_session_id();
                proof {
                    fresh = id;
                }
                self.session_id = id;
                self.started_at = wall_now;
                self.spotify_open_ms = 0;
                self.active_listening_ms = 0;
                self.confirmed_playing = false;
            },
        }
        self.process_identity = Some(identity);
        self.last_tick = now;
        Ghost(fresh)
    }

    fn end_session(&mut self, wall_now: i64) -> (fresh: Ghost<u128>)
        ensures
            final(self)@ == end_model(old(self)@, wall_now, fresh@),
    {
        let id = new_session_id();
        self.running = false;
        self.confirmed_playing = false;
        self.process_identity = None;
        self.absent_since = None;
        self.session_id = id;
        self.started_at = wall_now;
        self.spotify_open_ms = 0;
        self.active_listening_ms = 0;
        Ghost(id)
    }

    /// Records one observation of the Spotify process at monotonic time
    /// `now` and wall-clock time `wall_now`; see `observe_model`. A fresh
    /// session identifier is drawn when a session starts without recovery or ends.
    pub fn observe_process_at(
        &mut self,
        present: bool,
        identity: Option<String>,
        now: u64,
        wall_now: i64,
    )
        requires
            old(self).wf(),
        ensures
            final(self).wf(),
            counters_consistent(old(self)@) ==> counters_consistent(final(self)@),
            exists|fresh_id: u128|
                #[trigger] observe_model(
                    old(self)@,
                    present,
                    opt_seq(identity),
                    now,
                    wall_now,
                    fresh_id,
                ) == final(self)@,
            present && old(self)@.running && old(self)@.process_identity == Some(
                match identity {
                    Some(i) => i@,
                    None => default_identity(),
                },
            ) ==> {
                &&& final(self)@.confirmed_playing == old(self)@.confirmed_playing
                &&& final(self)@.session_id == old(self)@.session_id
                &&& final(self)@.running
            },
    {
        let ghost pre = self@;
        let ghost ident = opt_seq(identity);
        self.accumulate(now);
        let ghost mut fresh: u128 = 0;
        if present {
            self.absent_since = None;
            let identity = match identity {
                Some(i) => i,
                None => String::from_str("spotify-process"),
            };
            let same = match &self.process_identity {
                Some(current) => str_eq(current.as_str(), identity.as_str()),
                None => false,
            };
            if !self.running || !same {
                let g = self.start_session(identity, wall_now, now);
                proof {
                    fresh = g@;
                }
            }
            self.running = true;
        } else if self.running {
            let since = match self.absent_since {
                Some(t) => t,
                None => now,
            };
            self.absent_since = Some(since);
            if now.saturating_sub(since) >= PROCESS_EXIT_DEBOUNCE_MS {
                let g = self.end_session(wall_now);
                proof {
                    fresh = g@;
                }
            }
        }
        proof {
            reveal_wf(self);
            assert(observe_model(pre, present, ident, now, wall_now, fresh) == self@);
            if counters_consistent(pre) {
                lemma_counters_stay_consistent(pre, present, ident, false, now, wall_now, fresh);
            }
            let id = match ident {
                Some(i) => i,
                None => default_identity(),
            };
            if present && pre.running && pre.process_identity == Some(id) {
                assert(session_wf(pre));
                lemma_same_process_keeps_session(pre, id, now, wall_now, fresh);
                assert(observe_model(pre, true, Some(id), now, wall_now, fresh) == observe_model(
                    pre,
                    present,
                    ident,
                    now,
                    wall_now,
                    fresh,
                ));
            }
        }
    }

    /// Records one observation of the Spotify process at monotonic time
    /// `now`, using the current wall-clock time.
    pub fn observe_process(&mut self, present: bool, identity: Option<String>, now: u64)
        requires
            old(self).wf(),
        ensures
            final(self).wf(),
            counters_consistent(old(self)@) ==> counters_consistent(final(self)@),
            exists|fresh_id: u128, wall_now: i64|
                #[trigger] observe_model(
                    old(self)@,
                    present,
                    opt_seq(identity),
                    now,
                    wall_now,
                    fresh_id,
                ) == final(self)@,
    {
        let ghost ident = opt_seq(identity);
        let ghost pre = self@;
        let wall_now = utc_now_millis();
        self.observe_process_at(present, identity, now, wall_now);
        proof {
            let id = choose|fresh_id: u128|
                #[trigger] observe_model(pre, present, ident, now, wall_now, fresh_id) == self@;
            assert(observe_model(pre, present, ident, now, wall_now, id) == self@);
        }
    }

    /// Counts the time up to `now`, then records whether playback is confirmed.
    pub fn set_confirmed_playing(&mut self, playing: bool, now: u64)
        requires
            old(self).wf(),
        ensures
            final(self).wf(),
            counters_consistent(old(self)@) ==> counters_consistent(final(self)@),
            final(self)@ == (SessionModel {
                confirmed_playing: playing,
                ..accumulate_model(old(self)@, now)
            }),
    {
        self.accumulate(now);
        self.confirmed_playing = playing;
        proof {
            reveal_wf(self);
        }
    }

    /// Counts the time up to `now`.
    pub fn tick(&mut self, now: u64)
        requires
            old(self).wf(),
        ensures
            final(self).wf(),
            counters_consistent(old(self)@) ==> counters_consistent(final(self)@),
            final(self)@ == accumulate_model(old(self)@, now),
    {
        self.accumulate(now);
        proof {
            reveal_wf(self);
        }
    }

    /// Counts the time up to `now`, then stops counting until resume.
    pub fn on_sleep(&mut self, now: u64)
        requires
            old(self).wf(),
        ensures
            final(self).wf(),
            counters_consistent(old(self)@) ==> counters_consistent(final(self)@),
            final(self)@ == (SessionModel { sleeping: true, ..accumulate_model(old(self)@, now) }),
    {
        self.accumulate(now);
        self.sleeping = true;
        proof {
            reveal_wf(self);
        }
    }

    /// Resumes counting from `now`; the time asleep is never counted.
    pub fn on_resume(&mut self, now: u64)
        requires
            old(self).wf(),
        ensures
            final(self).wf(),
            counters_consistent(old(self)@) ==> counters_consistent(final(self)@),
            final(self)@ == (SessionModel { sleeping: false, last_tick: now, ..old(self)@ }),
    {
        self.sleeping = false;
        self.last_tick = now;
        proof {
            reveal_wf(self);
        }
    }

    /// The counters as the widget shows them.
    pub fn snapshot(&self) -> (r: SessionView)
        ensures
            r.spotify_open_ms == self@.spotify_open_ms,
            r.active_listening_ms == self@.active_listening_ms,
            r.spotify_running == self@.running,
    {
        SessionView {
            spotify_open_ms: self.spotify_open_ms,
            active_listening_ms: self.active_listening_ms,
            spotify_running: self.running,
        }
    }

    /// A checkpoint of the current session, stamped with the current
    /// wall-clock time; none when no process is being tracked.
    pub fn checkpoint(&self) -> (r: Option<SessionCheckpoint>)
        ensures
            r is Some <==> self@.process_identity is Some,
            r matches Some(c) ==> {
                &&& c.schema_version == 1
                &&& c.session_id == self@.session_id
                &&& Some(c.platform_process_identity@) == self@.process_identity
                &&& c.started_at == self@.started_at
                &&& c.spotify_open_ms == self@.spotify_open_ms
                &&& c.active_listening_ms == self@.active_listening_ms
                &&& c.was_playing == self@.confirmed_playing
            },
    {
        match &self.process_identity {
            None => None,
            Some(identity) => Some(
                SessionCheckpoint {
                    schema_version: 1,
                    session_id: self.session_id,
                    platform_process_identity: identity.clone(),
                    started_at: self.started_at,
                    spotify_open_ms: self.spotify_open_ms,
                    active_listening_ms: self.active_listening_ms,
                    last_checkpoint_at: utc_now_millis(),
                    was_playing: self.confirmed_playing,
                },
            ),
        }
    }
}

/// Time is counted only while the process runs, the machine is awake and
/// the gap since the previous observation is at most
/// `MAX_UNVERIFIED_DELTA_MS`; listening time never grows faster than open
/// time, and only while playback is confirmed.
pub proof fn lemma_accumulate_counts_only_verified_time(m: SessionModel, now: u64)
    ensures
        ({
            let r = accumulate_model(m, now);
            let elapsed = sat_sub(now, m.last_tick);
            &&& (m.sleeping || !m.running || elapsed > MAX_UNVERIFIED_DELTA_MS) ==> (
            r.spotify_open_ms == m.spotify_open_ms && r.active_listening_ms
                == m.active_listening_ms)
            &&& r.spotify_open_ms >= m.spotify_open_ms
            &&& r.active_listening_ms >= m.active_listening_ms
            &&& r.spotify_open_ms <= m.spotify_open_ms + elapsed
            &&& !m.confirmed_playing ==> r.active_listening_ms == m.active_listening_ms
            &&& m.active_listening_ms <= m.spotify_open_ms ==> r.active_listening_ms
                - m.active_listening_ms <= r.spotify_open_ms - m.spotify_open_ms || r.spotify_open_ms
                == u64::MAX
            &&& r.last_tick == now
            &&& r.running == m.running && r.process_identity == m.process_identity
        }),
{
}

/// Every observation, confirmation change, tick, sleep and resume keeps
/// listening time at most open time, given the same of the starting state
/// and of the checkpoint waiting to be recovered.
pub proof fn lemma_counters_stay_consistent(
    m: SessionModel,
    present: bool,
    identity: Option<Seq<char>>,
    playing: bool,
    now: u64,
    wall_now: i64,
    fresh_id: u128,
)
    requires
        counters_consistent(m),
    ensures
        counters_consistent(accumulate_model(m, now)),
        counters_consistent(observe_model(m, present, identity, now, wall_now, fresh_id)),
        counters_consistent(
            SessionModel { confirmed_playing: playing, ..accumulate_model(m, now) },
        ),
        counters_consistent(SessionModel { sleeping: true, ..accumulate_model(m, now) }),
        counters_consistent(SessionModel { sleeping: false, last_tick: now, ..m }),
{
}

/// An absence of the process shorter than `PROCESS_EXIT_DEBOUNCE_MS` keeps
/// the session running with its identity, identifier and counters; an
/// absence that lasts at least that long ends it and resets the counters.
pub proof fn lemma_process_exit_debounce(
    m: SessionModel,
    now: u64,
    wall_now: i64,
    fresh_id: u128,
)
    requires
        session_wf(m),
        m.running,
    ensures
        ({
            let since = match m.absent_since {
                Some(t) => t,
                None => now,
            };
            let r = observe_model(m, false, None, now, wall_now, fresh_id);
            let a = accumulate_model(m, now);
            &&& sat_sub(now, since) < PROCESS_EXIT_DEBOUNCE_MS ==> {
                &&& r.running
                &&& r.process_identity == m.process_identity
                &&& r.session_id == m.session_id
                &&& r.spotify_open_ms == a.spotify_open_ms
                &&& r.active_listening_ms == a.active_listening_ms
                &&& r.absent_since == Some(since)
                &&& r.confirmed_playing == m.confirmed_playing
            }
            &&& sat_sub(now, since) >= PROCESS_EXIT_DEBOUNCE_MS ==> {
                &&& !r.running
                &&& r.process_identity is None
                &&& r.spotify_open_ms == 0
                &&& r.active_listening_ms == 0
                &&& !r.confirmed_playing
            }
        }),
{
}

/// Seeing the same process again keeps the session: identifier, start time,
/// identity and the playback confirmation stay, and the counters only
/// advance; while playback stays confirmed and the machine awake, listening
/// time grows with open time by the time since the previous observation.
pub proof fn lemma_same_process_keeps_session(
    m: SessionModel,
    identity: Seq<char>,
    now: u64,
    wall_now: i64,
    fresh_id: u128,
)
    requires
        session_wf(m),
        m.running,
        m.process_identity == Some(identity),
    ensures
        ({
            let r = observe_model(m, true, Some(identity), now, wall_now, fresh_id);
            let a = accumulate_model(m, now);
            &&& r.running
            &&& r.absent_since is None
            &&& r.session_id == m.session_id
            &&& r.started_at == m.started_at
            &&& r.process_identity == m.process_identity
            &&& r.spotify_open_ms == a.spotify_open_ms
            &&& r.active_listening_ms == a.active_listening_ms
            &&& r.confirmed_playing == m.confirmed_playing
            &&& r.last_tick == now
            &&& (m.confirmed_playing && !m.sleeping && now >= m.last_tick && now - m.last_tick
                <= MAX_UNVERIFIED_DELTA_MS && m.spotify_open_ms + (now - m.last_tick) <= u64::MAX
                && m.active_listening_ms + (now - m.last_tick) <= u64::MAX) ==> {
                &&& r.spotify_open_ms == m.spotify_open_ms + (now - m.last_tick)
                &&& r.active_listening_ms == m.active_listening_ms + (now - m.last_tick)
            }
        }),
{
}

/// A new process starts a session: when the waiting checkpoint belongs to
/// it, its identifier, start and counters are restored; otherwise the
/// counters start at zero. Either way the checkpoint is consumed and
/// playback is unconfirmed.
pub proof fn lemma_new_process_starts_session(
    m: SessionModel,
    identity: Seq<char>,
    now: u64,
    wall_now: i64,
    fresh_id: u128,
)
    requires
        session_wf(m),
        !m.running || m.process_identity != Some(identity),
    ensures
        ({
            let r = observe_model(m, true, Some(identity), now, wall_now, fresh_id);
            &&& r.running
            &&& r.process_identity == Some(identity)
            &&& r.recovered is None
            &&& !r.confirmed_playing
            &&& r.last_tick == now
            &&& match m.recovered {
                Some(c) if c.platform_process_identity == identity => {
                    &&& r.session_id == c.session_id
                    &&& r.started_at == c.started_at
                    &&& r.spotify_open_ms == c.spotify_open_ms
                    &&& r.active_listening_ms == c.active_listening_ms
                },
                _ => {
                    &&& r.session_id == fresh_id
                    &&& r.started_at == wall_now
                    &&& r.spotify_open_ms == 0
                    &&& r.active_listening_ms == 0
                },
            }
        }),
{
}

/// One call on a session tracker, with the values it uses: an observation
/// (`observe_process_at`, with the identifier drawn if a session starts or
/// ends), a confirmation change, a tick, a sleep or a resume.
pub enum SessionOp {
    Observe {
        present: bool,
        identity: Option<Seq<char>>,
        now: u64,
        wall_now: i64,
        fresh_id: u128,
    },
    Confirm { playing: bool, now: u64 },
    Tick { now: u64 },
    Sleep { now: u64 },
    Resume { now: u64 },
}

/// The model after one call, as the call's contract gives it.
pub open spec fn after_op(m: SessionModel, op: SessionOp) -> SessionModel {
    match op {
        SessionOp::Observe { present, identity, now, wall_now, fresh_id } => observe_model(
            m,
            present,
            identity,
            now,
            wall_now,
            fresh_id,
        ),
        SessionOp::Confirm { playing, now } => SessionModel {
            confirmed_playing: playing,
            ..accumulate_model(m, now)
        },
        SessionOp::Tick { now } => accumulate_model(m, now),
        SessionOp::Sleep { now } => SessionModel { sleeping: true, ..accumulate_model(m, now) },
        SessionOp::Resume { now } => SessionModel { sleeping: false, last_tick: now, ..m },
    }
}

/// The model after a whole history of calls, in order.
pub open spec fn after_ops(m: SessionModel, ops: Seq<SessionOp>) -> SessionModel
    decreases ops.len(),
{
    if ops.len() == 0 {
        m
    } else {
        after_op(after_ops(m, ops.drop_last()), ops.last())
    }
}

/// Over any history of calls, listening time stays at most open time,
/// starting from a consistent tracker, as `SessionTracker::new` gives for
/// no checkpoint or a consistent one.
pub proof fn lemma_history_keeps_listening_within_open(m: SessionModel, ops: Seq<SessionOp>)
    requires
        counters_consistent(m),
    ensures
        counters_consistent(after_ops(m, ops)),
    decreases ops.len(),
{
    if ops.len() > 0 {
        lemma_history_keeps_listening_within_open(m, ops.drop_last());
        let p = after_ops(m, ops.drop_last());
        match ops.last() {
            SessionOp::Observe { present, identity, now, wall_now, fresh_id } => {
                lemma_counters_stay_consistent(p, present, identity, false, now, wall_now, fresh_id);
            },
            SessionOp::Confirm { playing, now } => {
                lemma_counters_stay_consistent(p, false, None, playing, now, 0, 0);
            },
            SessionOp::Tick { now } => {
                lemma_counters_stay_consistent(p, false, None, false, now, 0, 0);
            },
            SessionOp::Sleep { now } => {
                lemma_counters_stay_consistent(p, false, None, false, now, 0, 0);
            },
            SessionOp::Resume { now } => {
                lemma_counters_stay_consistent(p, false, None, false, now, 0, 0);
            },
        }
    }
}

/// A confirmation change counts at most the time since the previous
/// accumulation as listening time, and repeating it at the same moment
/// counts nothing more, whatever it confirms: a device handoff is never
/// counted twice.
pub proof fn lemma_confirm_counts_no_time_twice(m: SessionModel, p: bool, q: bool, now: u64)
    ensures
        after_op(m, SessionOp::Confirm { playing: p, now }).active_listening_ms
            <= m.active_listening_ms + sat_sub(now, m.last_tick),
        after_op(
            after_op(m, SessionOp::Confirm { playing: p, now }),
            SessionOp::Confirm { playing: q, now },
        ).active_listening_ms == after_op(m, SessionOp::Confirm { playing: p, now }).active_listening_ms,
        after_op(
            after_op(m, SessionOp::Confirm { playing: p, now }),
            SessionOp::Confirm { playing: q, now },
        ).spotify_open_ms == after_op(m, SessionOp::Confirm { playing: p, now }).spotify_open_ms,
{
}

proof fn reveal_wf(t: &SessionTracker)
    ensures
        t.wf() == session_wf(t@),
{
}

} // verus!
