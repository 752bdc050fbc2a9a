//! The playback coordinator as a state machine. The coordinator's state
//! (the published view, the session tracker, the rate-limit deadline, the
//! command bookkeeping and the resolved context labels) changes only
//! through the steps below. A refresh and a transport command are each a
//! sequence of steps: every step takes the answer to the previous action
//! and says which action comes next, so the caller only performs the
//! actions (network requests, local media calls, waiting) and hands back
//! their answers. Every change of the view advances its revision, so a new
//! revision is the signal to publish the view.

use vstd::prelude::*;

use crate::domain::{
    AppSettings, CommandName, CommandView, MediaItem, PlaybackView, QueueView, SessionView,
    ViewState, settings_view_of,
};
use crate::auth::{callback_outcome, lemma_callback_refusal_carries_no_query_value};
use crate::error::AppError;
use crate::outside::url_parse;
use crate::outside::pairs_view;
use crate::platform::LocalMediaSnapshot;
use crate::playback::{
    advance_revision, apply_authentication_required, apply_command_failed,
    apply_command_finished, apply_command_started, apply_configuration_required, apply_error,
    apply_initial_settings, apply_no_playback, apply_playback, apply_session, apply_settings,
    apply_spotify_closed, apply_toggled, apply_waiting_for_authorization,
    authentication_required_shown, clone_opt_string, command_debounced, command_failed_shown,
    configuration_required_shown, error_shown, initial_settings_shown, local_transport_accepted,
    merge_local_snapshot, merged_snapshot, next_revision, no_playback_shown, poll_delay_ms,
    poll_delay_spec, queue_refresh_needed, rate_limit_deadline, rate_limit_deadline_of,
    refresh_blocked, spotify_closed_shown, waiting_for_authorization_shown, COMMAND_DEBOUNCE_MS,
};
use crate::sessions::{
    accumulate_model, counters_consistent, observe_model, opt_checkpoint, opt_seq, SessionModel,
    SessionTracker,
};
use crate::spotify::PlaybackSnapshot;
use crate::storage::SessionCheckpoint;
use crate::text::str_eq;

verus! {

// ------------------------------------------------------------ context cache

/// The label cached for a context link: the latest entry for it.
pub open spec fn cached_label(entries: Seq<(Seq<char>, Seq<char>)>, href: Seq<char>) -> Option<
    Seq<char>,
>
    decreases entries.len(),
{
    if entries.len() == 0 {
        None
    } else if entries.last().0 == href {
        Some(entries.last().1)
    } else {
        cached_label(entries.drop_last(), href)
    }
}

/// Context labels already resolved, by context link. The entries are kept
/// in insertion order and the latest entry for a link is the one that
/// counts, which behaves as a map with overwriting insertion whose
/// contents are stated as a sequence of text pairs (see `cached_label`).
#[derive(Debug)]
pub struct ContextCache {
    entries: Vec<(String, String)>,
}

impl View for ContextCache {
    type V = Seq<(Seq<char>, Seq<char>)>;

    closed spec fn view(&self) -> Seq<(Seq<char>, Seq<char>)> {
        pairs_view(self.entries@)
    }
}

proof fn lemma_cached_label_prefix(s: Seq<(Seq<char>, Seq<char>)>, href: Seq<char>, i: int)
    requires
        0 <= i <= s.len(),
        forall|j: int| i <= j < s.len() ==> (#[trigger] s[j]).0 != href,
    ensures
        cached_label(s, href) == cached_label(s.take(i), href),
    decreases s.len() - i,
{
    if i < s.len() {
        lemma_cached_label_prefix(s.drop_last(), href, i);
        assert(s.drop_last().take(i) =~= s.take(i));
    } else {
        assert(s.take(i) =~= s);
    }
}

impl ContextCache {
    /// An empty cache.
    pub fn new() -> (r: ContextCache)
        ensures
            r@ == Seq::<(Seq<char>, Seq<char>)>::empty(),
    {
        let r = ContextCache { entries: Vec::new() };
        assert(r@ =~= Seq::<(Seq<char>, Seq<char>)>::empty());
        r
    }

    /// The label cached for `href`, if any.
    pub fn lookup(&self, href: &str) -> (r: Option<String>)
        ensures
            opt_seq(r) == cached_label(self@, href@),
    {
        let n = self.entries.len();
        let mut i: usize = n;
        while i > 0
            invariant
                n == self.entries@.len(),
                i <= n,
                forall|j: int| i <= j < n ==> (#[trigger] self@[j]).0 != href@,
            decreases i,
        {
            if str_eq(self.entries[i - 1].0.as_str(), href) {
                proof {
                    lemma_cached_label_prefix(self@, href@, i as int);
                    assert(self@.take(i as int).last() == self@[i - 1]);
                }
                return Some(self.entries[i - 1].1.clone());
            }
            i = i - 1;
        }
        proof {
            lemma_cached_label_prefix(self@, href@, 0);
        }
        None
    }

    /// Records the label of `href`, replacing any earlier one.
    pub fn insert(&mut self, href: String, label: String)
        ensures
            final(self)@ == old(self)@.push((href@, label@)),
    {
        self.entries.push((href, label));
        assert(final(self)@ =~= old(self)@.push((href@, label@)));
    }
}

// ------------------------------------------------------------------- state

/// The coordinator's state.
#[derive(Debug)]
pub struct CoordinatorCore {
    /// The view state last published.
    pub view: ViewState,
    /// The Spotify session counters.
    pub sessions: SessionTracker,
    /// Monotonic time before which background refreshes are skipped.
    pub rate_limit_until: Option<u64>,
    /// Monotonic time of the last transport command that was carried out.
    pub last_command: Option<u64>,
    /// Whether a transport command is in progress.
    pub command_pending: bool,
    /// Context labels resolved so far.
    pub contexts: ContextCache,
}

/// The view `n` with the revision of `o`: what a step changed, revision aside.
pub open spec fn unrevised(n: ViewState, o: ViewState) -> ViewState {
    ViewState { revision: o.revision, ..n }
}

/// The provider URI of an optional media item.
pub open spec fn item_uri(item: Option<MediaItem>) -> Option<Seq<char>> {
    match item {
        Some(i) => opt_seq(i.provider_uri),
        None => None,
    }
}

/// `n` is the state after `o` shows an error (see `error_shown`): a rate
/// limit sets the deadline, playback is no longer confirmed once the time
/// up to `now` is counted, and the view is published.
pub open spec fn failed(
    o: CoordinatorCore,
    n: CoordinatorCore,
    error: AppError,
    local: Option<LocalMediaSnapshot>,
    now: u64,
) -> bool {
    &&& n.rate_limit_until == (match rate_limit_deadline_of(error, now) {
        Some(d) => Some(d),
        None => o.rate_limit_until,
    })
    &&& n.sessions@ == (SessionModel { confirmed_playing: false, ..accumulate_model(o.sessions@, now) })
    &&& error_shown(o.view, unrevised(n.view, o.view), error, local)
    &&& n.view.revision == next_revision(o.view.revision)
    &&& n.last_command == o.last_command
    &&& n.command_pending == o.command_pending
}

/// The view after a successful refresh with `playback` and, when fetched,
/// `queue`: ready when an item plays, else no active device; no message and
/// a positive tone.
pub open spec fn playback_shown(o: ViewState, playback: PlaybackView, queue: Option<QueueView>) -> ViewState {
    ViewState {
        availability: if playback.item is Some {
            crate::domain::Availability::Ready
        } else {
            crate::domain::Availability::NoActiveDevice
        },
        playback,
        queue: match queue {
            Some(q) => q,
            None => o.queue,
        },
        status_message: None,
        status_tone: crate::domain::StatusTone::Positive,
        ..o
    }
}

/// `n` is the state after `o` finishes a refresh with the completed
/// snapshot `m`: playback confirmed exactly when it is playing, and the
/// playback (and queue, when fetched) published.
pub open spec fn refresh_finished(
    o: CoordinatorCore,
    n: CoordinatorCore,
    m: PlaybackSnapshot,
    queue: Option<QueueView>,
    now: u64,
) -> bool {
    &&& n.sessions@ == (SessionModel {
        confirmed_playing: m.playback.is_playing == Some(true),
        ..accumulate_model(o.sessions@, now)
    })
    &&& n.view == (ViewState {
        revision: next_revision(o.view.revision),
        ..playback_shown(o.view, m.playback, queue)
    })
    &&& n.rate_limit_until == o.rate_limit_until
    &&& n.last_command == o.last_command
    &&& n.command_pending == o.command_pending
}

/// `n` is `o` with the snapshot's context label replaced by `label`.
pub open spec fn relabeled(o: PlaybackSnapshot, n: PlaybackSnapshot, label: Seq<char>) -> bool {
    &&& opt_seq(n.playback.context_label) == Some(label)
    &&& n == (PlaybackSnapshot {
        playback: PlaybackView { context_label: n.playback.context_label, ..o.playback },
        ..o
    })
}

/// What follows once the snapshot `s` has its context label: the local
/// media data completes it; the queue is fetched when the refresh is forced
/// or the playing item changed, and otherwise the refresh finishes.
pub open spec fn refresh_continues(
    o: CoordinatorCore,
    n: CoordinatorCore,
    r: RefreshAction,
    force: bool,
    s: PlaybackSnapshot,
    local: Option<LocalMediaSnapshot>,
    now: u64,
) -> bool {
    if force || item_uri(o.view.playback.item) != item_uri(s.playback.item) {
        &&& r matches RefreshAction::FetchQueue(m) && merged_snapshot(s, m, local)
        &&& n.view == o.view
        &&& n.sessions@ == o.sessions@
        &&& n.rate_limit_until == o.rate_limit_until
        &&& n.last_command == o.last_command
        &&& n.command_pending == o.command_pending
    } else {
        &&& r == RefreshAction::Finished
        &&& exists|m: PlaybackSnapshot|
            #[trigger] merged_snapshot(s, m, local) && refresh_finished(o, n, m, None, now)
    }
}

/// A playback snapshot whose context link is being resolved.
#[derive(Debug)]
pub struct PendingPlayback {
    pub force: bool,
    pub href: String,
    pub snapshot: PlaybackSnapshot,
    pub local: Option<LocalMediaSnapshot>,
}

/// What a refresh does next.
#[derive(Debug)]
pub enum RefreshAction {
    /// The refresh is over.
    Finished,
    /// Ask whether Spotify credentials are stored; answer with `refresh_credentials`.
    CheckCredentials,
    /// Read the local media session and the account's playback; answer with
    /// `refresh_fetched`.
    FetchPlayback,
    /// Resolve the pending snapshot's context link to a label; answer with
    /// `refresh_context_resolved`.
    ResolveContext(PendingPlayback),
    /// Fetch the queue for the completed snapshot; answer with `refresh_queue_fetched`.
    FetchQueue(PlaybackSnapshot),
}

/// What a transport command does next.
#[derive(Debug)]
pub enum TransportAction {
    /// The command is over, with this result.
    Finished(Result<(), AppError>),
    /// Ask the local media session to carry out the command; answer with
    /// `transport_local_answered`.
    TryLocal { command: CommandName, is_playing: bool },
    /// Send the command to the Web API; answer with `transport_remote_answered`.
    SendRemote { command: CommandName, is_playing: bool },
    /// Let Spotify settle, refresh with force, then call `transport_settled`.
    Settle,
}

/// `n` is the state after `o` saw a transport command succeed: a toggle
/// shows the opposite play state; then Spotify is left to settle.
pub open spec fn transport_succeeded(
    o: CoordinatorCore,
    n: CoordinatorCore,
    r: TransportAction,
    command: CommandName,
    is_playing: bool,
) -> bool {
    &&& r == TransportAction::Settle
    &&& if command == CommandName::TogglePlayPause {
        &&& unrevised(n.view, o.view) == (ViewState {
            playback: PlaybackView { is_playing: Some(!is_playing), ..o.view.playback },
            ..o.view
        })
        &&& n.view.revision == next_revision(o.view.revision)
    } else {
        n.view == o.view
    }
    &&& n.sessions@ == o.sessions@
    &&& n.rate_limit_until == o.rate_limit_until
    &&& n.last_command == o.last_command
    &&& n.command_pending == o.command_pending
    &&& n.contexts@ == o.contexts@
}

impl CoordinatorCore {
    /// The structural invariant: the session tracker's.
    pub open spec fn wf(&self) -> bool {
        self.sessions.wf()
    }

    /// The state at start-up: the initial view, a tracker with no session
    /// holding `recovered`, no deadline, no command, no labels.
    pub fn new(recovered: Option<SessionCheckpoint>, now: u64) -> (r: CoordinatorCore)
        ensures
            r.wf(),
            r.view.availability == crate::domain::Availability::Unknown,
            r.view.revision == 0,
            r.sessions@.process_identity is None,
            r.sessions@.spotify_open_ms == 0,
            r.sessions@.active_listening_ms == 0,
            !r.sessions@.running,
            r.sessions@.last_tick == now,
            r.sessions@.recovered == opt_checkpoint(recovered),
            (recovered matches Some(c) ==> c.active_listening_ms <= c.spotify_open_ms)
                ==> counters_consistent(r.sessions@),
            r.rate_limit_until is None,
            r.last_command is None,
            !r.command_pending,
            r.contexts@ == Seq::<(Seq<char>, Seq<char>)>::empty(),
    {
        CoordinatorCore {
            view: ViewState::default(),
            sessions: SessionTracker::new(recovered, now),
            rate_limit_until: None,
            last_command: None,
            command_pending: false,
            contexts: ContextCache::new(),
        }
    }

    /// Shows an error; see `failed`.
    fn fail(&mut self, error: &AppError, local: Option<&LocalMediaSnapshot>, now: u64)
        requires
            old(self).wf(),
        ensures
            final(self).wf(),
            failed(*old(self), *final(self), *error, crate::playback::opt_local(local), now),
            final(self).contexts@ == old(self).contexts@,
    {
        match rate_limit_deadline(error, now) {
            Some(deadline) => {
                self.rate_limit_until = Some(deadline);
            },
            None => {},
        }
        self.sessions.set_confirmed_playing(false, now);
        apply_error(&mut self.view, error, local);
        advance_revision(&mut self.view);
    }

    /// Shows an error with the local media data, if any; see `failed`.
    fn fail_with_local(&mut self, error: &AppError, local: Option<LocalMediaSnapshot>, now: u64)
        requires
            old(self).wf(),
        ensures
            final(self).wf(),
            failed(*old(self), *final(self), *error, local, now),
            final(self).contexts@ == old(self).contexts@,
    {
        let local_ref = local.as_ref();
        assert(crate::playback::opt_local(local_ref) == local);
        self.fail(error, local_ref, now);
    }

    /// Finishes a refresh with the completed snapshot; see `refresh_finished`.
    fn finish_refresh(&mut self, snapshot: PlaybackSnapshot, queue: Option<QueueView>, now: u64)
        requires
            old(self).wf(),
        ensures
            final(self).wf(),
            refresh_finished(*old(self), *final(self), snapshot, queue, now),
            final(self).contexts@ == old(self).contexts@,
    {
        let playing = match snapshot.playback.is_playing {
            Some(p) => p,
            None => false,
        };
        self.sessions.set_confirmed_playing(playing, now);
        apply_playback(&mut self.view, snapshot.playback, queue);
        advance_revision(&mut self.view);
    }

    /// The first step of a refresh. An unforced refresh before the
    /// rate-limit deadline does nothing at all; without a client ID the
    /// configuration requirement is shown; otherwise the credentials are checked.
    pub fn refresh_begin(&mut self, force: bool, configured: bool, now: u64) -> (r: RefreshAction)
        requires
            old(self).wf(),
        ensures
            final(self).wf(),
            (!force && (old(self).rate_limit_until matches Some(until) && until > now)) ==> {
                &&& r == RefreshAction::Finished
                &&& *final(self) == *old(self)
            },
            !(!force && (old(self).rate_limit_until matches Some(until) && until > now)) ==> {
                if !configured {
                    &&& r == RefreshAction::Finished
                    &&& configuration_required_shown(
                        old(self).view,
                        unrevised(final(self).view, old(self).view),
                    )
                    &&& final(self).view.revision == next_revision(old(self).view.revision)
                    &&& *final(self) == (CoordinatorCore { view: final(self).view, ..*old(self) })
                } else {
                    &&& r == RefreshAction::CheckCredentials
                    &&& *final(self) == *old(self)
                }
            },
    {
        if refresh_blocked(force, self.rate_limit_until, now) {
            return RefreshAction::Finished;
        }
        if !configured {
            apply_configuration_required(&mut self.view);
            advance_revision(&mut self.view);
            return RefreshAction::Finished;
        }
        RefreshAction::CheckCredentials
    }

    /// The answer to `CheckCredentials`: without credentials the
    /// authorization requirement is shown; a failure is shown as an error;
    /// with credentials the playback is fetched.
    pub fn refresh_credentials(&mut self, answer: Result<bool, AppError>, now: u64) -> (r:
        RefreshAction)
        requires
            old(self).wf(),
        ensures
            final(self).wf(),
            final(self).contexts@ == old(self).contexts@,
            match answer {
                Ok(true) => r == RefreshAction::FetchPlayback && *final(self) == *old(self),
                Ok(false) => {
                    &&& r == RefreshAction::Finished
                    &&& authentication_required_shown(
                        old(self).view,
                        unrevised(final(self).view, old(self).view),
                    )
                    &&& final(self).view.revision == next_revision(old(self).view.revision)
                    &&& *final(self) == (CoordinatorCore { view: final(self).view, ..*old(self) })
                },
                Err(e) => r == RefreshAction::Finished && failed(
                    *old(self),
                    *final(self),
                    e,
                    None,
                    now,
                ),
            },
    {
        match answer {
            Ok(true) => RefreshAction::FetchPlayback,
            Ok(false) => {
                apply_authentication_required(&mut self.view);
                advance_revision(&mut self.view);
                RefreshAction::Finished
            },
            Err(e) => {
                self.fail(&e, None, now);
                RefreshAction::Finished
            },
        }
    }

    /// Continues a refresh once the snapshot has its context label; see
    /// `refresh_continues`.
    fn continue_refresh(
        &mut self,
        force: bool,
        snapshot: PlaybackSnapshot,
        local: Option<LocalMediaSnapshot>,
        now: u64,
    ) -> (r: RefreshAction)
        requires
            old(self).wf(),
        ensures
            final(self).wf(),
            refresh_continues(*old(self), *final(self), r, force, snapshot, local, now),
            final(self).contexts@ == old(self).contexts@,
    {
        let previous_uri = match &self.view.playback.item {
            Some(item) => clone_opt_string(&item.provider_uri),
            None => None,
        };
        let current_uri = match &snapshot.playback.item {
            Some(item) => clone_opt_string(&item.provider_uri),
            None => None,
        };
        let ghost original = snapshot;
        let mut snapshot = snapshot;
        let local_ref = local.as_ref();
        merge_local_snapshot(&mut snapshot, local_ref);
        assert(crate::playback::opt_local(local_ref) == local);
        if queue_refresh_needed(force, &previous_uri, &current_uri) {
            RefreshAction::FetchQueue(snapshot)
        } else {
            let ghost merged = snapshot;
            self.finish_refresh(snapshot, None, now);
            assert(merged_snapshot(original, merged, local));
            RefreshAction::Finished
        }
    }

    /// The answer to `FetchPlayback`: the local media snapshot, if any, and
    /// the account's playback. A failure is shown as an error (with the
    /// local data); no playback shows that no device is active; a snapshot
    /// takes its context label from the cache, or has its link resolved, and
    /// then continues (see `refresh_continues`).
    /// A playback snapshot takes its context label from the cache, or has
    /// its link resolved, and then the refresh continues (see `refresh_continues`).
    fn refresh_snapshot(
        &mut self,
        force: bool,
        snapshot: PlaybackSnapshot,
        local: Option<LocalMediaSnapshot>,
        now: u64,
    ) -> (r: RefreshAction)
        requires
            old(self).wf(),
        ensures
            final(self).wf(),
            final(self).contexts@ == old(self).contexts@,
            opt_seq(snapshot.context_href) is None ==> refresh_continues(
                *old(self),
                *final(self),
                r,
                force,
                snapshot,
                local,
                now,
            ),
            opt_seq(snapshot.context_href) matches Some(href) ==> (cached_label(
                old(self).contexts@,
                href,
            ) is None ==> {
                &&& r matches RefreshAction::ResolveContext(p) && p.force == force && p.href@
                    == href && p.snapshot == snapshot && p.local == local
                &&& *final(self) == *old(self)
            }),
            opt_seq(snapshot.context_href) matches Some(href) ==> (cached_label(
                old(self).contexts@,
                href,
            ) matches Some(label) ==> exists|s: PlaybackSnapshot|
                #[trigger] relabeled(snapshot, s, label) && refresh_continues(
                    *old(self),
                    *final(self),
                    r,
                    force,
                    s,
                    local,
                    now,
                )),
    {
        let href = match &snapshot.context_href {
            Some(h) => Some(h.clone()),
            None => None,
        };
        match href {
            Some(href) => match self.contexts.lookup(href.as_str()) {
                Some(label) => {
                    let ghost original = snapshot;
                    let mut snapshot = snapshot;
                    snapshot.playback.context_label = Some(label);
                    let ghost labeled = snapshot;
                    let r = self.continue_refresh(force, snapshot, local, now);
                    assert(relabeled(
                        original,
                        labeled,
                        cached_label(old(self).contexts@, href@)->0,
                    ));
                    assert(refresh_continues(*old(self), *self, r, force, labeled, local, now));
                    r
                },
                None => RefreshAction::ResolveContext(
                    PendingPlayback { force, href, snapshot, local },
                ),
            },
            None => self.continue_refresh(force, snapshot, local, now),
        }
    }

    pub fn refresh_fetched(
        &mut self,
        force: bool,
        local: Option<LocalMediaSnapshot>,
        answer: Result<Option<PlaybackSnapshot>, AppError>,
        now: u64,
    ) -> (r: RefreshAction)
        requires
            old(self).wf(),
        ensures
            final(self).wf(),
            final(self).contexts@ == old(self).contexts@,
            match answer {
                Err(e) => r == RefreshAction::Finished && failed(
                    *old(self),
                    *final(self),
                    e,
                    local,
                    now,
                ),
                Ok(None) => {
                    &&& r == RefreshAction::Finished
                    &&& final(self).sessions@ == (SessionModel {
                        confirmed_playing: false,
                        ..accumulate_model(old(self).sessions@, now)
                    })
                    &&& no_playback_shown(old(self).view, unrevised(final(self).view, old(self).view))
                    &&& final(self).view.revision == next_revision(old(self).view.revision)
                    &&& final(self).rate_limit_until == old(self).rate_limit_until
                    &&& final(self).last_command == old(self).last_command
                    &&& final(self).command_pending == old(self).command_pending
                },
                Ok(Some(snapshot)) => match opt_seq(snapshot.context_href) {
                    Some(href) => match cached_label(old(self).contexts@, href) {
                        Some(label) => exists|s: PlaybackSnapshot|
                            #[trigger] relabeled(snapshot, s, label) && refresh_continues(
                                *old(self),
                                *final(self),
                                r,
                                force,
                                s,
                                local,
                                now,
                            ),
                        None => {
                            &&& r matches RefreshAction::ResolveContext(p) && p.force == force
                                && p.href@ == href && p.snapshot == snapshot && p.local == local
                            &&& *final(self) == *old(self)
                        },
                    },
                    None => refresh_continues(
                        *old(self),
                        *final(self),
                        r,
                        force,
                        snapshot,
                        local,
                        now,
                    ),
                },
            },
    {
        match answer {
            Err(e) => {
                self.fail_with_local(&e, local, now);
                RefreshAction::Finished
            },
            Ok(None) => {
                self.sessions.set_confirmed_playing(false, now);
                apply_no_playback(&mut self.view);
                advance_revision(&mut self.view);
                RefreshAction::Finished
            },
            Ok(Some(snapshot)) => self.refresh_snapshot(force, snapshot, local, now),
        }
    }

    /// The answer to `ResolveContext`: a resolved label is cached and
    /// replaces the snapshot's; the refresh then continues (see
    /// `refresh_continues`).
    pub fn refresh_context_resolved(
        &mut self,
        pending: PendingPlayback,
        label: Option<String>,
        now: u64,
    ) -> (r: RefreshAction)
        requires
            old(self).wf(),
        ensures
            final(self).wf(),
            match label {
                Some(l) => {
                    &&& final(self).contexts@ == old(self).contexts@.push((pending.href@, l@))
                    &&& exists|s: PlaybackSnapshot|
                        #[trigger] relabeled(pending.snapshot, s, l@) && refresh_continues(
                            *old(self),
                            *final(self),
                            r,
                            pending.force,
                            s,
                            pending.local,
                            now,
                        )
                },
                None => {
                    &&& final(self).contexts@ == old(self).contexts@
                    &&& refresh_continues(
                        *old(self),
                        *final(self),
                        r,
                        pending.force,
                        pending.snapshot,
                        pending.local,
                        now,
                    )
                },
            },
    {
        let PendingPlayback { force, href, snapshot, local } = pending;
        match label {
            Some(label) => {
                let ghost pre = *self;
                self.contexts.insert(href, label.clone());
                let ghost mid = *self;
                assert(refresh_continues_frame(pre, mid));
                let ghost original = snapshot;
                let mut snapshot = snapshot;
                snapshot.playback.context_label = Some(label);
                let ghost labeled = snapshot;
                let r = self.continue_refresh(force, snapshot, local, now);
                proof {
                    lemma_continues_frame(pre, mid, *self, r, force, labeled, local, now);
                }
                assert(relabeled(original, labeled, label@));
                r
            },
            None => self.continue_refresh(force, snapshot, local, now),
        }
    }

    /// The answer to `FetchQueue`: the queue when it could be fetched.
    /// The refresh finishes (see `refresh_finished`).
    pub fn refresh_queue_fetched(
        &mut self,
        snapshot: PlaybackSnapshot,
        queue: Option<QueueView>,
        now: u64,
    ) -> (r: RefreshAction)
        requires
            old(self).wf(),
        ensures
            final(self).wf(),
            r == RefreshAction::Finished,
            refresh_finished(*old(self), *final(self), snapshot, queue, now),
            final(self).contexts@ == old(self).contexts@,
    {
        self.finish_refresh(snapshot, queue, now);
        RefreshAction::Finished
    }

    /// The first step of a transport command. While another command is in
    /// progress it is refused; within the debounce after the previous
    /// command it is ignored; otherwise it is recorded, shown as pending, and
    /// sent to the local media session when preferred, else to the Web API,
    /// with the play state shown before it.
    pub fn transport_begin(&mut self, command: CommandName, prefer_local: bool, now: u64) -> (r:
        TransportAction)
        requires
            old(self).wf(),
        ensures
            final(self).wf(),
            old(self).command_pending ==> {
                &&& r matches TransportAction::Finished(Err(AppError::SpotifyApi(m)))
                    && m@ == "another playback command is pending"@
                &&& *final(self) == *old(self)
            },
            !old(self).command_pending && (old(self).last_command matches Some(t) && (if now >= t {
                now - t
            } else {
                0
            }) < COMMAND_DEBOUNCE_MS) ==> {
                &&& r == TransportAction::Finished(Ok(()))
                &&& *final(self) == *old(self)
            },
            !old(self).command_pending && !(old(self).last_command matches Some(t) && (if now
                >= t {
                now - t
            } else {
                0
            }) < COMMAND_DEBOUNCE_MS) ==> {
                let is_playing = old(self).view.playback.is_playing == Some(true);
                &&& r == (if prefer_local {
                    TransportAction::TryLocal { command, is_playing }
                } else {
                    TransportAction::SendRemote { command, is_playing }
                })
                &&& final(self).last_command == Some(now)
                &&& final(self).command_pending
                &&& unrevised(final(self).view, old(self).view) == (ViewState {
                    command: CommandView { pending: Some(command), last_error: None },
                    ..old(self).view
                })
                &&& final(self).view.revision == next_revision(old(self).view.revision)
                &&& final(self).sessions == old(self).sessions
                &&& final(self).rate_limit_until == old(self).rate_limit_until
                &&& final(self).contexts == old(self).contexts
            },
    {
        if self.command_pending {
            return TransportAction::Finished(
                Err(AppError::SpotifyApi(String::from_str("another playback command is pending"))),
            );
        }
        if command_debounced(self.last_command, now) {
            return TransportAction::Finished(Ok(()));
        }
        self.last_command = Some(now);
        self.command_pending = true;
        apply_command_started(&mut self.view, command);
        advance_revision(&mut self.view);
        let is_playing = match self.view.playback.is_playing {
            Some(p) => p,
            None => false,
        };
        if prefer_local {
            TransportAction::TryLocal { command, is_playing }
        } else {
            TransportAction::SendRemote { command, is_playing }
        }
    }

    fn transport_success(&mut self, command: CommandName, is_playing: bool) -> (r: TransportAction)
        requires
            old(self).wf(),
        ensures
            final(self).wf(),
            transport_succeeded(*old(self), *final(self), r, command, is_playing),
    {
        if let CommandName::TogglePlayPause = command {
            apply_toggled(&mut self.view, is_playing);
            advance_revision(&mut self.view);
        }
        TransportAction::Settle
    }

    /// The answer to `TryLocal`: when the local media session accepted the
    /// command it succeeded (see `transport_succeeded`); otherwise it is sent
    /// to the Web API.
    pub fn transport_local_answered(
        &mut self,
        command: CommandName,
        is_playing: bool,
        answer: Result<bool, AppError>,
    ) -> (r: TransportAction)
        requires
            old(self).wf(),
        ensures
            final(self).wf(),
            answer == Ok::<bool, AppError>(true) ==> transport_succeeded(
                *old(self),
                *final(self),
                r,
                command,
                is_playing,
            ),
            answer != Ok::<bool, AppError>(true) ==> {
                &&& r == TransportAction::SendRemote { command, is_playing }
                &&& *final(self) == *old(self)
            },
    {
        if local_transport_accepted(&answer) {
            self.transport_success(command, is_playing)
        } else {
            TransportAction::SendRemote { command, is_playing }
        }
    }

    /// The answer to `SendRemote`: success (see `transport_succeeded`), or
    /// a failure that ends the command: it is shown as the command's error
    /// and as an error of the view (see `failed`), and returned.
    pub fn transport_remote_answered(
        &mut self,
        command: CommandName,
        is_playing: bool,
        answer: Result<(), AppError>,
        now: u64,
    ) -> (r: TransportAction)
        requires
            old(self).wf(),
        ensures
            final(self).wf(),
            match answer {
                Ok(()) => transport_succeeded(*old(self), *final(self), r, command, is_playing),
                Err(e) => {
                    &&& r == TransportAction::Finished(Err(e))
                    &&& !final(self).command_pending
                    &&& final(self).contexts@ == old(self).contexts@
                    &&& exists|v: ViewState|
                        #[trigger] command_failed_shown(old(self).view, v, e) && failed(
                            CoordinatorCore { view: v, command_pending: false, ..*old(self) },
                            *final(self),
                            e,
                            None,
                            now,
                        )
                },
            },
    {
        match answer {
            Ok(()) => self.transport_success(command, is_playing),
            Err(e) => {
                let ghost pre = *self;
                apply_command_failed(&mut self.view, &e);
                self.command_pending = false;
                let ghost mid = *self;
                self.fail(&e, None, now);
                assert(command_failed_shown(pre.view, mid.view, e));
                assert(mid == CoordinatorCore { view: mid.view, command_pending: false, ..pre });
                TransportAction::Finished(Err(e))
            },
        }
    }

    /// The end of a command that succeeded, after Spotify settled and the
    /// playback was refreshed: the command is no longer pending.
    pub fn transport_settled(&mut self) -> (r: TransportAction)
        requires
            old(self).wf(),
        ensures
            final(self).wf(),
            r == TransportAction::Finished(Ok(())),
            !final(self).command_pending,
            unrevised(final(self).view, old(self).view) == (ViewState {
                command: CommandView { pending: None, ..old(self).view.command },
                ..old(self).view
            }),
            final(self).view.revision == next_revision(old(self).view.revision),
            *final(self) == (CoordinatorCore {
                view: final(self).view,
                command_pending: false,
                ..*old(self)
            }),
    {
        apply_command_finished(&mut self.view);
        advance_revision(&mut self.view);
        self.command_pending = false;
        TransportAction::Finished(Ok(()))
    }

    /// Records one observation of the Spotify process (see
    /// `SessionTracker::observe_process`) and publishes the counters, which
    /// are returned.
    pub fn observe_process(&mut self, present: bool, identity: Option<String>, now: u64) -> (r:
        SessionView)
        requires
            old(self).wf(),
        ensures
            final(self).wf(),
            exists|fresh_id: u128, wall_now: i64|
                #[trigger] observe_model(
                    old(self).sessions@,
                    present,
                    opt_seq(identity),
                    now,
                    wall_now,
                    fresh_id,
                ) == final(self).sessions@,
            counters_consistent(old(self).sessions@) ==> counters_consistent(final(self).sessions@),
            r.spotify_open_ms == final(self).sessions@.spotify_open_ms,
            r.active_listening_ms == final(self).sessions@.active_listening_ms,
            r.spotify_running == final(self).sessions@.running,
            final(self).view == (ViewState {
                session: r,
                revision: next_revision(old(self).view.revision),
                ..old(self).view
            }),
            final(self).rate_limit_until == old(self).rate_limit_until,
            final(self).last_command == old(self).last_command,
            final(self).command_pending == old(self).command_pending,
            final(self).contexts == old(self).contexts,
    {
        self.sessions.observe_process(present, identity, now);
        apply_session(&mut self.view, self.sessions.snapshot());
        advance_revision(&mut self.view);
        self.sessions.snapshot()
    }

    /// Counts the session time up to `now` and gives the checkpoint to save,
    /// if a session is tracked; see `SessionTracker::checkpoint`.
    pub fn checkpoint(&mut self, now: u64) -> (r: Option<SessionCheckpoint>)
        requires
            old(self).wf(),
        ensures
            final(self).wf(),
            final(self).sessions@ == accumulate_model(old(self).sessions@, now),
            counters_consistent(old(self).sessions@) ==> counters_consistent(final(self).sessions@),
            r is Some <==> final(self).sessions@.process_identity is Some,
            r matches Some(c) ==> {
                &&& c.schema_version == 1
                &&& c.session_id == final(self).sessions@.session_id
                &&& Some(c.platform_process_identity@) == final(self).sessions@.process_identity
                &&& c.started_at == final(self).sessions@.started_at
                &&& c.spotify_open_ms == final(self).sessions@.spotify_open_ms
                &&& c.active_listening_ms == final(self).sessions@.active_listening_ms
                &&& c.was_playing == final(self).sessions@.confirmed_playing
            },
            *final(self) == (CoordinatorCore { sessions: final(self).sessions, ..*old(self) }),
    {
        self.sessions.tick(now);
        self.sessions.checkpoint()
    }

    /// The first step of a poll: whether Spotify runs, so that playback is
    /// refreshed; otherwise the view shows Spotify closed.
    pub fn begin_poll(&mut self) -> (r: bool)
        requires
            old(self).wf(),
        ensures
            final(self).wf(),
            r == old(self).view.session.spotify_running,
            r ==> *final(self) == *old(self),
            !r ==> {
                &&& spotify_closed_shown(old(self).view, unrevised(final(self).view, old(self).view))
                &&& final(self).view.revision == next_revision(old(self).view.revision)
                &&& *final(self) == (CoordinatorCore { view: final(self).view, ..*old(self) })
            },
    {
        if self.view.session.spotify_running {
            return true;
        }
        apply_spotify_closed(&mut self.view);
        advance_revision(&mut self.view);
        false
    }

    /// The delay in milliseconds before the next poll, for whether Spotify
    /// was running and whether the widget is visible; see `poll_delay_spec`.
    pub fn poll_delay(&self, running: bool, visible: bool) -> (r: u64)
        ensures
            r == poll_delay_spec(running, visible, self.view.playback.is_playing),
    {
        poll_delay_ms(running, visible, self.view.playback.is_playing)
    }

    /// Shows the loaded settings, and the configuration warning when the
    /// build has no client ID; see `initial_settings_shown`.
    pub fn show_initial_settings(&mut self, settings: &AppSettings, configured: bool)
        requires
            old(self).wf(),
        ensures
            final(self).wf(),
            initial_settings_shown(
                old(self).view,
                unrevised(final(self).view, old(self).view),
                *settings,
                configured,
            ),
            final(self).view.revision == next_revision(old(self).view.revision),
            *final(self) == (CoordinatorCore { view: final(self).view, ..*old(self) }),
    {
        apply_initial_settings(&mut self.view, settings, configured);
        advance_revision(&mut self.view);
    }

    /// Shows new settings.
    pub fn show_settings(&mut self, settings: &AppSettings)
        requires
            old(self).wf(),
        ensures
            final(self).wf(),
            final(self).view == (ViewState {
                settings: settings_view_of(*settings),
                revision: next_revision(old(self).view.revision),
                ..old(self).view
            }),
            *final(self) == (CoordinatorCore { view: final(self).view, ..*old(self) }),
    {
        apply_settings(&mut self.view, settings);
        advance_revision(&mut self.view);
    }

    /// Shows that the widget waits for the browser's authorization.
    pub fn show_waiting_for_authorization(&mut self)
        requires
            old(self).wf(),
        ensures
            final(self).wf(),
            waiting_for_authorization_shown(
                old(self).view,
                unrevised(final(self).view, old(self).view),
            ),
            final(self).view.revision == next_revision(old(self).view.revision),
            *final(self) == (CoordinatorCore { view: final(self).view, ..*old(self) }),
    {
        apply_waiting_for_authorization(&mut self.view);
        advance_revision(&mut self.view);
    }

    /// Shows an error that ended an authorization attempt or a credential
    /// check outside a refresh; see `failed`.
    pub fn show_error(&mut self, error: &AppError, now: u64)
        requires
            old(self).wf(),
        ensures
            final(self).wf(),
            failed(*old(self), *final(self), *error, None, now),
            final(self).contexts@ == old(self).contexts@,
    {
        self.fail(error, None, now);
    }
}

/// Whether two states agree on everything a refresh's continuation reads
/// and keeps.
pub open spec fn refresh_continues_frame(a: CoordinatorCore, b: CoordinatorCore) -> bool {
    &&& b.view == a.view
    &&& b.sessions@ == a.sessions@
    &&& b.rate_limit_until == a.rate_limit_until
    &&& b.last_command == a.last_command
    &&& b.command_pending == a.command_pending
}

proof fn lemma_continues_frame(
    a: CoordinatorCore,
    b: CoordinatorCore,
    n: CoordinatorCore,
    r: RefreshAction,
    force: bool,
    s: PlaybackSnapshot,
    local: Option<LocalMediaSnapshot>,
    now: u64,
)
    requires
        refresh_continues_frame(a, b),
        refresh_continues(b, n, r, force, s, local, now),
    ensures
        refresh_continues(a, n, r, force, s, local, now),
{
    if !(force || item_uri(b.view.playback.item) != item_uri(s.playback.item)) {
        let m = choose|m: PlaybackSnapshot|
            #[trigger] merged_snapshot(s, m, local) && refresh_finished(b, n, m, None, now);
        assert(refresh_finished(a, n, m, None, now));
    }
}

/// A rate limit suspends background refreshes until its deadline: after an
/// error `RateLimited(secs)` at `t0`, the deadline lies after every time `t`
/// before `t0 + secs` seconds, so an unforced `refresh_begin` at `t`
/// finishes at once and changes nothing (no request is made).
pub proof fn lemma_rate_limit_suspends_background_refresh(
    o: CoordinatorCore,
    n: CoordinatorCore,
    secs: u64,
    local: Option<LocalMediaSnapshot>,
    t0: u64,
    t: u64,
)
    requires
        failed(o, n, AppError::RateLimited(secs), local, t0),
        t < t0 + secs * 1000,
        t < u64::MAX,
    ensures
        n.rate_limit_until matches Some(until) && until > t,
{
}

/// A refused authorization callback, shown as an error, puts no value of
/// the callback's query in the view: the status message is "Authorization
/// failed: " followed by one of the fixed refusal reasons or the URL
/// parser's error for the target, and the shown item, queue, session,
/// command and settings stay as they were.
pub proof fn lemma_refused_callback_shows_no_query_value(
    o: CoordinatorCore,
    n: CoordinatorCore,
    target: Seq<char>,
    expected_state: Seq<char>,
    reason: String,
    now: u64,
)
    requires
        callback_outcome(target, expected_state) == Err::<Seq<char>, Seq<char>>(reason@),
        failed(o, n, AppError::Authorization(reason), None, now),
    ensures
        n.view.status_message matches Some(m) && m@ == "Authorization failed: "@ + reason@,
        ({
            ||| url_parse("http://127.0.0.1"@ + target) == Err::<
                (Seq<char>, Seq<char>, Option<Seq<char>>, Seq<char>, Seq<(Seq<char>, Seq<char>)>),
                Seq<char>,
            >(reason@)
            ||| reason@ == "unexpected callback path"@
            ||| reason@ == "OAuth state did not match"@
            ||| reason@ == "authorization was denied"@
            ||| reason@ == "authorization code was missing or ambiguous"@
        }),
        n.view.playback.item == o.view.playback.item,
        n.view.queue.next == o.view.queue.next,
        n.view.session == o.view.session,
        n.view.command == o.view.command,
        n.view.settings == o.view.settings,
{
    lemma_callback_refusal_carries_no_query_value(target, expected_state);
}

} // verus!
