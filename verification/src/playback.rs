//! The playback coordinator's decisions: how each outcome changes the
//! published view state, when to poll, when to refresh the queue, and how
//! commands are debounced and rate limits honoured.

use vstd::prelude::*;

use crate::domain::{
    settings_view_of, AppSettings, Availability, CommandName, Freshness, MediaItem, MediaKind,
    PlaybackView, QueueAvailability, QueueView, SessionView, SettingsView, StatusTone, ViewState,
};
use crate::error::{error_message, AppError};
use crate::outside::utc_now_millis;
use crate::platform::LocalMediaSnapshot;
use crate::sessions::opt_seq;
use crate::spotify::PlaybackSnapshot;

verus! {

/// The quiet period after a transport command during which another is ignored.
pub const COMMAND_DEBOUNCE_MS: u64 = 300;

/// The revision that follows `r`: one more, wrapping at the top of the range.
pub open spec fn next_revision(r: u64) -> u64 {
    if r == u64::MAX {
        0
    } else {
        (r + 1) as u64
    }
}

/// The view of an optional borrowed local media snapshot.
pub open spec fn opt_local(local: Option<&LocalMediaSnapshot>) -> Option<LocalMediaSnapshot> {
    match local {
        Some(l) => Some(*l),
        None => None,
    }
}

/// An account snapshot completed with local media data: the local item
/// when the account reports none, the local play state, the local progress
/// when known, and control enabled. Without local data nothing changes.
pub open spec fn merged_snapshot(o: PlaybackSnapshot, n: PlaybackSnapshot, local: Option<LocalMediaSnapshot>) -> bool {
    &&& local is None ==> n == o
    &&& local matches Some(l) ==> {
            let p = n.playback;
            let q = o.playback;
            &&& (q.item is Some ==> p.item == q.item)
            &&& (q.item is None ==> p.item is Some && is_local_item(p.item->0, l))
            &&& p.is_playing == Some(l.is_playing)
            &&& p.progress_ms == (if l.progress_ms is Some {
                l.progress_ms
            } else {
                q.progress_ms
            })
            &&& p.can_control
            &&& p.freshness == q.freshness
            &&& p.context_label == q.context_label
            &&& p.device_name == q.device_name
            &&& n.context_href == o.context_href
        }
}

/// The view after an error: availability and tone by error kind, the
/// error's message, the queue and playback marked stale (or unknown when
/// empty), controls disabled, unless local media data is available, which
/// then becomes the displayed playback.
pub open spec fn error_shown(o: ViewState, n: ViewState, error: AppError, local: Option<LocalMediaSnapshot>) -> bool {
    &&& n.availability == availability_for_error(error)
    &&& n.status_tone == tone_for_error(error)
    &&& n.status_message is Some
    &&& n.status_message->0@ == error_message(error)
    &&& n.queue.next == o.queue.next
    &&& n.queue.availability == (if o.queue.next is Some {
            QueueAvailability::Stale
        } else {
            QueueAvailability::Unavailable
        })
    &&& local is None ==> {
            let p = n.playback;
            let q = o.playback;
            &&& p.item == q.item
            &&& p.is_playing == q.is_playing
            &&& p.progress_ms == q.progress_ms
            &&& p.observed_at == q.observed_at
            &&& p.freshness == (if q.item is Some {
                Freshness::Stale
            } else {
                Freshness::Unknown
            })
            &&& !p.can_control
            &&& p.context_label == q.context_label
            &&& p.device_name == q.device_name
        }
    &&& local matches Some(l) ==> shows_local(n.playback, o.playback, l)
    &&& n.session == o.session
    &&& n.command == o.command
    &&& n.settings == o.settings
}

/// The view when no playback is active on the account: no active device,
/// empty playback and queue, no message, neutral tone.
pub open spec fn no_playback_shown(o: ViewState, n: ViewState) -> bool {
    &&& n.availability == Availability::NoActiveDevice
    &&& n.playback.item is None
    &&& n.playback.is_playing is None
    &&& !n.playback.can_control
    &&& n.playback.progress_ms is None
    &&& n.playback.freshness == Freshness::Unknown
    &&& n.playback.context_label is None
    &&& n.playback.device_name is None
    &&& n.queue.next is None
    &&& n.queue.availability == QueueAvailability::Unavailable
    &&& n.status_message is None
    &&& n.status_tone == StatusTone::Neutral
    &&& n.session == o.session
    &&& n.command == o.command
    &&& n.settings == o.settings
}

/// The view when the Spotify process is closed: controls disabled, no
/// message, neutral tone; the last playback stays visible.
pub open spec fn spotify_closed_shown(o: ViewState, n: ViewState) -> bool {
    &&& n.availability == Availability::SpotifyClosed
    &&& n.playback == (PlaybackView { can_control: false, ..o.playback })
    &&& n.queue == o.queue
    &&& n.status_message is None
    &&& n.status_tone == StatusTone::Neutral
    &&& n.session == o.session
    &&& n.command == o.command
    &&& n.settings == o.settings
}

/// The view when the build has no Spotify client ID: controls disabled.
pub open spec fn configuration_required_shown(o: ViewState, n: ViewState) -> bool {
    &&& n.availability == Availability::ConfigurationRequired
    &&& n.playback == (PlaybackView { can_control: false, ..o.playback })
    &&& n.queue == o.queue
    &&& n.status_message == o.status_message
    &&& n.status_tone == o.status_tone
    &&& n.session == o.session
    &&& n.command == o.command
    &&& n.settings == o.settings
}

/// The view when Spotify authorization is needed: controls disabled, no message.
pub open spec fn authentication_required_shown(o: ViewState, n: ViewState) -> bool {
    &&& n.availability == Availability::AuthenticationRequired
    &&& n.playback == (PlaybackView { can_control: false, ..o.playback })
    &&& n.queue == o.queue
    &&& n.status_message is None
    &&& n.status_tone == o.status_tone
    &&& n.session == o.session
    &&& n.command == o.command
    &&& n.settings == o.settings
}

/// The first view: the settings view of the loaded settings, and, when the
/// build has no client ID, the configuration warning.
pub open spec fn initial_settings_shown(o: ViewState, n: ViewState, settings: AppSettings, configured: bool) -> bool {
    &&& n.settings == settings_view_of(settings)
    &&& configured ==> {
            &&& n.availability == o.availability
            &&& n.status_message == o.status_message
            &&& n.status_tone == o.status_tone
        }
    &&& !configured ==> {
            &&& n.availability == Availability::ConfigurationRequired
            &&& n.status_message is Some
            &&& n.status_message->0@ == "Build with a Spotify client ID to connect."@
            &&& n.status_tone == StatusTone::Warning
        }
    &&& n.playback == o.playback
    &&& n.queue == o.queue
    &&& n.session == o.session
    &&& n.command == o.command
}

/// The view while the widget waits for the browser's authorization.
pub open spec fn waiting_for_authorization_shown(o: ViewState, n: ViewState) -> bool {
    &&& n.status_message is Some
    &&& n.status_message->0@ == "Waiting for Spotify authorization…"@
    &&& n.status_tone == StatusTone::Neutral
    &&& n.availability == o.availability
    &&& n.playback == o.playback
    &&& n.queue == o.queue
    &&& n.session == o.session
    &&& n.command == o.command
    &&& n.settings == o.settings
}

/// The view after the pending command failed with `error`.
pub open spec fn command_failed_shown(o: ViewState, n: ViewState, error: AppError) -> bool {
    &&& n.command.pending is None
    &&& n.command.last_error is Some
    &&& n.command.last_error->0@ == error_message(error)
    &&& n == (ViewState { command: n.command, ..o })
}

/// A copy of an optional string.
pub fn clone_opt_string(o: &Option<String>) -> (r: Option<String>)
    ensures
        r == *o,
{
    match o {
        Some(s) => Some(s.clone()),
        None => None,
    }
}

/// Whether `item` is the media item made from a local media snapshot: no
/// provider URI or artwork, unknown kind, the local title, the artist as the
/// only creator (none when empty), the album and the duration.
pub open spec fn is_local_item(item: MediaItem, local: LocalMediaSnapshot) -> bool {
    &&& item.provider_uri is None
    &&& item.kind == MediaKind::Unknown
    &&& item.title@ == local.title@
    &&& (if local.artist@.len() == 0 {
        item.creators@.len() == 0
    } else {
        item.creators@.len() == 1 && item.creators@[0]@ == local.artist@
    })
    &&& opt_seq(item.album_or_show) == opt_seq(local.album)
    &&& item.duration_ms == local.duration_ms
    &&& item.artwork_url is None
    &&& !item.is_local
    &&& item.is_explicit is None
}

/// The media item shown for a local media snapshot.
pub fn local_media_item(local: &LocalMediaSnapshot) -> (r: MediaItem)
    ensures
        is_local_item(r, *local),
{
    let creators = if local.artist.as_str().is_empty() {
        Vec::new()
    } else {
        let mut v: Vec<String> = Vec::new();
        v.push(local.artist.clone());
        v
    };
    MediaItem {
        provider_uri: None,
        kind: MediaKind::Unknown,
        title: local.title.clone(),
        creators,
        album_or_show: clone_opt_string(&local.album),
        duration_ms: local.duration_ms,
        artwork_url: None,
        is_local: false,
        is_explicit: None,
    }
}

/// Completes an account snapshot with local media data: the local item
/// when the account reports none, the local play state, the local progress
/// when known, and control enabled. Without local data nothing changes.
pub fn merge_local_snapshot(snapshot: &mut PlaybackSnapshot, local: Option<&LocalMediaSnapshot>)
    ensures
        merged_snapshot(*old(snapshot), *final(snapshot), opt_local(local)),
{
    let local = match local {
        Some(l) => l,
        None => {
            return ;
        },
    };
    if snapshot.playback.item.is_none() {
        snapshot.playback.item = Some(local_media_item(local));
    }
    snapshot.playback.is_playing = Some(local.is_playing);
    if local.progress_ms.is_some() {
        snapshot.playback.progress_ms = local.progress_ms;
    }
    snapshot.playback.can_control = true;
    snapshot.playback.observed_at = utc_now_millis();
}

/// The local-media part of an error or fallback: the local item, play
/// state and progress become the displayed playback, marked fresh and
/// controllable.
pub open spec fn shows_local(p: PlaybackView, q: PlaybackView, local: LocalMediaSnapshot) -> bool {
    &&& p.item is Some && is_local_item(p.item->0, local)
    &&& p.is_playing == Some(local.is_playing)
    &&& p.progress_ms == local.progress_ms
    &&& p.freshness == Freshness::Fresh
    &&& p.can_control
    &&& p.context_label == q.context_label
    &&& p.device_name == q.device_name
}

/// Replaces the displayed playback with local media data.
pub fn apply_local_to_state(state: &mut ViewState, local: &LocalMediaSnapshot)
    ensures
        shows_local(final(state).playback, old(state).playback, *local),
        final(state).availability == old(state).availability,
        final(state).queue == old(state).queue,
        final(state).session == old(state).session,
        final(state).command == old(state).command,
        final(state).settings == old(state).settings,
        final(state).status_message == old(state).status_message,
        final(state).status_tone == old(state).status_tone,
        final(state).revision == old(state).revision,
{
    state.playback.item = Some(local_media_item(local));
    state.playback.is_playing = Some(local.is_playing);
    state.playback.progress_ms = local.progress_ms;
    state.playback.freshness = Freshness::Fresh;
    state.playback.can_control = true;
    state.playback.observed_at = utc_now_millis();
}

/// The availability shown after an error.
pub open spec fn availability_for_error(e: AppError) -> Availability {
    match e {
        AppError::ConfigurationRequired => Availability::ConfigurationRequired,
        AppError::AuthenticationRequired => Availability::AuthenticationRequired,
        AppError::NoActiveDevice => Availability::NoActiveDevice,
        AppError::RateLimited(_) => Availability::RateLimited,
        _ => Availability::Offline,
    }
}

/// Whether `shown` is the availability that names the kind of `error`:
/// configuration, authorization, a missing device and a rate limit each
/// have their own; every other error shows the widget offline.
pub open spec fn shown_availability_fits(error: AppError, shown: Availability) -> bool {
    &&& (error == AppError::ConfigurationRequired) == (shown == Availability::ConfigurationRequired)
    &&& (error == AppError::AuthenticationRequired) == (shown
        == Availability::AuthenticationRequired)
    &&& (error == AppError::NoActiveDevice) == (shown == Availability::NoActiveDevice)
    &&& (error is RateLimited) == (shown == Availability::RateLimited)
    &&& (shown == Availability::Offline) == !(error == AppError::ConfigurationRequired || error
        == AppError::AuthenticationRequired || error == AppError::NoActiveDevice
        || error is RateLimited)
}

/// The availability shown after an error names the error's kind: each of
/// configuration, authorization, a missing device and a rate limit maps to
/// its own availability and no other error does; exactly the other errors
/// show the widget offline. An error never shows it ready, closed or unknown.
pub proof fn lemma_error_availability(error: AppError)
    ensures
        shown_availability_fits(error, availability_for_error(error)),
        availability_for_error(error) != Availability::Ready,
        availability_for_error(error) != Availability::SpotifyClosed,
        availability_for_error(error) != Availability::Unknown,
{
}

/// The status tone shown after an error: a warning for transient network
/// and rate-limit conditions, critical otherwise.
pub open spec fn tone_for_error(e: AppError) -> StatusTone {
    match e {
        AppError::NetworkUnavailable | AppError::RateLimited(_) => StatusTone::Warning,
        _ => StatusTone::Critical,
    }
}

/// Shows an error: availability and tone by error kind, the error's
/// message, the queue and playback marked stale (or unknown when empty),
/// controls disabled, unless local media data is available, which then
/// becomes the displayed playback.
pub fn apply_error(state: &mut ViewState, error: &AppError, local: Option<&LocalMediaSnapshot>)
    ensures
        error_shown(*old(state), *final(state), *error, opt_local(local)),
        final(state).revision == old(state).revision,
        shown_availability_fits(*error, final(state).availability),
{
    proof {
        lemma_error_availability(*error);
    }
    state.availability = match error {
        AppError::ConfigurationRequired => Availability::ConfigurationRequired,
        AppError::AuthenticationRequired => Availability::AuthenticationRequired,
        AppError::NoActiveDevice => Availability::NoActiveDevice,
        AppError::RateLimited(_) => Availability::RateLimited,
        AppError::NetworkUnavailable => Availability::Offline,
        _ => Availability::Offline,
    };
    state.status_tone = match error {
        AppError::NetworkUnavailable | AppError::RateLimited(_) => StatusTone::Warning,
        _ => StatusTone::Critical,
    };
    state.status_message = Some(error.message());
    state.queue.availability = if state.queue.next.is_some() {
        QueueAvailability::Stale
    } else {
        QueueAvailability::Unavailable
    };
    state.playback.freshness = if state.playback.item.is_some() {
        Freshness::Stale
    } else {
        Freshness::Unknown
    };
    state.playback.can_control = false;
    if let Some(local) = local {
        apply_local_to_state(state, local);
    }
}

/// Shows a successful playback refresh: ready when an item plays, else no
/// active device; the new playback; the new queue when one was fetched;
/// no message and a positive tone.
pub fn apply_playback(state: &mut ViewState, playback: PlaybackView, queue: Option<QueueView>)
    ensures
        final(state).availability == (if playback.item is Some {
            Availability::Ready
        } else {
            Availability::NoActiveDevice
        }),
        final(state).playback == playback,
        final(state).queue == (match queue {
            Some(q) => q,
            None => old(state).queue,
        }),
        final(state).status_message is None,
        final(state).status_tone == StatusTone::Positive,
        final(state).session == old(state).session,
        final(state).command == old(state).command,
        final(state).settings == old(state).settings,
        final(state).revision == old(state).revision,
{
    state.availability = if playback.item.is_some() {
        Availability::Ready
    } else {
        Availability::NoActiveDevice
    };
    state.playback = playback;
    if let Some(queue) = queue {
        state.queue = queue;
    }
    state.status_message = None;
    state.status_tone = StatusTone::Positive;
}

/// Shows that no playback is active on the account: no active device,
/// empty playback and queue, no message, neutral tone.
pub fn apply_no_playback(state: &mut ViewState)
    ensures
        no_playback_shown(*old(state), *final(state)),
        final(state).revision == old(state).revision,
{
    state.availability = Availability::NoActiveDevice;
    state.playback = PlaybackView::default();
    state.queue = QueueView::default();
    state.status_message = None;
    state.status_tone = StatusTone::Neutral;
}

/// Shows that the Spotify process is closed: controls disabled, no
/// message, neutral tone; the last playback stays visible.
pub fn apply_spotify_closed(state: &mut ViewState)
    ensures
        spotify_closed_shown(*old(state), *final(state)),
        final(state).revision == old(state).revision,
{
    state.availability = Availability::SpotifyClosed;
    state.playback.can_control = false;
    state.status_message = None;
    state.status_tone = StatusTone::Neutral;
}

/// Shows that the build has no Spotify client ID: controls disabled.
pub fn apply_configuration_required(state: &mut ViewState)
    ensures
        configuration_required_shown(*old(state), *final(state)),
        final(state).revision == old(state).revision,
{
    state.availability = Availability::ConfigurationRequired;
    state.playback.can_control = false;
}

/// Shows that Spotify authorization is needed: controls disabled, no message.
pub fn apply_authentication_required(state: &mut ViewState)
    ensures
        authentication_required_shown(*old(state), *final(state)),
        final(state).revision == old(state).revision,
{
    state.availability = Availability::AuthenticationRequired;
    state.playback.can_control = false;
    state.status_message = None;
}

/// The first state of the widget: the settings view of the loaded
/// settings, and, when the build has no client ID, the configuration
/// warning.
pub fn apply_initial_settings(state: &mut ViewState, settings: &AppSettings, configured: bool)
    ensures
        initial_settings_shown(*old(state), *final(state), *settings, configured),
        final(state).revision == old(state).revision,
{
    state.settings = SettingsView::from_settings(settings);
    if !configured {
        state.availability = Availability::ConfigurationRequired;
        state.status_message = Some(String::from_str("Build with a Spotify client ID to connect."));
        state.status_tone = StatusTone::Warning;
    }
}

/// Shows new settings.
pub fn apply_settings(state: &mut ViewState, settings: &AppSettings)
    ensures
        *final(state) == (ViewState { settings: settings_view_of(*settings), ..*old(state) }),
{
    state.settings = SettingsView::from_settings(settings);
}

/// Shows new session counters.
pub fn apply_session(state: &mut ViewState, session: SessionView)
    ensures
        *final(state) == (ViewState { session, ..*old(state) }),
{
    state.session = session;
}

/// Shows that authorization was started and the widget waits for the browser.
pub fn apply_waiting_for_authorization(state: &mut ViewState)
    ensures
        waiting_for_authorization_shown(*old(state), *final(state)),
        final(state).revision == old(state).revision,
{
    state.status_message = Some(String::from_str("Waiting for Spotify authorization…"));
    state.status_tone = StatusTone::Neutral;
}

/// Shows a transport command as pending and clears the last command error.
pub fn apply_command_started(state: &mut ViewState, command: CommandName)
    ensures
        *final(state) == (ViewState {
            command: crate::domain::CommandView { pending: Some(command), last_error: None },
            ..*old(state)
        }),
{
    state.command.pending = Some(command);
    state.command.last_error = None;
}

/// Shows the optimistic result of a toggle: the opposite play state.
pub fn apply_toggled(state: &mut ViewState, was_playing: bool)
    ensures
        final(state).playback == (PlaybackView {
            is_playing: Some(!was_playing),
            ..old(state).playback
        }),
        *final(state) == (ViewState { playback: final(state).playback, ..*old(state) }),
{
    state.playback.is_playing = Some(!was_playing);
}

/// Shows that the pending command has completed.
pub fn apply_command_finished(state: &mut ViewState)
    ensures
        *final(state) == (ViewState {
            command: crate::domain::CommandView { pending: None, ..old(state).command },
            ..*old(state)
        }),
{
    state.command.pending = None;
}

/// Shows that the pending command failed with `error`.
pub fn apply_command_failed(state: &mut ViewState, error: &AppError)
    ensures
        command_failed_shown(*old(state), *final(state), *error),
{
    state.command.pending = None;
    state.command.last_error = Some(error.message());
}

/// Marks a new publication of the state: the revision advances by one,
/// wrapping at the top of its range.
pub fn advance_revision(state: &mut ViewState)
    ensures
        final(state).revision == (if old(state).revision == u64::MAX {
            0
        } else {
            (old(state).revision + 1) as u64
        }),
        *final(state) == (ViewState { revision: final(state).revision, ..*old(state) }),
{
    state.revision = state.revision.wrapping_add(1);
}

/// The delay before the next playback poll: 5 s while Spotify is closed;
/// 12 s while visible and playing; 30 s while visible; 60 s while hidden.
pub open spec fn poll_delay_spec(running: bool, visible: bool, is_playing: Option<bool>) -> u64 {
    if !running {
        5000
    } else if visible && is_playing == Some(true) {
        12000
    } else if visible {
        30000
    } else {
        60000
    }
}

/// The delay in milliseconds before the next playback poll.
pub fn poll_delay_ms(running: bool, visible: bool, is_playing: Option<bool>) -> (r: u64)
    ensures
        r == poll_delay_spec(running, visible, is_playing),
{
    if !running {
        5000
    } else if visible && is_playing == Some(true) {
        12000
    } else if visible {
        30000
    } else {
        60000
    }
}

/// Whether a background refresh is skipped: only unforced refreshes,
/// while a rate-limit deadline lies in the future.
pub fn refresh_blocked(force: bool, rate_limit_until: Option<u64>, now: u64) -> (r: bool)
    ensures
        r == (!force && (rate_limit_until matches Some(until) && until > now)),
{
    if force {
        return false;
    }
    match rate_limit_until {
        Some(until) => until > now,
        None => false,
    }
}

/// The rate-limit deadline an error sets: `now` plus the server's delay for
/// a rate limit (saturating), none for other errors.
pub open spec fn rate_limit_deadline_of(error: AppError, now: u64) -> Option<u64> {
    match error {
        AppError::RateLimited(secs) => Some(
            if now + secs * 1000 > u64::MAX {
                u64::MAX
            } else {
                (now + secs * 1000) as u64
            },
        ),
        _ => None,
    }
}

/// The rate-limit deadline an error sets: `now` plus the server's delay for
/// a rate limit (saturating), none for other errors.
pub fn rate_limit_deadline(error: &AppError, now: u64) -> (r: Option<u64>)
    ensures
        r == rate_limit_deadline_of(*error, now),
{
    match error {
        AppError::RateLimited(secs) => match secs.checked_mul(1000) {
            Some(ms) => Some(now.saturating_add(ms)),
            None => Some(u64::MAX),
        },
        _ => None,
    }
}

/// Whether the queue is fetched with a refresh: when forced, or when the
/// playing item's URI changed.
pub fn queue_refresh_needed(
    force: bool,
    previous_uri: &Option<String>,
    current_uri: &Option<String>,
) -> (r: bool)
    ensures
        r == (force || opt_seq(*previous_uri) != opt_seq(*current_uri)),
{
    if force {
        return true;
    }
    match (previous_uri, current_uri) {
        (Some(a), Some(b)) => !crate::text::str_eq(a.as_str(), b.as_str()),
        (None, None) => false,
        _ => true,
    }
}

/// Whether a transport command is ignored because the previous one was
/// issued less than `COMMAND_DEBOUNCE_MS` before `now`.
pub fn command_debounced(last_command: Option<u64>, now: u64) -> (r: bool)
    ensures
        r == (last_command matches Some(t) && (if now >= t {
            now - t
        } else {
            0
        }) < COMMAND_DEBOUNCE_MS),
{
    match last_command {
        Some(t) => now.saturating_sub(t) < COMMAND_DEBOUNCE_MS,
        None => false,
    }
}

/// Whether the local media session carried out a transport command, so
/// that no Web API request is needed: only when it answered and accepted.
pub fn local_transport_accepted(result: &Result<bool, AppError>) -> (r: bool)
    ensures
        r == (*result matches Ok(accepted) && accepted),
{
    match result {
        Ok(accepted) => *accepted,
        Err(_) => false,
    }
}

} // verus!
