use spotify_companion_widget::domain::{
    Availability, CommandName, Freshness, MediaKind, PlaybackView, QueueAvailability, StatusTone,
    ViewState,
};
use spotify_companion_widget::error::AppError;
use spotify_companion_widget::platform::LocalMediaSnapshot;
use spotify_companion_widget::playback::{
    advance_revision, apply_command_failed, apply_command_started, apply_error, apply_playback,
    apply_spotify_closed, command_debounced, local_media_item, local_transport_accepted,
    merge_local_snapshot, poll_delay_ms, queue_refresh_needed, rate_limit_deadline,
    refresh_blocked,
};
use spotify_companion_widget::spotify::PlaybackSnapshot;

fn local() -> LocalMediaSnapshot {
    LocalMediaSnapshot {
        title: "Local song".into(),
        artist: "Local artist".into(),
        album: Some("Local album".into()),
        is_playing: true,
        progress_ms: Some(1_500),
        duration_ms: Some(200_000),
    }
}

#[test]
fn local_media_item_has_no_provider_data() {
    let item = local_media_item(&local());
    assert_eq!(item.provider_uri, None);
    assert_eq!(item.kind, MediaKind::Unknown);
    assert_eq!(item.title, "Local song");
    assert_eq!(item.creators, vec!["Local artist"]);
    assert_eq!(item.album_or_show.as_deref(), Some("Local album"));
    assert_eq!(item.duration_ms, Some(200_000));
    let no_artist = LocalMediaSnapshot {
        artist: String::new(),
        ..local()
    };
    assert!(local_media_item(&no_artist).creators.is_empty());
}

#[test]
fn errors_mark_data_stale_and_disable_controls() {
    let mut state = ViewState::default();
    state.playback.item = Some(local_media_item(&local()));
    state.playback.can_control = true;
    state.queue.next = Some(local_media_item(&local()));
    apply_error(&mut state, &AppError::NetworkUnavailable, None);
    assert_eq!(state.availability, Availability::Offline);
    assert_eq!(state.status_tone, StatusTone::Warning);
    assert_eq!(
        state.status_message.as_deref(),
        Some("The network is unavailable.")
    );
    assert_eq!(state.playback.freshness, Freshness::Stale);
    assert_eq!(state.queue.availability, QueueAvailability::Stale);
    assert!(!state.playback.can_control);

    let mut empty = ViewState::default();
    apply_error(&mut empty, &AppError::RateLimited(17), None);
    assert_eq!(empty.availability, Availability::RateLimited);
    assert_eq!(empty.status_tone, StatusTone::Warning);
    assert_eq!(empty.playback.freshness, Freshness::Unknown);
    assert_eq!(empty.queue.availability, QueueAvailability::Unavailable);

    apply_error(&mut empty, &AppError::PremiumRequired, None);
    assert_eq!(empty.availability, Availability::Offline);
    assert_eq!(empty.status_tone, StatusTone::Critical);
}

#[test]
fn errors_fall_back_to_local_media() {
    let mut state = ViewState::default();
    apply_error(&mut state, &AppError::AuthenticationRequired, Some(&local()));
    assert_eq!(state.availability, Availability::AuthenticationRequired);
    assert_eq!(state.playback.freshness, Freshness::Fresh);
    assert!(state.playback.can_control);
    assert_eq!(state.playback.is_playing, Some(true));
    assert_eq!(state.playback.progress_ms, Some(1_500));
    assert_eq!(state.playback.item.unwrap().title, "Local song");
}

#[test]
fn successful_refresh_is_ready_only_with_an_item() {
    let mut state = ViewState::default();
    let mut playback = PlaybackView::default();
    apply_playback(&mut state, playback.clone(), None);
    assert_eq!(state.availability, Availability::NoActiveDevice);
    assert_eq!(state.status_tone, StatusTone::Positive);
    playback.item = Some(local_media_item(&local()));
    apply_playback(&mut state, playback, None);
    assert_eq!(state.availability, Availability::Ready);
    assert_eq!(state.status_message, None);
}

#[test]
fn local_data_completes_account_snapshot() {
    let mut snapshot = PlaybackSnapshot {
        playback: PlaybackView::default(),
        context_href: None,
    };
    merge_local_snapshot(&mut snapshot, Some(&local()));
    assert!(snapshot.playback.can_control);
    assert_eq!(snapshot.playback.is_playing, Some(true));
    assert_eq!(snapshot.playback.item.unwrap().title, "Local song");

    let mut untouched = PlaybackSnapshot {
        playback: PlaybackView {
            progress_ms: Some(9),
            ..PlaybackView::default()
        },
        context_href: None,
    };
    let no_progress = LocalMediaSnapshot {
        progress_ms: None,
        ..local()
    };
    merge_local_snapshot(&mut untouched, Some(&no_progress));
    assert_eq!(untouched.playback.progress_ms, Some(9));
}

#[test]
fn commands_show_pending_then_error() {
    let mut state = ViewState::default();
    apply_command_started(&mut state, CommandName::Next);
    assert_eq!(state.command.pending, Some(CommandName::Next));
    apply_command_failed(&mut state, &AppError::NoActiveDevice);
    assert_eq!(state.command.pending, None);
    assert_eq!(
        state.command.last_error.as_deref(),
        Some("No active Spotify playback device is available.")
    );
}

#[test]
fn closing_spotify_disables_controls() {
    let mut state = ViewState::default();
    state.playback.can_control = true;
    apply_spotify_closed(&mut state);
    assert_eq!(state.availability, Availability::SpotifyClosed);
    assert!(!state.playback.can_control);
    assert_eq!(state.status_message, None);
}

#[test]
fn revision_advances_and_wraps() {
    let mut state = ViewState::default();
    advance_revision(&mut state);
    assert_eq!(state.revision, 1);
    state.revision = u64::MAX;
    advance_revision(&mut state);
    assert_eq!(state.revision, 0);
}

#[test]
fn polling_policy() {
    assert_eq!(poll_delay_ms(false, true, Some(true)), 5_000);
    assert_eq!(poll_delay_ms(true, true, Some(true)), 12_000);
    assert_eq!(poll_delay_ms(true, true, Some(false)), 30_000);
    assert_eq!(poll_delay_ms(true, true, None), 30_000);
    assert_eq!(poll_delay_ms(true, false, Some(true)), 60_000);
}

#[test]
fn rate_limits_suspend_only_background_refreshes() {
    let deadline = rate_limit_deadline(&AppError::RateLimited(17), 1_000);
    assert_eq!(deadline, Some(18_000));
    assert!(refresh_blocked(false, deadline, 17_999));
    assert!(!refresh_blocked(false, deadline, 18_000));
    assert!(!refresh_blocked(true, deadline, 2_000));
    assert_eq!(rate_limit_deadline(&AppError::NetworkUnavailable, 1_000), None);
}

#[test]
fn queue_is_refetched_on_force_or_item_change() {
    let a = Some("spotify:track:a".to_owned());
    let b = Some("spotify:track:b".to_owned());
    assert!(!queue_refresh_needed(false, &a, &a));
    assert!(queue_refresh_needed(false, &a, &b));
    assert!(queue_refresh_needed(false, &None, &a));
    assert!(!queue_refresh_needed(false, &None, &None));
    assert!(queue_refresh_needed(true, &a, &a));
}

#[test]
fn commands_within_the_debounce_are_ignored() {
    assert!(!command_debounced(None, 5_000));
    assert!(command_debounced(Some(5_000), 5_299));
    assert!(!command_debounced(Some(5_000), 5_300));
}

#[test]
fn local_transport_must_accept() {
    assert!(local_transport_accepted(&Ok(true)));
    assert!(!local_transport_accepted(&Ok(false)));
    assert!(!local_transport_accepted(&Err(AppError::Platform("x".into()))));
}
