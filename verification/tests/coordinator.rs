use spotify_companion_widget::coordinator::{
    ContextCache, CoordinatorCore, RefreshAction, TransportAction,
};
use spotify_companion_widget::domain::{
    Availability, CommandName, MediaItem, MediaKind, PlaybackView, QueueAvailability, QueueView,
    StatusTone,
};
use spotify_companion_widget::error::AppError;
use spotify_companion_widget::spotify::PlaybackSnapshot;

fn item(uri: &str) -> MediaItem {
    MediaItem {
        provider_uri: Some(uri.into()),
        kind: MediaKind::Track,
        title: "Song".into(),
        creators: vec!["Artist".into()],
        album_or_show: None,
        duration_ms: Some(1_000),
        artwork_url: None,
        is_local: false,
        is_explicit: None,
    }
}

fn snapshot(uri: &str, href: Option<&str>, playing: bool) -> PlaybackSnapshot {
    PlaybackSnapshot {
        playback: PlaybackView {
            item: Some(item(uri)),
            is_playing: Some(playing),
            can_control: true,
            context_label: Some("Playlist".into()),
            ..PlaybackView::default()
        },
        context_href: href.map(str::to_owned),
    }
}

#[test]
fn context_cache_keeps_the_latest_label() {
    let mut cache = ContextCache::new();
    assert_eq!(cache.lookup("a"), None);
    cache.insert("a".into(), "One".into());
    cache.insert("b".into(), "Two".into());
    cache.insert("a".into(), "Three".into());
    assert_eq!(cache.lookup("a").as_deref(), Some("Three"));
    assert_eq!(cache.lookup("b").as_deref(), Some("Two"));
}

#[test]
fn rate_limited_background_refresh_does_nothing() {
    let mut core = CoordinatorCore::new(None, 0);
    let action = core.refresh_begin(false, true, 1_000);
    assert!(matches!(action, RefreshAction::CheckCredentials));
    let action = core.refresh_credentials(Err(AppError::RateLimited(17)), 1_000);
    assert!(matches!(action, RefreshAction::Finished));
    assert_eq!(core.rate_limit_until, Some(18_000));
    assert_eq!(core.view.availability, Availability::RateLimited);
    let revision = core.view.revision;
    assert!(matches!(core.refresh_begin(false, true, 17_999), RefreshAction::Finished));
    assert_eq!(core.view.revision, revision);
    assert!(matches!(core.refresh_begin(true, true, 17_999), RefreshAction::CheckCredentials));
    assert!(matches!(core.refresh_begin(false, true, 18_000), RefreshAction::CheckCredentials));
}

#[test]
fn refresh_without_client_id_or_credentials() {
    let mut core = CoordinatorCore::new(None, 0);
    assert!(matches!(core.refresh_begin(false, false, 5), RefreshAction::Finished));
    assert_eq!(core.view.availability, Availability::ConfigurationRequired);
    assert_eq!(core.view.revision, 1);
    assert!(matches!(core.refresh_credentials(Ok(false), 5), RefreshAction::Finished));
    assert_eq!(core.view.availability, Availability::AuthenticationRequired);
    assert_eq!(core.view.revision, 2);
    assert!(matches!(core.refresh_credentials(Ok(true), 5), RefreshAction::FetchPlayback));
}

#[test]
fn refresh_resolves_context_then_fetches_queue_then_finishes() {
    let mut core = CoordinatorCore::new(None, 0);
    let action = core.refresh_fetched(false, None, Ok(Some(snapshot("spotify:track:1", Some("https://api.spotify.com/v1/playlists/x"), true))), 10);
    let pending = match action {
        RefreshAction::ResolveContext(pending) => pending,
        other => panic!("unexpected {other:?}"),
    };
    assert_eq!(pending.href, "https://api.spotify.com/v1/playlists/x");
    let action = core.refresh_context_resolved(pending, Some("Road trip".into()), 20);
    let merged = match action {
        RefreshAction::FetchQueue(merged) => merged,
        other => panic!("unexpected {other:?}"),
    };
    assert_eq!(merged.playback.context_label.as_deref(), Some("Road trip"));
    let queue = QueueView { next: Some(item("spotify:track:2")), availability: QueueAvailability::Available };
    assert!(matches!(core.refresh_queue_fetched(merged, Some(queue), 30), RefreshAction::Finished));
    assert_eq!(core.view.availability, Availability::Ready);
    assert_eq!(core.view.status_tone, StatusTone::Positive);
    assert_eq!(core.view.playback.context_label.as_deref(), Some("Road trip"));
    assert_eq!(core.view.queue.availability, QueueAvailability::Available);

    // The same item again: the label comes from the cache, the queue is kept.
    let action = core.refresh_fetched(false, None, Ok(Some(snapshot("spotify:track:1", Some("https://api.spotify.com/v1/playlists/x"), false))), 40);
    assert!(matches!(action, RefreshAction::Finished));
    assert_eq!(core.view.playback.context_label.as_deref(), Some("Road trip"));
    assert_eq!(core.view.playback.is_playing, Some(false));
    assert_eq!(core.view.queue.availability, QueueAvailability::Available);
}

#[test]
fn refresh_without_playback_or_with_a_failure() {
    let mut core = CoordinatorCore::new(None, 0);
    assert!(matches!(core.refresh_fetched(false, None, Ok(None), 1), RefreshAction::Finished));
    assert_eq!(core.view.availability, Availability::NoActiveDevice);
    assert!(matches!(
        core.refresh_fetched(false, None, Err(AppError::NetworkUnavailable), 2),
        RefreshAction::Finished
    ));
    assert_eq!(core.view.availability, Availability::Offline);
    assert_eq!(core.view.status_tone, StatusTone::Warning);
    assert_eq!(core.rate_limit_until, None);
}

#[test]
fn transport_commands_are_serialized_and_debounced() {
    let mut core = CoordinatorCore::new(None, 0);
    let action = core.transport_begin(CommandName::TogglePlayPause, true, 1_000);
    assert!(matches!(action, TransportAction::TryLocal { command: CommandName::TogglePlayPause, is_playing: false }));
    assert_eq!(core.view.command.pending, Some(CommandName::TogglePlayPause));
    assert!(core.command_pending);
    match core.transport_begin(CommandName::Next, true, 5_000) {
        TransportAction::Finished(Err(AppError::SpotifyApi(message))) => {
            assert_eq!(message, "another playback command is pending")
        }
        other => panic!("unexpected {other:?}"),
    }
    let action = core.transport_local_answered(CommandName::TogglePlayPause, false, Ok(false));
    assert!(matches!(action, TransportAction::SendRemote { .. }));
    let action = core.transport_remote_answered(CommandName::TogglePlayPause, false, Ok(()), 1_100);
    assert!(matches!(action, TransportAction::Settle));
    assert_eq!(core.view.playback.is_playing, Some(true));
    assert!(matches!(core.transport_settled(), TransportAction::Finished(Ok(()))));
    assert!(!core.command_pending);
    assert_eq!(core.view.command.pending, None);
    assert!(matches!(core.transport_begin(CommandName::Next, false, 1_299), TransportAction::Finished(Ok(()))));
    assert!(matches!(core.transport_begin(CommandName::Next, false, 1_300), TransportAction::SendRemote { .. }));
    match core.transport_remote_answered(CommandName::Next, false, Err(AppError::PremiumRequired), 1_400) {
        TransportAction::Finished(Err(AppError::PremiumRequired)) => {}
        other => panic!("unexpected {other:?}"),
    }
    assert!(!core.command_pending);
    assert_eq!(core.view.command.pending, None);
    assert_eq!(
        core.view.command.last_error.as_deref(),
        Some("Spotify Premium is required for playback controls.")
    );
    assert_eq!(core.view.status_tone, StatusTone::Critical);
}

#[test]
fn polling_shows_closed_spotify_and_counts_sessions() {
    let mut core = CoordinatorCore::new(None, 0);
    assert!(!core.begin_poll());
    assert_eq!(core.view.availability, Availability::SpotifyClosed);
    assert_eq!(core.poll_delay(false, true), 5_000);
    let session = core.observe_process(true, Some("spotify:1".into()), 0);
    assert!(session.spotify_running);
    assert!(core.view.session.spotify_running);
    assert!(core.begin_poll());
    core.observe_process(true, Some("spotify:1".into()), 2_000);
    let checkpoint = core.checkpoint(3_000).expect("a session is tracked");
    assert_eq!(checkpoint.spotify_open_ms, 3_000);
    assert_eq!(checkpoint.platform_process_identity, "spotify:1");
}
