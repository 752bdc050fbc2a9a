use spotify_companion_widget::domain::{CommandName, Freshness, MediaKind, QueueAvailability};
use spotify_companion_widget::error::AppError;
use spotify_companion_widget::spotify::{
    best_image, check_context_href, classify_api_error, context_fallback_label, context_label,
    parse_media_item, playback_snapshot, queue_view, queue_without_content, retry_decision,
    transport_route, AttemptOutcome, HttpMethod, JsonField, RawContext, RawCreator, RawDevice,
    RawImage, RawMediaItem, RawNamedContainer, RawPlayback, RetryDecision,
};

fn empty_item() -> RawMediaItem {
    RawMediaItem {
        uri: None,
        kind: None,
        name: None,
        artists: None,
        album: None,
        show: None,
        duration_ms: None,
        is_local: None,
        explicit: None,
        images: None,
    }
}

fn image(url: &str, width: Option<u32>) -> RawImage {
    RawImage {
        url: Some(url.to_owned()),
        width,
    }
}

#[test]
fn parses_track_with_missing_optional_fields() {
    let raw = RawMediaItem {
        kind: Some("track".into()),
        name: Some("A track".into()),
        artists: Some(vec![RawCreator {
            name: Some("An artist".into()),
        }]),
        duration_ms: Some(1234),
        is_local: Some(false),
        album: Some(RawNamedContainer {
            name: Some("An album".into()),
            publisher: None,
            images: Some(vec![]),
        }),
        ..empty_item()
    };
    let item = parse_media_item(&raw);
    assert_eq!(item.title, "A track");
    assert_eq!(item.kind, MediaKind::Track);
    assert_eq!(item.creators, vec!["An artist"]);
    assert_eq!(item.artwork_url, None);
}

#[test]
fn parses_unknown_item_without_crashing() {
    let raw = RawMediaItem {
        name: Some("Sponsored message".into()),
        ..empty_item()
    };
    let item = parse_media_item(&raw);
    assert_eq!(item.kind, MediaKind::Unknown);
    assert_eq!(item.title, "Sponsored message");
}

#[test]
fn classifies_auth_rate_limit_and_device_failures() {
    assert!(matches!(
        classify_api_error(401, None, ""),
        AppError::AuthenticationRequired
    ));
    assert!(matches!(
        classify_api_error(429, Some("17"), ""),
        AppError::RateLimited(delay) if delay == 17
    ));
    assert!(matches!(
        classify_api_error(403, None, "No active device"),
        AppError::NoActiveDevice
    ));
    assert!(matches!(
        classify_api_error(500, None, "upstream"),
        AppError::SpotifyApi(_)
    ));
}

#[test]
fn unclassified_failures_show_status_and_truncated_body() {
    let body = "x".repeat(200);
    match classify_api_error(500, None, &body) {
        AppError::SpotifyApi(message) => {
            assert_eq!(
                message,
                format!("Spotify returned 500 Internal Server Error: {}", "x".repeat(180))
            );
        }
        other => panic!("unexpected {other:?}"),
    }
    match classify_api_error(599, None, "odd") {
        AppError::SpotifyApi(message) => {
            assert_eq!(message, "Spotify returned 599 <unknown status code>: odd");
        }
        other => panic!("unexpected {other:?}"),
    }
}

#[test]
fn rate_limit_defaults_to_thirty_seconds() {
    assert_eq!(classify_api_error(429, None, ""), AppError::RateLimited(30));
    assert_eq!(
        classify_api_error(429, Some("soon"), ""),
        AppError::RateLimited(30)
    );
    assert_eq!(
        classify_api_error(429, Some("+5"), ""),
        AppError::RateLimited(5)
    );
    assert_eq!(
        classify_api_error(429, Some("99999999999999999999"), ""),
        AppError::RateLimited(30)
    );
}

#[test]
fn forbidden_responses_are_matched_case_insensitively() {
    assert_eq!(
        classify_api_error(403, None, "PREMIUM required"),
        AppError::PremiumRequired
    );
    assert_eq!(
        classify_api_error(403, None, "Player command failed: Restriction violated"),
        AppError::NoActiveDevice
    );
    assert!(matches!(
        classify_api_error(403, None, "forbidden"),
        AppError::SpotifyApi(_)
    ));
    assert!(matches!(
        classify_api_error(404, None, "premium"),
        AppError::SpotifyApi(_)
    ));
}

#[test]
fn media_kinds_follow_type_and_local_flag() {
    let kinds = [
        (Some("track"), Some(true), MediaKind::Local),
        (Some("track"), None, MediaKind::Track),
        (Some("episode"), Some(true), MediaKind::Episode),
        (Some("ad"), None, MediaKind::Advertisement),
        (Some("advertisement"), None, MediaKind::Advertisement),
        (Some("chapter"), Some(true), MediaKind::Local),
        (None, None, MediaKind::Unknown),
    ];
    for (kind, is_local, expected) in kinds {
        let raw = RawMediaItem {
            kind: kind.map(str::to_owned),
            is_local,
            ..empty_item()
        };
        assert_eq!(parse_media_item(&raw).kind, expected);
    }
}

#[test]
fn missing_title_becomes_unknown_item() {
    assert_eq!(parse_media_item(&empty_item()).title, "Unknown item");
}

#[test]
fn episode_uses_show_name_publisher_and_artwork() {
    let raw = RawMediaItem {
        uri: Some("spotify:episode:1".into()),
        kind: Some("episode".into()),
        name: Some("Episode".into()),
        show: Some(RawNamedContainer {
            name: Some("The Show".into()),
            publisher: Some("Publisher".into()),
            images: Some(vec![image("https://i.scdn.co/image/show", Some(640))]),
        }),
        explicit: Some(true),
        ..empty_item()
    };
    let item = parse_media_item(&raw);
    assert_eq!(item.provider_uri.as_deref(), Some("spotify:episode:1"));
    assert_eq!(item.album_or_show.as_deref(), Some("The Show"));
    assert_eq!(item.creators, vec!["Publisher"]);
    assert_eq!(
        item.artwork_url.as_deref(),
        Some("https://i.scdn.co/image/show")
    );
    assert_eq!(item.is_explicit, Some(true));
}

#[test]
fn artwork_prefers_width_closest_to_three_hundred_on_the_cdn() {
    let images = vec![
        image("https://i.scdn.co/image/big", Some(640)),
        image("https://i.scdn.co/image/mid", Some(300)),
        image("https://evil.example/image", Some(300)),
        image("http://i.scdn.co/image/plain", Some(300)),
        image("https://mosaic.scdn.co/image/small", Some(60)),
    ];
    assert_eq!(
        best_image(Some(&images)).as_deref(),
        Some("https://i.scdn.co/image/mid")
    );
}

#[test]
fn artwork_ties_keep_the_first_and_rejects_foreign_hosts() {
    let tie = vec![
        image("https://a.scdn.co/one", Some(200)),
        image("https://b.scdn.co/two", Some(400)),
    ];
    assert_eq!(best_image(Some(&tie)).as_deref(), Some("https://a.scdn.co/one"));
    let foreign = vec![
        image("https://scdn.co.evil.example/x", Some(300)),
        image("not a url", Some(300)),
        RawImage { url: None, width: Some(300) },
    ];
    assert_eq!(best_image(Some(&foreign)), None);
    assert_eq!(best_image(None), None);
}

#[test]
fn context_labels_have_fallbacks() {
    assert_eq!(context_fallback_label("playlist"), "Playlist");
    assert_eq!(context_fallback_label("album"), "Album");
    assert_eq!(context_fallback_label("artist"), "Artist radio");
    assert_eq!(context_fallback_label("collection"), "Liked Songs");
    assert_eq!(context_fallback_label("show"), "Podcast");
    assert_eq!(context_fallback_label("other"), "Unknown context");
}

#[test]
fn context_links_must_stay_on_the_api() {
    assert_eq!(
        check_context_href("https://api.spotify.com/v1/playlists/abc").unwrap(),
        "https://api.spotify.com/v1/playlists/abc"
    );
    for href in [
        "http://api.spotify.com/v1/playlists/abc",
        "https://api.spotify.com.evil.example/v1/x",
        "https://api.spotify.com/v2/x",
        "https://example.com/v1/x",
    ] {
        assert_eq!(
            check_context_href(href),
            Err(AppError::UnsupportedResponse(
                "context URL was outside the Spotify API allowlist".into()
            ))
        );
    }
    assert!(matches!(
        check_context_href("::not a url"),
        Err(AppError::UnsupportedResponse(_))
    ));
}

#[test]
fn context_label_takes_name_then_title() {
    assert_eq!(
        context_label(JsonField::Text("Mix".into()), JsonField::Text("T".into())),
        Some("Mix".to_owned())
    );
    assert_eq!(
        context_label(JsonField::Missing, JsonField::Text("T".into())),
        Some("T".to_owned())
    );
    assert_eq!(
        context_label(JsonField::Other, JsonField::Text("T".into())),
        None
    );
    assert_eq!(context_label(JsonField::Missing, JsonField::Missing), None);
}

#[test]
fn playback_snapshot_reads_device_and_context() {
    let raw = RawPlayback {
        device: Some(RawDevice {
            name: Some("Desk".into()),
            is_active: None,
            is_restricted: Some(false),
        }),
        context: Some(RawContext {
            href: Some("https://api.spotify.com/v1/playlists/1".into()),
            kind: Some("playlist".into()),
        }),
        progress_ms: Some(42),
        is_playing: Some(true),
        item: Some(RawMediaItem {
            name: Some("Song".into()),
            kind: Some("track".into()),
            ..empty_item()
        }),
    };
    let snapshot = playback_snapshot(&raw);
    assert!(snapshot.playback.can_control);
    assert_eq!(snapshot.playback.device_name.as_deref(), Some("Desk"));
    assert_eq!(snapshot.playback.context_label.as_deref(), Some("Playlist"));
    assert_eq!(snapshot.playback.freshness, Freshness::Fresh);
    assert_eq!(snapshot.playback.progress_ms, Some(42));
    assert_eq!(
        snapshot.context_href.as_deref(),
        Some("https://api.spotify.com/v1/playlists/1")
    );
    assert_eq!(snapshot.playback.item.unwrap().title, "Song");

    let restricted = RawPlayback {
        device: Some(RawDevice {
            name: None,
            is_active: Some(true),
            is_restricted: Some(true),
        }),
        context: None,
        progress_ms: None,
        is_playing: None,
        item: None,
    };
    assert!(!playback_snapshot(&restricted).playback.can_control);
    let no_device = RawPlayback {
        device: None,
        ..restricted
    };
    assert!(!playback_snapshot(&no_device).playback.can_control);
}

#[test]
fn queue_views() {
    let first = RawMediaItem {
        name: Some("Next".into()),
        ..empty_item()
    };
    let queue = queue_view(Some(&first));
    assert_eq!(queue.availability, QueueAvailability::Available);
    assert_eq!(queue.next.unwrap().title, "Next");
    assert_eq!(queue_view(None).availability, QueueAvailability::Empty);
    assert_eq!(
        queue_without_content().availability,
        QueueAvailability::Unavailable
    );
}

#[test]
fn transport_routes() {
    assert_eq!(
        transport_route(CommandName::Previous, true),
        (HttpMethod::Post, "/me/player/previous")
    );
    assert_eq!(
        transport_route(CommandName::Next, false),
        (HttpMethod::Post, "/me/player/next")
    );
    assert_eq!(
        transport_route(CommandName::TogglePlayPause, true),
        (HttpMethod::Put, "/me/player/pause")
    );
    assert_eq!(
        transport_route(CommandName::TogglePlayPause, false),
        (HttpMethod::Put, "/me/player/play")
    );
}

#[test]
fn retries_are_bounded_and_never_replay_skips() {
    assert_eq!(
        retry_decision(HttpMethod::Get, AttemptOutcome::Status(503), 0),
        RetryDecision::RetryAfter(250)
    );
    assert_eq!(
        retry_decision(HttpMethod::Put, AttemptOutcome::ConnectOrTimeout, 1),
        RetryDecision::RetryAfter(1000)
    );
    assert_eq!(
        retry_decision(HttpMethod::Get, AttemptOutcome::Status(503), 2),
        RetryDecision::Deliver
    );
    assert_eq!(
        retry_decision(HttpMethod::Post, AttemptOutcome::Status(503), 0),
        RetryDecision::Deliver
    );
    assert_eq!(
        retry_decision(HttpMethod::Post, AttemptOutcome::Status(401), 0),
        RetryDecision::Unauthorized
    );
    assert_eq!(
        retry_decision(HttpMethod::Get, AttemptOutcome::Status(404), 0),
        RetryDecision::Deliver
    );
    assert_eq!(
        retry_decision(HttpMethod::Get, AttemptOutcome::OtherFailure, 0),
        RetryDecision::Deliver
    );
}
