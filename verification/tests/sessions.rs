use spotify_companion_widget::sessions::SessionTracker;
use spotify_companion_widget::storage::SessionCheckpoint;

const BASE: u64 = 1_000_000;

#[test]
fn counts_open_and_listening_separately() {
    let base = BASE;
    let mut tracker = SessionTracker::new(None, base);
    tracker.observe_process_at(true, Some("spotify:1".into()), base, 0);
    tracker.set_confirmed_playing(true, base);
    tracker.accumulate(base + 5_000);
    tracker.set_confirmed_playing(false, base + 5_000);
    tracker.accumulate(base + 8_000);
    assert_eq!(tracker.snapshot().spotify_open_ms, 8_000);
    assert_eq!(tracker.snapshot().active_listening_ms, 5_000);
}

#[test]
fn ignores_sleep_sized_unverified_delta() {
    let base = BASE;
    let mut tracker = SessionTracker::new(None, base);
    tracker.observe_process_at(true, Some("spotify:1".into()), base, 0);
    tracker.set_confirmed_playing(true, base);
    tracker.accumulate(base + 60_000);
    assert_eq!(tracker.snapshot().spotify_open_ms, 0);
    assert_eq!(tracker.snapshot().active_listening_ms, 0);
}

#[test]
fn debounces_short_process_absence() {
    let base = BASE;
    let mut tracker = SessionTracker::new(None, base);
    tracker.observe_process_at(true, Some("spotify:1".into()), base, 0);
    tracker.observe_process_at(false, None, base + 1_000, 0);
    tracker.observe_process_at(true, Some("spotify:1".into()), base + 2_000, 0);
    assert!(tracker.snapshot().spotify_running);
}

#[test]
fn long_absence_ends_the_session_and_resets_counters() {
    let mut tracker = SessionTracker::new(None, BASE);
    tracker.observe_process_at(true, Some("spotify:1".into()), BASE, 0);
    tracker.tick(BASE + 4_000);
    assert_eq!(tracker.snapshot().spotify_open_ms, 4_000);
    tracker.observe_process_at(false, None, BASE + 5_000, 0);
    assert!(tracker.snapshot().spotify_running);
    tracker.observe_process_at(false, None, BASE + 8_000, 0);
    let snapshot = tracker.snapshot();
    assert!(!snapshot.spotify_running);
    assert_eq!(snapshot.spotify_open_ms, 0);
    assert_eq!(snapshot.active_listening_ms, 0);
    assert!(tracker.checkpoint().is_none());
}

#[test]
fn exactly_eight_seconds_is_still_counted() {
    let mut tracker = SessionTracker::new(None, BASE);
    tracker.observe_process_at(true, None, BASE, 0);
    tracker.accumulate(BASE + 8_000);
    assert_eq!(tracker.snapshot().spotify_open_ms, 8_000);
    tracker.accumulate(BASE + 16_001);
    assert_eq!(tracker.snapshot().spotify_open_ms, 8_000);
}

#[test]
fn nothing_is_counted_while_asleep() {
    let mut tracker = SessionTracker::new(None, BASE);
    tracker.observe_process_at(true, Some("spotify:7".into()), BASE, 0);
    tracker.set_confirmed_playing(true, BASE);
    tracker.tick(BASE + 2_000);
    tracker.on_sleep(BASE + 3_000);
    tracker.tick(BASE + 5_000);
    tracker.on_resume(BASE + 600_000);
    tracker.tick(BASE + 601_000);
    let snapshot = tracker.snapshot();
    assert_eq!(snapshot.spotify_open_ms, 4_000);
    assert_eq!(snapshot.active_listening_ms, 4_000);
}

#[test]
fn a_new_process_identity_restarts_the_session() {
    let mut tracker = SessionTracker::new(None, BASE);
    tracker.observe_process_at(true, Some("spotify:1".into()), BASE, 0);
    tracker.tick(BASE + 3_000);
    tracker.observe_process_at(true, Some("spotify:2".into()), BASE + 4_000, 0);
    assert_eq!(tracker.snapshot().spotify_open_ms, 0);
    let checkpoint = tracker.checkpoint().expect("running session has a checkpoint");
    assert_eq!(checkpoint.platform_process_identity, "spotify:2");
}

#[test]
fn checkpoint_of_the_same_process_is_recovered() {
    let saved = SessionCheckpoint {
        schema_version: 1,
        session_id: 42,
        platform_process_identity: "spotify:9".into(),
        started_at: 1_700_000_000_000,
        spotify_open_ms: 60_000,
        active_listening_ms: 30_000,
        last_checkpoint_at: 1_700_000_060_000,
        was_playing: true,
    };
    let mut tracker = SessionTracker::new(Some(saved), BASE);
    tracker.observe_process_at(true, Some("spotify:9".into()), BASE, 5);
    tracker.tick(BASE + 1_000);
    let checkpoint = tracker.checkpoint().expect("checkpoint");
    assert_eq!(checkpoint.session_id, 42);
    assert_eq!(checkpoint.started_at, 1_700_000_000_000);
    assert_eq!(checkpoint.spotify_open_ms, 61_000);
    assert_eq!(checkpoint.active_listening_ms, 30_000);
    assert!(!checkpoint.was_playing);
}

#[test]
fn checkpoint_of_another_process_is_discarded() {
    let saved = SessionCheckpoint {
        schema_version: 1,
        session_id: 42,
        platform_process_identity: "spotify:9".into(),
        started_at: 1,
        spotify_open_ms: 60_000,
        active_listening_ms: 30_000,
        last_checkpoint_at: 2,
        was_playing: false,
    };
    let mut tracker = SessionTracker::new(Some(saved), BASE);
    tracker.observe_process_at(true, Some("spotify:10".into()), BASE, 77);
    let checkpoint = tracker.checkpoint().expect("checkpoint");
    assert_eq!(checkpoint.spotify_open_ms, 0);
    assert_eq!(checkpoint.started_at, 77);
    assert_ne!(checkpoint.session_id, 42);
}

#[test]
fn missing_identity_uses_the_default_identity() {
    let mut tracker = SessionTracker::new(None, BASE);
    tracker.observe_process(true, None, BASE);
    let checkpoint = tracker.checkpoint().expect("checkpoint");
    assert_eq!(checkpoint.platform_process_identity, "spotify-process");
    assert_eq!(checkpoint.schema_version, 1);
}
