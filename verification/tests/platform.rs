use spotify_companion_widget::platform::{
    hstring_to_string, is_spotify_source, local_media_snapshot, observe_processes, timespan_ms,
    ProcessInfo,
};

fn process(name: &str, executable: &str, start_time: u64, pid: u32) -> ProcessInfo {
    ProcessInfo {
        name: name.into(),
        executable: executable.into(),
        start_time,
        pid,
    }
}

#[test]
fn earliest_spotify_process_names_the_session() {
    let processes = vec![
        process("code", "code", 1, 10),
        process("Spotify", "", 50, 300),
        process("helper", "spotify", 20, 400),
        process("spotify", "spotify", 20, 200),
    ];
    let observation = observe_processes(&processes, "linux", false);
    assert!(observation.running);
    assert_eq!(observation.identity.as_deref(), Some("linux:spotify:200:20"));
}

#[test]
fn windows_needs_the_exe_name() {
    let processes = vec![process("spotify", "spotify", 1, 1)];
    assert!(!observe_processes(&processes, "windows", true).running);
    let processes = vec![process("Spotify.exe", "", 7, 9)];
    assert_eq!(
        observe_processes(&processes, "windows", true).identity.as_deref(),
        Some("windows:spotify:9:7")
    );
}

#[test]
fn no_spotify_process_means_not_running() {
    let observation = observe_processes(&vec![process("bash", "bash", 1, 1)], "linux", false);
    assert!(!observation.running);
    assert_eq!(observation.identity, None);
}

#[test]
fn media_session_sources() {
    assert!(is_spotify_source("Spotify.exe"));
    assert!(is_spotify_source("SpotifyAB.SpotifyMusic_zpdnekdrzrea0!Spotify"));
    assert!(!is_spotify_source("Chrome"));
    assert!(!is_spotify_source("open.spotify.com in Chrome"));
    assert!(!is_spotify_source("MSEdge spotify"));
}

#[test]
fn media_session_fields() {
    assert_eq!(hstring_to_string("  Title \n"), "Title");
    assert_eq!(timespan_ms(25_000_000), Some(2_500));
    assert_eq!(timespan_ms(-1), None);
    assert!(local_media_snapshot(" ", "", "Album", true, None, None).is_none());
    let snapshot = local_media_snapshot(" Song ", "Artist", "  ", false, Some(1), Some(2)).unwrap();
    assert_eq!(snapshot.title, "Song");
    assert_eq!(snapshot.album, None);
    assert!(!snapshot.is_playing);
}
