use spotify_companion_widget::error::AppError;
use spotify_companion_widget::logs::rotation_plan;
use spotify_companion_widget::storage::{SettingsFile, Storage};
use spotify_companion_widget::text::{decimal_string, parse_u64, trim, truncate};

#[test]
fn error_messages() {
    assert_eq!(
        AppError::RateLimited(17).message(),
        "Spotify temporarily limited requests. Retry in 17s."
    );
    assert_eq!(
        AppError::RateLimited(0).message(),
        "Spotify temporarily limited requests. Retry in 0ns."
    );
    assert_eq!(
        AppError::Storage("disk full".into()).message(),
        "Settings storage failed: disk full"
    );
    assert_eq!(
        AppError::ConfigurationRequired.message(),
        "Spotify client ID is not configured."
    );
    assert_eq!(
        AppError::Authorization("x".into()).message(),
        "Authorization failed: x"
    );
}

#[test]
fn text_helpers() {
    assert_eq!(decimal_string(0), "0");
    assert_eq!(decimal_string(18_446_744_073_709_551_615), "18446744073709551615");
    assert_eq!(parse_u64("+42"), Some(42));
    assert_eq!(parse_u64("18446744073709551616"), None);
    assert_eq!(parse_u64(""), None);
    assert_eq!(parse_u64("+"), None);
    assert_eq!(parse_u64("-1"), None);
    assert_eq!(truncate("héllo", 2), "hé");
    assert_eq!(truncate("hi", 5), "hi");
    assert_eq!(trim("\u{3000} x y \t"), "x y");
}

fn storage() -> Storage {
    Storage::from_dirs("/cfg".into(), "/data".into())
}

#[test]
fn storage_paths() {
    let storage = storage();
    assert_eq!(storage.settings_path(), "/cfg/settings.json");
    assert_eq!(storage.session_path(), "/data/session.json");
    assert_eq!(storage.log_dir(), "/data/logs");
    let plan = storage.reset_local_files();
    assert_eq!(plan.files, vec!["/cfg/settings.json", "/data/session.json"]);
    assert_eq!(plan.emptied_dirs, vec!["/data/logs", "/data/artwork-cache"]);
}

#[test]
fn unusable_settings_are_moved_aside_and_defaults_used() {
    let storage = storage();
    let load = storage.load_settings(SettingsFile::Unusable);
    assert_eq!(load.settings.schema_version, 1);
    let backup = load.backup_to.unwrap();
    assert!(backup.starts_with("/cfg/settings.corrupt-"));
    assert!(backup.ends_with(".json"));
    let missing = storage.load_settings(SettingsFile::Missing);
    assert!(missing.backup_to.is_none());
    let mut custom = missing.settings.clone();
    custom.startup.launch_at_login = true;
    let parsed = storage.load_settings(SettingsFile::Parsed(custom.clone()));
    assert_eq!(parsed.settings, custom);
    assert!(parsed.backup_to.is_none());
}

#[test]
fn log_rotation_plan() {
    assert!(rotation_plan("/logs", 5 * 1024 * 1024 - 1).is_none());
    let plan = rotation_plan("/logs", 5 * 1024 * 1024).unwrap();
    assert_eq!(plan.oldest, "/logs/companion.log.5");
    assert_eq!(
        plan.shifts,
        vec![
            ("/logs/companion.log.4".to_owned(), "/logs/companion.log.5".to_owned()),
            ("/logs/companion.log.3".to_owned(), "/logs/companion.log.4".to_owned()),
            ("/logs/companion.log.2".to_owned(), "/logs/companion.log.3".to_owned()),
            ("/logs/companion.log.1".to_owned(), "/logs/companion.log.2".to_owned()),
        ]
    );
    assert_eq!(plan.active, "/logs/companion.log");
    assert_eq!(plan.first_rotated, "/logs/companion.log.1");
}
