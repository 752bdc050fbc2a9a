use spotify_companion_widget::domain::{
    autostart_change, AppSettings, Availability, SettingsPatch, SettingsView, StatusTone,
    ViewState,
};

#[test]
fn default_settings() {
    let settings = AppSettings::default();
    assert_eq!(settings.schema_version, 1);
    assert!(settings.window.always_on_top);
    assert_eq!(settings.window.x, None);
    assert!(!settings.startup.launch_at_login);
    assert!(!settings.startup.show_widget_at_launch);
    assert_eq!(settings.display.theme, "system");
    assert_eq!(settings.display.reduced_motion, "system");
    assert!(settings.display.show_listening_time);
    assert!(settings.playback.prefer_local_windows_controls);
    assert!(settings.playback.account_wide_listening_timer);
}

#[test]
fn default_view_state() {
    let state = ViewState::default();
    assert_eq!(state.availability, Availability::Unknown);
    assert_eq!(state.status_message.as_deref(), Some("Starting companion…"));
    assert_eq!(state.status_tone, StatusTone::Neutral);
    assert_eq!(state.revision, 0);
    assert_eq!(state.settings, SettingsView::default());
    assert!(!state.playback.can_control);
}

#[test]
fn settings_view_mirrors_settings() {
    let mut settings = AppSettings::default();
    settings.window.always_on_top = false;
    settings.startup.launch_at_login = true;
    let view = SettingsView::from(&settings);
    assert!(!view.always_on_top);
    assert!(view.launch_at_login);
    assert!(view.show_spotify_open_time);
    assert!(view.show_listening_time);
}

#[test]
fn patch_changes_only_named_settings() {
    let mut settings = AppSettings::default();
    settings.window.x = Some(10);
    let patch = SettingsPatch {
        always_on_top: Some(false),
        launch_at_login: None,
        show_spotify_open_time: None,
        show_listening_time: Some(false),
    };
    settings.apply_patch(&patch);
    assert!(!settings.window.always_on_top);
    assert!(!settings.startup.launch_at_login);
    assert!(settings.display.show_spotify_open_time);
    assert!(!settings.display.show_listening_time);
    assert_eq!(settings.window.x, Some(10));
}

#[test]
fn login_item_changes_only_when_out_of_step() {
    assert_eq!(autostart_change(true, false), Some(true));
    assert_eq!(autostart_change(false, true), Some(false));
    assert_eq!(autostart_change(true, true), None);
    assert_eq!(autostart_change(false, false), None);
}
