//! The widget's domain model: what the presentation layer renders, and the
//! user's persisted settings.

use vstd::prelude::*;

use crate::outside::utc_now_millis;

verus! {

/// Whether Spotify data can be shown, and if not, why.
#[derive(Debug, Clone, Copy, PartialEq, Eq)]
pub enum Availability {
    Unknown,
    ConfigurationRequired,
    SpotifyClosed,
    AuthenticationRequired,
    NoActiveDevice,
    Ready,
    RateLimited,
    Offline,
}

/// How current the displayed playback data is.
#[derive(Debug, Clone, Copy, PartialEq, Eq)]
pub enum Freshness {
    Fresh,
    Stale,
    Unknown,
}

/// The kind of item that is playing.
#[derive(Debug, Clone, Copy, PartialEq, Eq)]
pub enum MediaKind {
    Track,
    Episode,
    Advertisement,
    Local,
    Unknown,
}

/// One playable item as the widget shows it.
#[derive(Debug, Clone, PartialEq, Eq)]
pub struct MediaItem {
    pub provider_uri: Option<String>,
    pub kind: MediaKind,
    pub title: String,
    pub creators: Vec<String>,
    pub album_or_show: Option<String>,
    pub duration_ms: Option<u64>,
    pub artwork_url: Option<String>,
    pub is_local: bool,
    pub is_explicit: Option<bool>,
}

/// The playback part of the view. `observed_at` is the wall-clock time of the
/// observation in milliseconds since the UNIX epoch.
#[derive(Debug, Clone, PartialEq, Eq)]
pub struct PlaybackView {
    pub item: Option<MediaItem>,
    pub is_playing: Option<bool>,
    pub can_control: bool,
    pub progress_ms: Option<u64>,
    pub observed_at: i64,
    pub freshness: Freshness,
    pub context_label: Option<String>,
    pub device_name: Option<String>,
}

impl Default for PlaybackView {
    /// No item, nothing known of playback, observed now.
    fn default() -> (r: Self)
        ensures
            r.item is None,
            r.is_playing is None,
            !r.can_control,
            r.progress_ms is None,
            r.freshness == Freshness::Unknown,
            r.context_label is None,
            r.device_name is None,
    {
        PlaybackView {
            item: None,
            is_playing: None,
            can_control: false,
            progress_ms: None,
            observed_at: utc_now_millis(),
            freshness: Freshness::Unknown,
            context_label: None,
            device_name: None,
        }
    }
}

/// Whether the queue's next item is known.
#[derive(Debug, Clone, Copy, PartialEq, Eq)]
pub enum QueueAvailability {
    Available,
    Empty,
    Unavailable,
    Stale,
}

/// The next item of the playback queue.
#[derive(Debug, Clone, PartialEq, Eq)]
pub struct QueueView {
    pub next: Option<MediaItem>,
    pub availability: QueueAvailability,
}

impl Default for QueueView {
    /// No next item; the queue is unavailable.
    fn default() -> (r: Self)
        ensures
            r.next is None,
            r.availability == QueueAvailability::Unavailable,
    {
        QueueView { next: None, availability: QueueAvailability::Unavailable }
    }
}

/// The session counters as the widget shows them.
#[derive(Debug, Clone, PartialEq, Eq)]
pub struct SessionView {
    pub spotify_open_ms: u64,
    pub active_listening_ms: u64,
    pub spotify_running: bool,
}

impl Default for SessionView {
    /// Zero counters; Spotify not running.
    fn default() -> (r: Self)
        ensures
            r.spotify_open_ms == 0,
            r.active_listening_ms == 0,
            !r.spotify_running,
    {
        SessionView { spotify_open_ms: 0, active_listening_ms: 0, spotify_running: false }
    }
}

/// A transport command.
#[derive(Debug, Clone, Copy, PartialEq, Eq)]
pub enum CommandName {
    Previous,
    TogglePlayPause,
    Next,
}

/// The command part of the view.
#[derive(Debug, Clone, PartialEq, Eq)]
pub struct CommandView {
    pub pending: Option<CommandName>,
    pub last_error: Option<String>,
}

impl Default for CommandView {
    /// No pending command and no error.
    fn default() -> (r: Self)
        ensures
            r.pending is None,
            r.last_error is None,
    {
        CommandView { pending: None, last_error: None }
    }
}

/// The tone of the status line.
#[derive(Debug, Clone, Copy, PartialEq, Eq)]
pub enum StatusTone {
    Neutral,
    Positive,
    Warning,
    Critical,
}

/// The settings the presentation layer shows.
#[derive(Debug, Clone, PartialEq, Eq)]
pub struct SettingsView {
    pub always_on_top: bool,
    pub launch_at_login: bool,
    pub show_spotify_open_time: bool,
    pub show_listening_time: bool,
}

impl Default for SettingsView {
    /// Always on top, no launch at login, both counters shown.
    fn default() -> (r: Self)
        ensures
            r.always_on_top,
            !r.launch_at_login,
            r.show_spotify_open_time,
            r.show_listening_time,
    {
        SettingsView {
            always_on_top: true,
            launch_at_login: false,
            show_spotify_open_time: true,
            show_listening_time: true,
        }
    }
}

/// The whole immutable snapshot that the presentation layer renders.
#[derive(Debug, Clone, PartialEq, Eq)]
pub struct ViewState {
    pub availability: Availability,
    pub playback: PlaybackView,
    pub queue: QueueView,
    pub session: SessionView,
    pub command: CommandView,
    pub settings: SettingsView,
    pub status_message: Option<String>,
    pub status_tone: StatusTone,
    pub revision: u64,
}

impl Default for ViewState {
    /// The state before anything is known: availability unknown, default
    /// parts, the start-up message, neutral tone and revision 0.
    fn default() -> (r: Self)
        ensures
            r.availability == Availability::Unknown,
            r.playback.item is None,
            r.playback.is_playing is None,
            !r.playback.can_control,
            r.playback.progress_ms is None,
            r.playback.freshness == Freshness::Unknown,
            r.playback.context_label is None,
            r.playback.device_name is None,
            r.queue.next is None,
            r.queue.availability == QueueAvailability::Unavailable,
            r.session == (SessionView {
                spotify_open_ms: 0,
                active_listening_ms: 0,
                spotify_running: false,
            }),
            r.command.pending is None,
            r.command.last_error is None,
            r.settings == (SettingsView {
                always_on_top: true,
                launch_at_login: false,
                show_spotify_open_time: true,
                show_listening_time: true,
            }),
            r.status_message is Some,
            r.status_message->0@ == "Starting companion…"@,
            r.status_tone == StatusTone::Neutral,
            r.revision == 0,
    {
        ViewState {
            availability: Availability::Unknown,
            playback: PlaybackView::default(),
            queue: QueueView::default(),
            session: SessionView::default(),
            command: CommandView::default(),
            settings: SettingsView::default(),
            status_message: Some(String::from_str("Starting companion…")),
            status_tone: StatusTone::Neutral,
            revision: 0,
        }
    }
}

/// Placement and stacking of the widget window. Coordinates are logical pixels.
#[derive(Debug, Clone, PartialEq, Eq)]
pub struct WindowSettings {
    pub x: Option<i32>,
    pub y: Option<i32>,
    pub monitor_id: Option<String>,
    pub always_on_top: bool,
}

impl Default for WindowSettings {
    /// No saved position or monitor; always on top.
    fn default() -> (r: Self)
        ensures
            r.x is None,
            r.y is None,
            r.monitor_id is None,
            r.always_on_top,
    {
        WindowSettings { x: None, y: None, monitor_id: None, always_on_top: true }
    }
}

/// What happens when the application starts.
#[derive(Debug, Clone, PartialEq, Eq)]
pub struct StartupSettings {
    pub launch_at_login: bool,
    pub show_widget_at_launch: bool,
}

impl Default for StartupSettings {
    /// Neither launch at login nor show at launch.
    fn default() -> (r: Self)
        ensures
            !r.launch_at_login,
            !r.show_widget_at_launch,
    {
        StartupSettings { launch_at_login: false, show_widget_at_launch: false }
    }
}

/// Appearance settings.
#[derive(Debug, Clone, PartialEq, Eq)]
pub struct DisplaySettings {
    pub theme: String,
    pub show_spotify_open_time: bool,
    pub show_listening_time: bool,
    pub reduced_motion: String,
}

impl Default for DisplaySettings {
    /// System theme and motion; both counters shown.
    fn default() -> (r: Self)
        ensures
            r.theme@ == "system"@,
            r.show_spotify_open_time,
            r.show_listening_time,
            r.reduced_motion@ == "system"@,
    {
        DisplaySettings {
            theme: String::from_str("system"),
            show_spotify_open_time: true,
            show_listening_time: true,
            reduced_motion: String::from_str("system"),
        }
    }
}

/// Playback behaviour settings.
#[derive(Debug, Clone, PartialEq, Eq)]
pub struct PlaybackSettings {
    pub prefer_local_windows_controls: bool,
    pub account_wide_listening_timer: bool,
}

impl Default for PlaybackSettings {
    /// Local controls preferred; account-wide listening timer.
    fn default() -> (r: Self)
        ensures
            r.prefer_local_windows_controls,
            r.account_wide_listening_timer,
    {
        PlaybackSettings { prefer_local_windows_controls: true, account_wide_listening_timer: true }
    }
}

/// All persisted settings.
#[derive(Debug, Clone, PartialEq, Eq)]
pub struct AppSettings {
    pub schema_version: u32,
    pub window: WindowSettings,
    pub startup: StartupSettings,
    pub display: DisplaySettings,
    pub playback: PlaybackSettings,
}

/// The default settings, field by field.
pub open spec fn is_default_settings(s: AppSettings) -> bool {
    &&& s.schema_version == 1
    &&& s.window.x is None
    &&& s.window.y is None
    &&& s.window.monitor_id is None
    &&& s.window.always_on_top
    &&& !s.startup.launch_at_login
    &&& !s.startup.show_widget_at_launch
    &&& s.display.theme@ == "system"@
    &&& s.display.show_spotify_open_time
    &&& s.display.show_listening_time
    &&& s.display.reduced_motion@ == "system"@
    &&& s.playback.prefer_local_windows_controls
    &&& s.playback.account_wide_listening_timer
}

impl Default for AppSettings {
    /// Schema version 1 and the default of every section.
    fn default() -> (r: Self)
        ensures
            is_default_settings(r),
    {
        AppSettings {
            schema_version: 1,
            window: WindowSettings::default(),
            startup: StartupSettings::default(),
            display: DisplaySettings::default(),
            playback: PlaybackSettings::default(),
        }
    }
}

/// The settings view of persisted settings.
pub open spec fn settings_view_of(settings: AppSettings) -> SettingsView {
    SettingsView {
        always_on_top: settings.window.always_on_top,
        launch_at_login: settings.startup.launch_at_login,
        show_spotify_open_time: settings.display.show_spotify_open_time,
        show_listening_time: settings.display.show_listening_time,
    }
}

impl SettingsView {
    /// The part of the settings that the presentation layer shows.
    pub fn from_settings(settings: &AppSettings) -> (r: SettingsView)
        ensures
            r == settings_view_of(*settings),
    {
        SettingsView {
            always_on_top: settings.window.always_on_top,
            launch_at_login: settings.startup.launch_at_login,
            show_spotify_open_time: settings.display.show_spotify_open_time,
            show_listening_time: settings.display.show_listening_time,
        }
    }
}

impl<'a> From<&'a AppSettings> for SettingsView {
    fn from(settings: &'a AppSettings) -> (r: SettingsView) {
        SettingsView::from_settings(settings)
    }
}

impl<'a> vstd::std_specs::convert::FromSpecImpl<&'a AppSettings> for SettingsView {
    open spec fn obeys_from_spec() -> bool {
        true
    }

    open spec fn from_spec(settings: &'a AppSettings) -> SettingsView {
        settings_view_of(*settings)
    }
}

/// A partial settings update from the presentation layer: each present
/// field replaces the corresponding setting.
#[derive(Debug, Clone, PartialEq, Eq)]
pub struct SettingsPatch {
    pub always_on_top: Option<bool>,
    pub launch_at_login: Option<bool>,
    pub show_spotify_open_time: Option<bool>,
    pub show_listening_time: Option<bool>,
}

/// The value a patch field leaves: the new value when present, the old one otherwise.
pub open spec fn patched(field: Option<bool>, current: bool) -> bool {
    match field {
        Some(v) => v,
        None => current,
    }
}

/// The settings after a patch: the four settings it names take the
/// patch's values; every other setting is unchanged.
pub open spec fn patch_settings(s: AppSettings, p: SettingsPatch) -> AppSettings {
    AppSettings {
        window: WindowSettings {
            always_on_top: patched(p.always_on_top, s.window.always_on_top),
            ..s.window
        },
        startup: StartupSettings {
            launch_at_login: patched(p.launch_at_login, s.startup.launch_at_login),
            ..s.startup
        },
        display: DisplaySettings {
            show_spotify_open_time: patched(
                p.show_spotify_open_time,
                s.display.show_spotify_open_time,
            ),
            show_listening_time: patched(p.show_listening_time, s.display.show_listening_time),
            ..s.display
        },
        ..s
    }
}

impl AppSettings {
    /// Applies a settings patch; see `patch_settings`.
    pub fn apply_patch(&mut self, patch: &SettingsPatch)
        ensures
            *final(self) == patch_settings(*old(self), *patch),
    {
        if let Some(value) = patch.always_on_top {
            self.window.always_on_top = value;
        }
        if let Some(value) = patch.launch_at_login {
            self.startup.launch_at_login = value;
        }
        if let Some(value) = patch.show_spotify_open_time {
            self.display.show_spotify_open_time = value;
        }
        if let Some(value) = patch.show_listening_time {
            self.display.show_listening_time = value;
        }
    }
}

/// Applying a patch twice is the same as applying it once; an empty patch
/// changes nothing; and the settings view afterwards shows every value the
/// patch named.
pub proof fn lemma_patch_laws(s: AppSettings, p: SettingsPatch)
    ensures
        patch_settings(patch_settings(s, p), p) == patch_settings(s, p),
        (p.always_on_top is None && p.launch_at_login is None && p.show_spotify_open_time is None
            && p.show_listening_time is None) ==> patch_settings(s, p) == s,
        p.always_on_top matches Some(v) ==> settings_view_of(patch_settings(s, p)).always_on_top
            == v,
        p.launch_at_login matches Some(v) ==> settings_view_of(
            patch_settings(s, p),
        ).launch_at_login == v,
        p.show_spotify_open_time matches Some(v) ==> settings_view_of(
            patch_settings(s, p),
        ).show_spotify_open_time == v,
        p.show_listening_time matches Some(v) ==> settings_view_of(
            patch_settings(s, p),
        ).show_listening_time == v,
{
}

/// How the login item must change for the launch-at-login setting:
/// enable it when wanted and not enabled, disable it when enabled and not
/// wanted, leave it otherwise.
pub fn autostart_change(launch_at_login: bool, enabled: bool) -> (r: Option<bool>)
    ensures
        r == (if launch_at_login && !enabled {
            Some(true)
        } else if !launch_at_login && enabled {
            Some(false)
        } else {
            None
        }),
{
    if launch_at_login && !enabled {
        Some(true)
    } else if !launch_at_login && enabled {
        Some(false)
    } else {
        None
    }
}

} // verus!
