//! Local persistence: the session checkpoint record and the layout and
//! recovery rules of the widget's local files.

use vstd::prelude::*;

use crate::domain::{is_default_settings, AppSettings};
use crate::outside::{has_no_separator, is_plain_file_name, joined_path, path_join, path_with_extension, replace_extension, utc_now_secs};
use crate::text::{decimal, ends_with_seq, lemma_decimal_digits, push_signed_decimal, signed_decimal};

verus! {

/// A persisted snapshot of the running session, written periodically so
/// that the counters survive an application restart while Spotify keeps
/// running. Times are wall-clock milliseconds since the UNIX epoch.
#[derive(Debug, Clone, PartialEq, Eq)]
pub struct SessionCheckpoint {
    pub schema_version: u32,
    pub session_id: u128,
    pub platform_process_identity: String,
    pub started_at: i64,
    pub spotify_open_ms: u64,
    pub active_listening_ms: u64,
    pub last_checkpoint_at: i64,
    pub was_playing: bool,
}

/// The mathematical content of a checkpoint.
pub struct CheckpointModel {
    pub schema_version: u32,
    pub session_id: u128,
    pub platform_process_identity: Seq<char>,
    pub started_at: i64,
    pub spotify_open_ms: u64,
    pub active_listening_ms: u64,
    pub last_checkpoint_at: i64,
    pub was_playing: bool,
}

impl View for SessionCheckpoint {
    type V = CheckpointModel;

    open spec fn view(&self) -> CheckpointModel {
        CheckpointModel {
            schema_version: self.schema_version,
            session_id: self.session_id,
            platform_process_identity: self.platform_process_identity@,
            started_at: self.started_at,
            spotify_open_ms: self.spotify_open_ms,
            active_listening_ms: self.active_listening_ms,
            last_checkpoint_at: self.last_checkpoint_at,
            was_playing: self.was_playing,
        }
    }
}

/// Where the widget keeps its files: a configuration directory for the
/// settings and a local data directory for checkpoints, logs and caches.
#[derive(Debug, Clone)]
pub struct Storage {
    config_dir: String,
    data_dir: String,
}

/// The contents of the settings file as read from disk.
#[derive(Debug, Clone)]
pub enum SettingsFile {
    /// There is no settings file.
    Missing,
    /// The file was read and parsed.
    Parsed(AppSettings),
    /// The file could not be read or parsed.
    Unusable,
}

/// The settings to use, and where to move an unusable settings file so it
/// is preserved for diagnosis.
#[derive(Debug, Clone)]
pub struct SettingsLoad {
    pub settings: AppSettings,
    pub backup_to: Option<String>,
}

/// The files and directories a reset of local data removes.
#[derive(Debug, Clone)]
pub struct ResetPlan {
    /// Files removed when they exist.
    pub files: Vec<String>,
    /// Directories whose contents are removed when they exist.
    pub emptied_dirs: Vec<String>,
}

/// Whether no character of `s` is a slash or a backslash.
spec fn no_separator(s: Seq<char>) -> bool
    decreases s.len(),
{
    s.len() == 0 || (s[0] != '/' && s[0] != '\\' && no_separator(s.drop_first()))
}

proof fn lemma_no_separator(s: Seq<char>)
    requires
        no_separator(s),
    ensures
        has_no_separator(s),
    decreases s.len(),
{
    if s.len() > 0 {
        lemma_no_separator(s.drop_first());
        assert forall|i: int| 0 <= i < s.len() implies #[trigger] s[i] != '/' && s[i] != '\\' by {
            if i > 0 {
                assert(s[i] == s.drop_first()[i - 1]);
            }
        }
    }
}

proof fn lemma_plain_file_name(name: Seq<char>)
    requires
        name.len() >= 3,
        no_separator(name),
    ensures
        is_plain_file_name(name),
{
    reveal_strlit(".");
    reveal_strlit("..");
    lemma_no_separator(name);
}

/// The extension given to a corrupt settings file holds no path separator.
proof fn lemma_backup_extension_has_no_separator(secs: int)
    ensures
        has_no_separator("corrupt-"@ + signed_decimal(secs) + ".json"@),
{
    reveal_strlit("corrupt-");
    reveal_strlit(".json");
    reveal_with_fuel(no_separator, 9);
    lemma_no_separator("corrupt-"@);
    lemma_no_separator(".json"@);
    let n: nat = if secs < 0 {
        (-secs) as nat
    } else {
        secs as nat
    };
    lemma_decimal_digits(n);
    let d = signed_decimal(secs);
    assert(has_no_separator(d)) by {
        assert forall|i: int| 0 <= i < d.len() implies #[trigger] d[i] != '/' && d[i] != '\\' by {
            if secs < 0 {
                if i > 0 {
                    assert(d[i] == decimal(n)[i - 1]);
                }
            } else {
                assert(d[i] == decimal(n)[i]);
            }
        }
    }
    let e = "corrupt-"@ + d + ".json"@;
    assert forall|i: int| 0 <= i < e.len() implies #[trigger] e[i] != '/' && e[i] != '\\' by {
        if i < 8 {
            assert(e[i] == "corrupt-"@[i]);
        } else if i < 8 + d.len() {
            assert(e[i] == d[i - 8]);
        } else {
            assert(e[i] == ".json"@[i - 8 - d.len()]);
        }
    }
}

impl Storage {
    /// A storage rooted at existing configuration and data directories.
    pub fn from_dirs(config_dir: String, data_dir: String) -> (r: Storage)
        ensures
            r.config_dir() == config_dir@,
            r.data_dir() == data_dir@,
    {
        Storage { config_dir, data_dir }
    }

    /// The configuration directory.
    pub closed spec fn config_dir(&self) -> Seq<char> {
        self.config_dir@
    }

    /// The local data directory.
    pub closed spec fn data_dir(&self) -> Seq<char> {
        self.data_dir@
    }

    /// `settings.json` in the configuration directory.
    pub fn settings_path(&self) -> (r: String)
        ensures
            r@ == joined_path(self.config_dir(), "settings.json"@),
            ends_with_seq(r@, "settings.json"@),
    {
        proof {
            reveal_strlit("settings.json");
            reveal_with_fuel(no_separator, 14);
            lemma_plain_file_name("settings.json"@);
        }
        path_join(self.config_dir.as_str(), "settings.json")
    }

    /// `session.json` in the data directory.
    pub fn session_path(&self) -> (r: String)
        ensures
            r@ == joined_path(self.data_dir(), "session.json"@),
            ends_with_seq(r@, "session.json"@),
    {
        proof {
            reveal_strlit("session.json");
            reveal_with_fuel(no_separator, 14);
            lemma_plain_file_name("session.json"@);
        }
        path_join(self.data_dir.as_str(), "session.json")
    }

    /// The `logs` directory in the data directory.
    pub fn log_dir(&self) -> (r: String)
        ensures
            r@ == joined_path(self.data_dir(), "logs"@),
            ends_with_seq(r@, "logs"@),
    {
        proof {
            reveal_strlit("logs");
            reveal_with_fuel(no_separator, 14);
            lemma_plain_file_name("logs"@);
        }
        path_join(self.data_dir.as_str(), "logs")
    }

    /// The `artwork-cache` directory in the data directory.
    pub fn artwork_cache_dir(&self) -> (r: String)
        ensures
            r@ == joined_path(self.data_dir(), "artwork-cache"@),
            ends_with_seq(r@, "artwork-cache"@),
    {
        proof {
            reveal_strlit("artwork-cache");
            reveal_with_fuel(no_separator, 14);
            lemma_plain_file_name("artwork-cache"@);
        }
        path_join(self.data_dir.as_str(), "artwork-cache")
    }

    /// The settings to use for what was read from the settings file: the
    /// parsed settings; the defaults when there is no file; the defaults
    /// when the file is unusable, which is then moved aside to
    /// `settings.corrupt-<seconds>.json` beside it.
    pub fn load_settings(&self, file: SettingsFile) -> (r: SettingsLoad)
        ensures
            match file {
                SettingsFile::Parsed(s) => r.settings == s && r.backup_to is None,
                SettingsFile::Missing => is_default_settings(r.settings) && r.backup_to is None,
                SettingsFile::Unusable => is_default_settings(r.settings) && exists|secs: i64|
                    #![trigger signed_decimal(secs as int)]
                    r.backup_to matches Some(b) && b@ == path_with_extension(
                        joined_path(self.config_dir(), "settings.json"@),
                        "corrupt-"@ + signed_decimal(secs as int) + ".json"@,
                    ),
            },
    {
        match file {
            SettingsFile::Parsed(settings) => SettingsLoad { settings, backup_to: None },
            SettingsFile::Missing => SettingsLoad { settings: AppSettings::default(), backup_to: None },
            SettingsFile::Unusable => {
                let secs = utc_now_secs();
                let mut extension = String::from_str("corrupt-");
                push_signed_decimal(&mut extension, secs);
                extension.append(".json");
                let path = self.settings_path();
                proof {
                    lemma_backup_extension_has_no_separator(secs as int);
                }
                let backup = replace_extension(path.as_str(), extension.as_str());
                // Names the witness of the `exists` in the contract.
                assert(signed_decimal(secs as int) == signed_decimal(secs as int));
                SettingsLoad { settings: AppSettings::default(), backup_to: Some(backup) }
            },
        }
    }

    /// What a reset of local data removes: the settings and session files,
    /// and the contents of the log and artwork-cache directories.
    pub fn reset_local_files(&self) -> (r: ResetPlan)
        ensures
            r.files@.len() == 2,
            r.files@[0]@ == joined_path(self.config_dir(), "settings.json"@),
            r.files@[1]@ == joined_path(self.data_dir(), "session.json"@),
            r.emptied_dirs@.len() == 2,
            r.emptied_dirs@[0]@ == joined_path(self.data_dir(), "logs"@),
            r.emptied_dirs@[1]@ == joined_path(self.data_dir(), "artwork-cache"@),
    {
        let mut files: Vec<String> = Vec::new();
        files.push(self.settings_path());
        files.push(self.session_path());
        let mut emptied_dirs: Vec<String> = Vec::new();
        emptied_dirs.push(self.log_dir());
        emptied_dirs.push(self.artwork_cache_dir());
        ResetPlan { files, emptied_dirs }
    }
}

/// The settings file, the session file, the log directory and the artwork
/// cache are four different paths: each ends with its own name, and no two
/// of the names can end the same path.
pub proof fn lemma_local_paths_distinct(
    settings: Seq<char>,
    session: Seq<char>,
    logs: Seq<char>,
    artwork: Seq<char>,
)
    requires
        ends_with_seq(settings, "settings.json"@),
        ends_with_seq(session, "session.json"@),
        ends_with_seq(logs, "logs"@),
        ends_with_seq(artwork, "artwork-cache"@),
    ensures
        settings != session,
        settings != logs,
        settings != artwork,
        session != logs,
        session != artwork,
        logs != artwork,
{
    reveal_strlit("settings.json");
    reveal_strlit("session.json");
    reveal_strlit("logs");
    reveal_strlit("artwork-cache");
    assert(settings[settings.len() - 1] == 'n') by {
        assert(settings.skip(settings.len() - 13)[12] == settings[settings.len() - 1]);
    }
    assert(settings[settings.len() - 6] == 's') by {
        assert(settings.skip(settings.len() - 13)[7] == settings[settings.len() - 6]);
    }
    assert(session[session.len() - 1] == 'n') by {
        assert(session.skip(session.len() - 12)[11] == session[session.len() - 1]);
    }
    assert(session[session.len() - 6] == 'n') by {
        assert(session.skip(session.len() - 12)[6] == session[session.len() - 6]);
    }
    assert(logs[logs.len() - 1] == 's') by {
        assert(logs.skip(logs.len() - 4)[3] == logs[logs.len() - 1]);
    }
    assert(artwork[artwork.len() - 1] == 'e') by {
        assert(artwork.skip(artwork.len() - 13)[12] == artwork[artwork.len() - 1]);
    }
}

} // verus!
