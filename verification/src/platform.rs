//! What the widget learns from the operating system: whether the Spotify
//! process runs, and the local media session's metadata.

use vstd::prelude::*;

use crate::sessions::opt_seq;
use crate::text::{
    ascii_lower_seq, contains_seq, decimal, push_decimal, str_contains, str_eq, to_ascii_lowercase,
    trim, trim_seq,
};

verus! {

/// One observation of the Spotify process.
#[derive(Debug, Clone, PartialEq, Eq)]
pub struct ProcessObservation {
    pub running: bool,
    pub identity: Option<String>,
}

/// Metadata and state reported by the operating system's media session.
#[derive(Debug, Clone, PartialEq, Eq)]
pub struct LocalMediaSnapshot {
    pub title: String,
    pub artist: String,
    pub album: Option<String>,
    pub is_playing: bool,
    pub progress_ms: Option<u64>,
    pub duration_ms: Option<u64>,
}

/// A running process as the process table reports it. `executable` is the
/// file name of its executable, empty when unknown.
#[derive(Debug, Clone, PartialEq, Eq)]
pub struct ProcessInfo {
    pub name: String,
    pub executable: String,
    pub start_time: u64,
    pub pid: u32,
}

/// The executable name of Spotify on the platform.
pub open spec fn spotify_executable(windows: bool) -> Seq<char> {
    if windows {
        "spotify.exe"@
    } else {
        "spotify"@
    }
}

/// Whether a process is Spotify: its name or its executable's file name is
/// the platform's Spotify executable, ignoring ASCII case.
pub open spec fn is_spotify_process(p: ProcessInfo, windows: bool) -> bool {
    ascii_lower_seq(p.name@) == spotify_executable(windows) || ascii_lower_seq(p.executable@)
        == spotify_executable(windows)
}

/// Whether `(start_time, pid)` of `a` orders before or equal to that of `b`.
pub open spec fn starts_no_later(a: ProcessInfo, b: ProcessInfo) -> bool {
    a.start_time < b.start_time || (a.start_time == b.start_time && a.pid <= b.pid)
}

/// The process identity of a Spotify process: `<os>:spotify:<pid>:<start time>`.
pub open spec fn identity_of(os: Seq<char>, p: ProcessInfo) -> Seq<char> {
    os + ":spotify:"@ + decimal(p.pid as nat) + ":"@ + decimal(p.start_time as nat)
}

fn is_spotify(p: &ProcessInfo, windows: bool) -> (r: bool)
    ensures
        r == is_spotify_process(*p, windows),
{
    let expected = if windows {
        "spotify.exe"
    } else {
        "spotify"
    };
    let name = to_ascii_lowercase(p.name.as_str());
    let executable = to_ascii_lowercase(p.executable.as_str());
    str_eq(name.as_str(), expected) || str_eq(executable.as_str(), expected)
}

/// Which of the processes is Spotify: the earliest started one (the lowest
/// process ID among equally early ones). Its identity names the operating
/// system `os`, the process ID and the start time; without a Spotify
/// process, Spotify is not running.
pub fn observe_processes(processes: &Vec<ProcessInfo>, os: &str, windows: bool) -> (r: ProcessObservation)
    ensures
        r.running <==> r.identity is Some,
        r.running <==> exists|i: int|
            0 <= i < processes@.len() && is_spotify_process(#[trigger] processes@[i], windows),
        r.identity matches Some(id) ==> exists|i: int|
            0 <= i < processes@.len() && is_spotify_process(#[trigger] processes@[i], windows) && id@
                == identity_of(os@, processes@[i]) && forall|j: int|
                0 <= j < processes@.len() && is_spotify_process(#[trigger] processes@[j], windows)
                    ==> starts_no_later(processes@[i], processes@[j]),
{
    let n = processes.len();
    let mut best: Option<usize> = None;
    let mut i: usize = 0;
    while i < n
        invariant
            n == processes@.len(),
            i <= n,
            best is None ==> forall|j: int|
                0 <= j < i ==> !is_spotify_process(#[trigger] processes@[j], windows),
            best matches Some(b) ==> b < i && is_spotify_process(processes@[b as int], windows)
                && forall|j: int|
                0 <= j < i && is_spotify_process(#[trigger] processes@[j], windows)
                    ==> starts_no_later(processes@[b as int], processes@[j]),
        decreases n - i,
    {
        if is_spotify(&processes[i], windows) {
            match best {
                None => {
                    best = Some(i);
                },
                Some(b) => {
                    let earlier = processes[i].start_time < processes[b].start_time || (
                    processes[i].start_time == processes[b].start_time && processes[i].pid
                        < processes[b].pid);
                    if earlier {
                        best = Some(i);
                    }
                },
            }
        }
        i = i + 1;
    }
    match best {
        None => ProcessObservation { running: false, identity: None },
        Some(b) => {
            let p = &processes[b];
            let mut identity = String::from_str(os);
            identity.append(":spotify:");
            push_decimal(&mut identity, p.pid as u64);
            identity.append(":");
            push_decimal(&mut identity, p.start_time);
            ProcessObservation { running: true, identity: Some(identity) }
        },
    }
}

/// Whether a media session belongs to the Spotify desktop application:
/// its source names Spotify and is not a Chrome or Edge browser session
/// (ignoring ASCII case).
pub open spec fn is_spotify_source_spec(source: Seq<char>) -> bool {
    let s = ascii_lower_seq(source);
    contains_seq(s, "spotify"@) && !contains_seq(s, "chrome"@) && !contains_seq(s, "edge"@)
}

/// Whether a media session source identifies the Spotify desktop application.
pub fn is_spotify_source(source: &str) -> (r: bool)
    ensures
        r == is_spotify_source_spec(source@),
{
    let source = to_ascii_lowercase(source);
    str_contains(source.as_str(), "spotify") && !str_contains(source.as_str(), "chrome")
        && !str_contains(source.as_str(), "edge")
}

/// A media session text field, trimmed of surrounding whitespace.
pub fn hstring_to_string(value: &str) -> (r: String)
    ensures
        r@ == trim_seq(value@),
{
    trim(value)
}

/// A media timeline position given in 100-nanosecond ticks, in
/// milliseconds; none for negative values.
pub fn timespan_ms(ticks: i64) -> (r: Option<u64>)
    ensures
        ticks < 0 ==> r is None,
        ticks >= 0 ==> r == Some((ticks / 10000) as u64),
{
    if ticks < 0 {
        None
    } else {
        Some((ticks as u64) / 10000)
    }
}

/// The local media snapshot of a media session's fields: title, artist and
/// album are trimmed; a session with neither title nor artist shows nothing;
/// an empty album is absent.
pub fn local_media_snapshot(
    title: &str,
    artist: &str,
    album: &str,
    is_playing: bool,
    progress_ms: Option<u64>,
    duration_ms: Option<u64>,
) -> (r: Option<LocalMediaSnapshot>)
    ensures
        (trim_seq(title@).len() == 0 && trim_seq(artist@).len() == 0) ==> r is None,
        !(trim_seq(title@).len() == 0 && trim_seq(artist@).len() == 0) ==> (r matches Some(s) && {
            &&& s.title@ == trim_seq(title@)
            &&& s.artist@ == trim_seq(artist@)
            &&& opt_seq(s.album) == (if trim_seq(album@).len() == 0 {
                None
            } else {
                Some(trim_seq(album@))
            })
            &&& s.is_playing == is_playing
            &&& s.progress_ms == progress_ms
            &&& s.duration_ms == duration_ms
        }),
{
    let title = trim(title);
    let artist = trim(artist);
    if title.as_str().is_empty() && artist.as_str().is_empty() {
        return None;
    }
    let album = trim(album);
    let album = if album.as_str().is_empty() {
        None
    } else {
        Some(album)
    };
    Some(LocalMediaSnapshot { title, artist, album, is_playing, progress_ms, duration_ms })
}

} // verus!
