//! The application's error taxonomy and the message shown for each error.

use vstd::prelude::*;

use crate::text::{decimal, push_decimal};

verus! {

/// Every failure the widget distinguishes. `RateLimited` carries the
/// server's retry delay in whole seconds.
#[derive(Debug, Clone, PartialEq, Eq)]
pub enum AppError {
    AuthenticationRequired,
    ConfigurationRequired,
    NoActiveDevice,
    PremiumRequired,
    RateLimited(u64),
    NetworkUnavailable,
    SecureStore(String),
    Storage(String),
    UnsupportedResponse(String),
    SpotifyApi(String),
    Window(String),
    Platform(String),
    Authorization(String),
    Internal(String),
}

/// The result type of fallible operations of the widget.
pub type AppResult<T> = Result<T, AppError>;

/// The debug rendering of a whole number of seconds as a `Duration`:
/// `17s`, or `0ns` for zero.
pub open spec fn seconds_debug(secs: u64) -> Seq<char> {
    if secs == 0 {
        "0ns"@
    } else {
        decimal(secs as nat) + "s"@
    }
}

/// The message shown to the user for an error.
pub open spec fn error_message(e: AppError) -> Seq<char> {
    match e {
        AppError::AuthenticationRequired => "Spotify authorization is required."@,
        AppError::ConfigurationRequired => "Spotify client ID is not configured."@,
        AppError::NoActiveDevice => "No active Spotify playback device is available."@,
        AppError::PremiumRequired => "Spotify Premium is required for playback controls."@,
        AppError::RateLimited(secs) => "Spotify temporarily limited requests. Retry in "@
            + seconds_debug(secs) + "."@,
        AppError::NetworkUnavailable => "The network is unavailable."@,
        AppError::SecureStore(s) => "Secure credential storage failed: "@ + s@,
        AppError::Storage(s) => "Settings storage failed: "@ + s@,
        AppError::UnsupportedResponse(s) => "Spotify returned an unsupported response: "@ + s@,
        AppError::SpotifyApi(s) => "Spotify request failed: "@ + s@,
        AppError::Window(s) => "Window operation failed: "@ + s@,
        AppError::Platform(s) => "Platform integration failed: "@ + s@,
        AppError::Authorization(s) => "Authorization failed: "@ + s@,
        AppError::Internal(s) => "Internal application error: "@ + s@,
    }
}

fn prefixed(prefix: &str, detail: &String) -> (r: String)
    ensures
        r@ == prefix@ + detail@,
{
    let mut r = String::from_str(prefix);
    r.append(detail.as_str());
    r
}

impl AppError {
    /// The message shown to the user for this error.
    pub fn message(&self) -> (r: String)
        ensures
            r@ == error_message(*self),
    {
        match self {
            AppError::AuthenticationRequired => String::from_str(
                "Spotify authorization is required.",
            ),
            AppError::ConfigurationRequired => String::from_str(
                "Spotify client ID is not configured.",
            ),
            AppError::NoActiveDevice => String::from_str(
                "No active Spotify playback device is available.",
            ),
            AppError::PremiumRequired => String::from_str(
                "Spotify Premium is required for playback controls.",
            ),
            AppError::RateLimited(secs) => {
                let mut r = String::from_str("Spotify temporarily limited requests. Retry in ");
                if *secs == 0 {
                    r.append("0ns");
                } else {
                    push_decimal(&mut r, *secs);
                    r.append("s");
                }
                r.append(".");
                r
            },
            AppError::NetworkUnavailable => String::from_str("The network is unavailable."),
            AppError::SecureStore(s) => prefixed("Secure credential storage failed: ", s),
            AppError::Storage(s) => prefixed("Settings storage failed: ", s),
            AppError::UnsupportedResponse(s) => prefixed(
                "Spotify returned an unsupported response: ",
                s,
            ),
            AppError::SpotifyApi(s) => prefixed("Spotify request failed: ", s),
            AppError::Window(s) => prefixed("Window operation failed: ", s),
            AppError::Platform(s) => prefixed("Platform integration failed: ", s),
            AppError::Authorization(s) => prefixed("Authorization failed: ", s),
            AppError::Internal(s) => prefixed("Internal application error: ", s),
        }
    }
}

} // verus!
