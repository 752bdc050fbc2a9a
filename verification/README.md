# Spotify Companion Widget

A desktop widget that shows and controls an existing Spotify playback
session. The decision-making core is a library verified with Verus; the
desktop shell around it is ordinary Rust.

## Layout

- `src/` — the verified library (crate `spotify_companion_widget`):
  - `domain` — the view state the presentation layer renders, the persisted
    settings, and settings patches.
  - `error` — the error taxonomy and the message shown for each error.
  - `playback` — how each outcome (playback, no playback, errors, commands,
    local media data) changes the view state; polling delays, rate-limit
    suspension, queue invalidation and command debouncing.
  - `coordinator` — the coordinator's state and the steps of a refresh and
    of a transport command: each step takes the answer to the previous
    action and names the next one.
  - `sessions` — the Spotify-open and listening counters, with the
    process-exit debounce, suspend-gap exclusion and checkpoint recovery.
  - `spotify` — tolerant parsing of Web API payloads, artwork and context
    allowlists, error classification, transport routes and the retry policy.
  - `auth` — PKCE values, the authorization URL, loopback callback
    validation, token lifetimes and the steps of obtaining an access token.
  - `platform` — which process is Spotify and how local media sessions are read.
  - `window` — monitor choice and clamping of the window position.
  - `storage`, `logs` — file layout, settings recovery and log rotation plans.
  - `text` — specified string operations used throughout.
  - `outside` — the trusted wrappers around std and outside crates
    (`url`, `base64`, `sha2`, `rand`, `uuid`, `chrono`, and `http`'s
    status codes as `reqwest` re-exports them).
- `tests/` — tests of the library on concrete values.
- `app/` — the Tauri shell: window, tray, commands, file and network I/O,
  credential storage and the background loops, which perform the actions
  the coordinator's steps name and call the library for every decision.
