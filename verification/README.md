# khinsider_app

The presence and playback logic of the KHInsider companion app (an unofficial desktop and
mobile shell for downloads.khinsider.com that shows the track being listened to on
Discord), written in Verus with its contracts proved.

## Layout

- `src/` — the verified library
  - `gateway.rs`: the Discord gateway session (Hello, IDENTIFY, READY, heartbeats,
    presence updates, shutdown) as a step function from event to action, the reconnecting
    loop's decisions, and the gateway presence handle.
  - `oauth.rs`: OAuth2 with PKCE: the authorize URL, the callback check, the token store
    and the access-token policy.
  - `headless.rs`: headless-session request bodies and replies, the retry policy of an
    update, and the keep-alive worker's decisions.
  - `presence.rs`: what the page reports, the desktop activity built from it, the IPC
    link state and the now-playing store.
  - `audio.rs`: the native player's paused flag, sink effects and lock-screen controls.
  - `json.rs`, `codec.rs`, `clock.rs`, `text.rs`: JSON literals and reads (`serde_json`),
    SHA-256, base64, random bytes, percent-encoding and URL queries (`sha2`, `base64`,
    `rand`, `urlencoding`, `url`), the wall clock, and small text utilities.
- `tests/` — tests of the library on concrete values.
- `app/` — the unverified shell: sockets, HTTP, files, the Discord IPC client, native
  audio, and the command handlers the window layer registers.
