# musicbirb

The core of a music player client for Subsonic, Navidrome and Jellyfin
servers, with its rules proved by Verus.

## Layout

- `src/` is the verified library.
  - `queue.rs`: the play queue engine. Every request and every audio engine
    event returns the effects the caller carries out, in order; the state is
    described by `QueueModel`. `queue_laws.rs` holds properties that span
    requests (moves and removals keep the current track, a smart shuffle
    round covers the queue, going back after a skip returns).
  - `sink.rs`: the playlist logic for an audio engine that feeds a sink
    itself (preloading, following finished tracks, stale loads): each
    command gives the actions to perform on the sink. No engine in `app/`
    runs it yet; the audio output it needs is not part of this project.
  - `subsonic.rs`, `jellyfin.rs`, `catalog.rs`, `subsonic_dto.rs`: request
    parameters and addresses, how answers are judged, and how they become
    library models.
  - `auth.rs`, `login.rs`, `settings.rs`, `tui.rs`: signing in, the sign-in
    screen, saved accounts, typed commands.
  - `scrobble.rs`, `query.rs`, `playback.rs`, `backend.rs`, `art.rs`,
    `error.rs`, `models.rs`, `text.rs`, `ffi.rs`: the smaller rules.
- `tests/` runs the library on concrete values.
- `app/` is the unverified runtime: HTTP clients, the player loop that
  carries out the queue's effects, the query cache, files, and the terminal
  screens.
