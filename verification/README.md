# Clip Studio Presence — verified core

Publishes Discord Rich Presence while Clip Studio Paint runs. The decisions
of the application are a Verus-verified library (`src/`); the I/O around them
(settings file, Discord IPC, screenshot capture and upload, GitHub release
check, Windows registry) is ordinary Rust in `app/`.

`src/` modules:

- `config` — defaults of every setting and the Discord application id.
- `settings` — the settings and their defaults.
- `detection`, `focus` — observations of Clip Studio Paint, focus/idle
  statistics, the idle percentage and presence timestamps.
- `app_state` — the monitor's state, its transitions (observations, presence
  outcomes, saved settings, shared links, automatic capture schedule) and the
  status snapshot, with laws on how they combine.
- `presence` — the Discord client's steps (hide, connect, publish) and the
  activity content.
- `capture` — upload replies, error messages, window size check, pixel
  conversion and PNG encoding.
- `updates` — version parsing and comparison, update check results.
- `startup` — the registry steps of start on boot.
- `text`, `utf16`, `clock` — trimming and prefixes, UTF-16 encoding and
  decoding, the wall clock.
