# pause

Core of the Pause break reminder, verified with Verus.

- `src/reminder.rs` — the reminder state machine (working, snoozing,
  reminding, breaking, paused) with idle postponement, deferred presentation
  and auto-start; instants are epoch milliseconds supplied by the caller.
- `src/settings.rs` — settings, their ranges, write-time clamping, read-time
  fallback and wallpaper-address normalization; `src/settings/document.rs`
  turns the settings file's JSON text into settings.
- `src/l10n.rs` — the bilingual string table and `{name}` templating.
- `src/presentation.rs` — menu-bar label, status line and pause item.
- `src/orchestration.rs` — window, menu and settings side-effect decisions.
- `src/platform.rs` — presentation-blocking flags and session events.
- `src/wallpaper/` — cache index bookkeeping and index-file reading, download
  acceptance, the order a wallpaper switch takes its image in, the fallback
  renderer's generator, checked image decoding.
- `src/text.rs` — character-level string helpers (trim, replace, search,
  decimal notation) with their specifications.
- `app/` — the Tauri application around the library: windows, tray, file and
  network I/O, platform probes, floating-point rendering and geometry, and the
  window opacity setting.
