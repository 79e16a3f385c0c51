# Chosen Visualizer

A desktop audio visualizer for Windows. This crate holds its verified core;
the program around it lives in `app/`.

- `src/` — the library, verified with Verus:
  - `settings` — the stored choices, their defaults, and normalization
    (ranges, widget rules, "desktop only" never on top, cover art source).
  - `presets` — visualizer looks and screen placements of the desktop widget.
  - `window` — what the portable and the native window layers are told.
  - `version` — version numbers of release tags and the release ranking.
  - `updater` — which release is offered, which assets may be installed,
    download checks, PowerShell quoting, and the update window's state.
  - `installer` — the installer's command line, registry values and steps.
  - `audio` — the sample history, sample formats and waveform windows.
  - `tray` — the mailbox between the tray menu and the window.
  - `text` — character-level helpers (ASCII case, trimming, matching).
- `app/` — the egui application, audio capture and FFT, drawing, network,
  files, registry and the tray icon. The installer runs when the executable is
  named `chosen-visualizer-installer.exe`.
- `tests/` — tests of the library.
