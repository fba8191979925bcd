# whisper_input

Local Whisper voice input for macOS: tap a hotkey, speak, tap again, and the
transcript is copied to the clipboard and pasted into the focused app.

## Layout

- `src/` is the verified core, checked by Verus. Each public function states
  its behavior in `requires`/`ensures`, and the `law_*` proof functions state
  what holds across calls.
  - `app.rs`: the worker as a state machine. `Worker::step` takes a command,
    a hotkey event or the outcome of an effect, and returns the effects to
    perform; the tray-menu and settings-window mappings.
  - `hotkey.rs`: command-key tap detection, key-combination matching,
    capture of new combinations, and the listener state.
  - `keys.rs`: plain-value key events and hotkeys, and the calls into
    `handy-keys`.
  - `config.rs`: command-line validation into a runtime configuration.
  - `model.rs`: model presets, cache paths, download URLs, staging paths.
  - `tray.rs`: waveform icon rendering and tray status/menu texts.
  - `settings_window.rs`: the settings window state and what its controls show.
  - `startup.rs`: permission issues, diagnostics dialog texts, System
    Settings links, app-bundle detection, the single-instance lock result.
  - `hotkey_dialog.rs`, `sound.rs`, `tool.rs`, `transcribe.rs`, `text.rs`:
    dialog texts, sound assets, prompt truncation, transcript whitespace
    normalization, and text helpers.
- `tests/`: tests of the library on concrete values.
- `app/`: the program around the library: argument parsing, the tray and
  settings window, the keyboard-listener thread, microphone capture, Whisper
  inference, model download, clipboard and paste, and the macOS permission
  probes. It performs the effects the library decides on.
