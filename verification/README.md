# marvin

A keyboard-typing helper for remote desktops that refuse the clipboard: the
user pastes a script into a small window, Shift+Clicks into the target
window, and after a countdown the script is typed key by key. Esc stops it.

## Layout

- `src/` — the verified library.
  - `app.rs`: the playback state, the settings, and `Controller`, which turns
    engine events, clock ticks and the abort key into a new state plus the
    effects (click-through requests, engine commands) its host performs.
  - `model.rs`: the mathematical model of the controller and of each step.
  - `laws.rs`: properties that span several steps, proved over the model.
  - `error.rs`, `command.rs`, `clock.rs`, `platform/`, `config.rs`: error and
    message types, the time source, the window-platform interface and its
    no-op implementation, and the settings' defaults and limits.
- `app/` — the program around it: the egui window, the keystroke engine
  thread, the global Shift+Click hook and the macOS window calls.
- `tests/` — tests of the library.
