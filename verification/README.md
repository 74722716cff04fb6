# clipboard_history

A clipboard history manager: a daemon records what is copied, keeps the ten
most recent texts, and shows them in a popup on a global hotkey, where a
number key or a click pastes one back. A command line lists, prints, pastes
and clears the history.

- `src/` is the library, verified with Verus: the history and its `add`
  rule (`history.rs`), the instants of entries (`time.rs`, through
  `chrono`), what the daemon does with each clipboard text (`monitor.rs`),
  the popup's choices (`popup.rs`), the one-line previews and decimal
  notation (`text.rs`), the lock file's process id (`pid.rs`) and the
  per-system decisions (`platform.rs`).
- `app/` is the program around it: command-line parsing, the history file,
  the clipboard, threads, the hotkey, the windows and the macOS calls.
- `tests/` runs the library on concrete values.
