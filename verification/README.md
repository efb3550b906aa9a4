# Sare terminal

The core of the Sare terminal emulator, written in Verus: every function of
the library carries a contract, and Verus proves the code meets it.

## Layout

- `src/terminal/protocol.rs` — the ANSI escape-sequence parser: a byte-level
  state machine that turns terminal output into commands.
- `src/terminal/renderer.rs` — applies those commands to the primary and
  alternate screens: printing with wrap and scroll, cursor movement, erasing,
  attributes and modes, scrollback, resizing.
- `src/gui/` — shell input: here-documents and the line-by-line input
  step, command substitution, and the terminal window's key handling.
- `src/history/` — the command history and navigation through it, with
  reverse incremental search.
- `src/config/` — key combinations and the key binding manager, default key
  bindings, configuration formats and validating a configuration against its
  schema, colour schemes.
- `src/features/` — paste protection checks and the paste manager, language
  detection, hyperlink detection and clicks, search with regular expressions
  placed by line and column, selections and the clipboard history, image
  protocol parsers, and the records they work on.
- `src/advanced/` — input method handlers and the input method manager, and
  the kinds shared by the features.
- `src/debug/` — debug, logging, profiling and test settings, the default
  test suites and the text and HTML test reports, breakpoints, and the error
  recovery decisions.
- `src/config/hot_reload.rs` — also the runtime configuration manager, with
  its bounded history and going back to an earlier configuration.
- `src/session/` — the kinds and records of sessions; tables keyed by
  identifier (`keyed.rs`); the tab manager (tabs by identifier, each
  session's tab list, order and active tab); the window manager (windows,
  each session's windows and active window, splitting and resizing, and the
  windows split off each window); the session sharing manager (sharing,
  joining, leaving, participants and events); and restoring each of them from
  the contents of its data file.
- `src/startup.rs` — startup timing.
- `src/stamps.rs` — identifiers (`uuid`) and the clock (`chrono`), which the
  managers stamp their records with, and the stable order of records by time.
- `src/text.rs` — character-level string helpers, each stated over the
  `Seq<char>` view of a string.
- `app/main.rs` — a line-oriented front end: it reads command lines, runs
  the commands and prints their output, using the library for everything
  but the I/O.
- `tests/` — tests of the library on concrete inputs.

Calls into the `regex`, `uuid` and `chrono` crates stand behind small
trusted wrappers whose doc comments say what their contracts claim.

Laws that span several functions are stated as public proof functions next
to the functions they speak of (their names begin with `lemma_`).
