# clipboard_manager

The verified backend of a keyboard-driven clipboard manager (a Tauri desktop
application): clipboard history kept in SQLite with full-text search, the
decisions of the clipboard watcher and of the paste command, the tray menu and
the user's preferences.

- `src/` is the library, verified with Verus.
  - `db` — the history store: schema, insert-or-refresh by hash, listing,
    ranked prefix search with a `LIKE` fallback, deletion, pruning, lookup.
  - `sqlite` — the `rusqlite` calls the store makes.
  - `commands` — what the frontend asks for, and what a paste puts on the
    pasteboard.
  - `capture` — whether a clipboard change is captured, and how it is stored.
  - `paste` — tag stripping for the plain-text fallback, accessibility gate.
  - `settings` — preferences, their defaults, shortcut re-registration.
  - `tray` — tray menu and window-close decisions.
  - `strings` — the `std` string and character operations relied on.
- `app/` is the Tauri application around it: windows, tray, global
  shortcuts, the watcher thread, the paste sequence and the settings file.
- `tests/` exercise the library, including a scenario on a real database.
