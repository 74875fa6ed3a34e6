# shortcut_key_map

The core of a desktop tool that keeps a catalogue of applications and their
keyboard shortcuts, shows itself with a global shortcut, and floats its window
in one of nine positions of the screen under the cursor.

- `src/` is the verified library (Verus):
  - `text.rs`: white-space trimming, case folding, searching, decimal text, and
    the validation of text fields;
  - `position.rs`: the nine window positions, their names, and where each places
    the window in a work area;
  - `db.rs`: the calls into rusqlite, the messages shown for failures, and
    `Database`, which keeps a record of every statement handed to SQLite with
    its answer, so that contracts can say what each operation sends;
  - `store.rs`: the schema and the operations on applications and shortcuts;
  - `settings.rs`: the toggle shortcut and window position settings, and the
    steps of changing the toggle shortcut;
  - `window.rs`: how the window answers toggling, the tray menu and its own events.
- `app/` is the Tauri shell that wires these into commands, windows and the tray.
- `tests/` exercises the library, including against an in-memory SQLite database.
