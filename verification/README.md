# Session Signals

A desktop indicator of what coding sessions are doing: which one needs you, which
ones work, which are ready and which wait for your review.

- `src/` is the library, verified with Verus. It decides; it reads no disk and
  starts no process.
  - `engine` keeps the sessions. `event` says what an event asks for, `session`
    how one session changes, `model` how the engine does, `report` what it tells
    of that, and `laws` what holds of it as a whole.
  - `ignore` and `markers` are the rules that hide sessions, `alert` says when the
    user is told of a stuck session again, `label` what a session is called.
  - `config` holds the settings, `shell` what a change of them entails and what
    else the program around the engine decides.
  - `cli_alert` is about the user's own scripts (`cli_alert_laws` says what holds
    of them), `listener` about who may report, `folder` and `glyph` about showing
    folders and pictures.
  - `table`, `text` and `time` are what the rest is built on.
- `app/` is the program around it: files, processes, the listener and the desktop.
- `tests/` runs the library.

The engine is told what the disk says: before it labels sessions, `app/` looks up
the repositories that their directories lie in and hands them over.

Outside code is called in four places, each a function with a stated contract: the
monotonic clock (`time`), lower-casing (`ignore`), the last component of a path
(`label`) and the PNG encoder (`glyph`).
