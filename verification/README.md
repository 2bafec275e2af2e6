# cmux

Workspace, tab, shortcut and session logic of the cmux terminal multiplexer
for GTK, written in Verus with its contracts proved.

- `src/` — the verified library: instance slots (`instance`), config and
  shortcut table (`config`), path strings (`paths`), session snapshot
  (`session`), workspaces and the workspace list (`workspace`, `app_state`),
  tabs (`tabs`), key input (`input`), monitor placement (`window_geometry`),
  sidebar decisions (`sidebar`), and string helpers (`text`).
- `app/` — the GTK application around it: environment and file I/O, serde
  (de)serialization of config and session, X11 window placement, widgets.
- `tests/` — tests of the library.
