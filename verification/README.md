# gartk

A small X11/Cairo toolkit whose logic is verified with Verus.

- `src/` is the verified library: geometry (`rect`), input events and how
  X11 event data becomes them (`event`, `keyboard`, `event_loop`), colour
  string parsing (`color`), percent-encoding of `file://` URIs (`uri`),
  clipboard content and replies (`clipboard`), monitor ordering and
  selection (`monitor`), window configuration and visual choice (`window`),
  cursor glyphs and the cursor cache (`cursor`), font specifications
  (`font`). Every public function carries a contract; the `law_*` proof
  functions state properties that relate several functions.
- `tests/` runs the library on concrete values.
- `app/` is the part that talks to the X server (connection, windows,
  monitors, clipboard, the event loop), the floating-point colours and
  themes, and Cairo/Pango rendering. It performs the I/O and hands plain
  values to the library, which takes the decisions.
