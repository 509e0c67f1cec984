# acso7

The logic of an autonomous colony ship operator console, verified with Verus.

- `src/` is the library: reactor modes, ship resources and their panel
  order, alerts, colonists and world events, the bounded event log, the
  console's navigation state machine and its screens' key handling, popup
  scrolling and layout, text labels (mission clock, spans, padding), weighted
  random picks, and the snapshot store with its rotation and brotli
  compression, the saved-world ordering and the colonist list rows. The
  functions state their results in their contracts; the store's save,
  delete and rotate, whose effect lies in a backend that users supply, and
  the random picks state only what the library itself decides. The laws the
  console relies on (navigation stays well formed, rotation keeps the newest
  snapshots, the log keeps the newest hundred messages, ...) are proof
  functions.
- `app/` is the terminal program around it: the file backend, the
  floating-point ship simulation, serde snapshots and the ratatui screens.
- `tests/` exercises the library on concrete values.
