# zedgrip

The user-interface logic of ZedGrip, a desktop database client, as a
verified library, with the window system around it in `app/`.

- `src/` holds what the interface decides: the sidebar's panel selection
  and collapse state, the schema browser's expanded tables and filter, the
  query editor's run state and results, the window frame's resize edges and
  cursors, the title-bar buttons, the theme and the themed buttons' colours,
  and the text of every label and element id. Each function has a contract
  over a model of its type, and the properties that span calls are proved as
  lemmas beside them.
- `app/` draws all of this with gpui: it owns the entities, the event
  wiring, the query delay, and everything measured in floating-point pixels
  (the sidebar's width, the editor's width, colour brightening, the pointer's
  position against the window border).
- `tests/` runs the library on concrete values.
