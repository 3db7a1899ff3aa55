# feral_gui

The verified core of a roguelike's graphics frontend: what every screen says,
in which colour and in what order, settled as plain values before any of it
becomes pixels.

- `src/` is the library, verified with Verus. Each screen is a function from
  the figures the game reports to a value the painter draws: a `Popup` (title,
  size, rows), a list of `PaneRow`s for the info column, `Piece`s for a strip
  or a bar, `Section`s for the manifest sheet, the `Layer`s a frame stacks
  for a mode. The contracts state those values exactly, over spec functions
  and views; the laws the screens keep
  (capped lists count what they hide, the party comes first on the roster and
  the roster has one order, a closed tab never hides a condition, a refusal
  is said exactly once by a frame whose screen has what it needs to draw
  (outside the excavation mode and the open icon editor, which say it
  nowhere), the palette's roles stay separable) are public proof functions.
- `app/` is the floating-point half: window geometry, the painter's float
  colours for the library's palette entries, and the fractional figures
  written out before the library places them.
- `tests/` runs the library on concrete screens.
