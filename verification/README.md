# stochos

Keyboard-driven pointer control for X11 and Wayland desktops. An overlay
divides the screen into a grid of labelled cells; typing a cell's hints moves
the pointer there, a sub-hint refines the position inside the cell, and
command keys click, double-click, right-click, drag or scroll. Selections can
be recorded as macros and replayed.

- `src/` is the verified library: key bindings, the hint grid and its
  geometry, the selection and recording modes, macro replay, scroll key
  repeat, keyboard event handling, and image compositing for X11.
- `app/` holds the display-server code that performs what the library
  decides: the X11 backend, the Wayland dispatch state, the single-instance
  lock, and the floating-point scroll acceleration curve.
- `tests/` exercises the library on concrete values.
