# altctrl

A keyboard-driven mouse grid. Pressing Alt and then left Control opens a
10 by 30 grid over the screen; a column key (the home row, `A` to `;`) and a
row key (any of the three letter rows) move the pointer to the center of a
cell; a third key from the left or the right half of the keyboard moves it to
that third of the cell; left Control or Alt clicks; Escape closes.

Layout:

- `src/` is the verified library (Verus):
  - `keys.rs`: the keys, the column and row lists, characters, sides;
  - `key_index.rs`: the lookup tables from keys to columns and rows;
  - `grid.rs`: exact cell and third centers, in sixtieths of a pixel;
  - `navigation.rs`: the overlay's state machine and its window decisions;
  - `listener.rs`: the global key listener and its activation chord;
  - `render.rs`: grid painting, cell labels, text blending, colors;
  - `gradient.rs`: the gradient test window;
  - `laws.rs`: properties of the library as a whole, proved.
- `app/` holds the program around it: the window, the keyboard hook, mouse
  simulation, and the floating-point text layout.
- `tests/` holds the tests of the library.
