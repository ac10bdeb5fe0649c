# komari

A bot that rotates actions in a side-scrolling game: it looks at the screen, decides what the player
does next and presses the keys for it. The decisions are a library verified with Verus; what touches
the screen, the keyboard, the database and the windows is an ordinary program around it.

## Layout

- `src/rotator` which action comes next: priority actions with their conditions, linked actions,
  actions injected from outside, and the normal rotation in its four modes
- `src/player` falling, swapping familiars and solving the transparent shape puzzle, tick by tick
- `src/tracker`, `src/solvers` following shapes from frame to frame and choosing the right one
- `src/run.rs`, `src/services`, `src/api.rs` the main loop, its events and the requests it serves
- `src/windows` virtual keys, strokes, mouse steps and which window receives them
- `src/ui` what the windows show and what their buttons ask for
- `src/database.rs`, `src/models` what is stored, and what is made of the answers of the database
- `src/tables.rs` what the statements do to a table, and what holds of reading and storing then
- `tests` examples of all of it
- `app` the program: capturing, sending inputs, SQLite, the windows, and all floating point

Each public function states what it returns in `ensures`. Functions named `law_..` state what holds of
several of them together.
