# lock_rs

The logic of an in-game overlay for a 32-bit game client, verified with
Verus: the addresses of the game's object fields, the walk over an object's
children and the task scheduler's jobs, the scans that find a field offset,
the text handed to the game's print function, the overlay's settings and
menu, and which players get a box and how it looks.

- `src/` — the verified library (`layout`, `instances`, `bruteforce`, `text`,
  `settings`, `menu`, `panels`, `targets`, `util`).
- `tests/` — tests of the library on concrete values.
- `app/` — the unverified side: reading the game's memory, calling its
  functions, the floating-point screen geometry, and the per-frame loop that
  turns the library's decisions into shapes, and the menu input.
