# er_extend_rs

Extenders for Elden Ring mods, with their logic verified by Verus.

- `src/` is the verified library: the talk-script model (states, transitions,
  events and their bytecode), the grace menu extension, the text overrides,
  the configuration types, the patterns that locate the game's functions, and
  the decisions of the two standalone mods (absolute weapon, more difficult).
  Each public function states its result in its contract; the laws that span
  several calls are the `law_*` proof functions.
- `app/` is the game-facing side: configuration files beside the DLL, pattern
  scans of the running program, detours, the game's memory layout, and the
  frame loops that carry out what the library decides.
- `tests/` runs the library on concrete values.
