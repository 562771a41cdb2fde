# flf

Integer decision logic of a Little Fighter 2 engine, verified with Verus. The
floating-point simulation (physics, hit volumes, AI distances) and the browser
plumbing are not part of the verified library.

- `src/core_engine`: frame animator, combo decoder, key recorder and playback,
  network checksum pump, resource map, keyboard defaults, rectangle colours,
  path and query-string helpers, and a small string-keyed map.
- `src/lf`: frame transitions with lock priority, the base TU of an object (frame wait
  and next, landing frames, the rest, effect and freeze timers, blink), a character's key handling
  (turning, running, combos, per-state moves), the per-character hook matrix and
  its per-TU flags and timers, the per-state timers of a character's TU, the
  menu and match-control decisions of the manager (with the rebind-chip and lobby
  address parsing), the game-over timing, the frame transistor, stage progression, soundpack decisions, the
  combo table and tags, and the plain records of the game. Velocity writes and
  other `f64` effects come out of these functions as tags.
- `src/text.rs`: character-level string helpers.
- `app/`: the browser side (DOM, storage, audio, JSON), the key names of the
  menus, a character's TU in order with the float integration between the
  verified steps, and the helpers that apply the library's velocity tags.
- `tests/`: tests of the library.
