# backend

The decisions of a game assistant, verified with Verus: which action the player performs next, what
a tick makes of the player's state, how daily quests are traveled to and counted, and how events in
the world are responded to.

- `src/rotator` picks the player's next action: `priority` and `condition` for what takes
  precedence, `normal`, `mobbing`, `monster_park` and `daily_quest` for the rest, `builder` and
  `standing` for putting actions together, and `laws` for what holds across ticks.
- `src/player` holds the player's states: up jumps, entering Monster Park, and traveling to a
  hunting ground.
- `src/daily.rs` and `src/checklist.rs` are the daily quests and the checklist a user edits.
- `src/world_event.rs` responds to events.
- `src/ecs.rs`, `src/models.rs` and `src/geometry.rs` are the data a tick works on, and
  `src/clock.rs` reads the clock.
- `app` looks at the screen, simulates inputs, saves the checklist and shows it.

A tick takes detections and random draws as plain values. It leaves the inputs to simulate, the
notices to send and the detections it has used in `Resources`.

Trusted are the contracts of `ordered_hash_map` in `src/rotator/map.rs` and of the standard clock in
`src/clock.rs`.
