# xivc

Types and verified logic for simulating FFXIV combat, proved with Verus.

## Layout

- `src/` is the library; every function in it is verified, but for the small
  trusted wrappers in `rng.rs` and `runtime/heap.rs` that call `rand` and
  `radix_heap`, whose contracts state what those crates do.
  - `job/`: the jobs (Bard, Samurai, Dancer, Reaper and the melee role actions).
    Each job's `check_cast` and `cast_snap` decide what casting an action does:
    the changes to the job gauges and the operations the actor's event sink is
    asked for, in order. `job/mod.rs` dispatches over the jobs.
  - `world/`: actors, actions, events, status effects and their snapshots, and
    the radix event queue that hands events out in time order.
  - `math/`: the game's damage, speed and regeneration formulas and their tables.
  - `timing.rs`, `timeline.rs`: scaled durations, cooldowns with charges, event
    cascades, and timeline information of actions.
  - `util.rs`: saturating gauges, combos, targetting and small helpers.
  - `runtime/`: the event driven runtime used by the Gunbreaker simulation:
    the `Runtime` (a clock, the events ordered by a radix heap of the
    `radix_heap` crate, and the actors), a generational arena, cooldown
    managers, events, and the Gunbreaker and Dragoon jobs. `runtime/heap.rs`
    holds the only calls into `radix_heap`.
  - `rng.rs`: the random rolls, the only calls into the `rand` crate.
- `tests/`: tests of the library on concrete values.
- `app/main.rs`: the Gunbreaker rotation simulation, a program around the
  library: it reads the rotation, drives the runtime and prints.

## Notes

- `runtime::math::speed_calc`, the scaling of a duration by a speed modifier that
  the Gunbreaker simulation uses, is a linear formula chosen by this library.
- The data tables in `math/data.rs` and `runtime/math/data.rs` hold published game
  values: level 90 in the first, level 80 in the second.
