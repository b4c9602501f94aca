# dodgeball

The rules of a two-team ball game (Space against Time) that runs as a
SpacetimeDB module, with their contracts proved by Verus.

- `src/` is the verified library: the game clock and the phases of a game
  (`ecs/systems/game_system.rs`), player and ball lifecycle
  (`spawn_system.rs`), player orders (`routing_system.rs`), catches, hits and
  scores (`scoring_system.rs`), the bookkeeping of the physics simulation
  (`services/physics_engine.rs`: name keys, collision groups, contact
  classification, references), and the checks behind player and admin
  requests (`reducers/`). The clock counts milliseconds and player points
  are counted in halves, so that no floating point is needed.
- `app/` is the module around it: the database tables, the requests, the
  update loop and the rapier3d simulation, which work in floating point.
- `tests/` runs the library on concrete games.
