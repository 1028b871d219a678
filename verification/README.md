# desert_shooter_engine — verified game rules

The rules of the Rock 3D stone-throwing game, written in Verus with their
contracts proved:

- `procedural`: the xorshift64 generator and the daily-challenge layout it
  produces (exact contract over the sequence of draws).
- `skills`, `unlocks`, `xp`: the skill tree (points are conserved, no node
  twice), level unlocks (checking levels in any order gives what checking the
  highest gives; earlier unlocks stay first; every stone up to a level becomes
  available) and experience thresholds.
- `scoring`, `throw`, `modes`, `ai`: score counters, the throw cycle, game modes,
  local multiplayer turns, survival waves and the decisions of the NPC state
  machine.
- `round`: the decisions of a frame of a round, in two steps around the physics:
  the control step (time out, charge, release: at most one throw per frame) and
  the settling step (each hit credited to the score, experience, unlocks on a
  level-up, total hits and best combo; the round ends when the stone lands with
  no throws or no live targets left).
- `input`: which key and mouse button drives which control.
- `hot_reload`, `gpu`: the watched-script table (a poll reports every file whose
  modification time changed, once), the mesh cache (a read gives back the last
  write) and the choice of a GPU memory type. Both tables are vectors of
  (key, value) pairs with no key twice (a type invariant), in place of hash maps
  keyed by strings, because with a `String` key vstd's `HashMap`
  specification lets nothing about the map's contents be proved.
- `backend`, `app_config`, `kinds`, `stones`, `targets`, `plugins`, `save`:
  enumerations, names and configuration records.

`app/` holds what computes with floating point (physics, cameras, placement of
targets), reads and writes files (profile, scripts), runs Lua through `mlua`, and
the command-line entry point.
