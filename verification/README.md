# sandspiel

A falling-sand simulation with 136 element species, written in Verus. The
grid, the per-species rules, the wind pass, painting and the undo history are
verified; the browser glue lives in `app/`.

## Layout

- `src/world.rs` — the `Universe` (grid, air flow, burns, undo history,
  generation, random generator), `SandApi` (the view of the universe from one
  grid position that a species rule works through), the spec model of a turn
  (`Ctx`, `Scene`, `sget`, `sset`, ...) and of a whole tick (`wind_pass`,
  `update_pass`, `tick_rule`), painting, and the laws about them.
- `src/cell.rs` — `Cell` and `Wind`.
- `src/kinds.rs` — the count of each species on the grid (`kinds`) and the
  writes that keep it; the rules that only move cells (water, flowing
  liquids, falling powders, slime, antigravity, creatures, the wind) are
  proved to keep it.
- `src/species/` — the `Species` enum, its numbering, the dispatch
  (`species_rule`, `Species::update`) and one module per family of
  elements. Every rule has a spec function `*_rule` and an executable
  `update_*` proved to follow it.
- `src/utils.rs` — direction helpers (rotating a neighbour direction,
  packing a step into a byte).
- `src/rng.rs` — the two calls into `rand` / `rand_xoshiro`.
- `app/lib.rs` — the `wasm_bindgen` types that JavaScript reads from memory,
  copied to and from the library around each call.

## Randomness

A rule's outcome depends on the random numbers it draws. Each `SandApi`
records its draws (bound and value) as ghost state, and every rule is stated
as a function of the scene and of the draws its turn made. Every `update_*`
also states the bounds of the draws it made (a spec function `*_draws` of
the scene and the draws, compared with `bounds`), so a rule's random choices
are taken with the ranges the rule reads. A tick is proved equal to
`tick_rule` for the draws that its turns made, each below its bound and with
the bounds that its rule reads (`tick_draws_fit`). The universe is seeded
with `RNG_SEED`, and the operations that draw nothing keep its generator.
