//! Construction materials: brick, concrete, cement, tile, plaster, marble,
//! granite and basalt.

use super::falling::sinks_through;
use super::Species;
use crate::cell::{Cell, Wind};
use crate::world::{
    bounds, draw_if, moveto, once, rdir2, rvec, sfluid, sget, sset, sset_fluid, ssub, stay, swap, Ctx, Draws, SandApi,
    Scene,
};
use vstd::prelude::*;

verus! {

/// A construction solid, its draws starting at `k`: under air pressure
/// above 150 it is crushed into sand (keeping `ra`) one time in
/// `crush_resist`; when `melt_temp` is positive and lava lies in a random
/// direction it melts into lava (`ra = 100`) one time in `melt_temp`;
/// otherwise it falls into empty space, sinks through water, oil, gas or
/// acid, or stays.
pub open spec fn construction_solid(
    c: Ctx,
    s: Scene,
    cell: Cell,
    crush_resist: int,
    melt_temp: int,
    ds: Draws,
    k: int,
) -> Scene {
    let v = rvec(ds, k);
    let nbr = sget(c, s, v.0, v.1).species;
    let pressed = sfluid(c).pressure > 150;
    if pressed && once(ds, k + 1, crush_resist) {
        stay(c, s, Cell { species: Species::Sand, ra: cell.ra, rb: 0, clock: 0 })
    } else {
        let k1: int = if pressed { k + 2 } else { k + 1 };
        if melt_temp > 0 && nbr == Species::Lava && once(ds, k1, melt_temp) {
            stay(c, s, Cell { species: Species::Lava, ra: 100, rb: 0, clock: 0 })
        } else {
            let below = sget(c, s, 0, 1);
            if below.species == Species::Empty {
                moveto(c, s, 0, 1, cell)
            } else if sinks_through(below.species) {
                swap(c, s, 0, 1, below, cell)
            } else {
                stay(c, s, cell)
            }
        }
    }
}

/// Brick: see `construction_solid`, crush 15, melt 40.
pub open spec fn brick_rule(c: Ctx, s: Scene, cell: Cell, ds: Draws) -> Scene {
    construction_solid(c, s, cell, 15, 40, ds, 0)
}

/// Concrete: see `construction_solid`, crush 25, melt 50.
pub open spec fn concrete_rule(c: Ctx, s: Scene, cell: Cell, ds: Draws) -> Scene {
    construction_solid(c, s, cell, 25, 50, ds, 0)
}

/// Cement: while curing (`rb > 1`) it counts down; at `rb == 1` it sets
/// into concrete (keeping `ra`). Otherwise water at a random step is soaked
/// up and starts the cure (`rb = 30`); else it falls into empty space,
/// slides to an empty random lower diagonal, or stays.
pub open spec fn cement_rule(c: Ctx, s: Scene, cell: Cell, ds: Draws) -> Scene {
    let rb = cell.rb;
    if rb > 1 {
        stay(c, s, Cell { rb: (rb - 1) as u8, ..cell })
    } else if rb == 1 {
        stay(c, s, Cell { species: Species::Concrete, ra: cell.ra, rb: 0, clock: 0 })
    } else {
        let v = rvec(ds, 0);
        if sget(c, s, v.0, v.1).species == Species::Water {
            stay(c, sset(c, s, v.0, v.1, Cell::empty()), Cell { rb: 30, ..cell })
        } else if sget(c, s, 0, 1).species == Species::Empty {
            moveto(c, s, 0, 1, cell)
        } else {
            let sfx = rdir2(ds, 1);
            if sget(c, s, sfx, 1).species == Species::Empty {
                moveto(c, s, sfx, 1, cell)
            } else {
                stay(c, s, cell)
            }
        }
    }
}

/// The cement cell after one turn of curing (`rb > 0`): it counts `rb`
/// down, and at `rb == 1` sets into concrete keeping `ra`.
pub open spec fn cured(cell: Cell) -> Cell {
    if cell.rb > 1 {
        Cell { rb: (cell.rb - 1) as u8, ..cell }
    } else {
        Cell { species: Species::Concrete, ra: cell.ra, rb: 0, clock: 0 }
    }
}

/// The cement cell after `k` turns of curing.
pub open spec fn cured_after(cell: Cell, k: nat) -> Cell
    decreases k,
{
    if k == 0 {
        cell
    } else {
        cured(cured_after(cell, (k - 1) as nat))
    }
}

/// A curing cement cell's turn writes `cured` in its place and nothing
/// else.
pub proof fn lemma_cement_cures(c: Ctx, s: Scene, cell: Cell, ds: Draws)
    requires
        cell.rb > 0,
    ensures
        cement_rule(c, s, cell, ds) == stay(c, s, cured(cell)),
{
}

/// Cement that soaked up water (`rb == 30`) is still cement, counting down,
/// for 29 turns, keeping its `ra`, and has set into concrete after the
/// 30th.
pub proof fn lemma_cement_sets_after_curing(cell: Cell, k: nat)
    requires
        cell.species == Species::Cement,
        cell.rb == 30,
        k <= 30,
    ensures
        k < 30 ==> cured_after(cell, k) == (Cell { rb: (30 - k) as u8, ..cell }),
        k == 30 ==> cured_after(cell, k) == (Cell { species: Species::Concrete, ra: cell.ra, rb: 0, clock: 0 }),
    decreases k,
{
    if k > 0 {
        lemma_cement_sets_after_curing(cell, (k - 1) as nat);
    }
}

/// Tile: see `construction_solid`, crush 20, melt 45.
pub open spec fn tile_rule(c: Ctx, s: Scene, cell: Cell, ds: Draws) -> Scene {
    construction_solid(c, s, cell, 20, 45, ds, 0)
}

/// Plaster: next to water at a random step it turns to mud (keeping `ra`)
/// one time in 30; next to acid it dissolves one time in 10; otherwise see
/// `construction_solid`, crush 8, never melting.
pub open spec fn plaster_rule(c: Ctx, s: Scene, cell: Cell, ds: Draws) -> Scene {
    let v = rvec(ds, 0);
    let nbr = sget(c, s, v.0, v.1).species;
    if nbr == Species::Water && once(ds, 1, 30) {
        stay(c, s, Cell { species: Species::Mud, ra: cell.ra, rb: 0, clock: 0 })
    } else {
        let k: int = if nbr == Species::Water { 2 } else { 1 };
        if nbr == Species::Acid && once(ds, k, 10) {
            stay(c, s, Cell::empty())
        } else {
            construction_solid(c, s, cell, 8, 0, ds, if nbr == Species::Acid { k + 1 } else { k })
        }
    }
}

/// Marble: next to acid at a random step it is etched (`ra` down by 10)
/// one time in 25; then see `construction_solid`, crush 18, melt 60.
pub open spec fn marble_rule(c: Ctx, s: Scene, cell: Cell, ds: Draws) -> Scene {
    let v = rvec(ds, 0);
    let nbr = sget(c, s, v.0, v.1).species;
    let s1 = if nbr == Species::Acid && once(ds, 1, 25) {
        stay(c, s, Cell { ra: ssub(cell.ra, 10), ..cell })
    } else {
        s
    };
    construction_solid(c, s1, cell, 18, 60, ds, if nbr == Species::Acid { 2 } else { 1 })
}

/// Granite: see `construction_solid`, crush 30, melt 70.
pub open spec fn granite_rule(c: Ctx, s: Scene, cell: Cell, ds: Draws) -> Scene {
    construction_solid(c, s, cell, 30, 70, ds, 0)
}

/// Basalt: next to lava at a random step it writes a dense, still burn;
/// then see `construction_solid`, crush 35, melt 80.
pub open spec fn basalt_rule(c: Ctx, s: Scene, cell: Cell, ds: Draws) -> Scene {
    let v = rvec(ds, 0);
    let s1 = if sget(c, s, v.0, v.1).species == Species::Lava {
        sset_fluid(c, s, Wind { dx: 0, dy: 0, pressure: 0, density: 20 })
    } else {
        s
    };
    construction_solid(c, s1, cell, 35, 80, ds, 1)
}

/// The bounds of the draws of `construction_solid` from `k`: a
/// `rand_vec`; a `once_in(crush_resist)` under air pressure above 150;
/// unless crushed, a `once_in(melt_temp)` when it can melt and lava is
/// there.
pub open spec fn construction_solid_draws(
    c: Ctx,
    s: Scene,
    cell: Cell,
    crush_resist: int,
    melt_temp: int,
    ds: Draws,
    k: int,
) -> Seq<int> {
    let v = rvec(ds, k);
    let nbr = sget(c, s, v.0, v.1).species;
    let pressed = sfluid(c).pressure > 150;
    let crushed = pressed && once(ds, k + 1, crush_resist);
    seq![2000] + draw_if(pressed, crush_resist) + draw_if(!crushed && melt_temp > 0 && nbr == Species::Lava, melt_temp)
}

/// The bounds of the draws brick makes (see `construction_solid_draws`).
pub open spec fn brick_draws(c: Ctx, s: Scene, cell: Cell, ds: Draws) -> Seq<int> {
    construction_solid_draws(c, s, cell, 15, 40, ds, 0)
}

/// The bounds of the draws concrete makes (see `construction_solid_draws`).
pub open spec fn concrete_draws(c: Ctx, s: Scene, cell: Cell, ds: Draws) -> Seq<int> {
    construction_solid_draws(c, s, cell, 25, 50, ds, 0)
}

/// The bounds of the draws cement makes (see `cement_rule`).
pub open spec fn cement_draws(c: Ctx, s: Scene, cell: Cell, ds: Draws) -> Seq<int> {
    if cell.rb >= 1 {
        seq![]
    } else {
        let v = rvec(ds, 0);
        let wet = sget(c, s, v.0, v.1).species == Species::Water;
        seq![2000] + draw_if(!wet && sget(c, s, 0, 1).species != Species::Empty, 1000)
    }
}

/// The bounds of the draws tile makes (see `construction_solid_draws`).
pub open spec fn tile_draws(c: Ctx, s: Scene, cell: Cell, ds: Draws) -> Seq<int> {
    construction_solid_draws(c, s, cell, 20, 45, ds, 0)
}

/// The bounds of the draws plaster makes (see `plaster_rule`).
pub open spec fn plaster_draws(c: Ctx, s: Scene, cell: Cell, ds: Draws) -> Seq<int> {
    let v = rvec(ds, 0);
    let nbr = sget(c, s, v.0, v.1).species;
    if nbr == Species::Water && once(ds, 1, 30) {
        seq![2000, 30]
    } else {
        let k: int = if nbr == Species::Water { 2 } else { 1 };
        if nbr == Species::Acid && once(ds, k, 10) {
            seq![2000, 10]
        } else {
            seq![2000] + draw_if(nbr == Species::Water, 30) + draw_if(nbr == Species::Acid, 10)
                + construction_solid_draws(c, s, cell, 8, 0, ds, if nbr == Species::Acid { k + 1 } else { k })
        }
    }
}

/// The bounds of the draws marble makes (see `marble_rule`).
pub open spec fn marble_draws(c: Ctx, s: Scene, cell: Cell, ds: Draws) -> Seq<int> {
    let v = rvec(ds, 0);
    let nbr = sget(c, s, v.0, v.1).species;
    let s1 = if nbr == Species::Acid && once(ds, 1, 25) {
        stay(c, s, Cell { ra: ssub(cell.ra, 10), ..cell })
    } else {
        s
    };
    seq![2000] + draw_if(nbr == Species::Acid, 25) + construction_solid_draws(c, s1, cell, 18, 60, ds, if nbr == Species::Acid { 2 } else { 1 })
}

/// The bounds of the draws granite makes (see `construction_solid_draws`).
pub open spec fn granite_draws(c: Ctx, s: Scene, cell: Cell, ds: Draws) -> Seq<int> {
    construction_solid_draws(c, s, cell, 30, 70, ds, 0)
}

/// The bounds of the draws basalt makes (see `basalt_rule`).
pub open spec fn basalt_draws(c: Ctx, s: Scene, cell: Cell, ds: Draws) -> Seq<int> {
    let v = rvec(ds, 0);
    let s1 = if sget(c, s, v.0, v.1).species == Species::Lava {
        sset_fluid(c, s, Wind { dx: 0, dy: 0, pressure: 0, density: 20 })
    } else {
        s
    };
    seq![2000] + construction_solid_draws(c, s1, cell, 35, 80, ds, 1)
}

/// A construction solid (see `construction_solid`), ending the turn.
fn construction_solid_step(
    cell: Cell,
    api: &mut SandApi,
    crush_resist: i32,
    melt_temp: i32,
    Ghost(start): Ghost<SandApi>,
)
    requires
        old(api).continues(start),
        crush_resist > 0,
    ensures
        final(api).continues(*old(api)),
        final(api).scene() == construction_solid(
            old(api).ctx(),
            old(api).scene(),
            cell,
            crush_resist as int,
            melt_temp as int,
            final(api).new_draws(start),
            old(api).draws().len() - start.draws().len(),
        ),
        bounds(final(api).new_draws(start)) == bounds(old(api).new_draws(start)) + construction_solid_draws(old(api).ctx(), old(api).scene(), cell, crush_resist as int, melt_temp as int, final(api).new_draws(start), old(api).draws().len() - start.draws().len()),
{
    let fluid = api.get_fluid();
    let (dx, dy) = api.rand_vec();
    let nbr = api.get(dx, dy);
    if fluid.pressure > 150 && api.once_in(crush_resist) {
        api.set(0, 0, Cell { species: Species::Sand, ra: cell.ra, rb: 0, clock: 0 });
        return;
    }
    if melt_temp > 0 && nbr.species == Species::Lava && api.once_in(melt_temp) {
        api.set(0, 0, Cell { species: Species::Lava, ra: 100, rb: 0, clock: 0 });
        return;
    }
    let below = api.get(0, 1);
    if below.species == Species::Empty {
        api.set(0, 0, Cell::empty());
        api.set(0, 1, cell);
    } else if below.species == Species::Water || below.species == Species::Oil || below.species == Species::Gas
        || below.species == Species::Acid {
        api.set(0, 0, below);
        api.set(0, 1, cell);
    } else {
        api.set(0, 0, cell);
    }
}

/// One turn of brick (see `brick_rule`).
pub fn update_brick(cell: Cell, api: &mut SandApi)
    requires
        old(api).wf(),
    ensures
        final(api).continues(*old(api)),
        final(api).scene() == brick_rule(old(api).ctx(), old(api).scene(), cell, final(api).new_draws(*old(api))),
        bounds(final(api).new_draws(*old(api))) == brick_draws(old(api).ctx(), old(api).scene(), cell, final(api).new_draws(*old(api))),
{
    construction_solid_step(cell, api, 15, 40, Ghost(*old(api)));
}

/// One turn of concrete (see `concrete_rule`).
pub fn update_concrete(cell: Cell, api: &mut SandApi)
    requires
        old(api).wf(),
    ensures
        final(api).continues(*old(api)),
        final(api).scene() == concrete_rule(old(api).ctx(), old(api).scene(), cell, final(api).new_draws(*old(api))),
        bounds(final(api).new_draws(*old(api))) == concrete_draws(old(api).ctx(), old(api).scene(), cell, final(api).new_draws(*old(api))),
{
    construction_solid_step(cell, api, 25, 50, Ghost(*old(api)));
}

/// One turn of cement (see `cement_rule`).
pub fn update_cement(cell: Cell, api: &mut SandApi)
    requires
        old(api).wf(),
    ensures
        final(api).continues(*old(api)),
        final(api).scene() == cement_rule(old(api).ctx(), old(api).scene(), cell, final(api).new_draws(*old(api))),
        bounds(final(api).new_draws(*old(api))) == cement_draws(old(api).ctx(), old(api).scene(), cell, final(api).new_draws(*old(api))),
{
    let rb = cell.rb;
    if rb > 1 {
        api.set(0, 0, Cell { rb: rb - 1, ..cell });
        return;
    } else if rb == 1 {
        api.set(0, 0, Cell { species: Species::Concrete, ra: cell.ra, rb: 0, clock: 0 });
        return;
    }
    let (dx, dy) = api.rand_vec();
    let nbr = api.get(dx, dy);
    if nbr.species == Species::Water {
        api.set(dx, dy, Cell::empty());
        api.set(0, 0, Cell { rb: 30, ..cell });
        return;
    }
    let below = api.get(0, 1);
    if below.species == Species::Empty {
        api.set(0, 0, Cell::empty());
        api.set(0, 1, cell);
    } else {
        let sfx = api.rand_dir_2();
        if api.get(sfx, 1).species == Species::Empty {
            api.set(0, 0, Cell::empty());
            api.set(sfx, 1, cell);
        } else {
            api.set(0, 0, cell);
        }
    }
}

/// One turn of tile (see `tile_rule`).
pub fn update_tile(cell: Cell, api: &mut SandApi)
    requires
        old(api).wf(),
    ensures
        final(api).continues(*old(api)),
        final(api).scene() == tile_rule(old(api).ctx(), old(api).scene(), cell, final(api).new_draws(*old(api))),
        bounds(final(api).new_draws(*old(api))) == tile_draws(old(api).ctx(), old(api).scene(), cell, final(api).new_draws(*old(api))),
{
    construction_solid_step(cell, api, 20, 45, Ghost(*old(api)));
}

/// One turn of plaster (see `plaster_rule`).
pub fn update_plaster(cell: Cell, api: &mut SandApi)
    requires
        old(api).wf(),
    ensures
        final(api).continues(*old(api)),
        final(api).scene() == plaster_rule(old(api).ctx(), old(api).scene(), cell, final(api).new_draws(*old(api))),
        bounds(final(api).new_draws(*old(api))) == plaster_draws(old(api).ctx(), old(api).scene(), cell, final(api).new_draws(*old(api))),
{
    let (dx, dy) = api.rand_vec();
    let nbr = api.get(dx, dy);
    if nbr.species == Species::Water && api.once_in(30) {
        api.set(0, 0, Cell { species: Species::Mud, ra: cell.ra, rb: 0, clock: 0 });
        return;
    }
    if nbr.species == Species::Acid && api.once_in(10) {
        api.set(0, 0, Cell::empty());
        return;
    }
    construction_solid_step(cell, api, 8, 0, Ghost(*old(api)));
}

/// One turn of marble (see `marble_rule`).
pub fn update_marble(cell: Cell, api: &mut SandApi)
    requires
        old(api).wf(),
    ensures
        final(api).continues(*old(api)),
        final(api).scene() == marble_rule(old(api).ctx(), old(api).scene(), cell, final(api).new_draws(*old(api))),
        bounds(final(api).new_draws(*old(api))) == marble_draws(old(api).ctx(), old(api).scene(), cell, final(api).new_draws(*old(api))),
{
    let (dx, dy) = api.rand_vec();
    let nbr = api.get(dx, dy);
    if nbr.species == Species::Acid && api.once_in(25) {
        api.set(0, 0, Cell { ra: cell.ra.saturating_sub(10), ..cell });
    }
    construction_solid_step(cell, api, 18, 60, Ghost(*old(api)));
}

/// One turn of granite (see `granite_rule`).
pub fn update_granite(cell: Cell, api: &mut SandApi)
    requires
        old(api).wf(),
    ensures
        final(api).continues(*old(api)),
        final(api).scene() == granite_rule(old(api).ctx(), old(api).scene(), cell, final(api).new_draws(*old(api))),
        bounds(final(api).new_draws(*old(api))) == granite_draws(old(api).ctx(), old(api).scene(), cell, final(api).new_draws(*old(api))),
{
    construction_solid_step(cell, api, 30, 70, Ghost(*old(api)));
}

/// One turn of basalt (see `basalt_rule`).
pub fn update_basalt(cell: Cell, api: &mut SandApi)
    requires
        old(api).wf(),
    ensures
        final(api).continues(*old(api)),
        final(api).scene() == basalt_rule(old(api).ctx(), old(api).scene(), cell, final(api).new_draws(*old(api))),
        bounds(final(api).new_draws(*old(api))) == basalt_draws(old(api).ctx(), old(api).scene(), cell, final(api).new_draws(*old(api))),
{
    let (dx, dy) = api.rand_vec();
    let nbr = api.get(dx, dy);
    if nbr.species == Species::Lava {
        api.set_fluid(Wind { dx: 0, dy: 0, pressure: 0, density: 20 });
    }
    construction_solid_step(cell, api, 35, 80, Ghost(*old(api)));
}

} // verus!
