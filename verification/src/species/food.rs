//! Food: bread, cheese, meat, egg, rice and wheat.

use super::Species;
use crate::cell::Cell;
use crate::world::{
    bounds, draw_if, draw, fresh_cell, moveto, once, rdir, rdir2, rvec, sfluid, sget, sset, ssub, stay, swap, wadd, Ctx, Draws,
    SandApi, Scene,
};
use vstd::prelude::*;

verus! {

/// The fall of a food, its draws starting at `k`: into empty space,
/// through water by swapping with it, to an empty random lower diagonal,
/// or it stays.
pub open spec fn food_fall(c: Ctx, s: Scene, cell: Cell, ds: Draws, k: int) -> Scene {
    let below = sget(c, s, 0, 1);
    if below.species == Species::Empty {
        moveto(c, s, 0, 1, cell)
    } else if below.species == Species::Water {
        swap(c, s, 0, 1, below, cell)
    } else {
        let dx = rdir2(ds, k);
        if sget(c, s, dx, 1).species == Species::Empty {
            moveto(c, s, dx, 1, cell)
        } else {
            stay(c, s, cell)
        }
    }
}

/// The burning of a food, its draws starting at `k`: unlit (`rb == 0`)
/// next to fire or lava at a random step it lights (`rb = burn_time`);
/// burning (`rb > 1`) it counts down, and water there puts it out
/// (`ra = 50`, `rb = 0`); at `rb == 1` it turns to ash (keeping `ra`).
pub open spec fn food_burn(c: Ctx, s: Scene, cell: Cell, burn_time: u8, ds: Draws, k: int) -> Scene {
    let rb = cell.rb;
    let v = rvec(ds, k);
    let nbr = sget(c, s, v.0, v.1).species;
    if rb == 0 && (nbr == Species::Fire || nbr == Species::Lava) {
        stay(c, s, Cell { species: cell.species, ra: cell.ra, rb: burn_time, clock: 0 })
    } else if rb > 1 {
        let s1 = stay(c, s, Cell { ra: cell.ra, rb: (rb - 1) as u8, ..cell });
        if nbr == Species::Water {
            stay(c, s1, Cell { ra: 50, rb: 0, ..cell })
        } else {
            s1
        }
    } else if rb == 1 {
        stay(c, s, Cell { species: Species::Ash, ra: cell.ra, rb: 0, clock: 0 })
    } else {
        s
    }
}

/// Bread: next to fire or lava at a random step it burns (fire,
/// `ra = 80`); next to water it goes soggy (`ra` down by 10) one time in
/// 10; then it falls (see `food_fall`).
pub open spec fn bread_rule(c: Ctx, s: Scene, cell: Cell, ds: Draws) -> Scene {
    let v = rvec(ds, 0);
    let nbr = sget(c, s, v.0, v.1).species;
    if nbr == Species::Fire || nbr == Species::Lava {
        stay(c, s, Cell { species: Species::Fire, ra: 80, rb: 0, clock: 0 })
    } else {
        let s1 = if nbr == Species::Water && once(ds, 1, 10) {
            stay(c, s, Cell { ra: ssub(cell.ra, 10), ..cell })
        } else {
            s
        };
        food_fall(c, s1, cell, ds, if nbr == Species::Water { 2 } else { 1 })
    }
}

/// Cheese: next to fire or lava at a random step it melts into oil
/// (`ra = 80`); next to a mite or an ant it is eaten one time in 20;
/// otherwise it falls (see `food_fall`).
pub open spec fn cheese_rule(c: Ctx, s: Scene, cell: Cell, ds: Draws) -> Scene {
    let v = rvec(ds, 0);
    let nbr = sget(c, s, v.0, v.1).species;
    let pest = nbr == Species::Mite || nbr == Species::Ant;
    if nbr == Species::Fire || nbr == Species::Lava {
        stay(c, s, Cell { species: Species::Oil, ra: 80, rb: 0, clock: 0 })
    } else if pest && once(ds, 1, 20) {
        stay(c, s, Cell::empty())
    } else {
        food_fall(c, s, cell, ds, if pest { 2 } else { 1 })
    }
}

/// Meat: next to fire or lava at a random step it cooks (`ra` up by 5)
/// until past 100 it burns (fire, `ra = 100`); next to a spider, snake or
/// bird it is eaten one time in 15; it rots away one time in 500;
/// otherwise it falls (see `food_fall`).
pub open spec fn meat_rule(c: Ctx, s: Scene, cell: Cell, ds: Draws) -> Scene {
    let v = rvec(ds, 0);
    let nbr = sget(c, s, v.0, v.1).species;
    let eater = nbr == Species::Spider || nbr == Species::Snake || nbr == Species::Bird;
    if nbr == Species::Fire || nbr == Species::Lava {
        if cell.ra > 100 {
            stay(c, s, Cell { species: Species::Fire, ra: 100, rb: 0, clock: 0 })
        } else {
            stay(c, s, Cell { ra: (cell.ra + 5) as u8, ..cell })
        }
    } else if eater && once(ds, 1, 15) {
        stay(c, s, Cell::empty())
    } else {
        let k: int = if eater { 2 } else { 1 };
        if once(ds, k, 500) {
            stay(c, s, Cell::empty())
        } else {
            food_fall(c, s, cell, ds, k + 1)
        }
    }
}

/// Egg: under air pressure above 60 it breaks, leaving oil (`ra = 100`) at
/// a random step along its row; past `ra` 150 it hatches into a fresh bird;
/// otherwise it matures (`ra` up by 1) one time in 100 and falls (see
/// `food_fall`).
pub open spec fn egg_rule(c: Ctx, s: Scene, cell: Cell, ds: Draws) -> Scene {
    let ra = cell.ra;
    if sfluid(c).pressure > 60 {
        sset(c, stay(c, s, Cell::empty()), rdir(ds, 0), 0, Cell { species: Species::Oil, ra: 100, rb: 0, clock: 0 })
    } else if ra > 150 {
        stay(c, s, fresh_cell(Species::Bird, draw(ds, 0, 50)))
    } else {
        let s1 = if once(ds, 0, 100) {
            stay(c, s, Cell { ra: (ra + 1) as u8, ..cell })
        } else {
            s
        };
        food_fall(c, s1, cell, ds, 1)
    }
}

/// Rice: next to water at a random step it soaks it up one time in 5
/// (`ra` up by 10, wrapping); next to fire it is rewritten as fire
/// (`ra = 30`) and then still moves as rice: into empty space, to an empty
/// random lower diagonal (left, straight or right), or it stays.
pub open spec fn rice_rule(c: Ctx, s: Scene, cell: Cell, ds: Draws) -> Scene {
    let v = rvec(ds, 0);
    let nbr = sget(c, s, v.0, v.1).species;
    if nbr == Species::Water && once(ds, 1, 5) {
        stay(c, sset(c, s, v.0, v.1, Cell::empty()), Cell { ra: wadd(cell.ra, 10), ..cell })
    } else {
        let k: int = if nbr == Species::Water { 2 } else { 1 };
        let s1 = if nbr == Species::Fire {
            stay(c, s, Cell { species: Species::Fire, ra: 30, rb: 0, clock: 0 })
        } else {
            s
        };
        let dx2 = rdir(ds, k);
        if sget(c, s1, 0, 1).species == Species::Empty {
            moveto(c, s1, 0, 1, cell)
        } else if sget(c, s1, dx2, 1).species == Species::Empty {
            moveto(c, s1, dx2, 1, cell)
        } else {
            stay(c, s1, cell)
        }
    }
}

/// Wheat: burning (`rb > 0`) it burns as food (see `food_burn`, 15).
/// Otherwise on soil it grows (`ra` up by 5) one time in 15 while `ra` is
/// below 200; past `ra` 100 it sprouts a copy with `ra` down by 30 into
/// empty space above one time in 25; then it may catch fire (see
/// `food_burn`, 10).
pub open spec fn wheat_rule(c: Ctx, s: Scene, cell: Cell, ds: Draws) -> Scene {
    let ra = cell.ra;
    if cell.rb > 0 {
        food_burn(c, s, cell, 15, ds, 0)
    } else {
        let on_soil = sget(c, s, 0, 1).species == Species::Soil;
        let s1 = if on_soil && once(ds, 0, 15) && ra < 200 {
            stay(c, s, Cell { ra: (ra + 5) as u8, ..cell })
        } else {
            s
        };
        let k: int = if on_soil { 1 } else { 0 };
        let tall = ra > 100 && sget(c, s1, 0, -1).species == Species::Empty;
        let s2 = if tall && once(ds, k, 25) {
            sset(c, s1, 0, -1, Cell { ra: (ra - 30) as u8, ..cell })
        } else {
            s1
        };
        food_burn(c, s2, cell, 10, ds, if tall { k + 1 } else { k })
    }
}

/// The bounds of the draws of `food_fall`: a `rand_dir_2` when it neither
/// falls nor sinks.
pub open spec fn food_fall_draws(c: Ctx, s: Scene, cell: Cell, ds: Draws, k: int) -> Seq<int> {
    let below = sget(c, s, 0, 1).species;
    draw_if(below != Species::Empty && below != Species::Water, 1000)
}

/// The bounds of the draws of `food_burn`: a `rand_vec`.
pub open spec fn food_burn_draws(c: Ctx, s: Scene, cell: Cell, burn_time: u8, ds: Draws, k: int) -> Seq<int> {
    seq![2000]
}

/// The bounds of the draws bread makes (see `bread_rule`).
pub open spec fn bread_draws(c: Ctx, s: Scene, cell: Cell, ds: Draws) -> Seq<int> {
    let v = rvec(ds, 0);
    let nbr = sget(c, s, v.0, v.1).species;
    if nbr == Species::Fire || nbr == Species::Lava {
        seq![2000]
    } else {
        let s1 = if nbr == Species::Water && once(ds, 1, 10) {
            stay(c, s, Cell { ra: ssub(cell.ra, 10), ..cell })
        } else {
            s
        };
        seq![2000] + draw_if(nbr == Species::Water, 10) + food_fall_draws(c, s1, cell, ds, if nbr == Species::Water { 2 } else { 1 })
    }
}

/// The bounds of the draws cheese makes (see `cheese_rule`).
pub open spec fn cheese_draws(c: Ctx, s: Scene, cell: Cell, ds: Draws) -> Seq<int> {
    let v = rvec(ds, 0);
    let nbr = sget(c, s, v.0, v.1).species;
    let pest = nbr == Species::Mite || nbr == Species::Ant;
    if nbr == Species::Fire || nbr == Species::Lava {
        seq![2000]
    } else if pest && once(ds, 1, 20) {
        seq![2000, 20]
    } else {
        seq![2000] + draw_if(pest, 20) + food_fall_draws(c, s, cell, ds, if pest { 2 } else { 1 })
    }
}

/// The bounds of the draws meat makes (see `meat_rule`).
pub open spec fn meat_draws(c: Ctx, s: Scene, cell: Cell, ds: Draws) -> Seq<int> {
    let v = rvec(ds, 0);
    let nbr = sget(c, s, v.0, v.1).species;
    let eater = nbr == Species::Spider || nbr == Species::Snake || nbr == Species::Bird;
    if nbr == Species::Fire || nbr == Species::Lava {
        seq![2000]
    } else if eater && once(ds, 1, 15) {
        seq![2000, 15]
    } else {
        let k: int = if eater { 2 } else { 1 };
        seq![2000] + draw_if(eater, 15) + seq![500] + (if once(ds, k, 500) {
            seq![]
        } else {
            food_fall_draws(c, s, cell, ds, k + 1)
        })
    }
}

/// The bounds of the draws an egg makes (see `egg_rule`).
pub open spec fn egg_draws(c: Ctx, s: Scene, cell: Cell, ds: Draws) -> Seq<int> {
    if sfluid(c).pressure > 60 {
        seq![1000]
    } else if cell.ra > 150 {
        seq![50]
    } else {
        let s1 = if once(ds, 0, 100) { stay(c, s, Cell { ra: (cell.ra + 1) as u8, ..cell }) } else { s };
        seq![100] + food_fall_draws(c, s1, cell, ds, 1)
    }
}

/// The bounds of the draws rice makes (see `rice_rule`).
pub open spec fn rice_draws(c: Ctx, s: Scene, cell: Cell, ds: Draws) -> Seq<int> {
    let v = rvec(ds, 0);
    let nbr = sget(c, s, v.0, v.1).species;
    if nbr == Species::Water && once(ds, 1, 5) {
        seq![2000, 5]
    } else {
        seq![2000] + draw_if(nbr == Species::Water, 5) + seq![1000]
    }
}

/// The bounds of the draws wheat makes (see `wheat_rule`).
pub open spec fn wheat_draws(c: Ctx, s: Scene, cell: Cell, ds: Draws) -> Seq<int> {
    let ra = cell.ra;
    if cell.rb > 0 {
        seq![2000]
    } else {
        let on_soil = sget(c, s, 0, 1).species == Species::Soil;
        let s1 = if on_soil && once(ds, 0, 15) && ra < 200 {
            stay(c, s, Cell { ra: (ra + 5) as u8, ..cell })
        } else {
            s
        };
        let tall = ra > 100 && sget(c, s1, 0, -1).species == Species::Empty;
        draw_if(on_soil, 15) + draw_if(tall, 25) + seq![2000]
    }
}

/// The fall of a food (see `food_fall`), ending the turn.
fn food_fall_step(cell: Cell, api: &mut SandApi, Ghost(start): Ghost<SandApi>)
    requires
        old(api).continues(start),
    ensures
        final(api).continues(*old(api)),
        final(api).scene() == food_fall(
            old(api).ctx(),
            old(api).scene(),
            cell,
            final(api).new_draws(start),
            old(api).draws().len() - start.draws().len(),
        ),
        bounds(final(api).new_draws(start)) == bounds(old(api).new_draws(start)) + food_fall_draws(old(api).ctx(), old(api).scene(), cell, final(api).new_draws(start), old(api).draws().len() - start.draws().len()),
{
    let below = api.get(0, 1);
    if below.species == Species::Empty {
        api.set(0, 0, Cell::empty());
        api.set(0, 1, cell);
    } else if below.species == Species::Water {
        api.set(0, 0, below);
        api.set(0, 1, cell);
    } else {
        let dx = api.rand_dir_2();
        if api.get(dx, 1).species == Species::Empty {
            api.set(0, 0, Cell::empty());
            api.set(dx, 1, cell);
        } else {
            api.set(0, 0, cell);
        }
    }
}

/// The burning of a food (see `food_burn`), ending the turn.
fn food_burn_step(cell: Cell, api: &mut SandApi, burn_time: u8, Ghost(start): Ghost<SandApi>)
    requires
        old(api).continues(start),
    ensures
        final(api).continues(*old(api)),
        final(api).scene() == food_burn(
            old(api).ctx(),
            old(api).scene(),
            cell,
            burn_time,
            final(api).new_draws(start),
            old(api).draws().len() - start.draws().len(),
        ),
        bounds(final(api).new_draws(start)) == bounds(old(api).new_draws(start)) + food_burn_draws(old(api).ctx(), old(api).scene(), cell, burn_time, final(api).new_draws(start), old(api).draws().len() - start.draws().len()),
{
    let rb = cell.rb;
    let (dx, dy) = api.rand_vec();
    let nbr_species = api.get(dx, dy).species;
    if rb == 0 && (nbr_species == Species::Fire || nbr_species == Species::Lava) {
        api.set(0, 0, Cell { species: cell.species, ra: cell.ra, rb: burn_time, clock: 0 });
    } else if rb > 1 {
        api.set(0, 0, Cell { ra: cell.ra, rb: rb - 1, ..cell });
        if nbr_species == Species::Water {
            api.set(0, 0, Cell { ra: 50, rb: 0, ..cell });
        }
    } else if rb == 1 {
        api.set(0, 0, Cell { species: Species::Ash, ra: cell.ra, rb: 0, clock: 0 });
    }
}

/// One turn of bread (see `bread_rule`).
pub fn update_bread(cell: Cell, api: &mut SandApi)
    requires
        old(api).wf(),
    ensures
        final(api).continues(*old(api)),
        final(api).scene() == bread_rule(old(api).ctx(), old(api).scene(), cell, final(api).new_draws(*old(api))),
        bounds(final(api).new_draws(*old(api))) == bread_draws(old(api).ctx(), old(api).scene(), cell, final(api).new_draws(*old(api))),
{
    let (dx, dy) = api.rand_vec();
    let nbr = api.get(dx, dy);
    if nbr.species == Species::Fire || nbr.species == Species::Lava {
        api.set(0, 0, Cell { species: Species::Fire, ra: 80, rb: 0, clock: 0 });
        return;
    }
    if nbr.species == Species::Water && api.once_in(10) {
        api.set(0, 0, Cell { ra: cell.ra.saturating_sub(10), ..cell });
    }
    food_fall_step(cell, api, Ghost(*old(api)));
}

/// One turn of cheese (see `cheese_rule`).
pub fn update_cheese(cell: Cell, api: &mut SandApi)
    requires
        old(api).wf(),
    ensures
        final(api).continues(*old(api)),
        final(api).scene() == cheese_rule(old(api).ctx(), old(api).scene(), cell, final(api).new_draws(*old(api))),
        bounds(final(api).new_draws(*old(api))) == cheese_draws(old(api).ctx(), old(api).scene(), cell, final(api).new_draws(*old(api))),
{
    let (dx, dy) = api.rand_vec();
    let nbr = api.get(dx, dy);
    if nbr.species == Species::Fire || nbr.species == Species::Lava {
        api.set(0, 0, Cell { species: Species::Oil, ra: 80, rb: 0, clock: 0 });
        return;
    }
    if (nbr.species == Species::Mite || nbr.species == Species::Ant) && api.once_in(20) {
        api.set(0, 0, Cell::empty());
        return;
    }
    food_fall_step(cell, api, Ghost(*old(api)));
}

/// One turn of meat (see `meat_rule`).
pub fn update_meat(cell: Cell, api: &mut SandApi)
    requires
        old(api).wf(),
    ensures
        final(api).continues(*old(api)),
        final(api).scene() == meat_rule(old(api).ctx(), old(api).scene(), cell, final(api).new_draws(*old(api))),
        bounds(final(api).new_draws(*old(api))) == meat_draws(old(api).ctx(), old(api).scene(), cell, final(api).new_draws(*old(api))),
{
    let (dx, dy) = api.rand_vec();
    let nbr = api.get(dx, dy);
    if nbr.species == Species::Fire || nbr.species == Species::Lava {
        let ra = cell.ra;
        if ra > 100 {
            api.set(0, 0, Cell { species: Species::Fire, ra: 100, rb: 0, clock: 0 });
        } else {
            api.set(0, 0, Cell { ra: ra + 5, ..cell });
        }
        return;
    }
    if (nbr.species == Species::Spider || nbr.species == Species::Snake || nbr.species == Species::Bird)
        && api.once_in(15) {
        api.set(0, 0, Cell::empty());
        return;
    }
    if api.once_in(500) {
        api.set(0, 0, Cell::empty());
        return;
    }
    food_fall_step(cell, api, Ghost(*old(api)));
}

/// One turn of egg (see `egg_rule`).
pub fn update_egg(cell: Cell, api: &mut SandApi)
    requires
        old(api).wf(),
    ensures
        final(api).continues(*old(api)),
        final(api).scene() == egg_rule(old(api).ctx(), old(api).scene(), cell, final(api).new_draws(*old(api))),
        bounds(final(api).new_draws(*old(api))) == egg_draws(old(api).ctx(), old(api).scene(), cell, final(api).new_draws(*old(api))),
{
    let ra = cell.ra;
    let fluid = api.get_fluid();
    if fluid.pressure > 60 {
        api.set(0, 0, Cell::empty());
        let edx = api.rand_dir();
        api.set(edx, 0, Cell { species: Species::Oil, ra: 100, rb: 0, clock: 0 });
        return;
    }
    if ra > 150 {
        let chick = api.new_cell(Species::Bird);
        api.set(0, 0, chick);
        return;
    }
    if api.once_in(100) {
        api.set(0, 0, Cell { ra: ra + 1, ..cell });
    }
    food_fall_step(cell, api, Ghost(*old(api)));
}

/// One turn of rice (see `rice_rule`).
pub fn update_rice(cell: Cell, api: &mut SandApi)
    requires
        old(api).wf(),
    ensures
        final(api).continues(*old(api)),
        final(api).scene() == rice_rule(old(api).ctx(), old(api).scene(), cell, final(api).new_draws(*old(api))),
        bounds(final(api).new_draws(*old(api))) == rice_draws(old(api).ctx(), old(api).scene(), cell, final(api).new_draws(*old(api))),
{
    let (dx, dy) = api.rand_vec();
    let nbr = api.get(dx, dy);
    if nbr.species == Species::Water && api.once_in(5) {
        api.set(dx, dy, Cell::empty());
        api.set(0, 0, Cell { ra: cell.ra.wrapping_add(10), ..cell });
        return;
    }
    if nbr.species == Species::Fire {
        api.set(0, 0, Cell { species: Species::Fire, ra: 30, rb: 0, clock: 0 });
    }
    let below = api.get(0, 1);
    let dx2 = api.rand_dir();
    if below.species == Species::Empty {
        api.set(0, 0, Cell::empty());
        api.set(0, 1, cell);
    } else if api.get(dx2, 1).species == Species::Empty {
        api.set(0, 0, Cell::empty());
        api.set(dx2, 1, cell);
    } else {
        api.set(0, 0, cell);
    }
}

/// One turn of wheat (see `wheat_rule`).
pub fn update_wheat(cell: Cell, api: &mut SandApi)
    requires
        old(api).wf(),
    ensures
        final(api).continues(*old(api)),
        final(api).scene() == wheat_rule(old(api).ctx(), old(api).scene(), cell, final(api).new_draws(*old(api))),
        bounds(final(api).new_draws(*old(api))) == wheat_draws(old(api).ctx(), old(api).scene(), cell, final(api).new_draws(*old(api))),
{
    let ra = cell.ra;
    let rb = cell.rb;
    if rb > 0 {
        food_burn_step(cell, api, 15, Ghost(*old(api)));
        return;
    }
    let below = api.get(0, 1);
    if below.species == Species::Soil && api.once_in(15) && ra < 200 {
        api.set(0, 0, Cell { ra: ra + 5, ..cell });
    }
    if ra > 100 && api.get(0, -1).species == Species::Empty && api.once_in(25) {
        api.set(0, -1, Cell { ra: ra - 30, ..cell });
    }
    food_burn_step(cell, api, 10, Ghost(*old(api)));
}

} // verus!
