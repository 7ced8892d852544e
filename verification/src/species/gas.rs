//! Gas and fire.

use super::Species;
use crate::cell::{Cell, Wind};
use crate::kinds::fits;
use crate::world::{
    bounds, dir3, dv, moveto, sget, sset, sset_fluid, ssub, stay, vec9, wadd, Ctx, Draws, SandApi, Scene,
};
use vstd::prelude::*;

verus! {

/// Gas: a fresh gas cell (`rb == 0`) first takes `rb = 5`. Into an empty
/// neighbour in a random direction it moves whole when `rb < 3`, and
/// otherwise splits, keeping `rb = 1` and sending `rb - 1` on; into a
/// neighbouring gas with `rb < 4` (not itself) it merges, adding the `rb`s.
pub open spec fn gas_rule(c: Ctx, s: Scene, cell: Cell, ds: Draws) -> Scene {
    let v = vec9(dv(ds, 0));
    let nbr = sget(c, s, v.0, v.1);
    let s1 = if cell.rb == 0 { stay(c, s, Cell { rb: 5, ..cell }) } else { s };
    if nbr.species == Species::Empty {
        if cell.rb < 3 {
            moveto(c, s1, v.0, v.1, cell)
        } else {
            sset(c, stay(c, s1, Cell { rb: 1, ..cell }), v.0, v.1, Cell { rb: (cell.rb - 1) as u8, ..cell })
        }
    } else if (v.0 != 0 || v.1 != 0) && nbr.species == Species::Gas && nbr.rb < 4 {
        moveto(c, s1, v.0, v.1, Cell { rb: wadd(nbr.rb, cell.rb), ..cell })
    } else {
        s1
    }
}

/// The fire cell a flame sends to offset `(dx, dy)`.
pub open spec fn flame_at(dx: int, dy: int) -> Cell {
    Cell { species: Species::Fire, ra: (150 + (dx + dy) * 10) as u8, rb: 0, clock: 0 }
}

/// Fire: heats its own burn; ignites gas or dust in a random direction
/// (with a blast burn); dies out when `ra < 5` or water is there; moves into
/// empty space there, otherwise stays; in both cases weakened by 1 to 3.
pub open spec fn fire_rule(c: Ctx, s: Scene, cell: Cell, ds: Draws) -> Scene {
    let degraded = Cell { ra: ssub(cell.ra, (2 + dir3(dv(ds, 0))) as u8), ..cell };
    let v = vec9(dv(ds, 1));
    let s1 = sset_fluid(c, s, Wind { dx: 0, dy: 150, pressure: 1, density: 120 });
    let t = sget(c, s1, v.0, v.1).species;
    let s2 = if t == Species::Gas || t == Species::Dust {
        sset_fluid(c, sset(c, s1, v.0, v.1, flame_at(v.0, v.1)), Wind { dx: 0, dy: 0, pressure: 80, density: 40 })
    } else {
        s1
    };
    if cell.ra < 5 || sget(c, s2, v.0, v.1).species == Species::Water {
        stay(c, s2, Cell::empty())
    } else if sget(c, s2, v.0, v.1).species == Species::Empty {
        moveto(c, s2, v.0, v.1, degraded)
    } else {
        stay(c, s2, degraded)
    }
}

/// The bounds of the draws gas makes: a `rand_vec`.
pub open spec fn gas_draws(c: Ctx, s: Scene, cell: Cell, ds: Draws) -> Seq<int> {
    seq![2000]
}

/// The bounds of the draws fire makes: a `rand_dir` and a `rand_vec`.
pub open spec fn fire_draws(c: Ctx, s: Scene, cell: Cell, ds: Draws) -> Seq<int> {
    seq![1000, 2000]
}

/// One turn of gas (see `gas_rule`).
pub fn update_gas(cell: Cell, api: &mut SandApi)
    requires
        old(api).wf(),
    ensures
        final(api).continues(*old(api)),
        final(api).scene() == gas_rule(old(api).ctx(), old(api).scene(), cell, final(api).new_draws(*old(api))),
        bounds(final(api).new_draws(*old(api))) == gas_draws(old(api).ctx(), old(api).scene(), cell, final(api).new_draws(*old(api))),
{
    let (dx, dy) = api.rand_vec();
    let nbr = api.get(dx, dy);
    if cell.rb == 0 {
        api.set(0, 0, Cell { rb: 5, ..cell });
    }
    if nbr.species == Species::Empty {
        if cell.rb < 3 {
            api.set(0, 0, Cell::empty());
            api.set(dx, dy, cell);
        } else {
            api.set(0, 0, Cell { rb: 1, ..cell });
            api.set(dx, dy, Cell { rb: cell.rb - 1, ..cell });
        }
    } else if (dx != 0 || dy != 0) && nbr.species == Species::Gas && nbr.rb < 4 {
        api.set(0, 0, Cell::empty());
        api.set(dx, dy, Cell { rb: nbr.rb.wrapping_add(cell.rb), ..cell });
    }
}

/// One turn of fire (see `fire_rule`).
pub fn update_fire(cell: Cell, api: &mut SandApi)
    requires
        old(api).wf(),
    ensures
        final(api).continues(*old(api)),
        final(api).scene() == fire_rule(old(api).ctx(), old(api).scene(), cell, final(api).new_draws(*old(api))),
        bounds(final(api).new_draws(*old(api))) == fire_draws(old(api).ctx(), old(api).scene(), cell, final(api).new_draws(*old(api))),
{
    let ra = cell.ra;
    let mut degraded = cell.clone();
    degraded.ra = ra.saturating_sub((2 + api.rand_dir()) as u8);
    let (dx, dy) = api.rand_vec();
    api.set_fluid(Wind { dx: 0, dy: 150, pressure: 1, density: 120 });
    if api.get(dx, dy).species == Species::Gas || api.get(dx, dy).species == Species::Dust {
        api.set(dx, dy, Cell { species: Species::Fire, ra: (150 + (dx + dy) * 10) as u8, rb: 0, clock: 0 });
        api.set_fluid(Wind { dx: 0, dy: 0, pressure: 80, density: 40 });
    }
    if ra < 5 || api.get(dx, dy).species == Species::Water {
        api.set(0, 0, Cell::empty());
    } else if api.get(dx, dy).species == Species::Empty {
        api.set(0, 0, Cell::empty());
        api.set(dx, dy, degraded);
    } else {
        api.set(0, 0, degraded);
    }
}

/// Fire burns down: fire with `ra` below 5, or fire that meets water in the
/// random direction it looks, leaves its place empty; any other fire
/// leaves its place empty (having moved) or stays there weaker. Gas or
/// dust in the direction it looks catches fire.
pub proof fn lemma_fire_burns_down(c: Ctx, s: Scene, cell: Cell, ds: Draws)
    requires
        fits(c, s),
    ensures
        cell.ra < 5 ==> sget(c, fire_rule(c, s, cell, ds), 0, 0).species == Species::Empty,
        sget(c, s, vec9(dv(ds, 1)).0, vec9(dv(ds, 1)).1).species == Species::Water ==> sget(
            c,
            fire_rule(c, s, cell, ds),
            0,
            0,
        ).species == Species::Empty,
        sget(c, fire_rule(c, s, cell, ds), 0, 0).species == Species::Empty || (sget(c, fire_rule(c, s, cell, ds), 0, 0).species
            == cell.species && sget(c, fire_rule(c, s, cell, ds), 0, 0).ra < cell.ra),
        ({
            let v = vec9(dv(ds, 1));
            let t = sget(c, s, v.0, v.1).species;
            (v.0 != 0 || v.1 != 0) && (t == Species::Gas || t == Species::Dust) ==> sget(
                c,
                fire_rule(c, s, cell, ds),
                v.0,
                v.1,
            ).species == Species::Fire
        }),
{
    let v = vec9(dv(ds, 1));
    crate::world::lemma_index_bounds(c.width, c.height, c.x, c.y);
    if crate::world::in_grid(c, c.x + v.0, c.y + v.1) {
        crate::world::lemma_index_bounds(c.width, c.height, c.x + v.0, c.y + v.1);
    }
    assert(-1 <= dir3(dv(ds, 0)) <= 1);
}

/// A thin gas cell (`rb` 1 or 2) moves into empty space in the random
/// direction it looks.
pub proof fn lemma_thin_gas_drifts(c: Ctx, s: Scene, cell: Cell, ds: Draws)
    ensures
        ({
            let v = vec9(dv(ds, 0));
            0 < cell.rb < 3 && sget(c, s, v.0, v.1).species == Species::Empty ==> gas_rule(c, s, cell, ds) == moveto(
                c,
                s,
                v.0,
                v.1,
                cell,
            )
        }),
{
}

/// Gas only spreads into empty space or mixes with gas: every other cell
/// but its own stays as it was.
pub proof fn lemma_gas_fills_only_empty_space(c: Ctx, s: Scene, cell: Cell, ds: Draws)
    requires
        fits(c, s),
    ensures
        forall|i: int|
            0 <= i < s.cells.len() && i != crate::world::grid_index(c.height, c.x, c.y) && s.cells[i].species
                != Species::Empty && s.cells[i].species != Species::Gas ==> #[trigger] gas_rule(c, s, cell, ds).cells[i]
                == s.cells[i],
{
    let v = vec9(dv(ds, 0));
    crate::world::lemma_index_bounds(c.width, c.height, c.x, c.y);
    if crate::world::in_grid(c, c.x + v.0, c.y + v.1) {
        crate::world::lemma_index_bounds(c.width, c.height, c.x + v.0, c.y + v.1);
    }
}

} // verus!
