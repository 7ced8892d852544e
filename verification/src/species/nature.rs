//! Earth materials: clay, soil, peat, limestone, chalk, shale, slate and
//! sandstone.

use super::Species;
use crate::cell::Cell;
use crate::world::{
    bounds, draw_if, moveto, once, rvec, sadd, sfluid, sget, sset, ssub, stay, swap, wadd, Ctx, Draws, SandApi, Scene,
};
use vstd::prelude::*;

verus! {

/// The fall of an earth material, its draws starting at `k`: one that
/// `crumbles` is crushed into sand (keeping `ra`) under air pressure above
/// 130 one time in `crush_resist`; otherwise it falls into empty space,
/// sinks through water or oil, or stays.
pub open spec fn nature_fall(c: Ctx, s: Scene, cell: Cell, crumbles: bool, crush_resist: int, ds: Draws, k: int) -> Scene {
    if crumbles && sfluid(c).pressure > 130 && once(ds, k, crush_resist) {
        stay(c, s, Cell { species: Species::Sand, ra: cell.ra, rb: 0, clock: 0 })
    } else {
        let below = sget(c, s, 0, 1);
        if below.species == Species::Empty {
            moveto(c, s, 0, 1, cell)
        } else if below.species == Species::Water || below.species == Species::Oil {
            swap(c, s, 0, 1, below, cell)
        } else {
            stay(c, s, cell)
        }
    }
}

/// Clay: next to fire or lava at a random step it fires into brick
/// (keeping `ra`) one time in 30; next to water it soaks it up (`ra` up by
/// 5, at most 255) one time in 10; then it falls (see `nature_fall`).
pub open spec fn clay_rule(c: Ctx, s: Scene, cell: Cell, ds: Draws) -> Scene {
    let v = rvec(ds, 0);
    let nbr = sget(c, s, v.0, v.1).species;
    let hot = nbr == Species::Fire || nbr == Species::Lava;
    if hot && once(ds, 1, 30) {
        stay(c, s, Cell { species: Species::Brick, ra: cell.ra, rb: 0, clock: 0 })
    } else {
        let k: int = if hot { 2 } else { 1 };
        let s1 = if nbr == Species::Water && once(ds, k, 10) {
            stay(c, sset(c, s, v.0, v.1, Cell::empty()), Cell { ra: sadd(cell.ra, 5), ..cell })
        } else {
            s
        };
        nature_fall(c, s1, cell, false, 0, ds, if nbr == Species::Water { k + 1 } else { k })
    }
}

/// Soil: next to a seed at a random step it rewrites itself one time in 30;
/// next to water it holds it (`ra` up by 2, at most 255) one time in 15;
/// then it falls (see `nature_fall`).
pub open spec fn soil_rule(c: Ctx, s: Scene, cell: Cell, ds: Draws) -> Scene {
    let v = rvec(ds, 0);
    let nbr = sget(c, s, v.0, v.1).species;
    let s1 = if nbr == Species::Seed && once(ds, 1, 30) {
        stay(c, s, cell)
    } else {
        s
    };
    let k: int = if nbr == Species::Seed { 2 } else { 1 };
    let s2 = if nbr == Species::Water && once(ds, k, 15) {
        stay(c, s1, Cell { ra: sadd(cell.ra, 2), ..cell })
    } else {
        s1
    };
    nature_fall(c, s2, cell, false, 0, ds, if nbr == Species::Water { k + 1 } else { k })
}

/// Peat: next to fire or lava at a random step it burns (fire, `ra = 60`);
/// a seed there is fed one time in 20 (its `ra` up by 20, wrapping, and
/// `rb = 1`); then it falls (see `nature_fall`).
pub open spec fn peat_rule(c: Ctx, s: Scene, cell: Cell, ds: Draws) -> Scene {
    let v = rvec(ds, 0);
    let nbr = sget(c, s, v.0, v.1);
    if nbr.species == Species::Fire || nbr.species == Species::Lava {
        stay(c, s, Cell { species: Species::Fire, ra: 60, rb: 0, clock: 0 })
    } else {
        let s1 = if nbr.species == Species::Seed && once(ds, 1, 20) {
            sset(c, s, v.0, v.1, Cell { ra: wadd(nbr.ra, 20), rb: 1, ..nbr })
        } else {
            s
        };
        nature_fall(c, s1, cell, false, 0, ds, if nbr.species == Species::Seed { 2 } else { 1 })
    }
}

/// Limestone: next to acid at a random step it dissolves one time in 15;
/// next to water it wears (`ra` down by 1) one time in 50; then it falls,
/// crumbling one time in 10 (see `nature_fall`).
pub open spec fn limestone_rule(c: Ctx, s: Scene, cell: Cell, ds: Draws) -> Scene {
    let v = rvec(ds, 0);
    let nbr = sget(c, s, v.0, v.1).species;
    if nbr == Species::Acid && once(ds, 1, 15) {
        stay(c, s, Cell::empty())
    } else {
        let k: int = if nbr == Species::Acid { 2 } else { 1 };
        let s1 = if nbr == Species::Water && once(ds, k, 50) {
            stay(c, s, Cell { ra: ssub(cell.ra, 1), ..cell })
        } else {
            s
        };
        nature_fall(c, s1, cell, true, 10, ds, if nbr == Species::Water { k + 1 } else { k })
    }
}

/// Chalk: next to acid at a random step it dissolves one time in 5; under
/// air pressure above 80 it powders into dust (keeping `ra`) one time in 5;
/// then it falls, crumbling one time in 3 (see `nature_fall`).
pub open spec fn chalk_rule(c: Ctx, s: Scene, cell: Cell, ds: Draws) -> Scene {
    let v = rvec(ds, 0);
    let nbr = sget(c, s, v.0, v.1).species;
    if nbr == Species::Acid && once(ds, 1, 5) {
        stay(c, s, Cell::empty())
    } else {
        let k: int = if nbr == Species::Acid { 2 } else { 1 };
        let p = sfluid(c).pressure > 80;
        if p && once(ds, k, 5) {
            stay(c, s, Cell { species: Species::Dust, ra: cell.ra, rb: 0, clock: 0 })
        } else {
            nature_fall(c, s, cell, true, 3, ds, if p { k + 1 } else { k })
        }
    }
}

/// Shale: under air pressure above 100 it splits into sand (keeping `ra`)
/// one time in 8; then it falls, crumbling one time in 8 (see
/// `nature_fall`).
pub open spec fn shale_rule(c: Ctx, s: Scene, cell: Cell, ds: Draws) -> Scene {
    let p = sfluid(c).pressure > 100;
    if p && once(ds, 0, 8) {
        stay(c, s, Cell { species: Species::Sand, ra: cell.ra, rb: 0, clock: 0 })
    } else {
        nature_fall(c, s, cell, true, 8, ds, if p { 1 } else { 0 })
    }
}

/// Slate: it falls, crumbling one time in 12 (see `nature_fall`).
pub open spec fn slate_rule(c: Ctx, s: Scene, cell: Cell, ds: Draws) -> Scene {
    nature_fall(c, s, cell, true, 12, ds, 0)
}

/// Sandstone: next to water at a random step it wears (`ra` down by 2) one
/// time in 30; under air pressure above 110 it breaks into sand (keeping
/// `ra`) one time in 8; then it falls, crumbling one time in 8 (see
/// `nature_fall`).
pub open spec fn sandstone_rule(c: Ctx, s: Scene, cell: Cell, ds: Draws) -> Scene {
    let v = rvec(ds, 0);
    let nbr = sget(c, s, v.0, v.1).species;
    let s1 = if nbr == Species::Water && once(ds, 1, 30) {
        stay(c, s, Cell { ra: ssub(cell.ra, 2), ..cell })
    } else {
        s
    };
    let k: int = if nbr == Species::Water { 2 } else { 1 };
    let p = sfluid(c).pressure > 110;
    if p && once(ds, k, 8) {
        stay(c, s1, Cell { species: Species::Sand, ra: cell.ra, rb: 0, clock: 0 })
    } else {
        nature_fall(c, s1, cell, true, 8, ds, if p { k + 1 } else { k })
    }
}

/// The bounds of the draws of `nature_fall`: a `once_in(crush_resist)`
/// for a crumbling material under air pressure above 130.
pub open spec fn nature_fall_draws(c: Ctx, s: Scene, cell: Cell, crumbles: bool, crush_resist: int, ds: Draws, k: int) -> Seq<int> {
    draw_if(crumbles && sfluid(c).pressure > 130, crush_resist)
}

/// The bounds of the draws clay makes (see `clay_rule`).
pub open spec fn clay_draws(c: Ctx, s: Scene, cell: Cell, ds: Draws) -> Seq<int> {
    let v = rvec(ds, 0);
    let nbr = sget(c, s, v.0, v.1).species;
    let hot = nbr == Species::Fire || nbr == Species::Lava;
    if hot && once(ds, 1, 30) {
        seq![2000, 30]
    } else {
        seq![2000] + draw_if(hot, 30) + draw_if(nbr == Species::Water, 10)
    }
}

/// The bounds of the draws soil makes (see `soil_rule`).
pub open spec fn soil_draws(c: Ctx, s: Scene, cell: Cell, ds: Draws) -> Seq<int> {
    let v = rvec(ds, 0);
    let nbr = sget(c, s, v.0, v.1).species;
    seq![2000] + draw_if(nbr == Species::Seed, 30) + draw_if(nbr == Species::Water, 15)
}

/// The bounds of the draws peat makes (see `peat_rule`).
pub open spec fn peat_draws(c: Ctx, s: Scene, cell: Cell, ds: Draws) -> Seq<int> {
    let v = rvec(ds, 0);
    let nbr = sget(c, s, v.0, v.1).species;
    if nbr == Species::Fire || nbr == Species::Lava {
        seq![2000]
    } else {
        seq![2000] + draw_if(nbr == Species::Seed, 20)
    }
}

/// The bounds of the draws limestone makes (see `limestone_rule`).
pub open spec fn limestone_draws(c: Ctx, s: Scene, cell: Cell, ds: Draws) -> Seq<int> {
    let v = rvec(ds, 0);
    let nbr = sget(c, s, v.0, v.1).species;
    if nbr == Species::Acid && once(ds, 1, 15) {
        seq![2000, 15]
    } else {
        seq![2000] + draw_if(nbr == Species::Acid, 15) + draw_if(nbr == Species::Water, 50)
            + nature_fall_draws(c, s, cell, true, 10, ds, 0)
    }
}

/// The bounds of the draws chalk makes (see `chalk_rule`).
pub open spec fn chalk_draws(c: Ctx, s: Scene, cell: Cell, ds: Draws) -> Seq<int> {
    let v = rvec(ds, 0);
    let nbr = sget(c, s, v.0, v.1).species;
    if nbr == Species::Acid && once(ds, 1, 5) {
        seq![2000, 5]
    } else {
        let k: int = if nbr == Species::Acid { 2 } else { 1 };
        let p = sfluid(c).pressure > 80;
        if p && once(ds, k, 5) {
            seq![2000] + draw_if(nbr == Species::Acid, 5) + seq![5]
        } else {
            seq![2000] + draw_if(nbr == Species::Acid, 5) + draw_if(p, 5) + nature_fall_draws(c, s, cell, true, 3, ds, 0)
        }
    }
}

/// The bounds of the draws shale makes (see `shale_rule`).
pub open spec fn shale_draws(c: Ctx, s: Scene, cell: Cell, ds: Draws) -> Seq<int> {
    let p = sfluid(c).pressure > 100;
    if p && once(ds, 0, 8) {
        seq![8]
    } else {
        draw_if(p, 8) + nature_fall_draws(c, s, cell, true, 8, ds, 0)
    }
}

/// The bounds of the draws slate makes (see `nature_fall_draws`).
pub open spec fn slate_draws(c: Ctx, s: Scene, cell: Cell, ds: Draws) -> Seq<int> {
    nature_fall_draws(c, s, cell, true, 12, ds, 0)
}

/// The bounds of the draws sandstone makes (see `sandstone_rule`).
pub open spec fn sandstone_draws(c: Ctx, s: Scene, cell: Cell, ds: Draws) -> Seq<int> {
    let v = rvec(ds, 0);
    let nbr = sget(c, s, v.0, v.1).species;
    let k: int = if nbr == Species::Water { 2 } else { 1 };
    let p = sfluid(c).pressure > 110;
    if p && once(ds, k, 8) {
        seq![2000] + draw_if(nbr == Species::Water, 30) + seq![8]
    } else {
        seq![2000] + draw_if(nbr == Species::Water, 30) + draw_if(p, 8) + nature_fall_draws(c, s, cell, true, 8, ds, 0)
    }
}

/// The fall of an earth material (see `nature_fall`), ending the turn.
fn nature_fall_step(cell: Cell, api: &mut SandApi, crumbles: bool, crush_resist: i32, Ghost(start): Ghost<SandApi>)
    requires
        old(api).continues(start),
        crumbles ==> crush_resist > 0,
    ensures
        final(api).continues(*old(api)),
        final(api).scene() == nature_fall(
            old(api).ctx(),
            old(api).scene(),
            cell,
            crumbles,
            crush_resist as int,
            final(api).new_draws(start),
            old(api).draws().len() - start.draws().len(),
        ),
        bounds(final(api).new_draws(start)) == bounds(old(api).new_draws(start)) + nature_fall_draws(old(api).ctx(), old(api).scene(), cell, crumbles, crush_resist as int, final(api).new_draws(start), old(api).draws().len() - start.draws().len()),
{
    let fluid = api.get_fluid();
    if crumbles && fluid.pressure > 130 && api.once_in(crush_resist) {
        api.set(0, 0, Cell { species: Species::Sand, ra: cell.ra, rb: 0, clock: 0 });
        return;
    }
    let below = api.get(0, 1);
    if below.species == Species::Empty {
        api.set(0, 0, Cell::empty());
        api.set(0, 1, cell);
    } else if below.species == Species::Water || below.species == Species::Oil {
        api.set(0, 0, below);
        api.set(0, 1, cell);
    } else {
        api.set(0, 0, cell);
    }
}

/// One turn of clay (see `clay_rule`).
pub fn update_clay(cell: Cell, api: &mut SandApi)
    requires
        old(api).wf(),
    ensures
        final(api).continues(*old(api)),
        final(api).scene() == clay_rule(old(api).ctx(), old(api).scene(), cell, final(api).new_draws(*old(api))),
        bounds(final(api).new_draws(*old(api))) == clay_draws(old(api).ctx(), old(api).scene(), cell, final(api).new_draws(*old(api))),
{
    let (dx, dy) = api.rand_vec();
    let nbr = api.get(dx, dy);
    if (nbr.species == Species::Fire || nbr.species == Species::Lava) && api.once_in(30) {
        api.set(0, 0, Cell { species: Species::Brick, ra: cell.ra, rb: 0, clock: 0 });
        return;
    }
    if nbr.species == Species::Water && api.once_in(10) {
        api.set(dx, dy, Cell::empty());
        api.set(0, 0, Cell { ra: cell.ra.saturating_add(5), ..cell });
    }
    nature_fall_step(cell, api, false, 0, Ghost(*old(api)));
}

/// One turn of soil (see `soil_rule`).
pub fn update_soil(cell: Cell, api: &mut SandApi)
    requires
        old(api).wf(),
    ensures
        final(api).continues(*old(api)),
        final(api).scene() == soil_rule(old(api).ctx(), old(api).scene(), cell, final(api).new_draws(*old(api))),
        bounds(final(api).new_draws(*old(api))) == soil_draws(old(api).ctx(), old(api).scene(), cell, final(api).new_draws(*old(api))),
{
    let (dx, dy) = api.rand_vec();
    let nbr = api.get(dx, dy);
    if nbr.species == Species::Seed && api.once_in(30) {
        api.set(0, 0, cell);
    }
    if nbr.species == Species::Water && api.once_in(15) {
        api.set(0, 0, Cell { ra: cell.ra.saturating_add(2), ..cell });
    }
    nature_fall_step(cell, api, false, 0, Ghost(*old(api)));
}

/// One turn of peat (see `peat_rule`).
pub fn update_peat(cell: Cell, api: &mut SandApi)
    requires
        old(api).wf(),
    ensures
        final(api).continues(*old(api)),
        final(api).scene() == peat_rule(old(api).ctx(), old(api).scene(), cell, final(api).new_draws(*old(api))),
        bounds(final(api).new_draws(*old(api))) == peat_draws(old(api).ctx(), old(api).scene(), cell, final(api).new_draws(*old(api))),
{
    let (dx, dy) = api.rand_vec();
    let nbr = api.get(dx, dy);
    if nbr.species == Species::Fire || nbr.species == Species::Lava {
        api.set(0, 0, Cell { species: Species::Fire, ra: 60, rb: 0, clock: 0 });
        return;
    }
    if nbr.species == Species::Seed && api.once_in(20) {
        let seed = nbr;
        api.set(dx, dy, Cell { ra: seed.ra.wrapping_add(20), rb: 1, ..seed });
    }
    nature_fall_step(cell, api, false, 0, Ghost(*old(api)));
}

/// One turn of limestone (see `limestone_rule`).
pub fn update_limestone(cell: Cell, api: &mut SandApi)
    requires
        old(api).wf(),
    ensures
        final(api).continues(*old(api)),
        final(api).scene() == limestone_rule(old(api).ctx(), old(api).scene(), cell, final(api).new_draws(*old(api))),
        bounds(final(api).new_draws(*old(api))) == limestone_draws(old(api).ctx(), old(api).scene(), cell, final(api).new_draws(*old(api))),
{
    let (dx, dy) = api.rand_vec();
    let nbr = api.get(dx, dy);
    if nbr.species == Species::Acid && api.once_in(15) {
        api.set(0, 0, Cell::empty());
        return;
    }
    if nbr.species == Species::Water && api.once_in(50) {
        api.set(0, 0, Cell { ra: cell.ra.saturating_sub(1), ..cell });
    }
    nature_fall_step(cell, api, true, 10, Ghost(*old(api)));
}

/// One turn of chalk (see `chalk_rule`).
pub fn update_chalk(cell: Cell, api: &mut SandApi)
    requires
        old(api).wf(),
    ensures
        final(api).continues(*old(api)),
        final(api).scene() == chalk_rule(old(api).ctx(), old(api).scene(), cell, final(api).new_draws(*old(api))),
        bounds(final(api).new_draws(*old(api))) == chalk_draws(old(api).ctx(), old(api).scene(), cell, final(api).new_draws(*old(api))),
{
    let (dx, dy) = api.rand_vec();
    let nbr = api.get(dx, dy);
    if nbr.species == Species::Acid && api.once_in(5) {
        api.set(0, 0, Cell::empty());
        return;
    }
    let fluid = api.get_fluid();
    if fluid.pressure > 80 && api.once_in(5) {
        api.set(0, 0, Cell { species: Species::Dust, ra: cell.ra, rb: 0, clock: 0 });
        return;
    }
    nature_fall_step(cell, api, true, 3, Ghost(*old(api)));
}

/// One turn of shale (see `shale_rule`).
pub fn update_shale(cell: Cell, api: &mut SandApi)
    requires
        old(api).wf(),
    ensures
        final(api).continues(*old(api)),
        final(api).scene() == shale_rule(old(api).ctx(), old(api).scene(), cell, final(api).new_draws(*old(api))),
        bounds(final(api).new_draws(*old(api))) == shale_draws(old(api).ctx(), old(api).scene(), cell, final(api).new_draws(*old(api))),
{
    let fluid = api.get_fluid();
    if fluid.pressure > 100 && api.once_in(8) {
        api.set(0, 0, Cell { species: Species::Sand, ra: cell.ra, rb: 0, clock: 0 });
        return;
    }
    nature_fall_step(cell, api, true, 8, Ghost(*old(api)));
}

/// One turn of slate (see `slate_rule`).
pub fn update_slate(cell: Cell, api: &mut SandApi)
    requires
        old(api).wf(),
    ensures
        final(api).continues(*old(api)),
        final(api).scene() == slate_rule(old(api).ctx(), old(api).scene(), cell, final(api).new_draws(*old(api))),
        bounds(final(api).new_draws(*old(api))) == slate_draws(old(api).ctx(), old(api).scene(), cell, final(api).new_draws(*old(api))),
{
    nature_fall_step(cell, api, true, 12, Ghost(*old(api)));
}

/// One turn of sandstone (see `sandstone_rule`).
pub fn update_sandstone(cell: Cell, api: &mut SandApi)
    requires
        old(api).wf(),
    ensures
        final(api).continues(*old(api)),
        final(api).scene() == sandstone_rule(old(api).ctx(), old(api).scene(), cell, final(api).new_draws(*old(api))),
        bounds(final(api).new_draws(*old(api))) == sandstone_draws(old(api).ctx(), old(api).scene(), cell, final(api).new_draws(*old(api))),
{
    let (dx, dy) = api.rand_vec();
    let nbr = api.get(dx, dy);
    if nbr.species == Species::Water && api.once_in(30) {
        api.set(0, 0, Cell { ra: cell.ra.saturating_sub(2), ..cell });
    }
    let fluid = api.get_fluid();
    if fluid.pressure > 110 && api.once_in(8) {
        api.set(0, 0, Cell { species: Species::Sand, ra: cell.ra, rb: 0, clock: 0 });
        return;
    }
    nature_fall_step(cell, api, true, 8, Ghost(*old(api)));
}

} // verus!
