//! Crystals and gems: diamond, ruby, sapphire, emerald, amethyst, quartz,
//! crystal and obsidian.

use super::falling::sinks_through;
use super::Species;
use crate::cell::{Cell, Wind};
use crate::world::{
    bounds, draw_if, moveto, once, rdir, rvec, rvec8, sfluid, sget, sset, sset_fluid, stay, swap, Ctx, Draws, SandApi, Scene,
};
use vstd::prelude::*;

verus! {

/// The fall of a crystal, its draws starting at `k`: one time in
/// `melt_temp`, when lava lies in a random neighbour direction (or fire,
/// one time in 3 more), it melts into `melt_into` with `ra = 100`; under air
/// pressure above 150 it shatters into sand (keeping `ra`) one time in
/// `shatter_resist`; otherwise it falls into empty space, sinks through
/// water, oil, gas or acid, or stays.
pub open spec fn crystal_fall(
    c: Ctx,
    s: Scene,
    cell: Cell,
    shatter_resist: i32,
    melt_temp: i32,
    melt_into: Species,
    ds: Draws,
    k: int,
) -> Scene {
    let v = rvec8(ds, k);
    let nbr = sget(c, s, v.0, v.1).species;
    let first = melt_temp > 0 && once(ds, k + 1, melt_temp as int);
    let second = first && nbr != Species::Lava && nbr == Species::Fire;
    if first && (nbr == Species::Lava || (nbr == Species::Fire && once(ds, k + 2, 3))) {
        stay(c, s, Cell { species: melt_into, ra: 100, rb: 0, clock: 0 })
    } else {
        let k1: int = k + 1 + (if melt_temp > 0 { 1int } else { 0 }) + (if second { 1int } else { 0 });
        if sfluid(c).pressure > 150 && once(ds, k1, shatter_resist as int) {
            stay(c, s, Cell { species: Species::Sand, ra: cell.ra, rb: 0, clock: 0 })
        } else {
            let below = sget(c, s, 0, 1);
            if below.species == Species::Empty {
                moveto(c, s, 0, 1, cell)
            } else if sinks_through(below.species) {
                swap(c, s, 0, 1, below, cell)
            } else {
                stay(c, s, cell)
            }
        }
    }
}

/// Diamond: the hardest gem (see `crystal_fall`, shatter 30, melt 60).
pub open spec fn diamond_rule(c: Ctx, s: Scene, cell: Cell, ds: Draws) -> Scene {
    crystal_fall(c, s, cell, 30, 60, Species::Lava, ds, 0)
}

/// Ruby: next to a laser at a random step it fills its burn with dense
/// light; then it falls (see `crystal_fall`, shatter 20, melt 50).
pub open spec fn ruby_rule(c: Ctx, s: Scene, cell: Cell, ds: Draws) -> Scene {
    let rdx = rdir(ds, 0);
    let rdy = rdir(ds, 1);
    let s1 = if sget(c, s, rdx, rdy).species == Species::Laser {
        sset_fluid(c, s, Wind { dx: 0, dy: 0, pressure: 0, density: 200 })
    } else {
        s
    };
    crystal_fall(c, s1, cell, 20, 50, Species::Lava, ds, 2)
}

/// Sapphire: see `crystal_fall`, shatter 22, melt 55.
pub open spec fn sapphire_rule(c: Ctx, s: Scene, cell: Cell, ds: Draws) -> Scene {
    crystal_fall(c, s, cell, 22, 55, Species::Lava, ds, 0)
}

/// Emerald: under air pressure above 130 it breaks into sand (keeping
/// `ra`) one time in 15; then it falls (see `crystal_fall`, shatter 15,
/// melt 45).
pub open spec fn emerald_rule(c: Ctx, s: Scene, cell: Cell, ds: Draws) -> Scene {
    let p = sfluid(c).pressure > 130;
    if p && once(ds, 0, 15) {
        stay(c, s, Cell { species: Species::Sand, ra: cell.ra, rb: 0, clock: 0 })
    } else {
        crystal_fall(c, s, cell, 15, 45, Species::Lava, ds, if p { 1 } else { 0 })
    }
}

/// Amethyst: see `crystal_fall`, shatter 18, melt 40.
pub open spec fn amethyst_rule(c: Ctx, s: Scene, cell: Cell, ds: Draws) -> Scene {
    crystal_fall(c, s, cell, 18, 40, Species::Lava, ds, 0)
}

/// Quartz: under air pressure above 100 it sparks (a burn of its own) one
/// time in 15; then it falls (see `crystal_fall`, shatter 12, melt 35).
pub open spec fn quartz_rule(c: Ctx, s: Scene, cell: Cell, ds: Draws) -> Scene {
    let p = sfluid(c).pressure > 100;
    let s1 = if p && once(ds, 0, 15) {
        sset_fluid(c, s, Wind { dx: 50, dy: 50, pressure: 30, density: 10 })
    } else {
        s
    };
    crystal_fall(c, s1, cell, 12, 35, Species::Lava, ds, if p { 1 } else { 0 })
}

/// Crystal: fragile, melts into glass (see `crystal_fall`, shatter 10,
/// melt 25).
pub open spec fn crystal_rule(c: Ctx, s: Scene, cell: Cell, ds: Draws) -> Scene {
    crystal_fall(c, s, cell, 10, 25, Species::Glass, ds, 0)
}

/// Obsidian: under air pressure above 140 it shatters one time in 14 into
/// sand (`ra = 50`) in place and at a random step; next to water at a
/// random step it cracks into stone (keeping `ra`) one time in 20; then it
/// falls (see `crystal_fall`, shatter 14, melt 45).
pub open spec fn obsidian_rule(c: Ctx, s: Scene, cell: Cell, ds: Draws) -> Scene {
    let p = sfluid(c).pressure > 140;
    let shard = Cell { species: Species::Sand, ra: 50, rb: 0, clock: 0 };
    if p && once(ds, 0, 14) {
        let sv = rvec(ds, 1);
        stay(c, sset(c, s, sv.0, sv.1, shard), shard)
    } else {
        let k0: int = if p { 1 } else { 0 };
        let odx = rdir(ds, k0);
        let ody = rdir(ds, k0 + 1);
        let wet = sget(c, s, odx, ody).species == Species::Water;
        if wet && once(ds, k0 + 2, 20) {
            stay(c, s, Cell { species: Species::Stone, ra: cell.ra, rb: 0, clock: 0 })
        } else {
            crystal_fall(c, s, cell, 14, 45, Species::Lava, ds, if wet { k0 + 3 } else { k0 + 2 })
        }
    }
}

/// The bounds of the draws of `crystal_fall` from `k`: a `rand_vec_8`; a
/// `once_in(melt_temp)` when it can melt; a `once_in(3)` after a hit with
/// fire there; unless it melted, a `once_in(shatter_resist)` under air
/// pressure above 150.
pub open spec fn crystal_fall_draws(
    c: Ctx,
    s: Scene,
    cell: Cell,
    shatter_resist: i32,
    melt_temp: i32,
    melt_into: Species,
    ds: Draws,
    k: int,
) -> Seq<int> {
    let v = rvec8(ds, k);
    let nbr = sget(c, s, v.0, v.1).species;
    let first = melt_temp > 0 && once(ds, k + 1, melt_temp as int);
    let second = first && nbr != Species::Lava && nbr == Species::Fire;
    let melted = first && (nbr == Species::Lava || (nbr == Species::Fire && once(ds, k + 2, 3)));
    seq![8] + draw_if(melt_temp > 0, melt_temp as int) + draw_if(second, 3) + draw_if(
        !melted && sfluid(c).pressure > 150,
        shatter_resist as int,
    )
}

/// The bounds of the draws diamond makes (see `crystal_fall_draws`).
pub open spec fn diamond_draws(c: Ctx, s: Scene, cell: Cell, ds: Draws) -> Seq<int> {
    crystal_fall_draws(c, s, cell, 30, 60, Species::Lava, ds, 0)
}

/// The bounds of the draws ruby makes (see `ruby_rule`).
pub open spec fn ruby_draws(c: Ctx, s: Scene, cell: Cell, ds: Draws) -> Seq<int> {
    let s1 = if sget(c, s, rdir(ds, 0), rdir(ds, 1)).species == Species::Laser {
        sset_fluid(c, s, Wind { dx: 0, dy: 0, pressure: 0, density: 200 })
    } else {
        s
    };
    seq![1000, 1000] + crystal_fall_draws(c, s1, cell, 20, 50, Species::Lava, ds, 2)
}

/// The bounds of the draws sapphire makes (see `crystal_fall_draws`).
pub open spec fn sapphire_draws(c: Ctx, s: Scene, cell: Cell, ds: Draws) -> Seq<int> {
    crystal_fall_draws(c, s, cell, 22, 55, Species::Lava, ds, 0)
}

/// The bounds of the draws emerald makes (see `emerald_rule`).
pub open spec fn emerald_draws(c: Ctx, s: Scene, cell: Cell, ds: Draws) -> Seq<int> {
    let p = sfluid(c).pressure > 130;
    if p && once(ds, 0, 15) {
        seq![15]
    } else {
        draw_if(p, 15) + crystal_fall_draws(c, s, cell, 15, 45, Species::Lava, ds, if p { 1 } else { 0 })
    }
}

/// The bounds of the draws amethyst makes (see `crystal_fall_draws`).
pub open spec fn amethyst_draws(c: Ctx, s: Scene, cell: Cell, ds: Draws) -> Seq<int> {
    crystal_fall_draws(c, s, cell, 18, 40, Species::Lava, ds, 0)
}

/// The bounds of the draws quartz makes (see `quartz_rule`).
pub open spec fn quartz_draws(c: Ctx, s: Scene, cell: Cell, ds: Draws) -> Seq<int> {
    let p = sfluid(c).pressure > 100;
    let s1 = if p && once(ds, 0, 15) {
        sset_fluid(c, s, Wind { dx: 50, dy: 50, pressure: 30, density: 10 })
    } else {
        s
    };
    draw_if(p, 15) + crystal_fall_draws(c, s1, cell, 12, 35, Species::Lava, ds, if p { 1 } else { 0 })
}

/// The bounds of the draws crystal makes (see `crystal_fall_draws`).
pub open spec fn crystal_draws(c: Ctx, s: Scene, cell: Cell, ds: Draws) -> Seq<int> {
    crystal_fall_draws(c, s, cell, 10, 25, Species::Glass, ds, 0)
}

/// The bounds of the draws obsidian makes (see `obsidian_rule`).
pub open spec fn obsidian_draws(c: Ctx, s: Scene, cell: Cell, ds: Draws) -> Seq<int> {
    let p = sfluid(c).pressure > 140;
    if p && once(ds, 0, 14) {
        seq![14, 2000]
    } else {
        let k0: int = if p { 1 } else { 0 };
        let wet = sget(c, s, rdir(ds, k0), rdir(ds, k0 + 1)).species == Species::Water;
        if wet && once(ds, k0 + 2, 20) {
            draw_if(p, 14) + seq![1000, 1000, 20]
        } else {
            draw_if(p, 14) + seq![1000, 1000] + draw_if(wet, 20) + crystal_fall_draws(
                c, s, cell, 14, 45, Species::Lava, ds, if wet { k0 + 3 } else { k0 + 2 })
        }
    }
}

/// The fall of a crystal (see `crystal_fall`), ending the turn.
fn crystal_fall_step(
    cell: Cell,
    api: &mut SandApi,
    shatter_resist: i32,
    melt_temp: i32,
    melt_into: Species,
    Ghost(start): Ghost<SandApi>,
)
    requires
        old(api).continues(start),
        shatter_resist > 0,
    ensures
        final(api).continues(*old(api)),
        final(api).scene() == crystal_fall(
            old(api).ctx(),
            old(api).scene(),
            cell,
            shatter_resist,
            melt_temp,
            melt_into,
            final(api).new_draws(start),
            old(api).draws().len() - start.draws().len(),
        ),
        bounds(final(api).new_draws(start)) == bounds(old(api).new_draws(start)) + crystal_fall_draws(old(api).ctx(), old(api).scene(), cell, shatter_resist, melt_temp, melt_into, final(api).new_draws(start), old(api).draws().len() - start.draws().len()),
{
    let (dx, dy) = api.rand_vec_8();
    let nbr = api.get(dx, dy);
    let fluid = api.get_fluid();
    if melt_temp > 0 && api.once_in(melt_temp) && (nbr.species == Species::Lava || (nbr.species
        == Species::Fire && api.once_in(3))) {
        api.set(0, 0, Cell { species: melt_into, ra: 100, rb: 0, clock: 0 });
        return;
    }
    if fluid.pressure > 150 && api.once_in(shatter_resist) {
        api.set(0, 0, Cell { species: Species::Sand, ra: cell.ra, rb: 0, clock: 0 });
        return;
    }
    let below = api.get(0, 1);
    if below.species == Species::Empty {
        api.set(0, 0, Cell::empty());
        api.set(0, 1, cell);
    } else if below.species == Species::Water || below.species == Species::Oil || below.species == Species::Gas
        || below.species == Species::Acid {
        api.set(0, 0, below);
        api.set(0, 1, cell);
    } else {
        api.set(0, 0, cell);
    }
}

/// One turn of diamond (see `diamond_rule`).
pub fn update_diamond(cell: Cell, api: &mut SandApi)
    requires
        old(api).wf(),
    ensures
        final(api).continues(*old(api)),
        final(api).scene() == diamond_rule(old(api).ctx(), old(api).scene(), cell, final(api).new_draws(*old(api))),
        bounds(final(api).new_draws(*old(api))) == diamond_draws(old(api).ctx(), old(api).scene(), cell, final(api).new_draws(*old(api))),
{
    crystal_fall_step(cell, api, 30, 60, Species::Lava, Ghost(*old(api)));
}

/// One turn of ruby (see `ruby_rule`).
pub fn update_ruby(cell: Cell, api: &mut SandApi)
    requires
        old(api).wf(),
    ensures
        final(api).continues(*old(api)),
        final(api).scene() == ruby_rule(old(api).ctx(), old(api).scene(), cell, final(api).new_draws(*old(api))),
        bounds(final(api).new_draws(*old(api))) == ruby_draws(old(api).ctx(), old(api).scene(), cell, final(api).new_draws(*old(api))),
{
    let rdx = api.rand_dir();
    let rdy = api.rand_dir();
    let nbr = api.get(rdx, rdy);
    if nbr.species == Species::Laser {
        api.set_fluid(Wind { dx: 0, dy: 0, pressure: 0, density: 200 });
    }
    crystal_fall_step(cell, api, 20, 50, Species::Lava, Ghost(*old(api)));
}

/// One turn of sapphire (see `sapphire_rule`).
pub fn update_sapphire(cell: Cell, api: &mut SandApi)
    requires
        old(api).wf(),
    ensures
        final(api).continues(*old(api)),
        final(api).scene() == sapphire_rule(old(api).ctx(), old(api).scene(), cell, final(api).new_draws(*old(api))),
        bounds(final(api).new_draws(*old(api))) == sapphire_draws(old(api).ctx(), old(api).scene(), cell, final(api).new_draws(*old(api))),
{
    crystal_fall_step(cell, api, 22, 55, Species::Lava, Ghost(*old(api)));
}

/// One turn of emerald (see `emerald_rule`).
pub fn update_emerald(cell: Cell, api: &mut SandApi)
    requires
        old(api).wf(),
    ensures
        final(api).continues(*old(api)),
        final(api).scene() == emerald_rule(old(api).ctx(), old(api).scene(), cell, final(api).new_draws(*old(api))),
        bounds(final(api).new_draws(*old(api))) == emerald_draws(old(api).ctx(), old(api).scene(), cell, final(api).new_draws(*old(api))),
{
    let fluid = api.get_fluid();
    if fluid.pressure > 130 && api.once_in(15) {
        api.set(0, 0, Cell { species: Species::Sand, ra: cell.ra, rb: 0, clock: 0 });
        return;
    }
    crystal_fall_step(cell, api, 15, 45, Species::Lava, Ghost(*old(api)));
}

/// One turn of amethyst (see `amethyst_rule`).
pub fn update_amethyst(cell: Cell, api: &mut SandApi)
    requires
        old(api).wf(),
    ensures
        final(api).continues(*old(api)),
        final(api).scene() == amethyst_rule(old(api).ctx(), old(api).scene(), cell, final(api).new_draws(*old(api))),
        bounds(final(api).new_draws(*old(api))) == amethyst_draws(old(api).ctx(), old(api).scene(), cell, final(api).new_draws(*old(api))),
{
    crystal_fall_step(cell, api, 18, 40, Species::Lava, Ghost(*old(api)));
}

/// One turn of quartz (see `quartz_rule`).
pub fn update_quartz(cell: Cell, api: &mut SandApi)
    requires
        old(api).wf(),
    ensures
        final(api).continues(*old(api)),
        final(api).scene() == quartz_rule(old(api).ctx(), old(api).scene(), cell, final(api).new_draws(*old(api))),
        bounds(final(api).new_draws(*old(api))) == quartz_draws(old(api).ctx(), old(api).scene(), cell, final(api).new_draws(*old(api))),
{
    let fluid = api.get_fluid();
    if fluid.pressure > 100 && api.once_in(15) {
        api.set_fluid(Wind { dx: 50, dy: 50, pressure: 30, density: 10 });
    }
    crystal_fall_step(cell, api, 12, 35, Species::Lava, Ghost(*old(api)));
}

/// One turn of crystal (see `crystal_rule`).
pub fn update_crystal(cell: Cell, api: &mut SandApi)
    requires
        old(api).wf(),
    ensures
        final(api).continues(*old(api)),
        final(api).scene() == crystal_rule(old(api).ctx(), old(api).scene(), cell, final(api).new_draws(*old(api))),
        bounds(final(api).new_draws(*old(api))) == crystal_draws(old(api).ctx(), old(api).scene(), cell, final(api).new_draws(*old(api))),
{
    crystal_fall_step(cell, api, 10, 25, Species::Glass, Ghost(*old(api)));
}

/// One turn of obsidian (see `obsidian_rule`).
pub fn update_obsidian(cell: Cell, api: &mut SandApi)
    requires
        old(api).wf(),
    ensures
        final(api).continues(*old(api)),
        final(api).scene() == obsidian_rule(old(api).ctx(), old(api).scene(), cell, final(api).new_draws(*old(api))),
        bounds(final(api).new_draws(*old(api))) == obsidian_draws(old(api).ctx(), old(api).scene(), cell, final(api).new_draws(*old(api))),
{
    let fluid = api.get_fluid();
    if fluid.pressure > 140 && api.once_in(14) {
        let (sdx, sdy) = api.rand_vec();
        api.set(sdx, sdy, Cell { species: Species::Sand, ra: 50, rb: 0, clock: 0 });
        api.set(0, 0, Cell { species: Species::Sand, ra: 50, rb: 0, clock: 0 });
        return;
    }
    let odx = api.rand_dir();
    let ody = api.rand_dir();
    let nbr = api.get(odx, ody);
    if nbr.species == Species::Water && api.once_in(20) {
        api.set(0, 0, Cell { species: Species::Stone, ra: cell.ra, rb: 0, clock: 0 });
        return;
    }
    crystal_fall_step(cell, api, 14, 45, Species::Lava, Ghost(*old(api)));
}

} // verus!
