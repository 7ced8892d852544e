//! Metals: iron, copper, gold, silver, aluminum, lead, zinc, tin, bronze
//! and steel.

use super::falling::sinks_through;
use super::Species;
use crate::cell::Cell;
use crate::world::{
    bounds, draw_if, moveto, once, rdir2, rvec, rvec8, sget, sset, ssub, stay, swap, Ctx, Draws, SandApi, Scene,
};
use vstd::prelude::*;

verus! {

/// The fall of a heavy metal, its draws starting at `k`: when `melt_temp`
/// is positive and fire or lava lies in a random direction, it melts into
/// `melt_into` (keeping `ra`) one time in `melt_temp`; otherwise it falls
/// into empty space, sinks through water, oil, gas or acid, slides to an
/// empty random lower diagonal, or stays.
pub open spec fn heavy_fall(c: Ctx, s: Scene, cell: Cell, melt_temp: u8, melt_into: Species, ds: Draws, k: int) -> Scene {
    let v = rvec(ds, k);
    let nbr = sget(c, s, v.0, v.1).species;
    let hot = melt_temp > 0 && (nbr == Species::Fire || nbr == Species::Lava);
    if hot && once(ds, k + 1, melt_temp as int) {
        stay(c, s, Cell { species: melt_into, ra: cell.ra, rb: 0, clock: 0 })
    } else {
        let k1 = if hot { k + 2 } else { k + 1 };
        let below = sget(c, s, 0, 1);
        if below.species == Species::Empty {
            moveto(c, s, 0, 1, cell)
        } else if sinks_through(below.species) {
            swap(c, s, 0, 1, below, cell)
        } else {
            let dxf = rdir2(ds, k1);
            if sget(c, s, dxf, 1).species == Species::Empty {
                moveto(c, s, dxf, 1, cell)
            } else {
                stay(c, s, cell)
            }
        }
    }
}

/// Iron: next to lava in a random neighbour direction it melts into lava
/// (`ra = 100`) one time in 20; next to water it rusts (`ra` down by 2) one
/// time in 50; then it falls (see `heavy_fall`).
pub open spec fn iron_rule(c: Ctx, s: Scene, cell: Cell, ds: Draws) -> Scene {
    let v = rvec8(ds, 0);
    let nbr = sget(c, s, v.0, v.1).species;
    if nbr == Species::Lava && once(ds, 1, 20) {
        stay(c, s, Cell { species: Species::Lava, ra: 100, rb: 0, clock: 0 })
    } else {
        let k: int = if nbr == Species::Lava { 2 } else { 1 };
        let s1 = if nbr == Species::Water && once(ds, k, 50) { stay(c, s, Cell { ra: ssub(cell.ra, 2), ..cell }) } else { s };
        heavy_fall(c, s1, cell, 0, Species::Empty, ds, if nbr == Species::Water { k + 1 } else { k })
    }
}

/// Copper: next to lava in a random neighbour direction it melts into lava
/// (`ra = 120`) one time in 25; next to acid it corrodes (`ra` down by 5)
/// one time in 30; then it falls (see `heavy_fall`).
pub open spec fn copper_rule(c: Ctx, s: Scene, cell: Cell, ds: Draws) -> Scene {
    let v = rvec8(ds, 0);
    let nbr = sget(c, s, v.0, v.1).species;
    if nbr == Species::Lava && once(ds, 1, 25) {
        stay(c, s, Cell { species: Species::Lava, ra: 120, rb: 0, clock: 0 })
    } else {
        let k: int = if nbr == Species::Lava { 2 } else { 1 };
        let s1 = if nbr == Species::Acid && once(ds, k, 30) { stay(c, s, Cell { ra: ssub(cell.ra, 5), ..cell }) } else { s };
        heavy_fall(c, s1, cell, 0, Species::Empty, ds, if nbr == Species::Acid { k + 1 } else { k })
    }
}

/// The liquids gold sinks through.
pub open spec fn gold_sinks_through(t: Species) -> bool {
    t == Species::Water || t == Species::Oil || t == Species::Gas || t == Species::Acid || t == Species::Mud || t
        == Species::Blood || t == Species::Honey || t == Species::Milk || t == Species::Poison || t
        == Species::Alcohol || t == Species::Syrup
}

/// Gold: falls into empty space, sinks through any liquid or gas but
/// mercury, or stays.
pub open spec fn gold_rule(c: Ctx, s: Scene, cell: Cell, ds: Draws) -> Scene {
    let below = sget(c, s, 0, 1);
    if below.species == Species::Empty {
        moveto(c, s, 0, 1, cell)
    } else if gold_sinks_through(below.species) {
        swap(c, s, 0, 1, below, cell)
    } else {
        stay(c, s, cell)
    }
}

/// Silver: next to acid in a random neighbour direction it tarnishes (`ra`
/// down by 8) one time in 20; then it falls, melting into lava one time in
/// 30 next to fire or lava (see `heavy_fall`).
pub open spec fn silver_rule(c: Ctx, s: Scene, cell: Cell, ds: Draws) -> Scene {
    let v = rvec8(ds, 0);
    let nbr = sget(c, s, v.0, v.1).species;
    let s1 = if nbr == Species::Acid && once(ds, 1, 20) { stay(c, s, Cell { ra: ssub(cell.ra, 8), ..cell }) } else { s };
    heavy_fall(c, s1, cell, 30, Species::Lava, ds, if nbr == Species::Acid { 2 } else { 1 })
}

/// Aluminum: next to fire or lava in a random neighbour direction it melts
/// into lava (`ra = 80`) one time in 12; it falls through empty space or
/// gas, slides to an empty random lower diagonal, or stays.
pub open spec fn aluminum_rule(c: Ctx, s: Scene, cell: Cell, ds: Draws) -> Scene {
    let v = rvec8(ds, 0);
    let nbr = sget(c, s, v.0, v.1).species;
    let hot = nbr == Species::Fire || nbr == Species::Lava;
    if hot && once(ds, 1, 12) {
        stay(c, s, Cell { species: Species::Lava, ra: 80, rb: 0, clock: 0 })
    } else {
        let k: int = if hot { 2 } else { 1 };
        let below = sget(c, s, 0, 1).species;
        if below == Species::Empty || below == Species::Gas {
            moveto(c, s, 0, 1, cell)
        } else {
            let dxf = rdir2(ds, k);
            if sget(c, s, dxf, 1).species == Species::Empty {
                moveto(c, s, dxf, 1, cell)
            } else {
                stay(c, s, cell)
            }
        }
    }
}

/// Lead: next to fire or lava in a random neighbour direction it melts into
/// lava (`ra = 100`) one time in 15; water there turns to poison one time
/// in 40; then it falls (see `heavy_fall`).
pub open spec fn lead_rule(c: Ctx, s: Scene, cell: Cell, ds: Draws) -> Scene {
    let v = rvec8(ds, 0);
    let nbr = sget(c, s, v.0, v.1).species;
    let hot = nbr == Species::Fire || nbr == Species::Lava;
    if hot && once(ds, 1, 15) {
        stay(c, s, Cell { species: Species::Lava, ra: 100, rb: 0, clock: 0 })
    } else {
        let k: int = if hot { 2 } else { 1 };
        let s1 = if nbr == Species::Water && once(ds, k, 40) {
            sset(c, s, v.0, v.1, Cell { species: Species::Poison, ra: 100, rb: 0, clock: 0 })
        } else {
            s
        };
        heavy_fall(c, s1, cell, 0, Species::Empty, ds, if nbr == Species::Water { k + 1 } else { k })
    }
}

/// Zinc: next to acid in a random neighbour direction it dissolves one time
/// in 10, leaving gas where the acid was; next to lava it melts into lava
/// (`ra = 90`) one time in 20; then it falls (see `heavy_fall`).
pub open spec fn zinc_rule(c: Ctx, s: Scene, cell: Cell, ds: Draws) -> Scene {
    let v = rvec8(ds, 0);
    let nbr = sget(c, s, v.0, v.1).species;
    if nbr == Species::Acid && once(ds, 1, 10) {
        sset(c, stay(c, s, Cell::empty()), v.0, v.1, Cell { species: Species::Gas, ra: 100, rb: 0, clock: 0 })
    } else {
        let k: int = if nbr == Species::Acid { 2 } else { 1 };
        if nbr == Species::Lava && once(ds, k, 20) {
            stay(c, s, Cell { species: Species::Lava, ra: 90, rb: 0, clock: 0 })
        } else {
            heavy_fall(c, s, cell, 0, Species::Empty, ds, if nbr == Species::Lava { k + 1 } else { k })
        }
    }
}

/// Tin: next to fire or lava in a random neighbour direction it melts into
/// lava (`ra = 70`) one time in 10; then it falls (see `heavy_fall`).
pub open spec fn tin_rule(c: Ctx, s: Scene, cell: Cell, ds: Draws) -> Scene {
    let v = rvec8(ds, 0);
    let nbr = sget(c, s, v.0, v.1).species;
    let hot = nbr == Species::Fire || nbr == Species::Lava;
    if hot && once(ds, 1, 10) {
        stay(c, s, Cell { species: Species::Lava, ra: 70, rb: 0, clock: 0 })
    } else {
        heavy_fall(c, s, cell, 0, Species::Empty, ds, if hot { 2 } else { 1 })
    }
}

/// Bronze: falls, melting into lava one time in 35 next to fire or lava
/// (see `heavy_fall`).
pub open spec fn bronze_rule(c: Ctx, s: Scene, cell: Cell, ds: Draws) -> Scene {
    heavy_fall(c, s, cell, 35, Species::Lava, ds, 0)
}

/// Steel: next to lava in a random neighbour direction it melts into lava
/// (`ra = 120`) one time in 40; then it falls (see `heavy_fall`).
pub open spec fn steel_rule(c: Ctx, s: Scene, cell: Cell, ds: Draws) -> Scene {
    let v = rvec8(ds, 0);
    let nbr = sget(c, s, v.0, v.1).species;
    if nbr == Species::Lava && once(ds, 1, 40) {
        stay(c, s, Cell { species: Species::Lava, ra: 120, rb: 0, clock: 0 })
    } else {
        heavy_fall(c, s, cell, 0, Species::Empty, ds, if nbr == Species::Lava { 2 } else { 1 })
    }
}

/// The bounds of the draws of `heavy_fall` from `k`: a `rand_vec`; a
/// `once_in(melt_temp)` when it can melt and fire or lava is there; unless
/// it melted, a `rand_dir_2` when it neither falls nor sinks.
pub open spec fn heavy_fall_draws(c: Ctx, s: Scene, cell: Cell, melt_temp: u8, melt_into: Species, ds: Draws, k: int) -> Seq<int> {
    let v = rvec(ds, k);
    let nbr = sget(c, s, v.0, v.1).species;
    let hot = melt_temp > 0 && (nbr == Species::Fire || nbr == Species::Lava);
    let below = sget(c, s, 0, 1).species;
    seq![2000] + draw_if(hot, melt_temp as int) + draw_if(
        !(hot && once(ds, k + 1, melt_temp as int)) && below != Species::Empty && !sinks_through(below),
        1000,
    )
}

/// The bounds of the draws iron makes (see `iron_rule`).
pub open spec fn iron_draws(c: Ctx, s: Scene, cell: Cell, ds: Draws) -> Seq<int> {
    let v = rvec8(ds, 0);
    let nbr = sget(c, s, v.0, v.1).species;
    if nbr == Species::Lava && once(ds, 1, 20) {
        seq![8, 20]
    } else {
        let k: int = if nbr == Species::Lava { 2 } else { 1 };
        let s1 = if nbr == Species::Water && once(ds, k, 50) { stay(c, s, Cell { ra: ssub(cell.ra, 2), ..cell }) } else { s };
        seq![8] + draw_if(nbr == Species::Lava, 20) + draw_if(nbr == Species::Water, 50) + heavy_fall_draws(
            c, s1, cell, 0, Species::Empty, ds, if nbr == Species::Water { k + 1 } else { k })
    }
}

/// The bounds of the draws copper makes (see `copper_rule`).
pub open spec fn copper_draws(c: Ctx, s: Scene, cell: Cell, ds: Draws) -> Seq<int> {
    let v = rvec8(ds, 0);
    let nbr = sget(c, s, v.0, v.1).species;
    if nbr == Species::Lava && once(ds, 1, 25) {
        seq![8, 25]
    } else {
        let k: int = if nbr == Species::Lava { 2 } else { 1 };
        let s1 = if nbr == Species::Acid && once(ds, k, 30) { stay(c, s, Cell { ra: ssub(cell.ra, 5), ..cell }) } else { s };
        seq![8] + draw_if(nbr == Species::Lava, 25) + draw_if(nbr == Species::Acid, 30) + heavy_fall_draws(
            c, s1, cell, 0, Species::Empty, ds, if nbr == Species::Acid { k + 1 } else { k })
    }
}

/// Gold makes no draws.
pub open spec fn gold_draws(c: Ctx, s: Scene, cell: Cell, ds: Draws) -> Seq<int> {
    seq![]
}

/// The bounds of the draws silver makes (see `silver_rule`).
pub open spec fn silver_draws(c: Ctx, s: Scene, cell: Cell, ds: Draws) -> Seq<int> {
    let v = rvec8(ds, 0);
    let nbr = sget(c, s, v.0, v.1).species;
    let s1 = if nbr == Species::Acid && once(ds, 1, 20) { stay(c, s, Cell { ra: ssub(cell.ra, 8), ..cell }) } else { s };
    seq![8] + draw_if(nbr == Species::Acid, 20) + heavy_fall_draws(c, s1, cell, 30, Species::Lava, ds, if nbr == Species::Acid { 2 } else { 1 })
}

/// The bounds of the draws aluminum makes (see `aluminum_rule`).
pub open spec fn aluminum_draws(c: Ctx, s: Scene, cell: Cell, ds: Draws) -> Seq<int> {
    let v = rvec8(ds, 0);
    let nbr = sget(c, s, v.0, v.1).species;
    let hot = nbr == Species::Fire || nbr == Species::Lava;
    let below = sget(c, s, 0, 1).species;
    if hot && once(ds, 1, 12) {
        seq![8, 12]
    } else {
        seq![8] + draw_if(hot, 12) + draw_if(below != Species::Empty && below != Species::Gas, 1000)
    }
}

/// The bounds of the draws lead makes (see `lead_rule`).
pub open spec fn lead_draws(c: Ctx, s: Scene, cell: Cell, ds: Draws) -> Seq<int> {
    let v = rvec8(ds, 0);
    let nbr = sget(c, s, v.0, v.1).species;
    let hot = nbr == Species::Fire || nbr == Species::Lava;
    if hot && once(ds, 1, 15) {
        seq![8, 15]
    } else {
        let k: int = if hot { 2 } else { 1 };
        let s1 = if nbr == Species::Water && once(ds, k, 40) {
            sset(c, s, v.0, v.1, Cell { species: Species::Poison, ra: 100, rb: 0, clock: 0 })
        } else {
            s
        };
        seq![8] + draw_if(hot, 15) + draw_if(nbr == Species::Water, 40) + heavy_fall_draws(
            c, s1, cell, 0, Species::Empty, ds, if nbr == Species::Water { k + 1 } else { k })
    }
}

/// The bounds of the draws zinc makes (see `zinc_rule`).
pub open spec fn zinc_draws(c: Ctx, s: Scene, cell: Cell, ds: Draws) -> Seq<int> {
    let v = rvec8(ds, 0);
    let nbr = sget(c, s, v.0, v.1).species;
    if nbr == Species::Acid && once(ds, 1, 10) {
        seq![8, 10]
    } else {
        let k: int = if nbr == Species::Acid { 2 } else { 1 };
        if nbr == Species::Lava && once(ds, k, 20) {
            seq![8, 20]
        } else {
            seq![8] + draw_if(nbr == Species::Acid, 10) + draw_if(nbr == Species::Lava, 20) + heavy_fall_draws(
                c, s, cell, 0, Species::Empty, ds, if nbr == Species::Lava { k + 1 } else { k })
        }
    }
}

/// The bounds of the draws tin makes (see `tin_rule`).
pub open spec fn tin_draws(c: Ctx, s: Scene, cell: Cell, ds: Draws) -> Seq<int> {
    let v = rvec8(ds, 0);
    let nbr = sget(c, s, v.0, v.1).species;
    let hot = nbr == Species::Fire || nbr == Species::Lava;
    if hot && once(ds, 1, 10) {
        seq![8, 10]
    } else {
        seq![8] + draw_if(hot, 10) + heavy_fall_draws(c, s, cell, 0, Species::Empty, ds, if hot { 2 } else { 1 })
    }
}

/// The bounds of the draws bronze makes (see `heavy_fall_draws`).
pub open spec fn bronze_draws(c: Ctx, s: Scene, cell: Cell, ds: Draws) -> Seq<int> {
    heavy_fall_draws(c, s, cell, 35, Species::Lava, ds, 0)
}

/// The bounds of the draws steel makes (see `steel_rule`).
pub open spec fn steel_draws(c: Ctx, s: Scene, cell: Cell, ds: Draws) -> Seq<int> {
    let v = rvec8(ds, 0);
    let nbr = sget(c, s, v.0, v.1).species;
    if nbr == Species::Lava && once(ds, 1, 40) {
        seq![8, 40]
    } else {
        seq![8] + draw_if(nbr == Species::Lava, 40) + heavy_fall_draws(c, s, cell, 0, Species::Empty, ds, if nbr == Species::Lava { 2 } else { 1 })
    }
}

/// The fall of a heavy metal (see `heavy_fall`), ending the turn.
fn heavy_fall_step(cell: Cell, api: &mut SandApi, melt_temp: u8, melt_into: Species, Ghost(start): Ghost<SandApi>)
    requires
        old(api).continues(start),
    ensures
        final(api).continues(*old(api)),
        final(api).scene() == heavy_fall(
            old(api).ctx(),
            old(api).scene(),
            cell,
            melt_temp,
            melt_into,
            final(api).new_draws(start),
            old(api).draws().len() - start.draws().len(),
        ),
        bounds(final(api).new_draws(start)) == bounds(old(api).new_draws(start)) + heavy_fall_draws(old(api).ctx(), old(api).scene(), cell, melt_temp, melt_into, final(api).new_draws(start), old(api).draws().len() - start.draws().len()),
{
    let (dx, dy) = api.rand_vec();
    let nbr = api.get(dx, dy);
    if melt_temp > 0 && (nbr.species == Species::Fire || nbr.species == Species::Lava) {
        if api.once_in(melt_temp as i32) {
            api.set(0, 0, Cell { species: melt_into, ra: cell.ra, rb: 0, clock: 0 });
            return;
        }
    }
    let below = api.get(0, 1);
    if below.species == Species::Empty {
        api.set(0, 0, Cell::empty());
        api.set(0, 1, cell);
    } else if below.species == Species::Water || below.species == Species::Oil || below.species == Species::Gas
        || below.species == Species::Acid {
        api.set(0, 0, below);
        api.set(0, 1, cell);
    } else {
        let dxf = api.rand_dir_2();
        if api.get(dxf, 1).species == Species::Empty {
            api.set(0, 0, Cell::empty());
            api.set(dxf, 1, cell);
        } else {
            api.set(0, 0, cell);
        }
    }
}

/// One turn of iron (see `iron_rule`).
pub fn update_iron(cell: Cell, api: &mut SandApi)
    requires
        old(api).wf(),
    ensures
        final(api).continues(*old(api)),
        final(api).scene() == iron_rule(old(api).ctx(), old(api).scene(), cell, final(api).new_draws(*old(api))),
        bounds(final(api).new_draws(*old(api))) == iron_draws(old(api).ctx(), old(api).scene(), cell, final(api).new_draws(*old(api))),
{
    let (dx, dy) = api.rand_vec_8();
    let nbr = api.get(dx, dy);
    if (nbr.species == Species::Lava) && api.once_in(20) {
        api.set(0, 0, Cell { species: Species::Lava, ra: 100, rb: 0, clock: 0 });
        return;
    }
    if nbr.species == Species::Water && api.once_in(50) {
        api.set(0, 0, Cell { ra: cell.ra.saturating_sub(2), ..cell });
    }
    heavy_fall_step(cell, api, 0, Species::Empty, Ghost(*old(api)));
}

/// One turn of copper (see `copper_rule`).
pub fn update_copper(cell: Cell, api: &mut SandApi)
    requires
        old(api).wf(),
    ensures
        final(api).continues(*old(api)),
        final(api).scene() == copper_rule(old(api).ctx(), old(api).scene(), cell, final(api).new_draws(*old(api))),
        bounds(final(api).new_draws(*old(api))) == copper_draws(old(api).ctx(), old(api).scene(), cell, final(api).new_draws(*old(api))),
{
    let (dx, dy) = api.rand_vec_8();
    let nbr = api.get(dx, dy);
    if (nbr.species == Species::Lava) && api.once_in(25) {
        api.set(0, 0, Cell { species: Species::Lava, ra: 120, rb: 0, clock: 0 });
        return;
    }
    if nbr.species == Species::Acid && api.once_in(30) {
        api.set(0, 0, Cell { ra: cell.ra.saturating_sub(5), ..cell });
    }
    heavy_fall_step(cell, api, 0, Species::Empty, Ghost(*old(api)));
}

/// One turn of gold (see `gold_rule`).
pub fn update_gold(cell: Cell, api: &mut SandApi)
    requires
        old(api).wf(),
    ensures
        final(api).continues(*old(api)),
        final(api).scene() == gold_rule(old(api).ctx(), old(api).scene(), cell, final(api).new_draws(*old(api))),
        bounds(final(api).new_draws(*old(api))) == gold_draws(old(api).ctx(), old(api).scene(), cell, final(api).new_draws(*old(api))),
{
    let below = api.get(0, 1);
    if below.species == Species::Empty {
        api.set(0, 0, Cell::empty());
        api.set(0, 1, cell);
    } else if matches!(below.species, Species::Water | Species::Oil | Species::Gas | Species::Acid
        | Species::Mud | Species::Blood | Species::Honey | Species::Milk | Species::Poison
        | Species::Alcohol | Species::Syrup) {
        api.set(0, 0, below);
        api.set(0, 1, cell);
    } else {
        api.set(0, 0, cell);
    }
}

/// One turn of silver (see `silver_rule`).
pub fn update_silver(cell: Cell, api: &mut SandApi)
    requires
        old(api).wf(),
    ensures
        final(api).continues(*old(api)),
        final(api).scene() == silver_rule(old(api).ctx(), old(api).scene(), cell, final(api).new_draws(*old(api))),
        bounds(final(api).new_draws(*old(api))) == silver_draws(old(api).ctx(), old(api).scene(), cell, final(api).new_draws(*old(api))),
{
    let (dx, dy) = api.rand_vec_8();
    let nbr = api.get(dx, dy);
    if nbr.species == Species::Acid && api.once_in(20) {
        api.set(0, 0, Cell { ra: cell.ra.saturating_sub(8), ..cell });
    }
    heavy_fall_step(cell, api, 30, Species::Lava, Ghost(*old(api)));
}

/// One turn of aluminum (see `aluminum_rule`).
pub fn update_aluminum(cell: Cell, api: &mut SandApi)
    requires
        old(api).wf(),
    ensures
        final(api).continues(*old(api)),
        final(api).scene() == aluminum_rule(old(api).ctx(), old(api).scene(), cell, final(api).new_draws(*old(api))),
        bounds(final(api).new_draws(*old(api))) == aluminum_draws(old(api).ctx(), old(api).scene(), cell, final(api).new_draws(*old(api))),
{
    let (dx, dy) = api.rand_vec_8();
    let nbr = api.get(dx, dy);
    if (nbr.species == Species::Fire || nbr.species == Species::Lava) && api.once_in(12) {
        api.set(0, 0, Cell { species: Species::Lava, ra: 80, rb: 0, clock: 0 });
        return;
    }
    let below = api.get(0, 1);
    if below.species == Species::Empty || below.species == Species::Gas {
        api.set(0, 0, Cell::empty());
        api.set(0, 1, cell);
    } else {
        let dxf = api.rand_dir_2();
        if api.get(dxf, 1).species == Species::Empty {
            api.set(0, 0, Cell::empty());
            api.set(dxf, 1, cell);
        } else {
            api.set(0, 0, cell);
        }
    }
}

/// One turn of lead (see `lead_rule`).
pub fn update_lead(cell: Cell, api: &mut SandApi)
    requires
        old(api).wf(),
    ensures
        final(api).continues(*old(api)),
        final(api).scene() == lead_rule(old(api).ctx(), old(api).scene(), cell, final(api).new_draws(*old(api))),
        bounds(final(api).new_draws(*old(api))) == lead_draws(old(api).ctx(), old(api).scene(), cell, final(api).new_draws(*old(api))),
{
    let (dx, dy) = api.rand_vec_8();
    let nbr = api.get(dx, dy);
    if (nbr.species == Species::Fire || nbr.species == Species::Lava) && api.once_in(15) {
        api.set(0, 0, Cell { species: Species::Lava, ra: 100, rb: 0, clock: 0 });
        return;
    }
    if nbr.species == Species::Water && api.once_in(40) {
        api.set(dx, dy, Cell { species: Species::Poison, ra: 100, rb: 0, clock: 0 });
    }
    heavy_fall_step(cell, api, 0, Species::Empty, Ghost(*old(api)));
}

/// One turn of zinc (see `zinc_rule`).
pub fn update_zinc(cell: Cell, api: &mut SandApi)
    requires
        old(api).wf(),
    ensures
        final(api).continues(*old(api)),
        final(api).scene() == zinc_rule(old(api).ctx(), old(api).scene(), cell, final(api).new_draws(*old(api))),
        bounds(final(api).new_draws(*old(api))) == zinc_draws(old(api).ctx(), old(api).scene(), cell, final(api).new_draws(*old(api))),
{
    let (dx, dy) = api.rand_vec_8();
    let nbr = api.get(dx, dy);
    if nbr.species == Species::Acid && api.once_in(10) {
        api.set(0, 0, Cell::empty());
        api.set(dx, dy, Cell { species: Species::Gas, ra: 100, rb: 0, clock: 0 });
        return;
    }
    if nbr.species == Species::Lava && api.once_in(20) {
        api.set(0, 0, Cell { species: Species::Lava, ra: 90, rb: 0, clock: 0 });
        return;
    }
    heavy_fall_step(cell, api, 0, Species::Empty, Ghost(*old(api)));
}

/// One turn of tin (see `tin_rule`).
pub fn update_tin(cell: Cell, api: &mut SandApi)
    requires
        old(api).wf(),
    ensures
        final(api).continues(*old(api)),
        final(api).scene() == tin_rule(old(api).ctx(), old(api).scene(), cell, final(api).new_draws(*old(api))),
        bounds(final(api).new_draws(*old(api))) == tin_draws(old(api).ctx(), old(api).scene(), cell, final(api).new_draws(*old(api))),
{
    let (dx, dy) = api.rand_vec_8();
    let nbr = api.get(dx, dy);
    if (nbr.species == Species::Fire || nbr.species == Species::Lava) && api.once_in(10) {
        api.set(0, 0, Cell { species: Species::Lava, ra: 70, rb: 0, clock: 0 });
        return;
    }
    heavy_fall_step(cell, api, 0, Species::Empty, Ghost(*old(api)));
}

/// One turn of bronze (see `bronze_rule`).
pub fn update_bronze(cell: Cell, api: &mut SandApi)
    requires
        old(api).wf(),
    ensures
        final(api).continues(*old(api)),
        final(api).scene() == bronze_rule(old(api).ctx(), old(api).scene(), cell, final(api).new_draws(*old(api))),
        bounds(final(api).new_draws(*old(api))) == bronze_draws(old(api).ctx(), old(api).scene(), cell, final(api).new_draws(*old(api))),
{
    heavy_fall_step(cell, api, 35, Species::Lava, Ghost(*old(api)));
}

/// One turn of steel (see `steel_rule`).
pub fn update_steel(cell: Cell, api: &mut SandApi)
    requires
        old(api).wf(),
    ensures
        final(api).continues(*old(api)),
        final(api).scene() == steel_rule(old(api).ctx(), old(api).scene(), cell, final(api).new_draws(*old(api))),
        bounds(final(api).new_draws(*old(api))) == steel_draws(old(api).ctx(), old(api).scene(), cell, final(api).new_draws(*old(api))),
{
    let (dx, dy) = api.rand_vec_8();
    let nbr = api.get(dx, dy);
    if (nbr.species == Species::Lava) && api.once_in(40) {
        api.set(0, 0, Cell { species: Species::Lava, ra: 120, rb: 0, clock: 0 });
        return;
    }
    heavy_fall_step(cell, api, 0, Species::Empty, Ghost(*old(api)));
}

} // verus!
