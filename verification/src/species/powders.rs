//! Powders: gunpowder, flour, sugar, salt, pepper, ash, soot and charcoal.

use super::Species;
use crate::cell::{Cell, Wind};
use crate::kinds::{fits, kinds, lemma_moveto_kinds, lemma_sset_same_kind, lemma_swap_kinds};
use crate::world::{
    bounds, draw_if, moveto, once, rdir, rvec, sfluid, sget, sset, sset_fluid, ssub, stay, swap, Ctx, Draws, SandApi, Scene,
};
use vstd::prelude::*;

verus! {

/// The fall of a powder, its draws starting at `k`: an `explosive` powder
/// under air pressure above 100 bursts into fire (`ra = 200`) with a blast
/// burn. Otherwise it falls into empty space, sinks through water, slides
/// to the random lower diagonal, drifts sideways one time in 4 into empty
/// space, or stays; then a `flammable` powder catches fire (`ra = 80`) when
/// fire or lava lies in a random direction.
pub open spec fn powder_fall(c: Ctx, s: Scene, cell: Cell, flammable: bool, explosive: bool, ds: Draws, k: int) -> Scene {
    let dx = rdir(ds, k);
    if explosive && sfluid(c).pressure > 100 {
        sset_fluid(
            c,
            stay(c, s, Cell { species: Species::Fire, ra: 200, rb: 0, clock: 0 }),
            Wind { dx: 0, dy: 0, pressure: 100, density: 50 },
        )
    } else {
        let below = sget(c, s, 0, 1);
        let side = below.species != Species::Empty && below.species != Species::Water && sget(c, s, dx, 1).species
            != Species::Empty && sget(c, s, dx, 0).species == Species::Empty;
        let s1 = if below.species == Species::Empty {
            moveto(c, s, 0, 1, cell)
        } else if below.species == Species::Water {
            swap(c, s, 0, 1, below, cell)
        } else if sget(c, s, dx, 1).species == Species::Empty {
            moveto(c, s, dx, 1, cell)
        } else if side && once(ds, k + 1, 4) {
            moveto(c, s, dx, 0, cell)
        } else {
            stay(c, s, cell)
        };
        let k1: int = if side { k + 2 } else { k + 1 };
        if flammable {
            let sv = rvec(ds, k1);
            let t = sget(c, s1, sv.0, sv.1).species;
            if t == Species::Fire || t == Species::Lava {
                stay(c, s1, Cell { species: Species::Fire, ra: 80, rb: 0, clock: 0 })
            } else {
                s1
            }
        } else {
            s1
        }
    }
}

/// A falling powder that neither burns nor bursts only moves: into empty
/// space, or through water below, so the count of each species on the grid
/// is kept.
pub proof fn lemma_powder_fall_keeps_kinds(
    c: Ctx,
    s: Scene,
    cell: Cell,
    flammable: bool,
    explosive: bool,
    ds: Draws,
    k: int,
)
    requires
        fits(c, s),
        sget(c, s, 0, 0).species == cell.species,
        !flammable,
        !(explosive && sfluid(c).pressure > 100),
    ensures
        kinds(powder_fall(c, s, cell, flammable, explosive, ds, k).cells) == kinds(s.cells),
{
    let dx = rdir(ds, k);
    let below = sget(c, s, 0, 1);
    if below.species == Species::Empty {
        lemma_moveto_kinds(c, s, 0, 1, cell);
    } else if below.species == Species::Water {
        lemma_swap_kinds(c, s, 0, 1, below, cell);
    } else {
        if sget(c, s, dx, 1).species == Species::Empty {
            lemma_moveto_kinds(c, s, dx, 1, cell);
        }
        if sget(c, s, dx, 0).species == Species::Empty {
            lemma_moveto_kinds(c, s, dx, 0, cell);
        }
        lemma_sset_same_kind(c, s, 0, 0, cell);
    }
}

/// A falling powder: an explosive one under air pressure above 100 bursts
/// into fire in its place. Otherwise one that does not burn falls into
/// empty space below, sinks through water below (trading places), and,
/// held up below and on both lower diagonals by anything but empty space
/// or water, never moves down.
pub proof fn lemma_powder_falls(c: Ctx, s: Scene, cell: Cell, flammable: bool, explosive: bool, ds: Draws, k: int)
    requires
        fits(c, s),
    ensures
        explosive && sfluid(c).pressure > 100 ==> sget(c, powder_fall(c, s, cell, flammable, explosive, ds, k), 0, 0).species
            == Species::Fire,
        !flammable && !(explosive && sfluid(c).pressure > 100) && sget(c, s, 0, 1).species == Species::Empty
            ==> powder_fall(c, s, cell, flammable, explosive, ds, k) == moveto(c, s, 0, 1, cell),
        !flammable && !(explosive && sfluid(c).pressure > 100) && sget(c, s, 0, 1).species == Species::Water
            ==> powder_fall(c, s, cell, flammable, explosive, ds, k) == swap(c, s, 0, 1, sget(c, s, 0, 1), cell),
        ({
            let b = sget(c, s, 0, 1).species;
            !flammable && !(explosive && sfluid(c).pressure > 100) && b != Species::Empty && b != Species::Water
                && sget(c, s, -1, 1).species != Species::Empty && sget(c, s, 1, 1).species != Species::Empty
                ==> powder_fall(c, s, cell, flammable, explosive, ds, k) == stay(c, s, cell) || exists|d: int|
                (d == 1 || d == -1) && #[trigger] sget(c, s, d, 0).species == Species::Empty && powder_fall(
                    c,
                    s,
                    cell,
                    flammable,
                    explosive,
                    ds,
                    k,
                ) == moveto(c, s, d, 0, cell)
        }),
{
    crate::world::lemma_index_bounds(c.width, c.height, c.x, c.y);
    let dx = rdir(ds, k);
    assert(-1 <= dx <= 1);
    if sget(c, s, dx, 0).species == Species::Empty {
        assert(sget(c, s, dx, 0).species == Species::Empty);
    }
}

/// One spark of a gunpowder blast: fire (`ra = 150`) at the random step of
/// draw `k`.
pub open spec fn spark(c: Ctx, s: Scene, ds: Draws, k: int) -> Scene {
    let v = rvec(ds, k);
    sset(c, s, v.0, v.1, Cell { species: Species::Fire, ra: 150, rb: 0, clock: 0 })
}

/// Gunpowder: next to fire, lava or lightning in a random direction it
/// explodes: fire (`ra = 250`) in place, a blast burn and three sparks at
/// random steps. Under air pressure above 80 it bursts into fire
/// (`ra = 200`). Otherwise it falls as an explosive, flammable powder.
pub open spec fn gunpowder_rule(c: Ctx, s: Scene, cell: Cell, ds: Draws) -> Scene {
    let v = rvec(ds, 0);
    let nbr = sget(c, s, v.0, v.1).species;
    if nbr == Species::Fire || nbr == Species::Lava || nbr == Species::Lightning {
        let s1 = sset_fluid(
            c,
            stay(c, s, Cell { species: Species::Fire, ra: 250, rb: 0, clock: 0 }),
            Wind { dx: 0, dy: 0, pressure: 120, density: 80 },
        );
        spark(c, spark(c, spark(c, s1, ds, 1), ds, 2), ds, 3)
    } else if sfluid(c).pressure > 80 {
        stay(c, s, Cell { species: Species::Fire, ra: 200, rb: 0, clock: 0 })
    } else {
        powder_fall(c, s, cell, true, true, ds, 1)
    }
}

/// Flour: next to fire in a random direction it flares up one time in 5
/// (fire with `ra = 180`, blast burn). Over water it soaks into mud
/// (keeping `ra`) in the water's place. Otherwise it falls as a flammable
/// powder.
pub open spec fn flour_rule(c: Ctx, s: Scene, cell: Cell, ds: Draws) -> Scene {
    let v = rvec(ds, 0);
    let nbr = sget(c, s, v.0, v.1).species;
    if nbr == Species::Fire && once(ds, 1, 5) {
        sset_fluid(
            c,
            stay(c, s, Cell { species: Species::Fire, ra: 180, rb: 0, clock: 0 }),
            Wind { dx: 0, dy: 0, pressure: 90, density: 40 },
        )
    } else if sget(c, s, 0, 1).species == Species::Water {
        moveto(c, s, 0, 1, Cell { species: Species::Mud, ra: cell.ra, rb: 0, clock: 0 })
    } else {
        powder_fall(c, s, cell, true, false, ds, if nbr == Species::Fire { 2 } else { 1 })
    }
}

/// Sugar: dissolves next to water in a random direction, catches fire
/// (`ra = 100`) next to fire or lava, otherwise falls as a flammable powder.
pub open spec fn sugar_rule(c: Ctx, s: Scene, cell: Cell, ds: Draws) -> Scene {
    let v = rvec(ds, 0);
    let nbr = sget(c, s, v.0, v.1).species;
    if nbr == Species::Water {
        stay(c, s, Cell::empty())
    } else if nbr == Species::Fire || nbr == Species::Lava {
        stay(c, s, Cell { species: Species::Fire, ra: 100, rb: 0, clock: 0 })
    } else {
        powder_fall(c, s, cell, true, false, ds, 1)
    }
}

/// Salt: dissolves one time in 8 next to water in a random direction; melts
/// ice there into water (`ra = 100`) one time in 10; then falls as a powder
/// that does not burn.
pub open spec fn salt_rule(c: Ctx, s: Scene, cell: Cell, ds: Draws) -> Scene {
    let v = rvec(ds, 0);
    let nbr = sget(c, s, v.0, v.1).species;
    if nbr == Species::Water && once(ds, 1, 8) {
        stay(c, s, Cell::empty())
    } else {
        let k: int = if nbr == Species::Water { 2 } else { 1 };
        let s1 = if nbr == Species::Ice && once(ds, k, 10) {
            sset(c, s, v.0, v.1, Cell { species: Species::Water, ra: 100, rb: 0, clock: 0 })
        } else {
            s
        };
        powder_fall(c, s1, cell, false, false, ds, if nbr == Species::Ice { k + 1 } else { k })
    }
}

/// Pepper: floats (stays) on water, otherwise falls as a flammable powder.
pub open spec fn pepper_rule(c: Ctx, s: Scene, cell: Cell, ds: Draws) -> Scene {
    if sget(c, s, 0, 1).species == Species::Water {
        stay(c, s, cell)
    } else {
        powder_fall(c, s, cell, true, false, ds, 0)
    }
}

/// A light powder (ash, soot): falls into empty space, slides to the random
/// lower diagonal, drifts sideways into empty space one time in `drift`,
/// or stays.
pub open spec fn light_powder_rule(c: Ctx, s: Scene, cell: Cell, drift: int, ds: Draws) -> Scene {
    let dx = rdir(ds, 0);
    if sget(c, s, 0, 1).species == Species::Empty {
        moveto(c, s, 0, 1, cell)
    } else if sget(c, s, dx, 1).species == Species::Empty {
        moveto(c, s, dx, 1, cell)
    } else if sget(c, s, dx, 0).species == Species::Empty && once(ds, 1, drift) {
        moveto(c, s, dx, 0, cell)
    } else {
        stay(c, s, cell)
    }
}

/// Charcoal: next to fire or lava in a random direction it catches fire
/// (`ra = 60`) one time in 30, else stays; smouldering (`rb > 0`) it counts
/// down, warming its burn when `rb` is a multiple of 5; otherwise it falls
/// as a flammable powder.
pub open spec fn charcoal_rule(c: Ctx, s: Scene, cell: Cell, ds: Draws) -> Scene {
    let v = rvec(ds, 0);
    let nbr = sget(c, s, v.0, v.1).species;
    if nbr == Species::Fire || nbr == Species::Lava {
        if once(ds, 1, 30) {
            stay(c, s, Cell { species: Species::Fire, ra: 60, rb: 0, clock: 0 })
        } else {
            stay(c, s, cell)
        }
    } else if cell.rb > 0 {
        let s1 = stay(c, s, Cell { rb: ssub(cell.rb, 1), ..cell });
        if cell.rb % 5 == 0 {
            sset_fluid(c, s1, Wind { dx: 0, dy: 5, pressure: 5, density: 30 })
        } else {
            s1
        }
    } else {
        powder_fall(c, s, cell, true, false, ds, 1)
    }
}

/// The bounds of the draws of `powder_fall` from `k`: a `rand_dir`; unless
/// it bursts, a `once_in(4)` when it may drift sideways, and a `rand_vec`
/// for a flammable powder.
pub open spec fn powder_fall_draws(c: Ctx, s: Scene, cell: Cell, flammable: bool, explosive: bool, ds: Draws, k: int) -> Seq<int> {
    let dx = rdir(ds, k);
    if explosive && sfluid(c).pressure > 100 {
        seq![1000]
    } else {
        let below = sget(c, s, 0, 1);
        let side = below.species != Species::Empty && below.species != Species::Water && sget(c, s, dx, 1).species
            != Species::Empty && sget(c, s, dx, 0).species == Species::Empty;
        seq![1000] + draw_if(side, 4) + draw_if(flammable, 2000)
    }
}

/// The bounds of the draws gunpowder makes (see `gunpowder_rule`).
pub open spec fn gunpowder_draws(c: Ctx, s: Scene, cell: Cell, ds: Draws) -> Seq<int> {
    let v = rvec(ds, 0);
    let nbr = sget(c, s, v.0, v.1).species;
    if nbr == Species::Fire || nbr == Species::Lava || nbr == Species::Lightning {
        seq![2000, 2000, 2000, 2000]
    } else if sfluid(c).pressure > 80 {
        seq![2000]
    } else {
        seq![2000] + powder_fall_draws(c, s, cell, true, true, ds, 1)
    }
}

/// The bounds of the draws flour makes (see `flour_rule`).
pub open spec fn flour_draws(c: Ctx, s: Scene, cell: Cell, ds: Draws) -> Seq<int> {
    let v = rvec(ds, 0);
    let nbr = sget(c, s, v.0, v.1).species;
    if nbr == Species::Fire && once(ds, 1, 5) {
        seq![2000, 5]
    } else if sget(c, s, 0, 1).species == Species::Water {
        seq![2000] + draw_if(nbr == Species::Fire, 5)
    } else {
        seq![2000] + draw_if(nbr == Species::Fire, 5) + powder_fall_draws(c, s, cell, true, false, ds, if nbr
            == Species::Fire { 2 } else { 1 })
    }
}

/// The bounds of the draws sugar makes (see `sugar_rule`).
pub open spec fn sugar_draws(c: Ctx, s: Scene, cell: Cell, ds: Draws) -> Seq<int> {
    let v = rvec(ds, 0);
    let nbr = sget(c, s, v.0, v.1).species;
    if nbr == Species::Water || nbr == Species::Fire || nbr == Species::Lava {
        seq![2000]
    } else {
        seq![2000] + powder_fall_draws(c, s, cell, true, false, ds, 1)
    }
}

/// The bounds of the draws salt makes (see `salt_rule`).
pub open spec fn salt_draws(c: Ctx, s: Scene, cell: Cell, ds: Draws) -> Seq<int> {
    let v = rvec(ds, 0);
    let nbr = sget(c, s, v.0, v.1).species;
    if nbr == Species::Water && once(ds, 1, 8) {
        seq![2000, 8]
    } else {
        let k: int = if nbr == Species::Water { 2 } else { 1 };
        let s1 = if nbr == Species::Ice && once(ds, k, 10) {
            sset(c, s, v.0, v.1, Cell { species: Species::Water, ra: 100, rb: 0, clock: 0 })
        } else {
            s
        };
        seq![2000] + draw_if(nbr == Species::Water, 8) + draw_if(nbr == Species::Ice, 10) + powder_fall_draws(
            c, s1, cell, false, false, ds, if nbr == Species::Ice { k + 1 } else { k })
    }
}

/// The bounds of the draws pepper makes (see `pepper_rule`).
pub open spec fn pepper_draws(c: Ctx, s: Scene, cell: Cell, ds: Draws) -> Seq<int> {
    if sget(c, s, 0, 1).species == Species::Water {
        seq![]
    } else {
        powder_fall_draws(c, s, cell, true, false, ds, 0)
    }
}

/// The bounds of the draws a light powder makes (see
/// `light_powder_rule`).
pub open spec fn light_powder_draws(c: Ctx, s: Scene, cell: Cell, drift: int, ds: Draws) -> Seq<int> {
    let dx = rdir(ds, 0);
    if sget(c, s, 0, 1).species == Species::Empty || sget(c, s, dx, 1).species == Species::Empty {
        seq![1000]
    } else {
        seq![1000] + draw_if(sget(c, s, dx, 0).species == Species::Empty, drift)
    }
}

/// The bounds of the draws charcoal makes (see `charcoal_rule`).
pub open spec fn charcoal_draws(c: Ctx, s: Scene, cell: Cell, ds: Draws) -> Seq<int> {
    let v = rvec(ds, 0);
    let nbr = sget(c, s, v.0, v.1).species;
    if nbr == Species::Fire || nbr == Species::Lava {
        seq![2000, 30]
    } else if cell.rb > 0 {
        seq![2000]
    } else {
        seq![2000] + powder_fall_draws(c, s, cell, true, false, ds, 1)
    }
}

/// The fall of a powder (see `powder_fall`), ending the turn.
fn powder_fall_step(cell: Cell, api: &mut SandApi, flammable: bool, explosive: bool, Ghost(start): Ghost<SandApi>)
    requires
        old(api).continues(start),
    ensures
        final(api).continues(*old(api)),
        final(api).scene() == powder_fall(
            old(api).ctx(),
            old(api).scene(),
            cell,
            flammable,
            explosive,
            final(api).new_draws(start),
            old(api).draws().len() - start.draws().len(),
        ),
        bounds(final(api).new_draws(start)) == bounds(old(api).new_draws(start)) + powder_fall_draws(old(api).ctx(), old(api).scene(), cell, flammable, explosive, final(api).new_draws(start), old(api).draws().len() - start.draws().len()),
{
    let dx = api.rand_dir();
    let fluid = api.get_fluid();
    if explosive && fluid.pressure > 100 {
        api.set(0, 0, Cell { species: Species::Fire, ra: 200, rb: 0, clock: 0 });
        api.set_fluid(Wind { dx: 0, dy: 0, pressure: 100, density: 50 });
        return;
    }
    let below = api.get(0, 1);
    if below.species == Species::Empty {
        api.set(0, 0, Cell::empty());
        api.set(0, 1, cell);
    } else if below.species == Species::Water {
        api.set(0, 0, below);
        api.set(0, 1, cell);
    } else if api.get(dx, 1).species == Species::Empty {
        api.set(0, 0, Cell::empty());
        api.set(dx, 1, cell);
    } else if api.get(dx, 0).species == Species::Empty && api.once_in(4) {
        api.set(0, 0, Cell::empty());
        api.set(dx, 0, cell);
    } else {
        api.set(0, 0, cell);
    }
    if flammable {
        let (sx, sy) = api.rand_vec();
        let nbr = api.get(sx, sy);
        if nbr.species == Species::Fire || nbr.species == Species::Lava {
            api.set(0, 0, Cell { species: Species::Fire, ra: 80, rb: 0, clock: 0 });
        }
    }
}

/// One turn of gunpowder (see `gunpowder_rule`).
pub fn update_gunpowder(cell: Cell, api: &mut SandApi)
    requires
        old(api).wf(),
    ensures
        final(api).continues(*old(api)),
        final(api).scene() == gunpowder_rule(old(api).ctx(), old(api).scene(), cell, final(api).new_draws(*old(api))),
        bounds(final(api).new_draws(*old(api))) == gunpowder_draws(old(api).ctx(), old(api).scene(), cell, final(api).new_draws(*old(api))),
{
    let fluid = api.get_fluid();
    let (sx, sy) = api.rand_vec();
    let nbr = api.get(sx, sy);
    if nbr.species == Species::Fire || nbr.species == Species::Lava || nbr.species == Species::Lightning {
        api.set(0, 0, Cell { species: Species::Fire, ra: 250, rb: 0, clock: 0 });
        api.set_fluid(Wind { dx: 0, dy: 0, pressure: 120, density: 80 });
        let (cdx, cdy) = api.rand_vec();
        api.set(cdx, cdy, Cell { species: Species::Fire, ra: 150, rb: 0, clock: 0 });
        let (cdx, cdy) = api.rand_vec();
        api.set(cdx, cdy, Cell { species: Species::Fire, ra: 150, rb: 0, clock: 0 });
        let (cdx, cdy) = api.rand_vec();
        api.set(cdx, cdy, Cell { species: Species::Fire, ra: 150, rb: 0, clock: 0 });
        return;
    }
    if fluid.pressure > 80 {
        api.set(0, 0, Cell { species: Species::Fire, ra: 200, rb: 0, clock: 0 });
        return;
    }
    powder_fall_step(cell, api, true, true, Ghost(*old(api)));
}

/// One turn of flour (see `flour_rule`).
pub fn update_flour(cell: Cell, api: &mut SandApi)
    requires
        old(api).wf(),
    ensures
        final(api).continues(*old(api)),
        final(api).scene() == flour_rule(old(api).ctx(), old(api).scene(), cell, final(api).new_draws(*old(api))),
        bounds(final(api).new_draws(*old(api))) == flour_draws(old(api).ctx(), old(api).scene(), cell, final(api).new_draws(*old(api))),
{
    let (sx, sy) = api.rand_vec();
    let nbr = api.get(sx, sy);
    if nbr.species == Species::Fire && api.once_in(5) {
        api.set(0, 0, Cell { species: Species::Fire, ra: 180, rb: 0, clock: 0 });
        api.set_fluid(Wind { dx: 0, dy: 0, pressure: 90, density: 40 });
        return;
    }
    let below = api.get(0, 1);
    if below.species == Species::Water {
        api.set(0, 0, Cell::empty());
        api.set(0, 1, Cell { species: Species::Mud, ra: cell.ra, rb: 0, clock: 0 });
        return;
    }
    powder_fall_step(cell, api, true, false, Ghost(*old(api)));
}

/// One turn of sugar (see `sugar_rule`).
pub fn update_sugar(cell: Cell, api: &mut SandApi)
    requires
        old(api).wf(),
    ensures
        final(api).continues(*old(api)),
        final(api).scene() == sugar_rule(old(api).ctx(), old(api).scene(), cell, final(api).new_draws(*old(api))),
        bounds(final(api).new_draws(*old(api))) == sugar_draws(old(api).ctx(), old(api).scene(), cell, final(api).new_draws(*old(api))),
{
    let (sx, sy) = api.rand_vec();
    let nbr = api.get(sx, sy);
    if nbr.species == Species::Water {
        api.set(0, 0, Cell::empty());
        return;
    }
    if nbr.species == Species::Fire || nbr.species == Species::Lava {
        api.set(0, 0, Cell { species: Species::Fire, ra: 100, rb: 0, clock: 0 });
        return;
    }
    powder_fall_step(cell, api, true, false, Ghost(*old(api)));
}

/// One turn of salt (see `salt_rule`).
pub fn update_salt(cell: Cell, api: &mut SandApi)
    requires
        old(api).wf(),
    ensures
        final(api).continues(*old(api)),
        final(api).scene() == salt_rule(old(api).ctx(), old(api).scene(), cell, final(api).new_draws(*old(api))),
        bounds(final(api).new_draws(*old(api))) == salt_draws(old(api).ctx(), old(api).scene(), cell, final(api).new_draws(*old(api))),
{
    let (sx, sy) = api.rand_vec();
    let nbr = api.get(sx, sy);
    if nbr.species == Species::Water && api.once_in(8) {
        api.set(0, 0, Cell::empty());
        return;
    }
    if nbr.species == Species::Ice && api.once_in(10) {
        api.set(sx, sy, Cell { species: Species::Water, ra: 100, rb: 0, clock: 0 });
    }
    powder_fall_step(cell, api, false, false, Ghost(*old(api)));
}

/// One turn of pepper (see `pepper_rule`).
pub fn update_pepper(cell: Cell, api: &mut SandApi)
    requires
        old(api).wf(),
    ensures
        final(api).continues(*old(api)),
        final(api).scene() == pepper_rule(old(api).ctx(), old(api).scene(), cell, final(api).new_draws(*old(api))),
        bounds(final(api).new_draws(*old(api))) == pepper_draws(old(api).ctx(), old(api).scene(), cell, final(api).new_draws(*old(api))),
{
    let below = api.get(0, 1);
    if below.species == Species::Water {
        api.set(0, 0, cell);
    } else {
        powder_fall_step(cell, api, true, false, Ghost(*old(api)));
    }
}

/// One turn of ash: a light powder drifting one time in 2 (see
/// `light_powder_rule`).
pub fn update_ash(cell: Cell, api: &mut SandApi)
    requires
        old(api).wf(),
    ensures
        final(api).continues(*old(api)),
        final(api).scene() == light_powder_rule(old(api).ctx(), old(api).scene(), cell, 2, final(api).new_draws(*old(api))),
        bounds(final(api).new_draws(*old(api))) == light_powder_draws(old(api).ctx(), old(api).scene(), cell, 2, final(api).new_draws(*old(api))),
{
    let dx = api.rand_dir();
    let below = api.get(0, 1);
    if below.species == Species::Empty {
        api.set(0, 0, Cell::empty());
        api.set(0, 1, cell);
    } else if api.get(dx, 1).species == Species::Empty {
        api.set(0, 0, Cell::empty());
        api.set(dx, 1, cell);
    } else if api.get(dx, 0).species == Species::Empty && api.once_in(2) {
        api.set(0, 0, Cell::empty());
        api.set(dx, 0, cell);
    } else {
        api.set(0, 0, cell);
    }
}

/// One turn of soot: a light powder drifting one time in 3 (see
/// `light_powder_rule`).
pub fn update_soot(cell: Cell, api: &mut SandApi)
    requires
        old(api).wf(),
    ensures
        final(api).continues(*old(api)),
        final(api).scene() == light_powder_rule(old(api).ctx(), old(api).scene(), cell, 3, final(api).new_draws(*old(api))),
        bounds(final(api).new_draws(*old(api))) == light_powder_draws(old(api).ctx(), old(api).scene(), cell, 3, final(api).new_draws(*old(api))),
{
    let dx = api.rand_dir();
    let below = api.get(0, 1);
    if below.species == Species::Empty {
        api.set(0, 0, Cell::empty());
        api.set(0, 1, cell);
    } else if api.get(dx, 1).species == Species::Empty {
        api.set(0, 0, Cell::empty());
        api.set(dx, 1, cell);
    } else if api.get(dx, 0).species == Species::Empty && api.once_in(3) {
        api.set(0, 0, Cell::empty());
        api.set(dx, 0, cell);
    } else {
        api.set(0, 0, cell);
    }
}

/// One turn of charcoal (see `charcoal_rule`).
pub fn update_charcoal(cell: Cell, api: &mut SandApi)
    requires
        old(api).wf(),
    ensures
        final(api).continues(*old(api)),
        final(api).scene() == charcoal_rule(old(api).ctx(), old(api).scene(), cell, final(api).new_draws(*old(api))),
        bounds(final(api).new_draws(*old(api))) == charcoal_draws(old(api).ctx(), old(api).scene(), cell, final(api).new_draws(*old(api))),
{
    let (sx, sy) = api.rand_vec();
    let nbr = api.get(sx, sy);
    if nbr.species == Species::Fire || nbr.species == Species::Lava {
        if api.once_in(30) {
            api.set(0, 0, Cell { species: Species::Fire, ra: 60, rb: 0, clock: 0 });
        } else {
            api.set(0, 0, cell);
        }
        return;
    }
    if cell.rb > 0 {
        api.set(0, 0, Cell { rb: cell.rb.saturating_sub(1), ..cell });
        if cell.rb % 5 == 0 {
            api.set_fluid(Wind { dx: 0, dy: 5, pressure: 5, density: 30 });
        }
        return;
    }
    powder_fall_step(cell, api, true, false, Ghost(*old(api)));
}

} // verus!
