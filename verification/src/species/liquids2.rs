//! More liquids: mud, blood, honey, milk, poison, mercury, alcohol and
//! syrup.

use super::Species;
use crate::cell::{Cell, Wind};
use crate::kinds::{fits, kinds, lemma_moveto_kinds, lemma_sset_same_kind, lemma_swap_kinds};
use crate::world::{
    bounds, draw_if, draw, moveto, once, rdir, rvec, sget, sset, sset_fluid, stay, swap, Ctx, Draws, SandApi, Scene,
};
use vstd::prelude::*;

verus! {

/// The flow of a liquid, its draws starting at `k`: into empty space below
/// (trading places, its `ra` redrawn in 100..150 one time in 20); a light
/// liquid rests on water; a heavy one sinks through water or oil. It
/// flows to the random lower diagonal into empty space one time in
/// `viscosity` (trading places), or to the other one; then sideways, to the
/// same side or the other, one time in `2 * viscosity`; or stays.
pub open spec fn liquid_flow(c: Ctx, s: Scene, cell: Cell, viscosity: i32, heavier: bool, ds: Draws, k: int) -> Scene {
    let dx = rdir(ds, k);
    let below = sget(c, s, 0, 1);
    let dx1 = sget(c, s, dx, 1);
    if below.species == Species::Empty {
        let ra = if once(ds, k + 1, 20) { (100 + draw(ds, k + 2, 50)) as u8 } else { cell.ra };
        swap(c, s, 0, 1, below, Cell { ra, ..cell })
    } else if !heavier && below.species == Species::Water {
        stay(c, s, cell)
    } else if heavier && (below.species == Species::Water || below.species == Species::Oil) {
        swap(c, s, 0, 1, below, cell)
    } else {
        let c1 = dx1.species == Species::Empty;
        if c1 && once(ds, k + 1, viscosity as int) {
            swap(c, s, dx, 1, dx1, cell)
        } else {
            let k2 = if c1 { k + 2 } else { k + 1 };
            let c2 = sget(c, s, -dx, 1).species == Species::Empty;
            if c2 && once(ds, k2, viscosity as int) {
                moveto(c, s, -dx, 1, cell)
            } else {
                let k3 = if c2 { k2 + 1 } else { k2 };
                let c3 = sget(c, s, dx, 0).species == Species::Empty;
                let k4 = if c3 { k3 + 1 } else { k3 };
                if c3 && once(ds, k3, 2 * viscosity) {
                    moveto(c, s, dx, 0, cell)
                } else if sget(c, s, -dx, 0).species == Species::Empty && once(ds, k4, 2 * viscosity) {
                    moveto(c, s, -dx, 0, cell)
                } else {
                    stay(c, s, cell)
                }
            }
        }
    }
}

/// A flowing liquid only moves: into empty space, or (when heavy) through
/// water or oil below, so the count of each species on the grid is kept;
/// a light liquid on water stays where it is.
pub proof fn lemma_liquid_flow_keeps_kinds(
    c: Ctx,
    s: Scene,
    cell: Cell,
    viscosity: i32,
    heavier: bool,
    ds: Draws,
    k: int,
)
    requires
        fits(c, s),
        sget(c, s, 0, 0).species == cell.species,
    ensures
        kinds(liquid_flow(c, s, cell, viscosity, heavier, ds, k).cells) == kinds(s.cells),
        !heavier && sget(c, s, 0, 1).species == Species::Water ==> liquid_flow(c, s, cell, viscosity, heavier, ds, k)
            == stay(c, s, cell),
{
    let dx = rdir(ds, k);
    let below = sget(c, s, 0, 1);
    let dx1 = sget(c, s, dx, 1);
    if below.species == Species::Empty {
        let ra = if once(ds, k + 1, 20) { (100 + draw(ds, k + 2, 50)) as u8 } else { cell.ra };
        lemma_swap_kinds(c, s, 0, 1, below, Cell { ra, ..cell });
    } else if !heavier && below.species == Species::Water {
        lemma_sset_same_kind(c, s, 0, 0, cell);
    } else if heavier && (below.species == Species::Water || below.species == Species::Oil) {
        lemma_swap_kinds(c, s, 0, 1, below, cell);
    } else {
        if dx1.species == Species::Empty {
            lemma_swap_kinds(c, s, dx, 1, dx1, cell);
        }
        if sget(c, s, -dx, 1).species == Species::Empty {
            lemma_moveto_kinds(c, s, -dx, 1, cell);
        }
        if sget(c, s, dx, 0).species == Species::Empty {
            lemma_moveto_kinds(c, s, dx, 0, cell);
        }
        if sget(c, s, -dx, 0).species == Species::Empty {
            lemma_moveto_kinds(c, s, -dx, 0, cell);
        }
        lemma_sset_same_kind(c, s, 0, 0, cell);
    }
}

/// A flowing liquid falls into empty space below (its `ra` possibly
/// redrawn); a heavy one sinks through water or oil below; a light one
/// rests on water; one (standing in its own cell) held up below, on both
/// lower diagonals and on both sides stays put.
pub proof fn lemma_liquid_flow_falls(c: Ctx, s: Scene, cell: Cell, viscosity: i32, heavier: bool, ds: Draws, k: int)
    ensures
        sget(c, s, 0, 1).species == Species::Empty ==> exists|ra: u8|
            liquid_flow(c, s, cell, viscosity, heavier, ds, k) == swap(c, s, 0, 1, sget(c, s, 0, 1), Cell { ra, ..cell }),
        heavier && (sget(c, s, 0, 1).species == Species::Water || sget(c, s, 0, 1).species == Species::Oil) ==> liquid_flow(
            c,
            s,
            cell,
            viscosity,
            heavier,
            ds,
            k,
        ) == swap(c, s, 0, 1, sget(c, s, 0, 1), cell),
        ({
            let b = sget(c, s, 0, 1).species;
            b != Species::Empty && !(heavier && (b == Species::Water || b == Species::Oil)) && sget(c, s, -1, 1).species
                != Species::Empty && sget(c, s, 1, 1).species != Species::Empty && sget(c, s, -1, 0).species
                != Species::Empty && sget(c, s, 1, 0).species != Species::Empty && sget(c, s, 0, 0).species
                != Species::Empty ==> liquid_flow(
                c,
                s,
                cell,
                viscosity,
                heavier,
                ds,
                k,
            ) == stay(c, s, cell)
        }),
{
    let ra = if once(ds, k + 1, 20) { (100 + draw(ds, k + 2, 50)) as u8 } else { cell.ra };
    if sget(c, s, 0, 1).species == Species::Empty {
        assert(liquid_flow(c, s, cell, viscosity, heavier, ds, k) == swap(c, s, 0, 1, sget(c, s, 0, 1), Cell { ra, ..cell }));
    }
    assert(-1 <= rdir(ds, k) <= 1);
}

/// Mud: dries into soil (keeping `ra`) one time in 200; baked into soil
/// (`ra = 50`) by fire in a random direction one time in 50; otherwise
/// flows as a heavy liquid of viscosity 3.
pub open spec fn mud_rule(c: Ctx, s: Scene, cell: Cell, ds: Draws) -> Scene {
    if once(ds, 0, 200) {
        stay(c, s, Cell { species: Species::Soil, ra: cell.ra, rb: 0, clock: 0 })
    } else {
        let v = rvec(ds, 1);
        let fire = sget(c, s, v.0, v.1).species == Species::Fire;
        if fire && once(ds, 2, 50) {
            stay(c, s, Cell { species: Species::Soil, ra: 50, rb: 0, clock: 0 })
        } else {
            liquid_flow(c, s, cell, 3, true, ds, if fire { 3 } else { 2 })
        }
    }
}

/// Blood: burns (`ra = 40`) next to fire or lava in a random direction;
/// evaporates one time in 150; otherwise flows as a light liquid of
/// viscosity 1.
pub open spec fn blood_rule(c: Ctx, s: Scene, cell: Cell, ds: Draws) -> Scene {
    let v = rvec(ds, 0);
    let nbr = sget(c, s, v.0, v.1).species;
    if nbr == Species::Fire || nbr == Species::Lava {
        stay(c, s, Cell { species: Species::Fire, ra: 40, rb: 0, clock: 0 })
    } else if once(ds, 1, 150) {
        stay(c, s, Cell::empty())
    } else {
        liquid_flow(c, s, cell, 1, false, ds, 2)
    }
}

/// Honey: burns (`ra = 150`) next to fire or lava in a random direction;
/// an ant there eats it (it is gone) one time in 20; otherwise it flows
/// as a heavy liquid of viscosity 5.
pub open spec fn honey_rule(c: Ctx, s: Scene, cell: Cell, ds: Draws) -> Scene {
    let v = rvec(ds, 0);
    let nbr = sget(c, s, v.0, v.1).species;
    if nbr == Species::Fire || nbr == Species::Lava {
        stay(c, s, Cell { species: Species::Fire, ra: 150, rb: 0, clock: 0 })
    } else {
        let ant = nbr == Species::Ant;
        if ant && once(ds, 1, 20) {
            stay(c, s, Cell::empty())
        } else {
            liquid_flow(c, s, cell, 5, true, ds, if ant { 2 } else { 1 })
        }
    }
}

/// Milk: neutralises acid in a random direction (both vanish); burns
/// (`ra = 30`) next to fire or lava; otherwise flows as a light liquid of
/// viscosity 1.
pub open spec fn milk_rule(c: Ctx, s: Scene, cell: Cell, ds: Draws) -> Scene {
    let v = rvec(ds, 0);
    let nbr = sget(c, s, v.0, v.1).species;
    if nbr == Species::Acid {
        sset(c, stay(c, s, Cell::empty()), v.0, v.1, Cell::empty())
    } else if nbr == Species::Fire || nbr == Species::Lava {
        stay(c, s, Cell { species: Species::Fire, ra: 30, rb: 0, clock: 0 })
    } else {
        liquid_flow(c, s, cell, 1, false, ds, 1)
    }
}

/// The living things poison kills.
pub open spec fn poisonable(t: Species) -> bool {
    t == Species::Plant || t == Species::Wood || t == Species::Fungus || t == Species::Mite || t == Species::Seed
        || t == Species::Moss || t == Species::Grass || t == Species::Flower || t == Species::Leaf || t
        == Species::Vine || t == Species::Mushroom || t == Species::Fruit || t == Species::Worm || t
        == Species::Ant || t == Species::Spider || t == Species::Bee || t == Species::Butterfly || t
        == Species::Fish
}

/// Poison: kills a living thing in a random direction; then flows as a
/// light liquid of viscosity 1.
pub open spec fn poison_rule(c: Ctx, s: Scene, cell: Cell, ds: Draws) -> Scene {
    let v = rvec(ds, 0);
    let s1 = if poisonable(sget(c, s, v.0, v.1).species) { sset(c, s, v.0, v.1, Cell::empty()) } else { s };
    liquid_flow(c, s1, cell, 1, false, ds, 1)
}

/// Mercury: dissolves gold in a random direction; then flows as a heavy
/// liquid of viscosity 1.
pub open spec fn mercury_rule(c: Ctx, s: Scene, cell: Cell, ds: Draws) -> Scene {
    let v = rvec(ds, 0);
    let s1 = if sget(c, s, v.0, v.1).species == Species::Gold { sset(c, s, v.0, v.1, Cell::empty()) } else { s };
    liquid_flow(c, s1, cell, 1, true, ds, 1)
}

/// Alcohol: flares up (`ra = 200`, blast burn) next to fire or lava in a
/// random direction; evaporates into gas (`ra = 100`) one time in 100;
/// otherwise flows as a light liquid of viscosity 1.
pub open spec fn alcohol_rule(c: Ctx, s: Scene, cell: Cell, ds: Draws) -> Scene {
    let v = rvec(ds, 0);
    let nbr = sget(c, s, v.0, v.1).species;
    if nbr == Species::Fire || nbr == Species::Lava {
        sset_fluid(
            c,
            stay(c, s, Cell { species: Species::Fire, ra: 200, rb: 0, clock: 0 }),
            Wind { dx: 0, dy: 0, pressure: 60, density: 60 },
        )
    } else if once(ds, 1, 100) {
        stay(c, s, Cell { species: Species::Gas, ra: 100, rb: 0, clock: 0 })
    } else {
        liquid_flow(c, s, cell, 1, false, ds, 2)
    }
}

/// Syrup: burns (`ra = 100`) next to fire in a random direction; otherwise
/// flows as a heavy liquid of viscosity 4.
pub open spec fn syrup_rule(c: Ctx, s: Scene, cell: Cell, ds: Draws) -> Scene {
    let v = rvec(ds, 0);
    if sget(c, s, v.0, v.1).species == Species::Fire {
        stay(c, s, Cell { species: Species::Fire, ra: 100, rb: 0, clock: 0 })
    } else {
        liquid_flow(c, s, cell, 4, true, ds, 1)
    }
}

/// The bounds of the draws of `liquid_flow` from `k`: a `rand_dir`; then
/// falling, a `once_in(20)` and, on a hit, the new colour; else, unless it
/// rests or sinks, a `once_in` for each open way it tries in turn (below
/// diagonally with `viscosity`, sideways with `2 * viscosity`) until one is
/// taken.
pub open spec fn liquid_flow_draws(c: Ctx, s: Scene, cell: Cell, viscosity: i32, heavier: bool, ds: Draws, k: int) -> Seq<int> {
    let dx = rdir(ds, k);
    let below = sget(c, s, 0, 1);
    let v = viscosity as int;
    if below.species == Species::Empty {
        seq![1000, 20] + draw_if(once(ds, k + 1, 20), 50)
    } else if (!heavier && below.species == Species::Water) || (heavier && (below.species == Species::Water
        || below.species == Species::Oil)) {
        seq![1000]
    } else {
        let c1 = sget(c, s, dx, 1).species == Species::Empty;
        let k2 = if c1 { k + 2 } else { k + 1 };
        let c2 = sget(c, s, -dx, 1).species == Species::Empty;
        let k3 = if c2 { k2 + 1 } else { k2 };
        let c3 = sget(c, s, dx, 0).species == Species::Empty;
        let c4 = sget(c, s, -dx, 0).species == Species::Empty;
        seq![1000] + draw_if(c1, v) + (if c1 && once(ds, k + 1, v) {
            seq![]
        } else {
            draw_if(c2, v) + (if c2 && once(ds, k2, v) {
                seq![]
            } else {
                draw_if(c3, 2 * v) + (if c3 && once(ds, k3, 2 * v) {
                    seq![]
                } else {
                    draw_if(c4, 2 * v)
                })
            })
        })
    }
}

/// The bounds of the draws mud makes (see `mud_rule`).
pub open spec fn mud_draws(c: Ctx, s: Scene, cell: Cell, ds: Draws) -> Seq<int> {
    if once(ds, 0, 200) {
        seq![200]
    } else {
        let v = rvec(ds, 1);
        let fire = sget(c, s, v.0, v.1).species == Species::Fire;
        if fire && once(ds, 2, 50) {
            seq![200, 2000, 50]
        } else {
            seq![200, 2000] + draw_if(fire, 50) + liquid_flow_draws(c, s, cell, 3, true, ds, if fire { 3 } else { 2 })
        }
    }
}

/// The bounds of the draws blood makes (see `blood_rule`).
pub open spec fn blood_draws(c: Ctx, s: Scene, cell: Cell, ds: Draws) -> Seq<int> {
    let v = rvec(ds, 0);
    let nbr = sget(c, s, v.0, v.1).species;
    if nbr == Species::Fire || nbr == Species::Lava {
        seq![2000]
    } else if once(ds, 1, 150) {
        seq![2000, 150]
    } else {
        seq![2000, 150] + liquid_flow_draws(c, s, cell, 1, false, ds, 2)
    }
}

/// The bounds of the draws honey makes (see `honey_rule`).
pub open spec fn honey_draws(c: Ctx, s: Scene, cell: Cell, ds: Draws) -> Seq<int> {
    let v = rvec(ds, 0);
    let nbr = sget(c, s, v.0, v.1).species;
    if nbr == Species::Fire || nbr == Species::Lava {
        seq![2000]
    } else if nbr == Species::Ant && once(ds, 1, 20) {
        seq![2000, 20]
    } else {
        seq![2000] + draw_if(nbr == Species::Ant, 20) + liquid_flow_draws(c, s, cell, 5, true, ds, if nbr
            == Species::Ant { 2 } else { 1 })
    }
}

/// The bounds of the draws milk makes (see `milk_rule`).
pub open spec fn milk_draws(c: Ctx, s: Scene, cell: Cell, ds: Draws) -> Seq<int> {
    let v = rvec(ds, 0);
    let nbr = sget(c, s, v.0, v.1).species;
    if nbr == Species::Acid || nbr == Species::Fire || nbr == Species::Lava {
        seq![2000]
    } else {
        seq![2000] + liquid_flow_draws(c, s, cell, 1, false, ds, 1)
    }
}

/// The bounds of the draws poison makes (see `poison_rule`).
pub open spec fn poison_draws(c: Ctx, s: Scene, cell: Cell, ds: Draws) -> Seq<int> {
    let v = rvec(ds, 0);
    let s1 = if poisonable(sget(c, s, v.0, v.1).species) { sset(c, s, v.0, v.1, Cell::empty()) } else { s };
    seq![2000] + liquid_flow_draws(c, s1, cell, 1, false, ds, 1)
}

/// The bounds of the draws mercury makes (see `mercury_rule`).
pub open spec fn mercury_draws(c: Ctx, s: Scene, cell: Cell, ds: Draws) -> Seq<int> {
    let v = rvec(ds, 0);
    let s1 = if sget(c, s, v.0, v.1).species == Species::Gold { sset(c, s, v.0, v.1, Cell::empty()) } else { s };
    seq![2000] + liquid_flow_draws(c, s1, cell, 1, true, ds, 1)
}

/// The bounds of the draws alcohol makes (see `alcohol_rule`).
pub open spec fn alcohol_draws(c: Ctx, s: Scene, cell: Cell, ds: Draws) -> Seq<int> {
    let v = rvec(ds, 0);
    let nbr = sget(c, s, v.0, v.1).species;
    if nbr == Species::Fire || nbr == Species::Lava {
        seq![2000]
    } else if once(ds, 1, 100) {
        seq![2000, 100]
    } else {
        seq![2000, 100] + liquid_flow_draws(c, s, cell, 1, false, ds, 2)
    }
}

/// The bounds of the draws syrup makes (see `syrup_rule`).
pub open spec fn syrup_draws(c: Ctx, s: Scene, cell: Cell, ds: Draws) -> Seq<int> {
    let v = rvec(ds, 0);
    if sget(c, s, v.0, v.1).species == Species::Fire {
        seq![2000]
    } else {
        seq![2000] + liquid_flow_draws(c, s, cell, 4, true, ds, 1)
    }
}

/// The flow of a liquid (see `liquid_flow`), ending the turn.
#[verifier::rlimit(100)]
#[verifier::spinoff_prover]
fn liquid_flow_step(cell: Cell, api: &mut SandApi, viscosity: i32, heavier_than_water: bool, Ghost(start): Ghost<SandApi>)
    requires
        old(api).continues(start),
        0 < viscosity <= i32::MAX / 2,
    ensures
        final(api).continues(*old(api)),
        final(api).scene() == liquid_flow(
            old(api).ctx(),
            old(api).scene(),
            cell,
            viscosity,
            heavier_than_water,
            final(api).new_draws(start),
            old(api).draws().len() - start.draws().len(),
        ),
        bounds(final(api).new_draws(start)) == bounds(old(api).new_draws(start)) + liquid_flow_draws(old(api).ctx(), old(api).scene(), cell, viscosity, heavier_than_water, final(api).new_draws(start), old(api).draws().len() - start.draws().len()),
{
    let dx = api.rand_dir();
    let below = api.get(0, 1);
    let dx1 = api.get(dx, 1);
    let sinks = heavier_than_water;
    if below.species == Species::Empty {
        api.set(0, 0, below);
        let mut ra = cell.ra;
        if api.once_in(20) {
            ra = 100 + api.rand_int(50) as u8;
        }
        api.set(0, 1, Cell { ra, ..cell });
        return;
    } else if !sinks && below.species == Species::Water {
        api.set(0, 0, cell);
        return;
    } else if sinks && (below.species == Species::Water || below.species == Species::Oil) {
        api.set(0, 0, below);
        api.set(0, 1, cell);
        return;
    } else if dx1.species == Species::Empty && api.once_in(viscosity) {
        api.set(0, 0, dx1);
        api.set(dx, 1, cell);
        return;
    } else if api.get(-dx, 1).species == Species::Empty && api.once_in(viscosity) {
        api.set(0, 0, Cell::empty());
        api.set(-dx, 1, cell);
        return;
    }
    if api.get(dx, 0).species == Species::Empty && api.once_in(viscosity * 2) {
        api.set(0, 0, Cell::empty());
        api.set(dx, 0, cell);
    } else if api.get(-dx, 0).species == Species::Empty && api.once_in(viscosity * 2) {
        api.set(0, 0, Cell::empty());
        api.set(-dx, 0, cell);
    } else {
        api.set(0, 0, cell);
    }
}

/// One turn of mud (see `mud_rule`).
pub fn update_mud(cell: Cell, api: &mut SandApi)
    requires
        old(api).wf(),
    ensures
        final(api).continues(*old(api)),
        final(api).scene() == mud_rule(old(api).ctx(), old(api).scene(), cell, final(api).new_draws(*old(api))),
        bounds(final(api).new_draws(*old(api))) == mud_draws(old(api).ctx(), old(api).scene(), cell, final(api).new_draws(*old(api))),
{
    if api.once_in(200) {
        api.set(0, 0, Cell { species: Species::Soil, ra: cell.ra, rb: 0, clock: 0 });
        return;
    }
    let (dx, dy) = api.rand_vec();
    let nbr = api.get(dx, dy);
    if nbr.species == Species::Fire && api.once_in(50) {
        api.set(0, 0, Cell { species: Species::Soil, ra: 50, rb: 0, clock: 0 });
        return;
    }
    liquid_flow_step(cell, api, 3, true, Ghost(*old(api)));
}

/// One turn of blood (see `blood_rule`).
pub fn update_blood(cell: Cell, api: &mut SandApi)
    requires
        old(api).wf(),
    ensures
        final(api).continues(*old(api)),
        final(api).scene() == blood_rule(old(api).ctx(), old(api).scene(), cell, final(api).new_draws(*old(api))),
        bounds(final(api).new_draws(*old(api))) == blood_draws(old(api).ctx(), old(api).scene(), cell, final(api).new_draws(*old(api))),
{
    let (dx, dy) = api.rand_vec();
    let nbr = api.get(dx, dy);
    if nbr.species == Species::Fire || nbr.species == Species::Lava {
        api.set(0, 0, Cell { species: Species::Fire, ra: 40, rb: 0, clock: 0 });
        return;
    }
    if api.once_in(150) {
        api.set(0, 0, Cell::empty());
        return;
    }
    liquid_flow_step(cell, api, 1, false, Ghost(*old(api)));
}

/// One turn of honey (see `honey_rule`).
pub fn update_honey(cell: Cell, api: &mut SandApi)
    requires
        old(api).wf(),
    ensures
        final(api).continues(*old(api)),
        final(api).scene() == honey_rule(old(api).ctx(), old(api).scene(), cell, final(api).new_draws(*old(api))),
        bounds(final(api).new_draws(*old(api))) == honey_draws(old(api).ctx(), old(api).scene(), cell, final(api).new_draws(*old(api))),
{
    let (dx, dy) = api.rand_vec();
    let nbr = api.get(dx, dy);
    if nbr.species == Species::Fire || nbr.species == Species::Lava {
        api.set(0, 0, Cell { species: Species::Fire, ra: 150, rb: 0, clock: 0 });
        return;
    }
    if nbr.species == Species::Ant && api.once_in(20) {
        api.set(0, 0, Cell::empty());
        return;
    }
    liquid_flow_step(cell, api, 5, true, Ghost(*old(api)));
}

/// One turn of milk (see `milk_rule`).
pub fn update_milk(cell: Cell, api: &mut SandApi)
    requires
        old(api).wf(),
    ensures
        final(api).continues(*old(api)),
        final(api).scene() == milk_rule(old(api).ctx(), old(api).scene(), cell, final(api).new_draws(*old(api))),
        bounds(final(api).new_draws(*old(api))) == milk_draws(old(api).ctx(), old(api).scene(), cell, final(api).new_draws(*old(api))),
{
    let (dx, dy) = api.rand_vec();
    let nbr = api.get(dx, dy);
    if nbr.species == Species::Acid {
        api.set(0, 0, Cell::empty());
        api.set(dx, dy, Cell::empty());
        return;
    }
    if nbr.species == Species::Fire || nbr.species == Species::Lava {
        api.set(0, 0, Cell { species: Species::Fire, ra: 30, rb: 0, clock: 0 });
        return;
    }
    liquid_flow_step(cell, api, 1, false, Ghost(*old(api)));
}

/// One turn of poison (see `poison_rule`).
pub fn update_poison(cell: Cell, api: &mut SandApi)
    requires
        old(api).wf(),
    ensures
        final(api).continues(*old(api)),
        final(api).scene() == poison_rule(old(api).ctx(), old(api).scene(), cell, final(api).new_draws(*old(api))),
        bounds(final(api).new_draws(*old(api))) == poison_draws(old(api).ctx(), old(api).scene(), cell, final(api).new_draws(*old(api))),
{
    let (dx, dy) = api.rand_vec();
    let nbr = api.get(dx, dy);
    if matches!(nbr.species,
        Species::Plant | Species::Wood | Species::Fungus | Species::Mite
        | Species::Seed | Species::Moss | Species::Grass | Species::Flower
        | Species::Leaf | Species::Vine | Species::Mushroom | Species::Fruit
        | Species::Worm | Species::Ant | Species::Spider | Species::Bee
        | Species::Butterfly | Species::Fish) {
        api.set(dx, dy, Cell::empty());
    }
    liquid_flow_step(cell, api, 1, false, Ghost(*old(api)));
}

/// One turn of mercury (see `mercury_rule`).
pub fn update_mercury(cell: Cell, api: &mut SandApi)
    requires
        old(api).wf(),
    ensures
        final(api).continues(*old(api)),
        final(api).scene() == mercury_rule(old(api).ctx(), old(api).scene(), cell, final(api).new_draws(*old(api))),
        bounds(final(api).new_draws(*old(api))) == mercury_draws(old(api).ctx(), old(api).scene(), cell, final(api).new_draws(*old(api))),
{
    let (dx, dy) = api.rand_vec();
    let nbr = api.get(dx, dy);
    if matches!(nbr.species, Species::Gold) {
        api.set(dx, dy, Cell::empty());
    }
    liquid_flow_step(cell, api, 1, true, Ghost(*old(api)));
}

/// One turn of alcohol (see `alcohol_rule`).
pub fn update_alcohol(cell: Cell, api: &mut SandApi)
    requires
        old(api).wf(),
    ensures
        final(api).continues(*old(api)),
        final(api).scene() == alcohol_rule(old(api).ctx(), old(api).scene(), cell, final(api).new_draws(*old(api))),
        bounds(final(api).new_draws(*old(api))) == alcohol_draws(old(api).ctx(), old(api).scene(), cell, final(api).new_draws(*old(api))),
{
    let (dx, dy) = api.rand_vec();
    let nbr = api.get(dx, dy);
    if nbr.species == Species::Fire || nbr.species == Species::Lava {
        api.set(0, 0, Cell { species: Species::Fire, ra: 200, rb: 0, clock: 0 });
        api.set_fluid(Wind { dx: 0, dy: 0, pressure: 60, density: 60 });
        return;
    }
    if api.once_in(100) {
        api.set(0, 0, Cell { species: Species::Gas, ra: 100, rb: 0, clock: 0 });
        return;
    }
    liquid_flow_step(cell, api, 1, false, Ghost(*old(api)));
}

/// One turn of syrup (see `syrup_rule`).
pub fn update_syrup(cell: Cell, api: &mut SandApi)
    requires
        old(api).wf(),
    ensures
        final(api).continues(*old(api)),
        final(api).scene() == syrup_rule(old(api).ctx(), old(api).scene(), cell, final(api).new_draws(*old(api))),
        bounds(final(api).new_draws(*old(api))) == syrup_draws(old(api).ctx(), old(api).scene(), cell, final(api).new_draws(*old(api))),
{
    let (dx, dy) = api.rand_vec();
    let nbr = api.get(dx, dy);
    if nbr.species == Species::Fire {
        api.set(0, 0, Cell { species: Species::Fire, ra: 100, rb: 0, clock: 0 });
        return;
    }
    liquid_flow_step(cell, api, 4, true, Ghost(*old(api)));
}

} // verus!
