//! More gases: steam, smoke, helium, chlorine, oxygen, hydrogen, plasma
//! and methane.

use super::Species;
use crate::cell::{Cell, Wind};
use crate::world::{
    bounds, draw_if, moveto, once, rvec, sadd, sget, sset, sset_fluid, stay, Ctx, Draws, SandApi, Scene,
};
use vstd::prelude::*;

verus! {

/// The drift of a gas, its draws starting at `k`: into empty space in a
/// random direction, always when that direction is level or up, one time
/// in 3 when it is down (else it stays); next to gas it merges (the gas
/// cell does nothing) one time in 2; otherwise it stays. A `flammable`
/// gas then catches fire (`ra = 200`, blast burn) when fire lies in a
/// random direction.
pub open spec fn gas_rise(c: Ctx, s: Scene, cell: Cell, flammable: bool, ds: Draws, k: int) -> Scene {
    let v = rvec(ds, k);
    let nbr = sget(c, s, v.0, v.1).species;
    let go_up = v.1 == -1 || v.1 == 0;
    let s1 = if nbr == Species::Empty {
        if go_up || once(ds, k + 1, 3) {
            moveto(c, s, v.0, v.1, cell)
        } else {
            stay(c, s, cell)
        }
    } else if nbr == Species::Gas && once(ds, k + 1, 2) {
        s
    } else {
        stay(c, s, cell)
    };
    let k1: int = if (nbr == Species::Empty && !go_up) || nbr == Species::Gas { k + 2 } else { k + 1 };
    if flammable {
        let sv = rvec(ds, k1);
        if sget(c, s1, sv.0, sv.1).species == Species::Fire {
            sset_fluid(
                c,
                stay(c, s1, Cell { species: Species::Fire, ra: 200, rb: 0, clock: 0 }),
                Wind { dx: 0, dy: 0, pressure: 80, density: 60 },
            )
        } else {
            s1
        }
    } else {
        s1
    }
}

/// Steam: condenses into water (`ra = 100`) next to ice or snow in a random
/// direction, or one time in 200; otherwise warms its burn and rises as a
/// gas.
pub open spec fn steam_rule(c: Ctx, s: Scene, cell: Cell, ds: Draws) -> Scene {
    let v = rvec(ds, 0);
    let nbr = sget(c, s, v.0, v.1).species;
    let water = Cell { species: Species::Water, ra: 100, rb: 0, clock: 0 };
    if nbr == Species::Ice || nbr == Species::Snow {
        stay(c, s, water)
    } else if once(ds, 1, 200) {
        stay(c, s, water)
    } else {
        gas_rise(c, sset_fluid(c, s, Wind { dx: 0, dy: 10, pressure: 0, density: 20 }), cell, false, ds, 2)
    }
}

/// Smoke: ages (`rb` up by 1) and vanishes past 120; otherwise warms its
/// burn and drifts into empty space in a random direction when it is level
/// or up, or one time in 4 when down; else stays (aged).
pub open spec fn smoke_rule(c: Ctx, s: Scene, cell: Cell, ds: Draws) -> Scene {
    let rb = sadd(cell.rb, 1);
    if rb > 120 {
        stay(c, s, Cell::empty())
    } else {
        let s1 = sset_fluid(c, s, Wind { dx: 0, dy: 20, pressure: 0, density: 30 });
        let v = rvec(ds, 0);
        if sget(c, s1, v.0, v.1).species == Species::Empty && (v.1 == -1 || v.1 == 0 || once(ds, 1, 4)) {
            moveto(c, s1, v.0, v.1, Cell { rb, ..cell })
        } else {
            stay(c, s1, Cell { rb, ..cell })
        }
    }
}

/// Helium: when the random direction points up and that upper cell is
/// empty it rises there; otherwise it drifts as a gas.
pub open spec fn helium_rule(c: Ctx, s: Scene, cell: Cell, ds: Draws) -> Scene {
    let v = rvec(ds, 0);
    if v.1 == -1 && sget(c, s, v.0, -1).species == Species::Empty {
        moveto(c, s, v.0, -1, cell)
    } else {
        gas_rise(c, s, cell, false, ds, 1)
    }
}

/// The living things chlorine kills.
pub open spec fn chlorine_kills(t: Species) -> bool {
    t == Species::Plant || t == Species::Wood || t == Species::Fungus || t == Species::Mite || t == Species::Seed
        || t == Species::Grass || t == Species::Flower || t == Species::Moss || t == Species::Leaf || t
        == Species::Vine || t == Species::Mushroom || t == Species::Fruit || t == Species::Ant || t
        == Species::Spider || t == Species::Bee || t == Species::Butterfly || t == Species::Worm || t
        == Species::Fish || t == Species::Bird || t == Species::Snake
}

/// Chlorine: kills a living thing in a random direction; sinks into empty
/// space below one time in 2; otherwise drifts as a gas.
pub open spec fn chlorine_rule(c: Ctx, s: Scene, cell: Cell, ds: Draws) -> Scene {
    let v = rvec(ds, 0);
    let s1 = if chlorine_kills(sget(c, s, v.0, v.1).species) { sset(c, s, v.0, v.1, Cell::empty()) } else { s };
    let low = sget(c, s1, 0, 1).species == Species::Empty;
    if low && once(ds, 1, 2) {
        moveto(c, s1, 0, 1, cell)
    } else {
        gas_rise(c, s1, cell, false, ds, if low { 2 } else { 1 })
    }
}

/// Oxygen: next to fire in a random direction it feeds it (a burn of its
/// own) and is used up one time in 5; otherwise it drifts as a gas.
pub open spec fn oxygen_rule(c: Ctx, s: Scene, cell: Cell, ds: Draws) -> Scene {
    let v = rvec(ds, 0);
    let fire = sget(c, s, v.0, v.1).species == Species::Fire;
    let s1 = if fire { sset_fluid(c, s, Wind { dx: 0, dy: 0, pressure: 40, density: 80 }) } else { s };
    if fire && once(ds, 1, 5) {
        stay(c, s1, Cell::empty())
    } else {
        gas_rise(c, s1, cell, false, ds, if fire { 2 } else { 1 })
    }
}

/// Hydrogen: explodes into fire (`ra = 250`, blast burn) next to fire, lava
/// or lightning in a random direction; rises into empty space above;
/// otherwise drifts as a flammable gas.
pub open spec fn hydrogen_rule(c: Ctx, s: Scene, cell: Cell, ds: Draws) -> Scene {
    let v = rvec(ds, 0);
    let nbr = sget(c, s, v.0, v.1).species;
    if nbr == Species::Fire || nbr == Species::Lava || nbr == Species::Lightning {
        sset_fluid(
            c,
            stay(c, s, Cell { species: Species::Fire, ra: 250, rb: 0, clock: 0 }),
            Wind { dx: 0, dy: 0, pressure: 150, density: 100 },
        )
    } else {
        let up = sget(c, s, 0, -1).species == Species::Empty;
        if up && once(ds, 1, 1) {
            moveto(c, s, 0, -1, cell)
        } else {
            gas_rise(c, s, cell, true, ds, if up { 2 } else { 1 })
        }
    }
}

/// Plasma: heats its burn; sets fire (`ra = 200`) to anything in a random
/// direction but empty space, wall, plasma, void or a shield; dies one time in 40;
/// moves into empty space in another random direction one time in 3;
/// otherwise drifts as a gas.
pub open spec fn plasma_rule(c: Ctx, s: Scene, cell: Cell, ds: Draws) -> Scene {
    let s0 = sset_fluid(c, s, Wind { dx: 0, dy: 100, pressure: 50, density: 200 });
    let v = rvec(ds, 0);
    let nbr = sget(c, s0, v.0, v.1).species;
    let s1 = if nbr != Species::Empty && nbr != Species::Wall && nbr != Species::PlasmaGas && nbr != Species::Void
        && nbr != Species::Shield {
        sset(c, s0, v.0, v.1, Cell { species: Species::Fire, ra: 200, rb: 0, clock: 0 })
    } else {
        s0
    };
    if once(ds, 1, 40) {
        stay(c, s1, Cell::empty())
    } else {
        let m = rvec(ds, 2);
        let room = sget(c, s1, m.0, m.1).species == Species::Empty;
        if room && once(ds, 3, 3) {
            moveto(c, s1, m.0, m.1, cell)
        } else {
            gas_rise(c, s1, cell, false, ds, if room { 4 } else { 3 })
        }
    }
}

/// Methane: explodes into fire (`ra = 220`, blast burn) next to fire or
/// lava in a random direction; otherwise drifts as a flammable gas.
pub open spec fn methane_rule(c: Ctx, s: Scene, cell: Cell, ds: Draws) -> Scene {
    let v = rvec(ds, 0);
    let nbr = sget(c, s, v.0, v.1).species;
    if nbr == Species::Fire || nbr == Species::Lava {
        sset_fluid(
            c,
            stay(c, s, Cell { species: Species::Fire, ra: 220, rb: 0, clock: 0 }),
            Wind { dx: 0, dy: 0, pressure: 100, density: 70 },
        )
    } else {
        gas_rise(c, s, cell, true, ds, 1)
    }
}

/// The bounds of the draws of `gas_rise` from `k`: a `rand_vec`; a
/// `once_in(3)` for empty space below, a `once_in(2)` next to gas; and a
/// `rand_vec` for a flammable gas.
pub open spec fn gas_rise_draws(c: Ctx, s: Scene, cell: Cell, flammable: bool, ds: Draws, k: int) -> Seq<int> {
    let v = rvec(ds, k);
    let nbr = sget(c, s, v.0, v.1).species;
    let go_up = v.1 == -1 || v.1 == 0;
    seq![2000] + draw_if(nbr == Species::Empty && !go_up, 3) + draw_if(nbr == Species::Gas, 2) + draw_if(flammable, 2000)
}

/// The bounds of the draws steam makes (see `steam_rule`).
pub open spec fn steam_draws(c: Ctx, s: Scene, cell: Cell, ds: Draws) -> Seq<int> {
    let v = rvec(ds, 0);
    let nbr = sget(c, s, v.0, v.1).species;
    if nbr == Species::Ice || nbr == Species::Snow {
        seq![2000]
    } else if once(ds, 1, 200) {
        seq![2000, 200]
    } else {
        seq![2000, 200] + gas_rise_draws(c, sset_fluid(c, s, Wind { dx: 0, dy: 10, pressure: 0, density: 20 }), cell, false, ds, 2)
    }
}

/// The bounds of the draws smoke makes (see `smoke_rule`).
pub open spec fn smoke_draws(c: Ctx, s: Scene, cell: Cell, ds: Draws) -> Seq<int> {
    if sadd(cell.rb, 1) > 120 {
        seq![]
    } else {
        let s1 = sset_fluid(c, s, Wind { dx: 0, dy: 20, pressure: 0, density: 30 });
        let v = rvec(ds, 0);
        seq![2000] + draw_if(sget(c, s1, v.0, v.1).species == Species::Empty && !(v.1 == -1 || v.1 == 0), 4)
    }
}

/// The bounds of the draws helium makes (see `helium_rule`).
pub open spec fn helium_draws(c: Ctx, s: Scene, cell: Cell, ds: Draws) -> Seq<int> {
    let v = rvec(ds, 0);
    if v.1 == -1 && sget(c, s, v.0, -1).species == Species::Empty {
        seq![2000]
    } else {
        seq![2000] + gas_rise_draws(c, s, cell, false, ds, 1)
    }
}

/// The bounds of the draws chlorine makes (see `chlorine_rule`).
pub open spec fn chlorine_draws(c: Ctx, s: Scene, cell: Cell, ds: Draws) -> Seq<int> {
    let v = rvec(ds, 0);
    let s1 = if chlorine_kills(sget(c, s, v.0, v.1).species) { sset(c, s, v.0, v.1, Cell::empty()) } else { s };
    let low = sget(c, s1, 0, 1).species == Species::Empty;
    if low && once(ds, 1, 2) {
        seq![2000, 2]
    } else {
        seq![2000] + draw_if(low, 2) + gas_rise_draws(c, s1, cell, false, ds, if low { 2 } else { 1 })
    }
}

/// The bounds of the draws oxygen makes (see `oxygen_rule`).
pub open spec fn oxygen_draws(c: Ctx, s: Scene, cell: Cell, ds: Draws) -> Seq<int> {
    let v = rvec(ds, 0);
    let fire = sget(c, s, v.0, v.1).species == Species::Fire;
    let s1 = if fire { sset_fluid(c, s, Wind { dx: 0, dy: 0, pressure: 40, density: 80 }) } else { s };
    if fire && once(ds, 1, 5) {
        seq![2000, 5]
    } else {
        seq![2000] + draw_if(fire, 5) + gas_rise_draws(c, s1, cell, false, ds, if fire { 2 } else { 1 })
    }
}

/// The bounds of the draws hydrogen makes (see `hydrogen_rule`).
pub open spec fn hydrogen_draws(c: Ctx, s: Scene, cell: Cell, ds: Draws) -> Seq<int> {
    let v = rvec(ds, 0);
    let nbr = sget(c, s, v.0, v.1).species;
    if nbr == Species::Fire || nbr == Species::Lava || nbr == Species::Lightning {
        seq![2000]
    } else {
        let up = sget(c, s, 0, -1).species == Species::Empty;
        if up && once(ds, 1, 1) {
            seq![2000, 1]
        } else {
            seq![2000] + draw_if(up, 1) + gas_rise_draws(c, s, cell, true, ds, if up { 2 } else { 1 })
        }
    }
}

/// The bounds of the draws plasma makes (see `plasma_rule`).
pub open spec fn plasma_draws(c: Ctx, s: Scene, cell: Cell, ds: Draws) -> Seq<int> {
    let s0 = sset_fluid(c, s, Wind { dx: 0, dy: 100, pressure: 50, density: 200 });
    let v = rvec(ds, 0);
    let nbr = sget(c, s0, v.0, v.1).species;
    let s1 = if nbr != Species::Empty && nbr != Species::Wall && nbr != Species::PlasmaGas && nbr != Species::Void
        && nbr != Species::Shield {
        sset(c, s0, v.0, v.1, Cell { species: Species::Fire, ra: 200, rb: 0, clock: 0 })
    } else {
        s0
    };
    if once(ds, 1, 40) {
        seq![2000, 40]
    } else {
        let m = rvec(ds, 2);
        let room = sget(c, s1, m.0, m.1).species == Species::Empty;
        if room && once(ds, 3, 3) {
            seq![2000, 40, 2000, 3]
        } else {
            seq![2000, 40, 2000] + draw_if(room, 3) + gas_rise_draws(c, s1, cell, false, ds, if room { 4 } else { 3 })
        }
    }
}

/// The bounds of the draws methane makes (see `methane_rule`).
pub open spec fn methane_draws(c: Ctx, s: Scene, cell: Cell, ds: Draws) -> Seq<int> {
    let v = rvec(ds, 0);
    let nbr = sget(c, s, v.0, v.1).species;
    if nbr == Species::Fire || nbr == Species::Lava {
        seq![2000]
    } else {
        seq![2000] + gas_rise_draws(c, s, cell, true, ds, 1)
    }
}

/// The drift of a gas (see `gas_rise`), ending the turn; `density` is not
/// used by the rule.
fn gas_rise_step(cell: Cell, api: &mut SandApi, density: u8, flammable: bool, Ghost(start): Ghost<SandApi>)
    requires
        old(api).continues(start),
    ensures
        final(api).continues(*old(api)),
        final(api).scene() == gas_rise(
            old(api).ctx(),
            old(api).scene(),
            cell,
            flammable,
            final(api).new_draws(start),
            old(api).draws().len() - start.draws().len(),
        ),
        bounds(final(api).new_draws(start)) == bounds(old(api).new_draws(start)) + gas_rise_draws(old(api).ctx(), old(api).scene(), cell, flammable, final(api).new_draws(start), old(api).draws().len() - start.draws().len()),
{
    let (dx, dy) = api.rand_vec();
    let nbr = api.get(dx, dy);
    if nbr.species == Species::Empty {
        let go_up = dy == -1 || dy == 0;
        if go_up {
            api.set(0, 0, Cell::empty());
            api.set(dx, dy, cell);
        } else if api.once_in(3) {
            api.set(0, 0, Cell::empty());
            api.set(dx, dy, cell);
        } else {
            api.set(0, 0, cell);
        }
    } else if nbr.species == Species::Gas && api.once_in(2) {
    } else {
        api.set(0, 0, cell);
    }
    if flammable {
        let (sx, sy) = api.rand_vec();
        let snbr = api.get(sx, sy);
        if snbr.species == Species::Fire {
            api.set(0, 0, Cell { species: Species::Fire, ra: 200, rb: 0, clock: 0 });
            api.set_fluid(Wind { dx: 0, dy: 0, pressure: 80, density: 60 });
        }
    }
}

/// One turn of steam (see `steam_rule`).
pub fn update_steam(cell: Cell, api: &mut SandApi)
    requires
        old(api).wf(),
    ensures
        final(api).continues(*old(api)),
        final(api).scene() == steam_rule(old(api).ctx(), old(api).scene(), cell, final(api).new_draws(*old(api))),
        bounds(final(api).new_draws(*old(api))) == steam_draws(old(api).ctx(), old(api).scene(), cell, final(api).new_draws(*old(api))),
{
    let (dx, dy) = api.rand_vec();
    let nbr = api.get(dx, dy);
    if nbr.species == Species::Ice || nbr.species == Species::Snow {
        api.set(0, 0, Cell { species: Species::Water, ra: 100, rb: 0, clock: 0 });
        return;
    }
    if api.once_in(200) {
        api.set(0, 0, Cell { species: Species::Water, ra: 100, rb: 0, clock: 0 });
        return;
    }
    api.set_fluid(Wind { dx: 0, dy: 10, pressure: 0, density: 20 });
    gas_rise_step(cell, api, 40, false, Ghost(*old(api)));
}

/// One turn of smoke (see `smoke_rule`).
pub fn update_smoke(cell: Cell, api: &mut SandApi)
    requires
        old(api).wf(),
    ensures
        final(api).continues(*old(api)),
        final(api).scene() == smoke_rule(old(api).ctx(), old(api).scene(), cell, final(api).new_draws(*old(api))),
        bounds(final(api).new_draws(*old(api))) == smoke_draws(old(api).ctx(), old(api).scene(), cell, final(api).new_draws(*old(api))),
{
    let rb = cell.rb.saturating_add(1);
    if rb > 120 {
        api.set(0, 0, Cell::empty());
        return;
    }
    api.set_fluid(Wind { dx: 0, dy: 20, pressure: 0, density: 30 });
    let (dx, dy) = api.rand_vec();
    let nbr = api.get(dx, dy);
    if nbr.species == Species::Empty && (dy == -1 || dy == 0 || api.once_in(4)) {
        api.set(0, 0, Cell::empty());
        api.set(dx, dy, Cell { rb, ..cell });
    } else {
        api.set(0, 0, Cell { rb, ..cell });
    }
}

/// One turn of helium (see `helium_rule`).
pub fn update_helium(cell: Cell, api: &mut SandApi)
    requires
        old(api).wf(),
    ensures
        final(api).continues(*old(api)),
        final(api).scene() == helium_rule(old(api).ctx(), old(api).scene(), cell, final(api).new_draws(*old(api))),
        bounds(final(api).new_draws(*old(api))) == helium_draws(old(api).ctx(), old(api).scene(), cell, final(api).new_draws(*old(api))),
{
    let (dx, dy) = api.rand_vec();
    if dy == -1 {
        let nbr = api.get(dx, -1);
        if nbr.species == Species::Empty {
            api.set(0, 0, Cell::empty());
            api.set(dx, -1, cell);
            return;
        }
    }
    gas_rise_step(cell, api, 10, false, Ghost(*old(api)));
}

/// One turn of chlorine (see `chlorine_rule`).
pub fn update_chlorine(cell: Cell, api: &mut SandApi)
    requires
        old(api).wf(),
    ensures
        final(api).continues(*old(api)),
        final(api).scene() == chlorine_rule(old(api).ctx(), old(api).scene(), cell, final(api).new_draws(*old(api))),
        bounds(final(api).new_draws(*old(api))) == chlorine_draws(old(api).ctx(), old(api).scene(), cell, final(api).new_draws(*old(api))),
{
    let (dx, dy) = api.rand_vec();
    let nbr = api.get(dx, dy);
    if matches!(nbr.species,
        Species::Plant | Species::Wood | Species::Fungus | Species::Mite
        | Species::Seed | Species::Grass | Species::Flower | Species::Moss
        | Species::Leaf | Species::Vine | Species::Mushroom | Species::Fruit
        | Species::Ant | Species::Spider | Species::Bee | Species::Butterfly
        | Species::Worm | Species::Fish | Species::Bird | Species::Snake) {
        api.set(dx, dy, Cell::empty());
    }
    let below = api.get(0, 1);
    if below.species == Species::Empty && api.once_in(2) {
        api.set(0, 0, Cell::empty());
        api.set(0, 1, cell);
    } else {
        gas_rise_step(cell, api, 60, false, Ghost(*old(api)));
    }
}

/// One turn of oxygen (see `oxygen_rule`).
pub fn update_oxygen(cell: Cell, api: &mut SandApi)
    requires
        old(api).wf(),
    ensures
        final(api).continues(*old(api)),
        final(api).scene() == oxygen_rule(old(api).ctx(), old(api).scene(), cell, final(api).new_draws(*old(api))),
        bounds(final(api).new_draws(*old(api))) == oxygen_draws(old(api).ctx(), old(api).scene(), cell, final(api).new_draws(*old(api))),
{
    let (dx, dy) = api.rand_vec();
    let nbr = api.get(dx, dy);
    if nbr.species == Species::Fire {
        api.set_fluid(Wind { dx: 0, dy: 0, pressure: 40, density: 80 });
        if api.once_in(5) {
            api.set(0, 0, Cell::empty());
            return;
        }
    }
    gas_rise_step(cell, api, 30, false, Ghost(*old(api)));
}

/// One turn of hydrogen (see `hydrogen_rule`).
pub fn update_hydrogen(cell: Cell, api: &mut SandApi)
    requires
        old(api).wf(),
    ensures
        final(api).continues(*old(api)),
        final(api).scene() == hydrogen_rule(old(api).ctx(), old(api).scene(), cell, final(api).new_draws(*old(api))),
        bounds(final(api).new_draws(*old(api))) == hydrogen_draws(old(api).ctx(), old(api).scene(), cell, final(api).new_draws(*old(api))),
{
    let (dx, dy) = api.rand_vec();
    let nbr = api.get(dx, dy);
    if nbr.species == Species::Fire || nbr.species == Species::Lava || nbr.species == Species::Lightning {
        api.set(0, 0, Cell { species: Species::Fire, ra: 250, rb: 0, clock: 0 });
        api.set_fluid(Wind { dx: 0, dy: 0, pressure: 150, density: 100 });
        return;
    }
    if api.get(0, -1).species == Species::Empty && api.once_in(1) {
        api.set(0, 0, Cell::empty());
        api.set(0, -1, cell);
    } else {
        gas_rise_step(cell, api, 5, true, Ghost(*old(api)));
    }
}

/// One turn of plasma (see `plasma_rule`).
#[verifier::rlimit(60)]
#[verifier::spinoff_prover]
pub fn update_plasma(cell: Cell, api: &mut SandApi)
    requires
        old(api).wf(),
    ensures
        final(api).continues(*old(api)),
        final(api).scene() == plasma_rule(old(api).ctx(), old(api).scene(), cell, final(api).new_draws(*old(api))),
        bounds(final(api).new_draws(*old(api))) == plasma_draws(old(api).ctx(), old(api).scene(), cell, final(api).new_draws(*old(api))),
{
    api.set_fluid(Wind { dx: 0, dy: 100, pressure: 50, density: 200 });
    let (dx, dy) = api.rand_vec();
    let nbr = api.get(dx, dy);
    if nbr.species != Species::Empty && nbr.species != Species::Wall && nbr.species != Species::PlasmaGas
        && nbr.species != Species::Void && nbr.species != Species::Shield {
        api.set(dx, dy, Cell { species: Species::Fire, ra: 200, rb: 0, clock: 0 });
    }
    if api.once_in(40) {
        api.set(0, 0, Cell::empty());
        return;
    }
    let (mdx, mdy) = api.rand_vec();
    if api.get(mdx, mdy).species == Species::Empty && api.once_in(3) {
        api.set(0, 0, Cell::empty());
        api.set(mdx, mdy, cell);
    } else {
        gas_rise_step(cell, api, 15, false, Ghost(*old(api)));
    }
}

/// One turn of methane (see `methane_rule`).
pub fn update_methane(cell: Cell, api: &mut SandApi)
    requires
        old(api).wf(),
    ensures
        final(api).continues(*old(api)),
        final(api).scene() == methane_rule(old(api).ctx(), old(api).scene(), cell, final(api).new_draws(*old(api))),
        bounds(final(api).new_draws(*old(api))) == methane_draws(old(api).ctx(), old(api).scene(), cell, final(api).new_draws(*old(api))),
{
    let (dx, dy) = api.rand_vec();
    let nbr = api.get(dx, dy);
    if nbr.species == Species::Fire || nbr.species == Species::Lava {
        api.set(0, 0, Cell { species: Species::Fire, ra: 220, rb: 0, clock: 0 });
        api.set_fluid(Wind { dx: 0, dy: 0, pressure: 100, density: 70 });
        return;
    }
    gas_rise_step(cell, api, 25, true, Ghost(*old(api)));
}

} // verus!
