//! Magical elements: portal, teleporter, antigravity, magnet, lightning,
//! void, chaos, energy, shield and mirror.

use super::Species;
use crate::cell::{Cell, Wind};
use crate::kinds::{fits, kinds, lemma_trade_kinds};
use crate::world::{
    bounds, draw_if, draw, fresh_cell, moveto, once, rdir, rvec, rvec8, sadd, sget, sset, sset_fluid, ssub, stay, Ctx, Draws,
    SandApi, Scene,
};
use vstd::prelude::*;

verus! {

/// `v` clamped into -2..=2.
pub open spec fn clamp2(v: int) -> int {
    if v < -2 {
        -2
    } else if v > 2 {
        2
    } else {
        v
    }
}

/// Portal: anything but empty space, a wall, a portal or the void at a
/// random step is sent towards a random grid position, as far as two steps
/// reach, when that target is empty.
pub open spec fn portal_rule(c: Ctx, s: Scene, cell: Cell, ds: Draws) -> Scene {
    let v = rvec(ds, 0);
    let nbr = sget(c, s, v.0, v.1);
    if nbr.species != Species::Empty && nbr.species != Species::Wall && nbr.species != Species::Portal
        && nbr.species != Species::Void {
        let tx = clamp2(draw(ds, 1, c.width) - c.x);
        let ty = clamp2(draw(ds, 2, c.height) - c.y);
        if sget(c, s, tx, ty).species == Species::Empty {
            sset(c, sset(c, s, tx, ty, nbr), v.0, v.1, Cell::empty())
        } else {
            s
        }
    } else {
        s
    }
}

/// Teleporter: anything but empty space, a wall or a teleporter at a
/// random step is sent to an empty random neighbour.
pub open spec fn teleporter_rule(c: Ctx, s: Scene, cell: Cell, ds: Draws) -> Scene {
    let v = rvec(ds, 0);
    let nbr = sget(c, s, v.0, v.1);
    if nbr.species != Species::Empty && nbr.species != Species::Wall && nbr.species != Species::Teleporter {
        let t = rvec8(ds, 1);
        if sget(c, s, t.0, t.1).species == Species::Empty {
            sset(c, sset(c, s, t.0, t.1, nbr), v.0, v.1, Cell::empty())
        } else {
            s
        }
    } else {
        s
    }
}

/// Antigravity: writes a strong upward burn; anything but empty space, a
/// wall or antigravity above it at a random column offset floats one step
/// further up when that step is empty.
pub open spec fn antigravity_rule(c: Ctx, s: Scene, cell: Cell, ds: Draws) -> Scene {
    let s1 = sset_fluid(c, s, Wind { dx: 0, dy: 200, pressure: 0, density: 0 });
    let adx = rdir(ds, 0);
    let nbr = sget(c, s1, adx, -1);
    if nbr.species != Species::Empty && nbr.species != Species::Wall && nbr.species != Species::Antigravity
        && sget(c, s1, adx, -2).species == Species::Empty {
        sset(c, sset(c, s1, adx, -2, nbr), adx, -1, Cell::empty())
    } else {
        s1
    }
}

/// Antigravity moves particles and never makes or destroys one: the count
/// of each species on the grid is kept.
pub proof fn lemma_antigravity_keeps_kinds(c: Ctx, s: Scene, cell: Cell, ds: Draws)
    requires
        fits(c, s),
    ensures
        kinds(antigravity_rule(c, s, cell, ds).cells) == kinds(s.cells),
{
    let s1 = sset_fluid(c, s, Wind { dx: 0, dy: 200, pressure: 0, density: 0 });
    let adx = rdir(ds, 0);
    let nbr = sget(c, s1, adx, -1);
    if nbr.species != Species::Empty && nbr.species != Species::Wall && nbr.species != Species::Antigravity
        && sget(c, s1, adx, -2).species == Species::Empty {
        lemma_trade_kinds(c, s1, adx, -2, nbr, adx, -1, Cell::empty());
    }
}

/// The metals a magnet pulls: iron, copper, steel, zinc, tin and wire.
pub open spec fn ferrous(t: Species) -> bool {
    t == Species::Iron || t == Species::Copper || t == Species::Steel || t == Species::Zinc || t
        == Species::Tin || t == Species::Wire
}

/// One step from `d` towards 0.
pub open spec fn toward(d: int) -> int {
    if d > 0 {
        d - 1
    } else if d < 0 {
        d + 1
    } else {
        0
    }
}

/// The `i`-th position a magnet looks at: column by column from two steps
/// left, each from two steps up.
pub open spec fn magnet_offset(i: int) -> (int, int) {
    (i / 5 - 2, i % 5 - 2)
}

/// One look of a magnet at its `i`-th position (see `magnet_offset`;
/// itself excluded): a metal it pulls there (see `ferrous`) moves one step
/// closer when that step is empty.
pub open spec fn magnet_look(c: Ctx, s: Scene, i: int) -> Scene {
    let d = magnet_offset(i);
    let nbr = sget(c, s, d.0, d.1);
    if (d.0 != 0 || d.1 != 0) && ferrous(nbr.species) && sget(c, s, toward(d.0), toward(d.1)).species
        == Species::Empty {
        sset(c, sset(c, s, toward(d.0), toward(d.1), nbr), d.0, d.1, Cell::empty())
    } else {
        s
    }
}

/// The first `n` looks of a magnet (see `magnet_look`).
pub open spec fn magnet_pull(c: Ctx, s: Scene, n: int) -> Scene
    decreases n,
{
    if n <= 0 {
        s
    } else {
        magnet_look(c, magnet_pull(c, s, n - 1), n - 1)
    }
}

/// Magnet: looks at every position within two steps in turn (see
/// `magnet_pull`).
pub open spec fn magnet_rule(c: Ctx, s: Scene, cell: Cell, ds: Draws) -> Scene {
    magnet_pull(c, s, 25)
}

/// Lightning: writes an intense burn; anything but empty space, a wall,
/// the void or a shield below it turns into plasma (`ra = 100`). It dies
/// out one time in 8; otherwise it strikes down into empty space below it.
pub open spec fn lightning_rule(c: Ctx, s: Scene, cell: Cell, ds: Draws) -> Scene {
    let s1 = sset_fluid(c, s, Wind { dx: 0, dy: 100, pressure: 200, density: 200 });
    let below = sget(c, s1, 0, 1).species;
    let s2 = if below != Species::Empty && below != Species::Wall && below != Species::Void && below
        != Species::Shield {
        let a = sset(c, s1, 0, 1, Cell { species: Species::Fire, ra: 200, rb: 0, clock: 0 });
        let b = sset(c, a, 0, 1, Cell::empty());
        sset(c, b, 0, 1, Cell { species: Species::PlasmaGas, ra: 100, rb: 0, clock: 0 })
    } else {
        s1
    };
    if once(ds, 0, 8) {
        stay(c, s2, Cell::empty())
    } else if below == Species::Empty {
        moveto(c, s2, 0, 1, cell)
    } else {
        s2
    }
}

/// Void: clears anything but a wall, the void or a shield at a random
/// step; it fades away one time in 200.
pub open spec fn void_rule(c: Ctx, s: Scene, cell: Cell, ds: Draws) -> Scene {
    let v = rvec(ds, 0);
    let t = sget(c, s, v.0, v.1).species;
    let s1 = if t != Species::Wall && t != Species::Void && t != Species::Shield {
        sset(c, s, v.0, v.1, Cell::empty())
    } else {
        s
    };
    if once(ds, 1, 200) {
        stay(c, s1, Cell::empty())
    } else {
        s1
    }
}

/// The species chaos turns a cell into for the draw `n` below 30.
pub open spec fn chaos_species(n: int) -> Species {
    if n == 0 {
        Species::Sand
    } else if n == 1 {
        Species::Water
    } else if n == 2 {
        Species::Gas
    } else if n == 3 {
        Species::Fire
    } else if n == 4 {
        Species::Wood
    } else if n == 5 {
        Species::Lava
    } else if n == 6 {
        Species::Ice
    } else if n == 7 {
        Species::Snow
    } else if n == 8 {
        Species::Plant
    } else if n == 9 {
        Species::Acid
    } else if n == 10 {
        Species::Stone
    } else if n == 11 {
        Species::Dust
    } else if n == 12 {
        Species::Mite
    } else if n == 13 {
        Species::Oil
    } else if n == 14 {
        Species::Rocket
    } else if n == 15 {
        Species::Fungus
    } else if n == 16 {
        Species::Seed
    } else if n == 17 {
        Species::Slime
    } else if n == 18 {
        Species::Glass
    } else if n == 19 {
        Species::Iron
    } else if n == 20 {
        Species::Gold
    } else if n == 21 {
        Species::Mud
    } else if n == 22 {
        Species::Honey
    } else if n == 23 {
        Species::Mushroom
    } else if n == 24 {
        Species::Gunpowder
    } else if n == 25 {
        Species::Diamond
    } else if n == 26 {
        Species::Obsidian
    } else if n == 27 {
        Species::Alcohol
    } else if n == 28 {
        Species::Steam
    } else if n == 29 {
        Species::PlasmaGas
    } else {
        Species::Empty
    }
}

/// Chaos: anything but empty space, a wall, chaos, the void or a shield at
/// a random step is turned, one time in 3, into a random species (see
/// `chaos_species`) with `ra = 100`; chaos fades away one time in 300.
pub open spec fn chaos_rule(c: Ctx, s: Scene, cell: Cell, ds: Draws) -> Scene {
    let v = rvec(ds, 0);
    let t = sget(c, s, v.0, v.1).species;
    let open = t != Species::Empty && t != Species::Wall && t != Species::Chaos && t != Species::Void && t
        != Species::Shield;
    let hit = open && once(ds, 1, 3);
    let s1 = if hit {
        sset(c, s, v.0, v.1, Cell { species: chaos_species(draw(ds, 2, 30)), ra: 100, rb: 0, clock: 0 })
    } else {
        s
    };
    let k: int = if hit {
        3
    } else if open {
        2
    } else {
        1
    };
    if once(ds, k, 300) {
        stay(c, s1, Cell::empty())
    } else {
        s1
    }
}

/// Energy: writes a dense, hot burn; spreads into an empty random step one
/// time in 5 (with `ra` down by 10); charges a battery or solar cell there
/// (`ra = 200`); then fades (`ra` down by 2) and vanishes once `ra` is
/// below 10.
pub open spec fn energy_rule(c: Ctx, s: Scene, cell: Cell, ds: Draws) -> Scene {
    let s1 = sset_fluid(c, s, Wind { dx: 0, dy: 0, pressure: 10, density: 200 });
    let v = rvec(ds, 0);
    let nbr = sget(c, s1, v.0, v.1);
    let s2 = if nbr.species == Species::Empty && once(ds, 1, 5) {
        sset(c, s1, v.0, v.1, Cell { species: Species::Energy, ra: ssub(cell.ra, 10), rb: 0, clock: 0 })
    } else {
        s1
    };
    let s3 = if nbr.species == Species::Battery || nbr.species == Species::SolarCell {
        sset(c, s2, v.0, v.1, Cell { ra: 200, ..nbr })
    } else {
        s2
    };
    if cell.ra < 10 {
        stay(c, s3, Cell::empty())
    } else {
        stay(c, s3, Cell { ra: ssub(cell.ra, 2), ..cell })
    }
}

/// What a shield blocks: the void, fire, lava, acid, plasma, lightning and
/// chaos.
pub open spec fn blocked(t: Species) -> bool {
    t == Species::Void || t == Species::Fire || t == Species::Lava || t == Species::Acid || t
        == Species::PlasmaGas || t == Species::Lightning || t == Species::Chaos
}

/// Shield: ages (`rb` up by 1, at most 255) and is gone past 100; blocking
/// something at a random step (see `blocked`) wears it 5 more.
pub open spec fn shield_rule(c: Ctx, s: Scene, cell: Cell, ds: Draws) -> Scene {
    let rb = sadd(cell.rb, 1);
    if rb > 100 {
        stay(c, s, Cell::empty())
    } else {
        let v = rvec(ds, 0);
        if blocked(sget(c, s, v.0, v.1).species) {
            stay(c, s, Cell { rb: (rb + 5) as u8, ..cell })
        } else {
            stay(c, s, Cell { rb, ..cell })
        }
    }
}

/// Mirror: a laser at a random step is reflected as a fresh laser to the
/// opposite step, and cleared.
pub open spec fn mirror_rule(c: Ctx, s: Scene, cell: Cell, ds: Draws) -> Scene {
    let v = rvec(ds, 0);
    if sget(c, s, v.0, v.1).species == Species::Laser {
        sset(c, sset(c, s, -v.0, -v.1, fresh_cell(Species::Laser, draw(ds, 1, 50))), v.0, v.1, Cell::empty())
    } else {
        s
    }
}

/// The bounds of the draws a portal makes: a `rand_vec`, then, for
/// something to send, a column below the width and a row below the height.
pub open spec fn portal_draws(c: Ctx, s: Scene, cell: Cell, ds: Draws) -> Seq<int> {
    let v = rvec(ds, 0);
    let t = sget(c, s, v.0, v.1).species;
    if t != Species::Empty && t != Species::Wall && t != Species::Portal && t != Species::Void {
        seq![2000, c.width, c.height]
    } else {
        seq![2000]
    }
}

/// The bounds of the draws a teleporter makes: a `rand_vec`, then a
/// `rand_vec_8` for something to send.
pub open spec fn teleporter_draws(c: Ctx, s: Scene, cell: Cell, ds: Draws) -> Seq<int> {
    let v = rvec(ds, 0);
    let t = sget(c, s, v.0, v.1).species;
    seq![2000] + draw_if(t != Species::Empty && t != Species::Wall && t != Species::Teleporter, 8)
}

/// The bounds of the draws antigravity makes: a `rand_dir`.
pub open spec fn antigravity_draws(c: Ctx, s: Scene, cell: Cell, ds: Draws) -> Seq<int> {
    seq![1000]
}

/// A magnet makes no draws.
pub open spec fn magnet_draws(c: Ctx, s: Scene, cell: Cell, ds: Draws) -> Seq<int> {
    seq![]
}

/// The bounds of the draws lightning makes: a `once_in(8)`.
pub open spec fn lightning_draws(c: Ctx, s: Scene, cell: Cell, ds: Draws) -> Seq<int> {
    seq![8]
}

/// The bounds of the draws the void makes: a `rand_vec` and a
/// `once_in(200)`.
pub open spec fn void_draws(c: Ctx, s: Scene, cell: Cell, ds: Draws) -> Seq<int> {
    seq![2000, 200]
}

/// The bounds of the draws chaos makes (see `chaos_rule`).
pub open spec fn chaos_draws(c: Ctx, s: Scene, cell: Cell, ds: Draws) -> Seq<int> {
    let v = rvec(ds, 0);
    let t = sget(c, s, v.0, v.1).species;
    let open = t != Species::Empty && t != Species::Wall && t != Species::Chaos && t != Species::Void && t
        != Species::Shield;
    seq![2000] + draw_if(open, 3) + draw_if(open && once(ds, 1, 3), 30) + seq![300]
}

/// The bounds of the draws energy makes: a `rand_vec`, and a `once_in(5)`
/// when that step is empty.
pub open spec fn energy_draws(c: Ctx, s: Scene, cell: Cell, ds: Draws) -> Seq<int> {
    let v = rvec(ds, 0);
    seq![2000] + draw_if(sget(c, s, v.0, v.1).species == Species::Empty, 5)
}

/// The bounds of the draws a shield makes: a `rand_vec` unless it is gone.
pub open spec fn shield_draws(c: Ctx, s: Scene, cell: Cell, ds: Draws) -> Seq<int> {
    draw_if(sadd(cell.rb, 1) <= 100, 2000)
}

/// The bounds of the draws a mirror makes: a `rand_vec`, and the colour of
/// a reflected laser.
pub open spec fn mirror_draws(c: Ctx, s: Scene, cell: Cell, ds: Draws) -> Seq<int> {
    let v = rvec(ds, 0);
    seq![2000] + draw_if(sget(c, s, v.0, v.1).species == Species::Laser, 50)
}

/// One turn of portal (see `portal_rule`).
pub fn update_portal(cell: Cell, api: &mut SandApi)
    requires
        old(api).wf(),
    ensures
        final(api).continues(*old(api)),
        final(api).scene() == portal_rule(old(api).ctx(), old(api).scene(), cell, final(api).new_draws(*old(api))),
        bounds(final(api).new_draws(*old(api))) == portal_draws(old(api).ctx(), old(api).scene(), cell, final(api).new_draws(*old(api))),
{
    proof {
        api.lemma_position();
    }
    let (dx, dy) = api.rand_vec();
    let nbr = api.get(dx, dy);
    if nbr.species != Species::Empty && nbr.species != Species::Wall && nbr.species != Species::Portal
        && nbr.species != Species::Void {
        let width = api.width();
        let height = api.height();
        let tx = api.rand_int(width) - api.x();
        let ty = api.rand_int(height) - api.y();
        let tx = tx.max(-2).min(2);
        let ty = ty.max(-2).min(2);
        if api.get(tx, ty).species == Species::Empty {
            api.set(tx, ty, nbr);
            api.set(dx, dy, Cell::empty());
        }
    }
}

/// One turn of teleporter (see `teleporter_rule`).
pub fn update_teleporter(cell: Cell, api: &mut SandApi)
    requires
        old(api).wf(),
    ensures
        final(api).continues(*old(api)),
        final(api).scene() == teleporter_rule(old(api).ctx(), old(api).scene(), cell, final(api).new_draws(*old(api))),
        bounds(final(api).new_draws(*old(api))) == teleporter_draws(old(api).ctx(), old(api).scene(), cell, final(api).new_draws(*old(api))),
{
    let (dx, dy) = api.rand_vec();
    let nbr = api.get(dx, dy);
    if nbr.species != Species::Empty && nbr.species != Species::Wall && nbr.species != Species::Teleporter {
        let (tdx, tdy) = api.rand_vec_8();
        if api.get(tdx, tdy).species == Species::Empty {
            api.set(tdx, tdy, nbr);
            api.set(dx, dy, Cell::empty());
        }
    }
}

/// One turn of antigravity (see `antigravity_rule`).
pub fn update_antigravity(cell: Cell, api: &mut SandApi)
    requires
        old(api).wf(),
    ensures
        final(api).continues(*old(api)),
        final(api).scene() == antigravity_rule(old(api).ctx(), old(api).scene(), cell, final(api).new_draws(*old(api))),
        bounds(final(api).new_draws(*old(api))) == antigravity_draws(old(api).ctx(), old(api).scene(), cell, final(api).new_draws(*old(api))),
{
    api.set_fluid(Wind { dx: 0, dy: 200, pressure: 0, density: 0 });
    let adx = api.rand_dir();
    let nbr = api.get(adx, -1);
    if nbr.species != Species::Empty && nbr.species != Species::Wall && nbr.species != Species::Antigravity
        && api.get(adx, -2).species == Species::Empty {
        api.set(adx, -2, nbr);
        api.set(adx, -1, Cell::empty());
    }
}

/// One turn of magnet (see `magnet_rule`).
pub fn update_magnet(cell: Cell, api: &mut SandApi)
    requires
        old(api).wf(),
    ensures
        final(api).continues(*old(api)),
        final(api).scene() == magnet_rule(old(api).ctx(), old(api).scene(), cell, final(api).new_draws(*old(api))),
        bounds(final(api).new_draws(*old(api))) == magnet_draws(old(api).ctx(), old(api).scene(), cell, final(api).new_draws(*old(api))),
{
    let ghost c = api.ctx();
    let ghost s0 = api.scene();
    let mut dx: i32 = -2;
    while dx <= 2
        invariant
            -2 <= dx <= 3,
            api.continues(*old(api)),
            api.draws() == old(api).draws(),
            c == old(api).ctx(),
            s0 == old(api).scene(),
            api.scene() == magnet_pull(c, s0, 5 * (dx + 2)),
        decreases 3 - dx,
    {
        let mut dy: i32 = -2;
        while dy <= 2
            invariant
                -2 <= dx <= 2,
                -2 <= dy <= 3,
                api.continues(*old(api)),
                api.draws() == old(api).draws(),
                c == old(api).ctx(),
                s0 == old(api).scene(),
                api.scene() == magnet_pull(c, s0, 5 * (dx + 2) + dy + 2),
            decreases 3 - dy,
        {
            let ghost i = 5 * (dx + 2) + dy + 2;
            assert(magnet_offset(i) == (dx as int, dy as int));
            if dx != 0 || dy != 0 {
                let nbr = api.get(dx, dy);
                if nbr.species == Species::Iron || nbr.species == Species::Copper || nbr.species == Species::Steel
                    || nbr.species == Species::Zinc || nbr.species == Species::Tin || nbr.species == Species::Wire {
                    let pull_x = if dx > 0 {
                        dx - 1
                    } else if dx < 0 {
                        dx + 1
                    } else {
                        0
                    };
                    let pull_y = if dy > 0 {
                        dy - 1
                    } else if dy < 0 {
                        dy + 1
                    } else {
                        0
                    };
                    if api.get(pull_x, pull_y).species == Species::Empty {
                        api.set(pull_x, pull_y, nbr);
                        api.set(dx, dy, Cell::empty());
                    }
                }
            }
            dy = dy + 1;
        }
        dx = dx + 1;
    }
}

/// One turn of lightning (see `lightning_rule`).
pub fn update_lightning(cell: Cell, api: &mut SandApi)
    requires
        old(api).wf(),
    ensures
        final(api).continues(*old(api)),
        final(api).scene() == lightning_rule(old(api).ctx(), old(api).scene(), cell, final(api).new_draws(*old(api))),
        bounds(final(api).new_draws(*old(api))) == lightning_draws(old(api).ctx(), old(api).scene(), cell, final(api).new_draws(*old(api))),
{
    api.set_fluid(Wind { dx: 0, dy: 100, pressure: 200, density: 200 });
    let below = api.get(0, 1);
    if below.species != Species::Empty && below.species != Species::Wall && below.species != Species::Void
        && below.species != Species::Shield {
        api.set(0, 1, Cell { species: Species::Fire, ra: 200, rb: 0, clock: 0 });
        api.set(0, 1, Cell::empty());
        api.set(0, 1, Cell { species: Species::PlasmaGas, ra: 100, rb: 0, clock: 0 });
    }
    if api.once_in(8) {
        api.set(0, 0, Cell::empty());
    } else if below.species == Species::Empty {
        api.set(0, 0, Cell::empty());
        api.set(0, 1, cell);
    }
}

/// One turn of void (see `void_rule`).
pub fn update_void(cell: Cell, api: &mut SandApi)
    requires
        old(api).wf(),
    ensures
        final(api).continues(*old(api)),
        final(api).scene() == void_rule(old(api).ctx(), old(api).scene(), cell, final(api).new_draws(*old(api))),
        bounds(final(api).new_draws(*old(api))) == void_draws(old(api).ctx(), old(api).scene(), cell, final(api).new_draws(*old(api))),
{
    let (dx, dy) = api.rand_vec();
    let nbr = api.get(dx, dy);
    if nbr.species != Species::Wall && nbr.species != Species::Void && nbr.species != Species::Shield {
        api.set(dx, dy, Cell::empty());
    }
    if api.once_in(200) {
        api.set(0, 0, Cell::empty());
    }
}

/// One turn of chaos (see `chaos_rule`).
pub fn update_chaos(cell: Cell, api: &mut SandApi)
    requires
        old(api).wf(),
    ensures
        final(api).continues(*old(api)),
        final(api).scene() == chaos_rule(old(api).ctx(), old(api).scene(), cell, final(api).new_draws(*old(api))),
        bounds(final(api).new_draws(*old(api))) == chaos_draws(old(api).ctx(), old(api).scene(), cell, final(api).new_draws(*old(api))),
{
    let (dx, dy) = api.rand_vec();
    let nbr = api.get(dx, dy);
    if nbr.species != Species::Empty && nbr.species != Species::Wall && nbr.species != Species::Chaos
        && nbr.species != Species::Void && nbr.species != Species::Shield && api.once_in(3) {
        let random_species = match api.rand_int(30) {
            0 => Species::Sand,
            1 => Species::Water,
            2 => Species::Gas,
            3 => Species::Fire,
            4 => Species::Wood,
            5 => Species::Lava,
            6 => Species::Ice,
            7 => Species::Snow,
            8 => Species::Plant,
            9 => Species::Acid,
            10 => Species::Stone,
            11 => Species::Dust,
            12 => Species::Mite,
            13 => Species::Oil,
            14 => Species::Rocket,
            15 => Species::Fungus,
            16 => Species::Seed,
            17 => Species::Slime,
            18 => Species::Glass,
            19 => Species::Iron,
            20 => Species::Gold,
            21 => Species::Mud,
            22 => Species::Honey,
            23 => Species::Mushroom,
            24 => Species::Gunpowder,
            25 => Species::Diamond,
            26 => Species::Obsidian,
            27 => Species::Alcohol,
            28 => Species::Steam,
            29 => Species::PlasmaGas,
            _ => Species::Empty,
        };
        api.set(dx, dy, Cell { species: random_species, ra: 100, rb: 0, clock: 0 });
    }
    if api.once_in(300) {
        api.set(0, 0, Cell::empty());
    }
}

/// One turn of energy (see `energy_rule`).
pub fn update_energy(cell: Cell, api: &mut SandApi)
    requires
        old(api).wf(),
    ensures
        final(api).continues(*old(api)),
        final(api).scene() == energy_rule(old(api).ctx(), old(api).scene(), cell, final(api).new_draws(*old(api))),
        bounds(final(api).new_draws(*old(api))) == energy_draws(old(api).ctx(), old(api).scene(), cell, final(api).new_draws(*old(api))),
{
    api.set_fluid(Wind { dx: 0, dy: 0, pressure: 10, density: 200 });
    let (dx, dy) = api.rand_vec();
    let nbr = api.get(dx, dy);
    if nbr.species == Species::Empty && api.once_in(5) {
        api.set(dx, dy, Cell { species: Species::Energy, ra: cell.ra.saturating_sub(10), rb: 0, clock: 0 });
    }
    if nbr.species == Species::Battery || nbr.species == Species::SolarCell {
        api.set(dx, dy, Cell { ra: 200, ..nbr });
    }
    let ra = cell.ra;
    if ra < 10 {
        api.set(0, 0, Cell::empty());
    } else {
        api.set(0, 0, Cell { ra: ra.saturating_sub(2), ..cell });
    }
}

/// One turn of shield (see `shield_rule`).
pub fn update_shield(cell: Cell, api: &mut SandApi)
    requires
        old(api).wf(),
    ensures
        final(api).continues(*old(api)),
        final(api).scene() == shield_rule(old(api).ctx(), old(api).scene(), cell, final(api).new_draws(*old(api))),
        bounds(final(api).new_draws(*old(api))) == shield_draws(old(api).ctx(), old(api).scene(), cell, final(api).new_draws(*old(api))),
{
    let rb = cell.rb.saturating_add(1);
    if rb > 100 {
        api.set(0, 0, Cell::empty());
        return;
    }
    let (dx, dy) = api.rand_vec();
    let nbr = api.get(dx, dy);
    if nbr.species == Species::Void || nbr.species == Species::Fire || nbr.species == Species::Lava
        || nbr.species == Species::Acid || nbr.species == Species::PlasmaGas || nbr.species == Species::Lightning
        || nbr.species == Species::Chaos {
        let new_rb = rb + 5;
        api.set(0, 0, Cell { rb: new_rb, ..cell });
    } else {
        api.set(0, 0, Cell { rb, ..cell });
    }
}

/// One turn of mirror (see `mirror_rule`).
pub fn update_mirror(cell: Cell, api: &mut SandApi)
    requires
        old(api).wf(),
    ensures
        final(api).continues(*old(api)),
        final(api).scene() == mirror_rule(old(api).ctx(), old(api).scene(), cell, final(api).new_draws(*old(api))),
        bounds(final(api).new_draws(*old(api))) == mirror_draws(old(api).ctx(), old(api).scene(), cell, final(api).new_draws(*old(api))),
{
    let (dx, dy) = api.rand_vec();
    let nbr = api.get(dx, dy);
    if nbr.species == Species::Laser {
        let beam = api.new_cell(Species::Laser);
        api.set(-dx, -dy, beam);
        api.set(dx, dy, Cell::empty());
    }
}

} // verus!
