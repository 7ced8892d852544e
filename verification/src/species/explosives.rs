//! Explosives and hazards: TNT, bomb, nitro, plutonium, uranium, C4,
//! thermite and napalm.

use super::falling::sinks_through;
use super::Species;
use crate::cell::{Cell, Wind};
use crate::world::{
    bounds, draw_if, extends, lemma_new_draws_extend, moveto, once, rdir, rdir2, rvec, sfluid, sget, sset, sset_fluid, ssub,
    stay, swap, Ctx, Draws, SandApi, Scene,
};
use vstd::prelude::*;

verus! {

/// The pressure of a blast of strength `power`: twice the power, at most
/// 255.
pub open spec fn blast_pressure(power: u8) -> u8 {
    if 2 * power > 255 {
        255
    } else {
        (2 * power) as u8
    }
}

/// What a blast can set on fire: anything but a wall, empty space, the void
/// or a shield.
pub open spec fn flammable_in_blast(t: Species) -> bool {
    t != Species::Wall && t != Species::Empty && t != Species::Void && t != Species::Shield
}

/// The `i`-th position a blast reaches: column by column from two steps
/// left, each from two steps up.
pub open spec fn blast_offset(i: int) -> (int, int) {
    (i / 5 - 2, i % 5 - 2)
}

/// The blast of strength `power` reaching its `i`-th position (see
/// `blast_offset`; the centre excluded), its draw at `k`: when the blast
/// `spread_fire`s, what burns there (see `flammable_in_blast`) catches fire
/// (`ra = 150`) one time in 2; and when the air pressure here is below the
/// blast's, the burn here becomes a shockwave pointing at that position.
/// The scene afterwards and the index of the next draw.
pub open spec fn blast_reach(c: Ctx, s: Scene, power: u8, spread_fire: bool, ds: Draws, i: int, k: int) -> (Scene, int) {
    let d = blast_offset(i);
    if d.0 == 0 && d.1 == 0 {
        (s, k)
    } else {
        let t = sget(c, s, d.0, d.1).species;
        let lit = flammable_in_blast(t) && spread_fire;
        let s1 = if lit && once(ds, k, 2) {
            sset(c, s, d.0, d.1, Cell { species: Species::Fire, ra: 150, rb: 0, clock: 0 })
        } else {
            s
        };
        let pressure = blast_pressure(power);
        let s2 = if sfluid(c).pressure < pressure {
            sset_fluid(
                c,
                s1,
                Wind { dx: (d.0 * 30) as u8, dy: (d.1 * 30) as u8, pressure: pressure / 3, density: power / 2 },
            )
        } else {
            s1
        };
        (s2, if lit { k + 1 } else { k })
    }
}

/// The blast reaching its first `n` positions (see `blast_reach`), its
/// draws starting at `k`.
pub open spec fn blast_spread(c: Ctx, s: Scene, power: u8, spread_fire: bool, ds: Draws, n: int, k: int) -> (Scene, int)
    decreases n,
{
    if n <= 0 {
        (s, k)
    } else {
        let p = blast_spread(c, s, power, spread_fire, ds, n - 1, k);
        blast_reach(c, p.0, power, spread_fire, ds, n - 1, p.1)
    }
}

/// A blast takes between none and one draw per position, and reads no
/// draw past the ones it takes.
pub proof fn lemma_blast_spread_stable(
    c: Ctx,
    s: Scene,
    power: u8,
    spread_fire: bool,
    ds1: Draws,
    ds2: Draws,
    n: int,
    k: int,
)
    requires
        0 <= k,
        extends(ds1, ds2),
        blast_spread(c, s, power, spread_fire, ds1, n, k).1 <= ds1.len(),
    ensures
        blast_spread(c, s, power, spread_fire, ds2, n, k) == blast_spread(c, s, power, spread_fire, ds1, n, k),
        k <= blast_spread(c, s, power, spread_fire, ds1, n, k).1,
    decreases n,
{
    if n > 0 {
        let p = blast_spread(c, s, power, spread_fire, ds1, n - 1, k);
        assert(p.1 <= blast_spread(c, s, power, spread_fire, ds1, n, k).1);
        lemma_blast_spread_stable(c, s, power, spread_fire, ds1, ds2, n - 1, k);
        if p.1 < ds1.len() {
            assert(ds2[p.1] == ds1[p.1]);
        }
    }
}

/// An explosion of strength `power`, its draws starting at `k`: the
/// exploding cell is gone, its burn becomes a blast (see `blast_pressure`,
/// density `power`), and the blast reaches every position within two steps
/// in turn (see `blast_spread`).
pub open spec fn explode(c: Ctx, s: Scene, power: u8, spread_fire: bool, ds: Draws, k: int) -> Scene {
    let s1 = sset_fluid(
        c,
        stay(c, s, Cell::empty()),
        Wind { dx: 0, dy: 0, pressure: blast_pressure(power), density: power },
    );
    blast_spread(c, s1, power, spread_fire, ds, 25, k).0
}

/// A falling explosive, its draws starting at `k`: when `trigger`ed it
/// explodes with `power` (see `explode`); otherwise it falls into empty
/// space, or to the empty random lower diagonal, or stays.
pub open spec fn falling_explosive(c: Ctx, s: Scene, cell: Cell, trigger: bool, power: u8, ds: Draws, k: int) -> Scene {
    if trigger {
        explode(c, s, power, true, ds, k)
    } else {
        let dx = rdir2(ds, k);
        if sget(c, s, 0, 1).species == Species::Empty {
            moveto(c, s, 0, 1, cell)
        } else if sget(c, s, dx, 1).species == Species::Empty {
            moveto(c, s, dx, 1, cell)
        } else {
            stay(c, s, cell)
        }
    }
}

/// TNT: fire, lava, lightning or plasma at a random step, or air pressure
/// above 100, sets it off (power 120); otherwise it falls (see
/// `falling_explosive`).
pub open spec fn tnt_rule(c: Ctx, s: Scene, cell: Cell, ds: Draws) -> Scene {
    let v = rvec(ds, 0);
    let nbr = sget(c, s, v.0, v.1).species;
    let triggered = nbr == Species::Fire || nbr == Species::Lava || nbr == Species::Lightning || nbr
        == Species::PlasmaGas;
    falling_explosive(c, s, cell, triggered || sfluid(c).pressure > 100, 120, ds, 1)
}

/// Bomb: fire, lava, lightning or TNT at a random step sets it off (power
/// 150); otherwise it stays where it is.
pub open spec fn bomb_rule(c: Ctx, s: Scene, cell: Cell, ds: Draws) -> Scene {
    let v = rvec(ds, 0);
    let nbr = sget(c, s, v.0, v.1).species;
    if nbr == Species::Fire || nbr == Species::Lava || nbr == Species::Lightning || nbr == Species::TNT {
        explode(c, s, 150, true, ds, 1)
    } else {
        stay(c, s, cell)
    }
}

/// Nitro: anything at a random step, or air pressure above 40, sets it off
/// (power 180); otherwise it falls into empty space one time in 2, or
/// stays.
pub open spec fn nitro_rule(c: Ctx, s: Scene, cell: Cell, ds: Draws) -> Scene {
    let v = rvec(ds, 0);
    let nbr = sget(c, s, v.0, v.1).species;
    if nbr == Species::Fire || nbr == Species::Lava || sfluid(c).pressure > 40 || nbr != Species::Empty {
        explode(c, s, 180, true, ds, 1)
    } else if sget(c, s, 0, 1).species == Species::Empty && once(ds, 1, 2) {
        moveto(c, s, 0, 1, cell)
    } else {
        stay(c, s, cell)
    }
}

/// The fall of a radioactive metal: into empty space, through water, oil,
/// gas or acid by swapping, or it stays.
pub open spec fn heavy_fall_plutonium(c: Ctx, s: Scene, cell: Cell) -> Scene {
    let below = sget(c, s, 0, 1);
    if below.species == Species::Empty {
        moveto(c, s, 0, 1, cell)
    } else if sinks_through(below.species) {
        swap(c, s, 0, 1, below, cell)
    } else {
        stay(c, s, cell)
    }
}

/// Plutonium: writes a warm burn; anything but empty space, a wall or
/// plutonium at a random step catches fire (`ra = 50`) one time in 30;
/// then it falls (see `heavy_fall_plutonium`).
pub open spec fn plutonium_rule(c: Ctx, s: Scene, cell: Cell, ds: Draws) -> Scene {
    let s1 = sset_fluid(c, s, Wind { dx: 0, dy: 0, pressure: 5, density: 80 });
    let v = rvec(ds, 0);
    let t = sget(c, s1, v.0, v.1).species;
    let s2 = if t != Species::Empty && t != Species::Wall && t != Species::Plutonium && once(ds, 1, 30) {
        sset(c, s1, v.0, v.1, Cell { species: Species::Fire, ra: 50, rb: 0, clock: 0 })
    } else {
        s1
    };
    heavy_fall_plutonium(c, s2, cell)
}

/// Uranium: writes a warm burn; anything but empty space, a wall, uranium
/// or plutonium at a random step catches fire (`ra = 30`) one time in 50;
/// then it falls (see `heavy_fall_plutonium`).
pub open spec fn uranium_rule(c: Ctx, s: Scene, cell: Cell, ds: Draws) -> Scene {
    let s1 = sset_fluid(c, s, Wind { dx: 0, dy: 0, pressure: 3, density: 60 });
    let v = rvec(ds, 0);
    let t = sget(c, s1, v.0, v.1).species;
    let s2 = if t != Species::Empty && t != Species::Wall && t != Species::Uranium && t != Species::Plutonium
        && once(ds, 1, 50) {
        sset(c, s1, v.0, v.1, Cell { species: Species::Fire, ra: 30, rb: 0, clock: 0 })
    } else {
        s1
    };
    heavy_fall_plutonium(c, s2, cell)
}

/// C4: fire or lava at a random step (left, straight or right; up, level
/// or down) sets it off (power 160); otherwise it falls (see
/// `falling_explosive`).
pub open spec fn c4_rule(c: Ctx, s: Scene, cell: Cell, ds: Draws) -> Scene {
    let nbr = sget(c, s, rdir(ds, 0), rdir(ds, 1)).species;
    if nbr == Species::Fire || nbr == Species::Lava {
        explode(c, s, 160, true, ds, 2)
    } else {
        falling_explosive(c, s, cell, false, 0, ds, 2)
    }
}

/// Thermite: burning (`rb > 0`) it writes a searing burn, turns anything
/// but a wall or the void below it into lava (`ra = 200`) and counts down,
/// burning out at `rb == 1`. Unlit, fire or lava at a random step lights it
/// (`rb = 40`); otherwise it falls (see `falling_explosive`).
pub open spec fn thermite_rule(c: Ctx, s: Scene, cell: Cell, ds: Draws) -> Scene {
    let rb = cell.rb;
    if rb > 0 {
        let s1 = sset_fluid(c, s, Wind { dx: 0, dy: 0, pressure: 0, density: 200 });
        let below = sget(c, s1, 0, 1).species;
        let s2 = if below != Species::Wall && below != Species::Void {
            sset(c, s1, 0, 1, Cell { species: Species::Lava, ra: 200, rb: 0, clock: 0 })
        } else {
            s1
        };
        let s3 = stay(c, s2, Cell { rb: (rb - 1) as u8, ..cell });
        if rb <= 1 {
            stay(c, s3, Cell::empty())
        } else {
            s3
        }
    } else {
        let v = rvec(ds, 0);
        let nbr = sget(c, s, v.0, v.1).species;
        if nbr == Species::Fire || nbr == Species::Lava {
            stay(c, s, Cell { rb: 40, ..cell })
        } else {
            falling_explosive(c, s, cell, false, 0, ds, 1)
        }
    }
}

/// Napalm: burning (`rb > 0`) it writes a hot burn, sets an empty random
/// step on fire (`ra = 150`) one time in 2 and counts down, turning into
/// fire (`ra = 50`) at `rb == 1`. Unlit, fire at a random step lights it
/// (`rb = 30`); otherwise it falls (see `falling_explosive`).
pub open spec fn napalm_rule(c: Ctx, s: Scene, cell: Cell, ds: Draws) -> Scene {
    let rb = cell.rb;
    let v = rvec(ds, 0);
    if rb > 0 {
        let s1 = sset_fluid(c, s, Wind { dx: 0, dy: 0, pressure: 0, density: 180 });
        let s2 = if sget(c, s1, v.0, v.1).species == Species::Empty && once(ds, 1, 2) {
            sset(c, s1, v.0, v.1, Cell { species: Species::Fire, ra: 150, rb: 0, clock: 0 })
        } else {
            s1
        };
        let s3 = stay(c, s2, Cell { rb: ssub(rb, 1), ..cell });
        if rb <= 1 {
            stay(c, s3, Cell { species: Species::Fire, ra: 50, rb: 0, clock: 0 })
        } else {
            s3
        }
    } else if sget(c, s, v.0, v.1).species == Species::Fire {
        stay(c, s, Cell { rb: 30, ..cell })
    } else {
        falling_explosive(c, s, cell, false, 0, ds, 1)
    }
}

/// The bounds of the draws of an explosion (see `explode`): one
/// `once_in(2)` for every position the blast sets on fire.
pub open spec fn explode_draws(c: Ctx, s: Scene, power: u8, spread_fire: bool, ds: Draws, k: int) -> Seq<int> {
    let s1 = sset_fluid(
        c,
        stay(c, s, Cell::empty()),
        Wind { dx: 0, dy: 0, pressure: blast_pressure(power), density: power },
    );
    Seq::new((blast_spread(c, s1, power, spread_fire, ds, 25, k).1 - k) as nat, |i: int| 2int)
}

/// The bounds of the draws of a falling explosive (see
/// `falling_explosive`).
pub open spec fn falling_explosive_draws(c: Ctx, s: Scene, cell: Cell, trigger: bool, power: u8, ds: Draws, k: int) -> Seq<int> {
    if trigger {
        explode_draws(c, s, power, true, ds, k)
    } else {
        seq![1000]
    }
}

/// The bounds of the draws TNT makes (see `tnt_rule`).
pub open spec fn tnt_draws(c: Ctx, s: Scene, cell: Cell, ds: Draws) -> Seq<int> {
    let v = rvec(ds, 0);
    let nbr = sget(c, s, v.0, v.1).species;
    let triggered = nbr == Species::Fire || nbr == Species::Lava || nbr == Species::Lightning || nbr
        == Species::PlasmaGas;
    seq![2000] + falling_explosive_draws(c, s, cell, triggered || sfluid(c).pressure > 100, 120, ds, 1)
}

/// The bounds of the draws a bomb makes (see `bomb_rule`).
pub open spec fn bomb_draws(c: Ctx, s: Scene, cell: Cell, ds: Draws) -> Seq<int> {
    let v = rvec(ds, 0);
    let nbr = sget(c, s, v.0, v.1).species;
    if nbr == Species::Fire || nbr == Species::Lava || nbr == Species::Lightning || nbr == Species::TNT {
        seq![2000] + explode_draws(c, s, 150, true, ds, 1)
    } else {
        seq![2000]
    }
}

/// The bounds of the draws nitro makes (see `nitro_rule`).
pub open spec fn nitro_draws(c: Ctx, s: Scene, cell: Cell, ds: Draws) -> Seq<int> {
    let v = rvec(ds, 0);
    let nbr = sget(c, s, v.0, v.1).species;
    if nbr == Species::Fire || nbr == Species::Lava || sfluid(c).pressure > 40 || nbr != Species::Empty {
        seq![2000] + explode_draws(c, s, 180, true, ds, 1)
    } else {
        seq![2000] + draw_if(sget(c, s, 0, 1).species == Species::Empty, 2)
    }
}

/// The bounds of the draws plutonium makes (see `plutonium_rule`).
pub open spec fn plutonium_draws(c: Ctx, s: Scene, cell: Cell, ds: Draws) -> Seq<int> {
    let v = rvec(ds, 0);
    let t = sget(c, s, v.0, v.1).species;
    seq![2000] + draw_if(t != Species::Empty && t != Species::Wall && t != Species::Plutonium, 30)
}

/// The bounds of the draws uranium makes (see `uranium_rule`).
pub open spec fn uranium_draws(c: Ctx, s: Scene, cell: Cell, ds: Draws) -> Seq<int> {
    let v = rvec(ds, 0);
    let t = sget(c, s, v.0, v.1).species;
    seq![2000] + draw_if(
        t != Species::Empty && t != Species::Wall && t != Species::Uranium && t != Species::Plutonium,
        50,
    )
}

/// The bounds of the draws C4 makes (see `c4_rule`).
pub open spec fn c4_draws(c: Ctx, s: Scene, cell: Cell, ds: Draws) -> Seq<int> {
    let nbr = sget(c, s, rdir(ds, 0), rdir(ds, 1)).species;
    if nbr == Species::Fire || nbr == Species::Lava {
        seq![1000, 1000] + explode_draws(c, s, 160, true, ds, 2)
    } else {
        seq![1000, 1000, 1000]
    }
}

/// The bounds of the draws thermite makes (see `thermite_rule`).
pub open spec fn thermite_draws(c: Ctx, s: Scene, cell: Cell, ds: Draws) -> Seq<int> {
    if cell.rb > 0 {
        seq![]
    } else {
        let v = rvec(ds, 0);
        let nbr = sget(c, s, v.0, v.1).species;
        seq![2000] + draw_if(nbr != Species::Fire && nbr != Species::Lava, 1000)
    }
}

/// The bounds of the draws napalm makes (see `napalm_rule`).
pub open spec fn napalm_draws(c: Ctx, s: Scene, cell: Cell, ds: Draws) -> Seq<int> {
    let v = rvec(ds, 0);
    if cell.rb > 0 {
        seq![2000] + draw_if(sget(c, s, v.0, v.1).species == Species::Empty, 2)
    } else {
        seq![2000] + draw_if(sget(c, s, v.0, v.1).species != Species::Fire, 1000)
    }
}

/// An explosion (see `explode`), ending the turn.
#[verifier::rlimit(40)]
fn explode_step(api: &mut SandApi, power: u8, spread_fire: bool, Ghost(start): Ghost<SandApi>)
    requires
        old(api).continues(start),
    ensures
        final(api).continues(*old(api)),
        final(api).scene() == explode(
            old(api).ctx(),
            old(api).scene(),
            power,
            spread_fire,
            final(api).new_draws(start),
            old(api).draws().len() - start.draws().len(),
        ),
        bounds(final(api).new_draws(start)) == bounds(old(api).new_draws(start)) + explode_draws(old(api).ctx(), old(api).scene(), power, spread_fire, final(api).new_draws(start), old(api).draws().len() - start.draws().len()),
{
    api.set(0, 0, Cell::empty());
    let doubled: u16 = power as u16 * 2;
    let pressure: u8 = if doubled > 255 { 255 } else { doubled as u8 };
    let density = power;
    api.set_fluid(Wind { dx: 0, dy: 0, pressure, density });
    let ghost c = api.ctx();
    let ghost s1 = api.scene();
    let ghost k0 = api.draws().len() - start.draws().len();
    let mut dx: i32 = -2;
    while dx <= 2
        invariant
            -2 <= dx <= 3,
            api.continues(*old(api)),
            old(api).continues(start),
            c == old(api).ctx(),
            pressure == blast_pressure(power),
            density == power,
            0 <= k0,
            (api.scene(), api.draws().len() - start.draws().len()) == blast_spread(
                c,
                s1,
                power,
                spread_fire,
                api.new_draws(start),
                5 * (dx + 2),
                k0,
            ),
            k0 == old(api).draws().len() - start.draws().len(),
            forall|j: int| old(api).draws().len() <= j < api.draws().len() ==> #[trigger] api.draws()[j].0 == 2,
        decreases 3 - dx,
    {
        let mut dy: i32 = -2;
        while dy <= 2
            invariant
                -2 <= dx <= 2,
                -2 <= dy <= 3,
                api.continues(*old(api)),
                old(api).continues(start),
                c == old(api).ctx(),
                pressure == blast_pressure(power),
                density == power,
                0 <= k0,
                (api.scene(), api.draws().len() - start.draws().len()) == blast_spread(
                    c,
                    s1,
                    power,
                    spread_fire,
                    api.new_draws(start),
                    5 * (dx + 2) + dy + 2,
                    k0,
                ),
                k0 == old(api).draws().len() - start.draws().len(),
                forall|j: int| old(api).draws().len() <= j < api.draws().len() ==> #[trigger] api.draws()[j].0 == 2,
            decreases 3 - dy,
        {
            let ghost before = *api;
            let ghost i = 5 * (dx + 2) + dy + 2;
            assert(blast_offset(i) == (dx as int, dy as int));
            if dx != 0 || dy != 0 {
                let cell = api.get(dx, dy);
                if cell.species != Species::Wall && cell.species != Species::Empty && cell.species != Species::Void
                    && cell.species != Species::Shield {
                    if spread_fire && api.once_in(2) {
                        api.set(dx, dy, Cell { species: Species::Fire, ra: 150, rb: 0, clock: 0 });
                    }
                }
                let fluid = api.get_fluid();
                if fluid.pressure < pressure {
                    api.set_fluid(
                        Wind {
                            dx: (dx * 30) as u8,
                            dy: (dy * 30) as u8,
                            pressure: pressure / 3,
                            density: density / 2,
                        },
                    );
                }
            }
            proof {
                lemma_new_draws_extend(start, before, *api);
                lemma_blast_spread_stable(c, s1, power, spread_fire, before.new_draws(start), api.new_draws(start), i, k0);
            }
            dy = dy + 1;
        }
        dx = dx + 1;
    }
    proof {
        let n = start.draws().len() as int;
        let m = old(api).draws().len() as int;
        assert(bounds(api.new_draws(start)) =~= bounds(old(api).new_draws(start)) + Seq::new(
            (api.draws().len() - m) as nat,
            |i: int| 2int,
        )) by {
            assert forall|j: int| 0 <= j < m - n implies #[trigger] api.draws()[n + j] == old(api).draws()[n + j] by {}
        }
    }
}

/// A falling explosive (see `falling_explosive`), ending the turn.
fn falling_explosive_step(cell: Cell, api: &mut SandApi, trigger: bool, power: u8, Ghost(start): Ghost<SandApi>)
    requires
        old(api).continues(start),
    ensures
        final(api).continues(*old(api)),
        final(api).scene() == falling_explosive(
            old(api).ctx(),
            old(api).scene(),
            cell,
            trigger,
            power,
            final(api).new_draws(start),
            old(api).draws().len() - start.draws().len(),
        ),
        bounds(final(api).new_draws(start)) == bounds(old(api).new_draws(start)) + falling_explosive_draws(old(api).ctx(), old(api).scene(), cell, trigger, power, final(api).new_draws(start), old(api).draws().len() - start.draws().len()),
{
    if trigger {
        explode_step(api, power, true, Ghost(start));
        return;
    }
    let dx = api.rand_dir_2();
    let below = api.get(0, 1);
    if below.species == Species::Empty {
        api.set(0, 0, Cell::empty());
        api.set(0, 1, cell);
    } else if api.get(dx, 1).species == Species::Empty {
        api.set(0, 0, Cell::empty());
        api.set(dx, 1, cell);
    } else {
        api.set(0, 0, cell);
    }
}

/// The fall of a radioactive metal (see `heavy_fall_plutonium`), ending
/// the turn.
fn heavy_fall_plutonium_step(cell: Cell, api: &mut SandApi)
    requires
        old(api).wf(),
    ensures
        final(api).continues(*old(api)),
        final(api).draws() == old(api).draws(),
        final(api).scene() == heavy_fall_plutonium(old(api).ctx(), old(api).scene(), cell),
{
    let below = api.get(0, 1);
    if below.species == Species::Empty {
        api.set(0, 0, Cell::empty());
        api.set(0, 1, cell);
    } else if below.species == Species::Water || below.species == Species::Oil || below.species == Species::Gas
        || below.species == Species::Acid {
        api.set(0, 0, below);
        api.set(0, 1, cell);
    } else {
        api.set(0, 0, cell);
    }
}

/// One turn of TNT (see `tnt_rule`).
pub fn update_tnt(cell: Cell, api: &mut SandApi)
    requires
        old(api).wf(),
    ensures
        final(api).continues(*old(api)),
        final(api).scene() == tnt_rule(old(api).ctx(), old(api).scene(), cell, final(api).new_draws(*old(api))),
        bounds(final(api).new_draws(*old(api))) == tnt_draws(old(api).ctx(), old(api).scene(), cell, final(api).new_draws(*old(api))),
{
    let (dx, dy) = api.rand_vec();
    let nbr = api.get(dx, dy);
    let triggered = nbr.species == Species::Fire || nbr.species == Species::Lava || nbr.species
        == Species::Lightning || nbr.species == Species::PlasmaGas;
    let fluid = api.get_fluid();
    let impact = fluid.pressure > 100;
    falling_explosive_step(cell, api, triggered || impact, 120, Ghost(*old(api)));
}

/// One turn of bomb (see `bomb_rule`).
pub fn update_bomb(cell: Cell, api: &mut SandApi)
    requires
        old(api).wf(),
    ensures
        final(api).continues(*old(api)),
        final(api).scene() == bomb_rule(old(api).ctx(), old(api).scene(), cell, final(api).new_draws(*old(api))),
        bounds(final(api).new_draws(*old(api))) == bomb_draws(old(api).ctx(), old(api).scene(), cell, final(api).new_draws(*old(api))),
{
    let (dx, dy) = api.rand_vec();
    let nbr = api.get(dx, dy);
    let triggered = nbr.species == Species::Fire || nbr.species == Species::Lava || nbr.species
        == Species::Lightning || nbr.species == Species::TNT;
    if triggered {
        explode_step(api, 150, true, Ghost(*old(api)));
        return;
    }
    api.set(0, 0, cell);
}

/// One turn of nitro (see `nitro_rule`).
pub fn update_nitro(cell: Cell, api: &mut SandApi)
    requires
        old(api).wf(),
    ensures
        final(api).continues(*old(api)),
        final(api).scene() == nitro_rule(old(api).ctx(), old(api).scene(), cell, final(api).new_draws(*old(api))),
        bounds(final(api).new_draws(*old(api))) == nitro_draws(old(api).ctx(), old(api).scene(), cell, final(api).new_draws(*old(api))),
{
    let (dx, dy) = api.rand_vec();
    let nbr = api.get(dx, dy);
    let fluid = api.get_fluid();
    if nbr.species == Species::Fire || nbr.species == Species::Lava || fluid.pressure > 40 || nbr.species
        != Species::Empty {
        explode_step(api, 180, true, Ghost(*old(api)));
        return;
    }
    let below = api.get(0, 1);
    if below.species == Species::Empty && api.once_in(2) {
        api.set(0, 0, Cell::empty());
        api.set(0, 1, cell);
    } else {
        api.set(0, 0, cell);
    }
}

/// One turn of plutonium (see `plutonium_rule`).
pub fn update_plutonium(cell: Cell, api: &mut SandApi)
    requires
        old(api).wf(),
    ensures
        final(api).continues(*old(api)),
        final(api).scene() == plutonium_rule(old(api).ctx(), old(api).scene(), cell, final(api).new_draws(*old(api))),
        bounds(final(api).new_draws(*old(api))) == plutonium_draws(old(api).ctx(), old(api).scene(), cell, final(api).new_draws(*old(api))),
{
    api.set_fluid(Wind { dx: 0, dy: 0, pressure: 5, density: 80 });
    let (dx, dy) = api.rand_vec();
    let nbr = api.get(dx, dy);
    if nbr.species != Species::Empty && nbr.species != Species::Wall && nbr.species != Species::Plutonium {
        if api.once_in(30) {
            api.set(dx, dy, Cell { species: Species::Fire, ra: 50, rb: 0, clock: 0 });
        }
    }
    heavy_fall_plutonium_step(cell, api);
}

/// One turn of uranium (see `uranium_rule`).
pub fn update_uranium(cell: Cell, api: &mut SandApi)
    requires
        old(api).wf(),
    ensures
        final(api).continues(*old(api)),
        final(api).scene() == uranium_rule(old(api).ctx(), old(api).scene(), cell, final(api).new_draws(*old(api))),
        bounds(final(api).new_draws(*old(api))) == uranium_draws(old(api).ctx(), old(api).scene(), cell, final(api).new_draws(*old(api))),
{
    api.set_fluid(Wind { dx: 0, dy: 0, pressure: 3, density: 60 });
    let (dx, dy) = api.rand_vec();
    let nbr = api.get(dx, dy);
    if nbr.species != Species::Empty && nbr.species != Species::Wall && nbr.species != Species::Uranium
        && nbr.species != Species::Plutonium {
        if api.once_in(50) {
            api.set(dx, dy, Cell { species: Species::Fire, ra: 30, rb: 0, clock: 0 });
        }
    }
    heavy_fall_plutonium_step(cell, api);
}

/// One turn of C4 (see `c4_rule`).
pub fn update_c4(cell: Cell, api: &mut SandApi)
    requires
        old(api).wf(),
    ensures
        final(api).continues(*old(api)),
        final(api).scene() == c4_rule(old(api).ctx(), old(api).scene(), cell, final(api).new_draws(*old(api))),
        bounds(final(api).new_draws(*old(api))) == c4_draws(old(api).ctx(), old(api).scene(), cell, final(api).new_draws(*old(api))),
{
    let edx = api.rand_dir();
    let edy = api.rand_dir();
    let nbr = api.get(edx, edy);
    if nbr.species == Species::Fire || nbr.species == Species::Lava {
        explode_step(api, 160, true, Ghost(*old(api)));
        return;
    }
    falling_explosive_step(cell, api, false, 0, Ghost(*old(api)));
}

/// One turn of thermite (see `thermite_rule`).
pub fn update_thermite(cell: Cell, api: &mut SandApi)
    requires
        old(api).wf(),
    ensures
        final(api).continues(*old(api)),
        final(api).scene() == thermite_rule(old(api).ctx(), old(api).scene(), cell, final(api).new_draws(*old(api))),
        bounds(final(api).new_draws(*old(api))) == thermite_draws(old(api).ctx(), old(api).scene(), cell, final(api).new_draws(*old(api))),
{
    let rb = cell.rb;
    if rb > 0 {
        api.set_fluid(Wind { dx: 0, dy: 0, pressure: 0, density: 200 });
        let below = api.get(0, 1);
        if below.species != Species::Wall && below.species != Species::Void {
            api.set(0, 1, Cell { species: Species::Lava, ra: 200, rb: 0, clock: 0 });
        }
        api.set(0, 0, Cell { rb: rb - 1, ..cell });
        if rb <= 1 {
            api.set(0, 0, Cell::empty());
        }
        return;
    }
    let (dx, dy) = api.rand_vec();
    let nbr = api.get(dx, dy);
    if nbr.species == Species::Fire || nbr.species == Species::Lava {
        api.set(0, 0, Cell { rb: 40, ..cell });
        return;
    }
    falling_explosive_step(cell, api, false, 0, Ghost(*old(api)));
}

/// One turn of napalm (see `napalm_rule`).
pub fn update_napalm(cell: Cell, api: &mut SandApi)
    requires
        old(api).wf(),
    ensures
        final(api).continues(*old(api)),
        final(api).scene() == napalm_rule(old(api).ctx(), old(api).scene(), cell, final(api).new_draws(*old(api))),
        bounds(final(api).new_draws(*old(api))) == napalm_draws(old(api).ctx(), old(api).scene(), cell, final(api).new_draws(*old(api))),
{
    let rb = cell.rb;
    if rb > 0 {
        api.set_fluid(Wind { dx: 0, dy: 0, pressure: 0, density: 180 });
        let (dx, dy) = api.rand_vec();
        let nbr = api.get(dx, dy);
        if nbr.species == Species::Empty && api.once_in(2) {
            api.set(dx, dy, Cell { species: Species::Fire, ra: 150, rb: 0, clock: 0 });
        }
        api.set(0, 0, Cell { rb: rb.saturating_sub(1), ..cell });
        if rb <= 1 {
            api.set(0, 0, Cell { species: Species::Fire, ra: 50, rb: 0, clock: 0 });
        }
        return;
    }
    let (dx, dy) = api.rand_vec();
    if api.get(dx, dy).species == Species::Fire {
        api.set(0, 0, Cell { rb: 30, ..cell });
        return;
    }
    falling_explosive_step(cell, api, false, 0, Ghost(*old(api)));
}

} // verus!
