//! Liquids: water, oil, lava and acid.

use super::gas::flame_at;
use super::Species;
use crate::cell::{Cell, Wind};
use crate::kinds::{fits, kinds, lemma_moveto_kinds, lemma_sset_same_kind, lemma_swap_kinds};
use crate::world::{
    bounds, draw_if, draw, moveto, once, rdir, rvec, sget, sset, sset_fluid, ssub, stay, swap, vec8, Ctx, Draws, SandApi, Scene,
};
use vstd::prelude::*;

verus! {

/// After water spreads sideways it looks at a random neighbour: a water
/// cell whose `ra` parity differs takes this cell's registers.
pub open spec fn water_equalize(c: Ctx, s: Scene, cell: Cell, d: int) -> Scene {
    let r = vec8(d);
    let nbr = sget(c, s, r.0, r.1);
    if nbr.species == Species::Water && nbr.ra % 2 != cell.ra % 2 {
        sset(c, s, r.0, r.1, cell)
    } else {
        s
    }
}

/// Water: falls into empty space or oil below (swapping), where one time in
/// 20 its `ra` is redrawn in 100..150; otherwise flows to the random lower
/// diagonal if empty or oil, or the opposite one if empty. Blocked, it
/// spreads sideways in the direction its `ra` parity picks (even: right):
/// two steps at once (`rb = 6`) when both are empty, one step into empty
/// space or oil (`rb = 3`); otherwise with `rb == 0` it drifts its `ra` by
/// that direction when the other side is empty, or counts `rb` down.
pub open spec fn water_rule(c: Ctx, s: Scene, cell: Cell, ds: Draws) -> Scene {
    let dx = rdir(ds, 0);
    let below = sget(c, s, 0, 1);
    let dx1 = sget(c, s, dx, 1);
    if below.species == Species::Empty || below.species == Species::Oil {
        let ra = if once(ds, 1, 20) { (100 + draw(ds, 2, 50)) as u8 } else { cell.ra };
        swap(c, s, 0, 1, below, Cell { ra, ..cell })
    } else if dx1.species == Species::Empty || dx1.species == Species::Oil {
        swap(c, s, dx, 1, dx1, cell)
    } else if sget(c, s, -dx, 1).species == Species::Empty {
        moveto(c, s, -dx, 1, cell)
    } else {
        let sd: int = if cell.ra % 2 == 0 { 1 } else { -1 };
        let dx0 = sget(c, s, sd, 0);
        let dxd = sget(c, s, sd * 2, 0);
        if dx0.species == Species::Empty && dxd.species == Species::Empty {
            water_equalize(c, swap(c, s, 2 * sd, 0, dxd, Cell { rb: 6, ..cell }), cell, draw(ds, 1, 8))
        } else if dx0.species == Species::Empty || dx0.species == Species::Oil {
            water_equalize(c, swap(c, s, sd, 0, dx0, Cell { rb: 3, ..cell }), cell, draw(ds, 1, 8))
        } else if cell.rb == 0 {
            if sget(c, s, -sd, 0).species == Species::Empty {
                stay(c, s, Cell { ra: (cell.ra + sd) as u8, ..cell })
            } else {
                s
            }
        } else {
            stay(c, s, Cell { rb: (cell.rb - 1) as u8, ..cell })
        }
    }
}

/// Water only moves: it trades places with empty space or oil, and its
/// equalizing step writes water over water, so the count of each species on
/// the grid is kept.
pub proof fn lemma_water_keeps_kinds(c: Ctx, s: Scene, cell: Cell, ds: Draws)
    requires
        fits(c, s),
        cell.species == Species::Water,
        sget(c, s, 0, 0).species == Species::Water,
    ensures
        kinds(water_rule(c, s, cell, ds).cells) == kinds(s.cells),
{
    let dx = rdir(ds, 0);
    let below = sget(c, s, 0, 1);
    let dx1 = sget(c, s, dx, 1);
    if below.species == Species::Empty || below.species == Species::Oil {
        let ra = if once(ds, 1, 20) { (100 + draw(ds, 2, 50)) as u8 } else { cell.ra };
        lemma_swap_kinds(c, s, 0, 1, below, Cell { ra, ..cell });
    } else if dx1.species == Species::Empty || dx1.species == Species::Oil {
        lemma_swap_kinds(c, s, dx, 1, dx1, cell);
    } else if sget(c, s, -dx, 1).species == Species::Empty {
        lemma_moveto_kinds(c, s, -dx, 1, cell);
    } else {
        let sd: int = if cell.ra % 2 == 0 { 1 } else { -1 };
        let dx0 = sget(c, s, sd, 0);
        let dxd = sget(c, s, sd * 2, 0);
        let r = vec8(draw(ds, 1, 8));
        if dx0.species == Species::Empty && dxd.species == Species::Empty {
            let s1 = swap(c, s, 2 * sd, 0, dxd, Cell { rb: 6, ..cell });
            lemma_swap_kinds(c, s, 2 * sd, 0, dxd, Cell { rb: 6, ..cell });
            if sget(c, s1, r.0, r.1).species == Species::Water {
                lemma_sset_same_kind(c, s1, r.0, r.1, cell);
            }
        } else if dx0.species == Species::Empty || dx0.species == Species::Oil {
            let s1 = swap(c, s, sd, 0, dx0, Cell { rb: 3, ..cell });
            lemma_swap_kinds(c, s, sd, 0, dx0, Cell { rb: 3, ..cell });
            if sget(c, s1, r.0, r.1).species == Species::Water {
                lemma_sset_same_kind(c, s1, r.0, r.1, cell);
            }
        } else if cell.rb == 0 {
            lemma_sset_same_kind(c, s, 0, 0, Cell { ra: (cell.ra + sd) as u8, ..cell });
        } else {
            lemma_sset_same_kind(c, s, 0, 0, Cell { rb: (cell.rb - 1) as u8, ..cell });
        }
    }
}

/// Whether burning oil's neighbour sets unlit oil alight.
pub open spec fn oil_ignites(rb: u8, nbr: Cell) -> bool {
    rb == 0 && nbr.species == Species::Fire || nbr.species == Species::Lava || (nbr.species
        == Species::Oil && nbr.rb > 1 && nbr.rb < 20)
}

/// Oil: `rb` is a burn timer (0 unlit, 1 spent, higher burning). It is lit
/// (`rb = 50`) by fire next to unlit oil, by lava, or by burning oil with
/// `rb` in 2..20. Burning oil counts down, heats its burn, throws a flame
/// (`ra` in 20..50) into an empty neighbour when `rb` is not a multiple of
/// 4, and is put out by water (`ra = 50`). Spent oil turns into an empty
/// cell with `rb = 90`. Then it flows like a liquid: down, either lower
/// diagonal, either side, or stays.
pub open spec fn oil_rule(c: Ctx, s: Scene, cell: Cell, ds: Draws) -> Scene {
    let rb = cell.rb;
    let v = rvec(ds, 0);
    let nbr = sget(c, s, v.0, v.1);
    let lit = if oil_ignites(rb, nbr) {
        Cell { species: Species::Oil, ra: cell.ra, rb: 50, clock: 0 }
    } else {
        cell
    };
    if rb == 1 {
        stay(c, s, Cell { species: Species::Empty, ra: cell.ra, rb: 90, clock: 0 })
    } else {
        let s1 = if rb > 1 {
            let h = sset_fluid(c, s, Wind { dx: 0, dy: 10, pressure: 10, density: 180 });
            if rb % 4 != 0 && nbr.species == Species::Empty && nbr.species != Species::Water {
                sset(c, h, v.0, v.1, Cell { species: Species::Fire, ra: (20 + draw(ds, 1, 30)) as u8, rb: 0, clock: 0 })
            } else {
                h
            }
        } else {
            s
        };
        let new_cell = if rb > 1 {
            if nbr.species == Species::Water {
                Cell { species: Species::Oil, ra: 50, rb: 0, clock: 0 }
            } else {
                Cell { species: Species::Oil, ra: cell.ra, rb: (rb - 1) as u8, clock: 0 }
            }
        } else {
            lit
        };
        let dx = v.0;
        if sget(c, s1, 0, 1).species == Species::Empty {
            moveto(c, s1, 0, 1, new_cell)
        } else if sget(c, s1, dx, 1).species == Species::Empty {
            moveto(c, s1, dx, 1, new_cell)
        } else if sget(c, s1, -dx, 1).species == Species::Empty {
            moveto(c, s1, -dx, 1, new_cell)
        } else if sget(c, s1, dx, 0).species == Species::Empty {
            moveto(c, s1, dx, 0, new_cell)
        } else if sget(c, s1, -dx, 0).species == Species::Empty {
            moveto(c, s1, -dx, 0, new_cell)
        } else {
            stay(c, s1, new_cell)
        }
    }
}

/// Lava: heats its burn; ignites gas or dust in a random direction; turns
/// water there into nothing while itself cooling into stone; otherwise
/// falls down, to the random lower diagonal or sideways into empty space,
/// or stays.
pub open spec fn lava_rule(c: Ctx, s: Scene, cell: Cell, ds: Draws) -> Scene {
    let s0 = sset_fluid(c, s, Wind { dx: 0, dy: 10, pressure: 0, density: 60 });
    let v = rvec(ds, 0);
    let t = sget(c, s0, v.0, v.1).species;
    let s1 = if t == Species::Gas || t == Species::Dust {
        sset(c, s0, v.0, v.1, flame_at(v.0, v.1))
    } else {
        s0
    };
    if sget(c, s1, v.0, v.1).species == Species::Water {
        sset(c, stay(c, s1, Cell { species: Species::Stone, ..flame_at(v.0, v.1) }), v.0, v.1, Cell::empty())
    } else if sget(c, s1, 0, 1).species == Species::Empty {
        moveto(c, s1, 0, 1, cell)
    } else if sget(c, s1, v.0, 1).species == Species::Empty {
        moveto(c, s1, v.0, 1, cell)
    } else if sget(c, s1, v.0, 0).species == Species::Empty {
        moveto(c, s1, v.0, 0, cell)
    } else {
        stay(c, s1, cell)
    }
}

/// Whether acid can eat a cell of species `t`: anything but wall, acid and
/// a shield (which blocks acid).
pub open spec fn corrodes(t: Species) -> bool {
    t != Species::Wall && t != Species::Acid && t != Species::Shield
}

/// Acid: moves down, or to a random side, or the other side into empty
/// space. Blocked, it eats the first of below, that side, the other side
/// and above (above only if not empty) that is not wall, acid or shield, moving
/// there weakened by 60 (dissolving when that leaves `ra` under 80);
/// otherwise it stays.
pub open spec fn acid_rule(c: Ctx, s: Scene, cell: Cell, ds: Draws) -> Scene {
    let dx = rdir(ds, 0);
    let weak = ssub(cell.ra, 60);
    let degraded = if weak < 80 { Cell::empty() } else { Cell { ra: weak, ..cell } };
    if sget(c, s, 0, 1).species == Species::Empty {
        moveto(c, s, 0, 1, cell)
    } else if sget(c, s, dx, 0).species == Species::Empty {
        moveto(c, s, dx, 0, cell)
    } else if sget(c, s, -dx, 0).species == Species::Empty {
        moveto(c, s, -dx, 0, cell)
    } else if corrodes(sget(c, s, 0, 1).species) {
        moveto(c, s, 0, 1, degraded)
    } else if corrodes(sget(c, s, dx, 0).species) {
        moveto(c, s, dx, 0, degraded)
    } else if corrodes(sget(c, s, -dx, 0).species) {
        moveto(c, s, -dx, 0, degraded)
    } else if corrodes(sget(c, s, 0, -1).species) && sget(c, s, 0, -1).species != Species::Empty {
        moveto(c, s, 0, -1, degraded)
    } else {
        stay(c, s, cell)
    }
}

/// The bounds of the draws water makes (see `water_rule`): a `rand_dir`;
/// falling, a `once_in(20)` and, on a hit, the new colour; spreading
/// sideways, a `rand_vec_8` for the neighbour it equalizes with.
pub open spec fn water_draws(c: Ctx, s: Scene, cell: Cell, ds: Draws) -> Seq<int> {
    let dx = rdir(ds, 0);
    let below = sget(c, s, 0, 1);
    let dx1 = sget(c, s, dx, 1);
    if below.species == Species::Empty || below.species == Species::Oil {
        seq![1000, 20] + draw_if(once(ds, 1, 20), 50)
    } else if dx1.species == Species::Empty || dx1.species == Species::Oil || sget(c, s, -dx, 1).species
        == Species::Empty {
        seq![1000]
    } else {
        let sd: int = if cell.ra % 2 == 0 { 1 } else { -1 };
        let dx0 = sget(c, s, sd, 0);
        seq![1000] + draw_if(dx0.species == Species::Empty || dx0.species == Species::Oil, 8)
    }
}

/// The bounds of the draws oil makes: a `rand_vec`, and the colour of a
/// flame it throws.
pub open spec fn oil_draws(c: Ctx, s: Scene, cell: Cell, ds: Draws) -> Seq<int> {
    let v = rvec(ds, 0);
    let nbr = sget(c, s, v.0, v.1);
    seq![2000] + draw_if(cell.rb > 1 && cell.rb % 4 != 0 && nbr.species == Species::Empty, 30)
}

/// The bounds of the draws lava makes: a `rand_vec`.
pub open spec fn lava_draws(c: Ctx, s: Scene, cell: Cell, ds: Draws) -> Seq<int> {
    seq![2000]
}

/// The bounds of the draws acid makes: a `rand_dir`.
pub open spec fn acid_draws(c: Ctx, s: Scene, cell: Cell, ds: Draws) -> Seq<int> {
    seq![1000]
}

/// One turn of water (see `water_rule`).
pub fn update_water(cell: Cell, api: &mut SandApi)
    requires
        old(api).wf(),
    ensures
        final(api).continues(*old(api)),
        final(api).scene() == water_rule(old(api).ctx(), old(api).scene(), cell, final(api).new_draws(*old(api))),
        bounds(final(api).new_draws(*old(api))) == water_draws(old(api).ctx(), old(api).scene(), cell, final(api).new_draws(*old(api))),
{
    let mut dx = api.rand_dir();
    let below = api.get(0, 1);
    let dx1 = api.get(dx, 1);
    if below.species == Species::Empty || below.species == Species::Oil {
        api.set(0, 0, below);
        let mut ra = cell.ra;
        if api.once_in(20) {
            ra = 100 + api.rand_int(50) as u8;
        }
        api.set(0, 1, Cell { ra, ..cell });
        return;
    } else if dx1.species == Species::Empty || dx1.species == Species::Oil {
        api.set(0, 0, dx1);
        api.set(dx, 1, cell);
        return;
    } else if api.get(-dx, 1).species == Species::Empty {
        api.set(0, 0, Cell::empty());
        api.set(-dx, 1, cell);
        return;
    }
    let left = cell.ra % 2 == 0;
    dx = if left { 1 } else { -1 };
    let dx0 = api.get(dx, 0);
    let dxd = api.get(dx * 2, 0);
    if dx0.species == Species::Empty && dxd.species == Species::Empty {
        api.set(0, 0, dxd);
        api.set(2 * dx, 0, Cell { rb: 6, ..cell });
        let (rdx, rdy) = api.rand_vec_8();
        let nbr = api.get(rdx, rdy);
        if nbr.species == Species::Water {
            if nbr.ra % 2 != cell.ra % 2 {
                api.set(rdx, rdy, Cell { ra: cell.ra, ..cell })
            }
        }
    } else if dx0.species == Species::Empty || dx0.species == Species::Oil {
        api.set(0, 0, dx0);
        api.set(dx, 0, Cell { rb: 3, ..cell });
        let (rdx, rdy) = api.rand_vec_8();
        let nbr = api.get(rdx, rdy);
        if nbr.species == Species::Water {
            if nbr.ra % 2 != cell.ra % 2 {
                api.set(rdx, rdy, Cell { ra: cell.ra, ..cell })
            }
        }
    } else if cell.rb == 0 {
        if api.get(-dx, 0).species == Species::Empty {
            api.set(0, 0, Cell { ra: ((cell.ra as i32) + dx) as u8, ..cell });
        }
    } else {
        api.set(0, 0, Cell { rb: cell.rb - 1, ..cell });
    }
}

/// One turn of oil (see `oil_rule`).
pub fn update_oil(cell: Cell, api: &mut SandApi)
    requires
        old(api).wf(),
    ensures
        final(api).continues(*old(api)),
        final(api).scene() == oil_rule(old(api).ctx(), old(api).scene(), cell, final(api).new_draws(*old(api))),
        bounds(final(api).new_draws(*old(api))) == oil_draws(old(api).ctx(), old(api).scene(), cell, final(api).new_draws(*old(api))),
{
    let rb = cell.rb;
    let (dx, dy) = api.rand_vec();
    let mut new_cell = cell;
    let nbr = api.get(dx, dy);
    if rb == 0 && nbr.species == Species::Fire || nbr.species == Species::Lava || (nbr.species
        == Species::Oil && nbr.rb > 1 && nbr.rb < 20) {
        new_cell = Cell { species: Species::Oil, ra: cell.ra, rb: 50, clock: 0 };
    }
    if rb > 1 {
        new_cell = Cell { species: Species::Oil, ra: cell.ra, rb: rb - 1, clock: 0 };
        api.set_fluid(Wind { dx: 0, dy: 10, pressure: 10, density: 180 });
        if rb % 4 != 0 && nbr.species == Species::Empty && nbr.species != Species::Water {
            let ra = 20 + api.rand_int(30) as u8;
            api.set(dx, dy, Cell { species: Species::Fire, ra, rb: 0, clock: 0 });
        }
        if nbr.species == Species::Water {
            new_cell = Cell { species: Species::Oil, ra: 50, rb: 0, clock: 0 };
        }
    } else if rb == 1 {
        api.set(0, 0, Cell { species: Species::Empty, ra: cell.ra, rb: 90, clock: 0 });
        return;
    }
    if api.get(0, 1).species == Species::Empty {
        api.set(0, 0, Cell::empty());
        api.set(0, 1, new_cell);
    } else if api.get(dx, 1).species == Species::Empty {
        api.set(0, 0, Cell::empty());
        api.set(dx, 1, new_cell);
    } else if api.get(-dx, 1).species == Species::Empty {
        api.set(0, 0, Cell::empty());
        api.set(-dx, 1, new_cell);
    } else if api.get(dx, 0).species == Species::Empty {
        api.set(0, 0, Cell::empty());
        api.set(dx, 0, new_cell);
    } else if api.get(-dx, 0).species == Species::Empty {
        api.set(0, 0, Cell::empty());
        api.set(-dx, 0, new_cell);
    } else {
        api.set(0, 0, new_cell);
    }
}

/// One turn of lava (see `lava_rule`).
pub fn update_lava(cell: Cell, api: &mut SandApi)
    requires
        old(api).wf(),
    ensures
        final(api).continues(*old(api)),
        final(api).scene() == lava_rule(old(api).ctx(), old(api).scene(), cell, final(api).new_draws(*old(api))),
        bounds(final(api).new_draws(*old(api))) == lava_draws(old(api).ctx(), old(api).scene(), cell, final(api).new_draws(*old(api))),
{
    api.set_fluid(Wind { dx: 0, dy: 10, pressure: 0, density: 60 });
    let (dx, dy) = api.rand_vec();
    if api.get(dx, dy).species == Species::Gas || api.get(dx, dy).species == Species::Dust {
        api.set(dx, dy, Cell { species: Species::Fire, ra: (150 + (dx + dy) * 10) as u8, rb: 0, clock: 0 });
    }
    let sample = api.get(dx, dy);
    if sample.species == Species::Water {
        api.set(0, 0, Cell { species: Species::Stone, ra: (150 + (dx + dy) * 10) as u8, rb: 0, clock: 0 });
        api.set(dx, dy, Cell::empty());
    } else if api.get(0, 1).species == Species::Empty {
        api.set(0, 0, Cell::empty());
        api.set(0, 1, cell);
    } else if api.get(dx, 1).species == Species::Empty {
        api.set(0, 0, Cell::empty());
        api.set(dx, 1, cell);
    } else if api.get(dx, 0).species == Species::Empty {
        api.set(0, 0, Cell::empty());
        api.set(dx, 0, cell);
    } else {
        api.set(0, 0, cell);
    }
}

/// One turn of acid (see `acid_rule`).
#[verifier::rlimit(50)]
#[verifier::spinoff_prover]
pub fn update_acid(cell: Cell, api: &mut SandApi)
    requires
        old(api).wf(),
    ensures
        final(api).continues(*old(api)),
        final(api).scene() == acid_rule(old(api).ctx(), old(api).scene(), cell, final(api).new_draws(*old(api))),
        bounds(final(api).new_draws(*old(api))) == acid_draws(old(api).ctx(), old(api).scene(), cell, final(api).new_draws(*old(api))),
{
    let dx = api.rand_dir();
    let ra = cell.ra;
    let mut degraded = cell.clone();
    degraded.ra = ra.saturating_sub(60);
    if degraded.ra < 80 {
        degraded = Cell::empty();
    }
    if api.get(0, 1).species == Species::Empty {
        api.set(0, 0, Cell::empty());
        api.set(0, 1, cell);
    } else if api.get(dx, 0).species == Species::Empty {
        api.set(0, 0, Cell::empty());
        api.set(dx, 0, cell);
    } else if api.get(-dx, 0).species == Species::Empty {
        api.set(0, 0, Cell::empty());
        api.set(-dx, 0, cell);
    } else {
        let below = api.get(0, 1).species;
        let side = api.get(dx, 0).species;
        let other = api.get(-dx, 0).species;
        let above = api.get(0, -1).species;
        if below != Species::Wall && below != Species::Acid && below != Species::Shield {
            api.set(0, 0, Cell::empty());
            api.set(0, 1, degraded);
        } else if side != Species::Wall && side != Species::Acid && side != Species::Shield {
            api.set(0, 0, Cell::empty());
            api.set(dx, 0, degraded);
        } else if other != Species::Wall && other != Species::Acid && other != Species::Shield {
            api.set(0, 0, Cell::empty());
            api.set(-dx, 0, degraded);
        } else if above != Species::Wall && above != Species::Acid && above != Species::Shield && above
            != Species::Empty {
            api.set(0, 0, Cell::empty());
            api.set(0, -1, degraded);
        } else {
            api.set(0, 0, cell);
        }
    }
}

/// Water falls into empty space below and sinks below oil (water is denser
/// than oil): it trades places with the cell below, keeping its registers
/// but `ra`, which may be redrawn.
pub proof fn lemma_water_falls_and_sinks_below_oil(c: Ctx, s: Scene, cell: Cell, ds: Draws)
    requires
        sget(c, s, 0, 1).species == Species::Empty || sget(c, s, 0, 1).species == Species::Oil,
    ensures
        exists|ra: u8| water_rule(c, s, cell, ds) == swap(c, s, 0, 1, sget(c, s, 0, 1), Cell { ra, ..cell }),
{
    let ra = if once(ds, 1, 20) { (100 + draw(ds, 2, 50)) as u8 } else { cell.ra };
    assert(water_rule(c, s, cell, ds) == swap(c, s, 0, 1, sget(c, s, 0, 1), Cell { ra, ..cell }));
}

/// Water held up below and on both lower diagonals by anything but empty
/// space or oil spreads sideways: when the side its `ra` parity picks (even:
/// right) is empty, it leaves its place empty.
pub proof fn lemma_blocked_water_spreads(c: Ctx, s: Scene, cell: Cell, ds: Draws)
    requires
        fits(c, s),
        sget(c, s, 0, 0).species == Species::Water,
        cell.species == Species::Water,
        sget(c, s, 0, 1).species != Species::Empty && sget(c, s, 0, 1).species != Species::Oil,
        sget(c, s, -1, 1).species != Species::Empty && sget(c, s, -1, 1).species != Species::Oil,
        sget(c, s, 1, 1).species != Species::Empty && sget(c, s, 1, 1).species != Species::Oil,
        sget(c, s, if cell.ra % 2 == 0 { 1 } else { -1 }, 0).species == Species::Empty,
    ensures
        sget(c, water_rule(c, s, cell, ds), 0, 0).species == Species::Empty,
{
    let sd: int = if cell.ra % 2 == 0 { 1 } else { -1 };
    let dxd = sget(c, s, sd * 2, 0);
    let dx0 = sget(c, s, sd, 0);
    crate::world::lemma_index_bounds(c.width, c.height, c.x, c.y);
    let r = vec8(draw(ds, 1, 8));
    let s1 = if dxd.species == Species::Empty {
        swap(c, s, 2 * sd, 0, dxd, Cell { rb: 6, ..cell })
    } else {
        swap(c, s, sd, 0, dx0, Cell { rb: 3, ..cell })
    };
    if dxd.species == Species::Empty {
        crate::world::lemma_index_bounds(c.width, c.height, c.x + 2 * sd, c.y);
        lemma_swap_kinds(c, s, 2 * sd, 0, dxd, Cell { rb: 6, ..cell });
    } else {
        crate::world::lemma_index_bounds(c.width, c.height, c.x + sd, c.y);
        lemma_swap_kinds(c, s, sd, 0, dx0, Cell { rb: 3, ..cell });
    }
    assert(sget(c, s1, 0, 0).species == Species::Empty);
    if crate::world::in_grid(c, c.x + r.0, c.y + r.1) {
        crate::world::lemma_index_bounds(c.width, c.height, c.x + r.0, c.y + r.1);
    }
}

/// Oil that is not burning falls into empty space below: its place is left
/// empty and oil lies below.
pub proof fn lemma_oil_falls(c: Ctx, s: Scene, cell: Cell, ds: Draws)
    requires
        fits(c, s),
        cell.species == Species::Oil,
        cell.rb == 0,
        sget(c, s, 0, 1).species == Species::Empty,
    ensures
        sget(c, oil_rule(c, s, cell, ds), 0, 0).species == Species::Empty,
        sget(c, oil_rule(c, s, cell, ds), 0, 1).species == Species::Oil,
{
    crate::world::lemma_index_bounds(c.width, c.height, c.x, c.y);
    crate::world::lemma_index_bounds(c.width, c.height, c.x, c.y + 1);
}

/// Lava with no water around it falls into empty space below; lava that
/// finds water in the random direction it looks turns to stone and
/// empties that water's cell.
pub proof fn lemma_lava_falls_and_sets_in_water(c: Ctx, s: Scene, cell: Cell, ds: Draws)
    requires
        fits(c, s),
        cell.species == Species::Lava,
        sget(c, s, 0, 0).species == Species::Lava,
    ensures
        (forall|dx: int, dy: int| -1 <= dx <= 1 && -1 <= dy <= 1 ==> #[trigger] sget(c, s, dx, dy).species != Species::Water)
            && sget(c, s, 0, 1).species == Species::Empty ==> sget(c, lava_rule(c, s, cell, ds), 0, 0).species
            == Species::Empty && sget(c, lava_rule(c, s, cell, ds), 0, 1).species == Species::Lava,
        sget(c, s, rvec(ds, 0).0, rvec(ds, 0).1).species == Species::Water ==> sget(c, lava_rule(c, s, cell, ds), 0, 0).species
            == Species::Stone && sget(c, lava_rule(c, s, cell, ds), rvec(ds, 0).0, rvec(ds, 0).1).species == Species::Empty,
{
    let v = rvec(ds, 0);
    crate::world::lemma_index_bounds(c.width, c.height, c.x, c.y);
    if crate::world::in_grid(c, c.x, c.y + 1) {
        crate::world::lemma_index_bounds(c.width, c.height, c.x, c.y + 1);
    }
    if crate::world::in_grid(c, c.x + v.0, c.y + v.1) {
        crate::world::lemma_index_bounds(c.width, c.height, c.x + v.0, c.y + v.1);
    }
    assert(-1 <= v.0 <= 1 && -1 <= v.1 <= 1);
    assert(sget(c, s, v.0, v.1).species == sget(c, s, v.0, v.1).species);
}

/// Acid falls into empty space below, and never eats a wall, a shield or
/// other acid: every such cell but its own stays as it was.
pub proof fn lemma_acid_spares_walls_shields_and_acid(c: Ctx, s: Scene, cell: Cell, ds: Draws)
    requires
        fits(c, s),
    ensures
        sget(c, s, 0, 1).species == Species::Empty ==> acid_rule(c, s, cell, ds) == moveto(c, s, 0, 1, cell),
        forall|i: int|
            0 <= i < s.cells.len() && i != crate::world::grid_index(c.height, c.x, c.y) && (s.cells[i].species
                == Species::Wall || s.cells[i].species == Species::Shield || s.cells[i].species == Species::Acid)
                ==> #[trigger] acid_rule(c, s, cell, ds).cells[i] == s.cells[i],
{
    let dx = rdir(ds, 0);
    crate::world::lemma_index_bounds(c.width, c.height, c.x, c.y);
    if crate::world::in_grid(c, c.x, c.y + 1) {
        crate::world::lemma_index_bounds(c.width, c.height, c.x, c.y + 1);
    }
    if crate::world::in_grid(c, c.x, c.y - 1) {
        crate::world::lemma_index_bounds(c.width, c.height, c.x, c.y - 1);
    }
    if crate::world::in_grid(c, c.x + dx, c.y) {
        crate::world::lemma_index_bounds(c.width, c.height, c.x + dx, c.y);
    }
    if crate::world::in_grid(c, c.x - dx, c.y) {
        crate::world::lemma_index_bounds(c.width, c.height, c.x - dx, c.y);
    }
}

} // verus!
