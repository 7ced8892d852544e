//! Ice, the cloner and the rocket.

use super::falling::sinks_through;
use super::{lemma_number_round_trip, species_number, species_of_number, Species, SPECIES_COUNT};
use crate::cell::Cell;
use crate::kinds::fits;
use crate::utils::{adjacency_left, adjacency_right, join_dy_dx, spec_adjacency_left, spec_adjacency_right, split_dy_dx};
use crate::world::{
    bounds, draw_if, draw, fresh_cell, moveto, once, rdir, rvec, rvec8, sfluid, sget, sset, stay, swap, Ctx, Draws, SandApi, Scene,
};
use vstd::prelude::*;

verus! {

/// Ice: melts into water (keeping `ra`) under air pressure above 120;
/// otherwise melts (keeping `ra` and `rb`) next to fire or lava in a random
/// direction, or freezes water there on a draw below 7.
pub open spec fn ice_rule(c: Ctx, s: Scene, cell: Cell, ds: Draws) -> Scene {
    let v = rvec(ds, 0);
    let i = draw(ds, 1, 100);
    if sfluid(c).pressure > 120 && once(ds, 2, 1) {
        stay(c, s, Cell { species: Species::Water, ra: cell.ra, rb: 0, clock: 0 })
    } else {
        let nbr = sget(c, s, v.0, v.1).species;
        if nbr == Species::Fire || nbr == Species::Lava {
            stay(c, s, Cell { species: Species::Water, ra: cell.ra, rb: cell.rb, clock: 0 })
        } else if nbr == Species::Water && i < 7 {
            sset(c, s, v.0, v.1, Cell { species: Species::Ice, ra: cell.ra, rb: cell.rb, clock: 0 })
        } else {
            s
        }
    }
}

/// The brightness a cloner adds to its copies: `|g % 127 - 60|`.
pub open spec fn cloner_glow(g: u8) -> int {
    let a = g % 127 - 60;
    if a < 0 {
        -a
    } else {
        a
    }
}

/// One neighbour `(cdx, cdy)` of the cloner's scan, given the scene, the
/// draws used so far (`k`) and the species being cloned: the scene after,
/// the draws used after, the species cloned after, and whether the scan of
/// this column stops. An unset cloner (`rb == 0`) adopts the first
/// neighbour that is not empty, cloner or wall (storing its number in
/// `rb`, `ra = 200`); a set one fills an empty neighbour with its species
/// on a draw above 90.
pub open spec fn cloner_try(
    c: Ctx,
    s: Scene,
    cell: Cell,
    clone: Species,
    cdx: int,
    cdy: int,
    ds: Draws,
    k: int,
) -> (Scene, int, Species, bool) {
    if cell.rb == 0 {
        let t = sget(c, s, cdx, cdy).species;
        if t != Species::Empty && t != Species::Cloner && t != Species::Wall {
            (stay(c, s, Cell { species: cell.species, ra: 200, rb: species_number(t), clock: 0 }), k, t, true)
        } else {
            (s, k, clone, false)
        }
    } else if draw(ds, k, 100) > 90 && sget(c, s, cdx, cdy).species == Species::Empty {
        (
            sset(
                c,
                s,
                cdx,
                cdy,
                Cell { species: clone, ra: (80 + draw(ds, k + 1, 30) + cloner_glow(c.generation)) as u8, rb: 0, clock: 0 },
            ),
            k + 2,
            clone,
            true,
        )
    } else {
        (s, k + 1, clone, false)
    }
}

/// The cloner's scan from neighbour number `p` on (neighbours are numbered
/// column by column, left to right and top to bottom); once a neighbour
/// acts, the rest of its column is skipped.
pub open spec fn cloner_scan(c: Ctx, s: Scene, cell: Cell, clone: Species, p: int, ds: Draws, k: int) -> Scene
    decreases 9 - p,
{
    if p >= 9 || p < 0 {
        s
    } else {
        let t = cloner_try(c, s, cell, clone, p / 3 - 1, p % 3 - 1, ds, k);
        let next = if t.3 { (p / 3 + 1) * 3 } else { p + 1 };
        cloner_scan(c, t.0, cell, t.2, next, ds, t.1)
    }
}

/// Cloner: scans its neighbours (see `cloner_try` and `cloner_scan`); the
/// species it clones is the one numbered by `rb`.
pub open spec fn cloner_rule(c: Ctx, s: Scene, cell: Cell, ds: Draws) -> Scene {
    cloner_scan(c, s, cell, species_of_number(cell.rb), 0, ds, 0)
}

/// The rockets whose rule can run: an armed rocket must name a species in
/// `rb`, and a flying one (`ra > 50`) must hold a packed step in
/// `ra - 100` (no rule makes other rockets).
pub open spec fn rocket_ok(cell: Cell) -> bool {
    cell.rb == 0 || (cell.rb < SPECIES_COUNT && (cell.ra <= 50 || (100 <= cell.ra <= 111)))
}

/// A rocket's step packed into `ra` (100 plus the packed step).
pub open spec fn packed(dx: int, dy: int) -> u8 {
    (100 + ((dx + 1) * 3 + (dy + 1))) as u8
}

/// Rocket: a new rocket (`rb == 0`) arms (`ra = 0`, `rb = 100`). An armed
/// rocket with `rb == 100` loads the species of a random neighbour that is
/// not empty, rocket, wall or cloner (`ra = 1`, `rb` its number). Then by
/// `ra`: 0 falls like sand; 1 goes to 2; 2 aims at a random neighbour
/// (away from it if occupied); above 50 it flies along its aim two steps
/// at a time through empty space, fire or rockets, leaving two fresh cells
/// of its load (sand for `rb == 100`) and turning its aim left or right
/// one time in five each; blocked, it vanishes.
pub open spec fn rocket_rule(c: Ctx, s: Scene, cell: Cell, ds: Draws) -> Scene {
    if cell.rb == 0 {
        stay(c, s, Cell { ra: 0, rb: 100, ..cell })
    } else {
        let load = if cell.rb != 100 { species_of_number(cell.rb) } else { Species::Sand };
        let sv = rvec(ds, 0);
        let sample = sget(c, s, sv.0, sv.1);
        if cell.rb == 100 && sample.species != Species::Empty && sample.species != Species::Rocket
            && sample.species != Species::Wall && sample.species != Species::Cloner {
            stay(c, s, Cell { ra: 1, rb: species_number(sample.species), ..cell })
        } else if cell.ra == 0 {
            let dx = rdir(ds, 1);
            let nbr = sget(c, s, 0, 1);
            if nbr.species == Species::Empty {
                moveto(c, s, 0, 1, cell)
            } else if sget(c, s, dx, 1).species == Species::Empty {
                moveto(c, s, dx, 1, cell)
            } else if sinks_through(nbr.species) {
                swap(c, s, 0, 1, nbr, cell)
            } else {
                stay(c, s, cell)
            }
        } else if cell.ra == 1 {
            stay(c, s, Cell { ra: 2, ..cell })
        } else if cell.ra == 2 {
            let r = rvec8(ds, 1);
            let aim = if sget(c, s, r.0, r.1).species != Species::Empty { (-r.0, -r.1) } else { r };
            stay(c, s, Cell { ra: packed(aim.0, aim.1), ..cell })
        } else if cell.ra > 50 {
            let st = cell.ra - 100;
            let rdx = st / 3 - 1;
            let rdy = st % 3 - 1;
            let rnbr = sget(c, s, rdx, rdy * 2).species;
            if rnbr == Species::Empty || rnbr == Species::Fire || rnbr == Species::Rocket {
                let s1 = stay(c, s, fresh_cell(load, draw(ds, 1, 50)));
                let s2 = sset(c, s1, 0, rdy, fresh_cell(load, draw(ds, 2, 50)));
                let turn = draw(ds, 3, 100) % 5;
                let n = if turn == 0 {
                    spec_adjacency_left((rdx as i32, rdy as i32))
                } else if turn == 1 {
                    spec_adjacency_right((rdx as i32, rdy as i32))
                } else {
                    (rdx as i32, rdy as i32)
                };
                sset(c, s2, rdx, rdy * 2, Cell { ra: packed(n.0 as int, n.1 as int), ..cell })
            } else {
                stay(c, s, Cell::empty())
            }
        } else {
            s
        }
    }
}

/// Every rocket among `cells` carries a species number in `rb`.
pub open spec fn rockets_loaded(cells: Seq<Cell>) -> bool {
    forall|i: int| 0 <= i < cells.len() && (#[trigger] cells[i]).species == Species::Rocket ==> cells[i].rb < SPECIES_COUNT
}

/// A write of anything but a rocket with an unknown load keeps every rocket
/// loaded.
proof fn lemma_sset_keeps_loaded(c: Ctx, s: Scene, dx: int, dy: int, v: Cell)
    requires
        fits(c, s),
        rockets_loaded(s.cells),
        v.species == Species::Rocket ==> v.rb < SPECIES_COUNT,
    ensures
        fits(c, sset(c, s, dx, dy, v)),
        rockets_loaded(sset(c, s, dx, dy, v).cells),
{
    if in_grid_at(c, dx, dy) {
        crate::world::lemma_index_bounds(c.width, c.height, c.x + dx, c.y + dy);
    }
    let r = sset(c, s, dx, dy, v).cells;
    assert forall|i: int| 0 <= i < r.len() && (#[trigger] r[i]).species == Species::Rocket implies r[i].rb
        < SPECIES_COUNT by {
    }
}

/// Whether offset `(dx, dy)` lies on the grid.
spec fn in_grid_at(c: Ctx, dx: int, dy: int) -> bool {
    crate::world::in_grid(c, c.x + dx, c.y + dy)
}

/// Rockets keep a species number in `rb`: a rocket's turn, on a grid whose
/// rockets all carry one, leaves every rocket on it carrying one, so its
/// load is always a species.
pub proof fn lemma_rockets_stay_loaded(c: Ctx, s: Scene, cell: Cell, ds: Draws)
    requires
        fits(c, s),
        rocket_ok(cell),
        rockets_loaded(s.cells),
    ensures
        rockets_loaded(rocket_rule(c, s, cell, ds).cells),
{
    if cell.rb == 0 {
        lemma_sset_keeps_loaded(c, s, 0, 0, Cell { ra: 0, rb: 100, ..cell });
    } else {
        let load = if cell.rb != 100 { species_of_number(cell.rb) } else { Species::Sand };
        let sv = rvec(ds, 0);
        let sample = sget(c, s, sv.0, sv.1);
        if cell.rb == 100 && sample.species != Species::Empty && sample.species != Species::Rocket
            && sample.species != Species::Wall && sample.species != Species::Cloner {
            lemma_number_round_trip(sample.species);
            lemma_sset_keeps_loaded(c, s, 0, 0, Cell { ra: 1, rb: species_number(sample.species), ..cell });
        } else if cell.ra == 0 {
            let dx = rdir(ds, 1);
            let nbr = sget(c, s, 0, 1);
            let e = sset(c, s, 0, 0, Cell::empty());
            let o = sset(c, s, 0, 0, nbr);
            lemma_sset_keeps_loaded(c, s, 0, 0, Cell::empty());
            lemma_sset_keeps_loaded(c, e, 0, 1, cell);
            lemma_sset_keeps_loaded(c, e, dx, 1, cell);
            lemma_sset_keeps_loaded(c, s, 0, 0, cell);
            if in_grid_at(c, 0, 1) {
                crate::world::lemma_index_bounds(c.width, c.height, c.x, c.y + 1);
            }
            lemma_sset_keeps_loaded(c, s, 0, 0, nbr);
            lemma_sset_keeps_loaded(c, o, 0, 1, cell);
        } else if cell.ra == 1 {
            lemma_sset_keeps_loaded(c, s, 0, 0, Cell { ra: 2, ..cell });
        } else if cell.ra == 2 {
            let r = rvec8(ds, 1);
            let aim = if sget(c, s, r.0, r.1).species != Species::Empty { (-r.0, -r.1) } else { r };
            lemma_sset_keeps_loaded(c, s, 0, 0, Cell { ra: packed(aim.0, aim.1), ..cell });
        } else if cell.ra > 50 {
            let st = cell.ra - 100;
            let rdx = st / 3 - 1;
            let rdy = st % 3 - 1;
            let s1 = stay(c, s, fresh_cell(load, draw(ds, 1, 50)));
            let s2 = sset(c, s1, 0, rdy, fresh_cell(load, draw(ds, 2, 50)));
            lemma_sset_keeps_loaded(c, s, 0, 0, fresh_cell(load, draw(ds, 1, 50)));
            lemma_sset_keeps_loaded(c, s1, 0, rdy, fresh_cell(load, draw(ds, 2, 50)));
            let turn = draw(ds, 3, 100) % 5;
            let n = if turn == 0 {
                spec_adjacency_left((rdx as i32, rdy as i32))
            } else if turn == 1 {
                spec_adjacency_right((rdx as i32, rdy as i32))
            } else {
                (rdx as i32, rdy as i32)
            };
            lemma_sset_keeps_loaded(c, s2, rdx, rdy * 2, Cell { ra: packed(n.0 as int, n.1 as int), ..cell });
            lemma_sset_keeps_loaded(c, s, 0, 0, Cell::empty());
        }
    }
}

/// The bounds of the draws ice makes (see `ice_rule`).
pub open spec fn ice_draws(c: Ctx, s: Scene, cell: Cell, ds: Draws) -> Seq<int> {
    seq![2000, 100] + draw_if(sfluid(c).pressure > 120, 1)
}

/// The bounds of the draws of the cloner's scan from neighbour number `p`
/// on (see `cloner_scan`): a set cloner draws below 100 for each
/// neighbour it looks at, and below 30 for each copy it makes.
pub open spec fn cloner_scan_draws(c: Ctx, s: Scene, cell: Cell, clone: Species, p: int, ds: Draws, k: int) -> Seq<int>
    decreases 9 - p,
{
    if p >= 9 || p < 0 {
        seq![]
    } else {
        let t = cloner_try(c, s, cell, clone, p / 3 - 1, p % 3 - 1, ds, k);
        let next = if t.3 { (p / 3 + 1) * 3 } else { p + 1 };
        let d = if cell.rb == 0 {
            seq![]
        } else if t.3 {
            seq![100, 30]
        } else {
            seq![100]
        };
        d + cloner_scan_draws(c, t.0, cell, t.2, next, ds, t.1)
    }
}

/// The bounds of the draws a cloner makes (see `cloner_rule`).
pub open spec fn cloner_draws(c: Ctx, s: Scene, cell: Cell, ds: Draws) -> Seq<int> {
    cloner_scan_draws(c, s, cell, species_of_number(cell.rb), 0, ds, 0)
}

/// The bounds of the draws a rocket makes (see `rocket_rule`).
pub open spec fn rocket_draws(c: Ctx, s: Scene, cell: Cell, ds: Draws) -> Seq<int> {
    if cell.rb == 0 {
        seq![]
    } else {
        let sv = rvec(ds, 0);
        let sample = sget(c, s, sv.0, sv.1);
        if cell.rb == 100 && sample.species != Species::Empty && sample.species != Species::Rocket
            && sample.species != Species::Wall && sample.species != Species::Cloner {
            seq![2000]
        } else if cell.ra == 0 {
            seq![2000, 1000]
        } else if cell.ra == 2 {
            seq![2000, 8]
        } else if cell.ra > 50 {
            let st = cell.ra - 100;
            let rnbr = sget(c, s, st / 3 - 1, (st % 3 - 1) * 2).species;
            seq![2000] + if rnbr == Species::Empty || rnbr == Species::Fire || rnbr == Species::Rocket {
                seq![50, 50, 100]
            } else {
                seq![]
            }
        } else {
            seq![2000]
        }
    }
}

/// One turn of ice (see `ice_rule`).
pub fn update_ice(cell: Cell, api: &mut SandApi)
    requires
        old(api).wf(),
    ensures
        final(api).continues(*old(api)),
        final(api).scene() == ice_rule(old(api).ctx(), old(api).scene(), cell, final(api).new_draws(*old(api))),
        bounds(final(api).new_draws(*old(api))) == ice_draws(old(api).ctx(), old(api).scene(), cell, final(api).new_draws(*old(api))),
{
    let (dx, dy) = api.rand_vec();
    let i = api.rand_int(100);
    let fluid = api.get_fluid();
    if fluid.pressure > 120 && api.rand_int(1) == 0 {
        api.set(0, 0, Cell { species: Species::Water, ra: cell.ra, rb: 0, clock: 0 });
        return;
    }
    let nbr_species = api.get(dx, dy).species;
    if nbr_species == Species::Fire || nbr_species == Species::Lava {
        api.set(0, 0, Cell { species: Species::Water, ra: cell.ra, rb: cell.rb, clock: 0 });
    } else if nbr_species == Species::Water && i < 7 {
        api.set(dx, dy, Cell { species: Species::Ice, ra: cell.ra, rb: cell.rb, clock: 0 });
    }
}

/// The cloner's scan from neighbour number `p` on (see `cloner_scan`).
fn cloner_scan_step(cell: Cell, api: &mut SandApi, clone: Species, p: i32, Ghost(start): Ghost<SandApi>)
    requires
        old(api).continues(start),
        0 <= p <= 9,
    ensures
        final(api).continues(*old(api)),
        final(api).scene() == cloner_scan(
            old(api).ctx(),
            old(api).scene(),
            cell,
            clone,
            p as int,
            final(api).new_draws(start),
            old(api).draws().len() - start.draws().len(),
        ),
        bounds(final(api).new_draws(start)) == bounds(old(api).new_draws(start)) + cloner_scan_draws(old(api).ctx(), old(api).scene(), cell, clone, p as int, final(api).new_draws(start), old(api).draws().len() - start.draws().len()),
    decreases 9 - p,
{
    if p >= 9 {
        return;
    }
    let cdx = p / 3 - 1;
    let cdy = p % 3 - 1;
    let next_column = (p / 3 + 1) * 3;
    if cell.rb == 0 {
        let nbr_species = api.get(cdx, cdy).species;
        if nbr_species != Species::Empty && nbr_species != Species::Cloner && nbr_species != Species::Wall {
            api.set(0, 0, Cell { species: cell.species, ra: 200, rb: nbr_species.to_u8(), clock: 0 });
            cloner_scan_step(cell, api, nbr_species, next_column, Ghost(start));
        } else {
            cloner_scan_step(cell, api, clone, p + 1, Ghost(start));
        }
    } else {
        let g = api.generation();
        if api.rand_int(100) > 90 && api.get(cdx, cdy).species == Species::Empty {
            let a: i32 = (g % 127) as i32 - 60;
            let glow: u8 = if a < 0 { (-a) as u8 } else { a as u8 };
            let ra = 80 + api.rand_int(30) as u8 + glow;
            api.set(cdx, cdy, Cell { species: clone, ra, rb: 0, clock: 0 });
            cloner_scan_step(cell, api, clone, next_column, Ghost(start));
        } else {
            cloner_scan_step(cell, api, clone, p + 1, Ghost(start));
        }
    }
}

/// One turn of a cloner (see `cloner_rule`).
pub fn update_cloner(cell: Cell, api: &mut SandApi)
    requires
        old(api).wf(),
        cell.rb < SPECIES_COUNT,
    ensures
        final(api).continues(*old(api)),
        final(api).scene() == cloner_rule(old(api).ctx(), old(api).scene(), cell, final(api).new_draws(*old(api))),
        bounds(final(api).new_draws(*old(api))) == cloner_draws(old(api).ctx(), old(api).scene(), cell, final(api).new_draws(*old(api))),
{
    let clone_species = match Species::from_u8(cell.rb) {
        Some(s) => s,
        None => Species::Empty,
    };
    cloner_scan_step(cell, api, clone_species, 0, Ghost(*old(api)));
}

/// One turn of a rocket (see `rocket_rule`).
#[verifier::rlimit(60)]
#[verifier::spinoff_prover]
pub fn update_rocket(cell: Cell, api: &mut SandApi)
    requires
        old(api).wf(),
        rocket_ok(cell),
    ensures
        final(api).continues(*old(api)),
        final(api).scene() == rocket_rule(old(api).ctx(), old(api).scene(), cell, final(api).new_draws(*old(api))),
        bounds(final(api).new_draws(*old(api))) == rocket_draws(old(api).ctx(), old(api).scene(), cell, final(api).new_draws(*old(api))),
{
    if cell.rb == 0 {
        api.set(0, 0, Cell { ra: 0, rb: 100, ..cell });
        return;
    }
    let clone_species = if cell.rb != 100 {
        match Species::from_u8(cell.rb) {
            Some(s) => s,
            None => Species::Empty,
        }
    } else {
        Species::Sand
    };
    let (sx, sy) = api.rand_vec();
    let sample = api.get(sx, sy);
    if cell.rb == 100 && sample.species != Species::Empty && sample.species != Species::Rocket
        && sample.species != Species::Wall && sample.species != Species::Cloner {
        api.set(0, 0, Cell { ra: 1, rb: sample.species.to_u8(), ..cell });
        return;
    }
    let ra = cell.ra;
    if ra == 0 {
        let dx = api.rand_dir();
        let nbr = api.get(0, 1);
        if nbr.species == Species::Empty {
            api.set(0, 0, Cell::empty());
            api.set(0, 1, cell);
        } else if api.get(dx, 1).species == Species::Empty {
            api.set(0, 0, Cell::empty());
            api.set(dx, 1, cell);
        } else if nbr.species == Species::Water || nbr.species == Species::Gas || nbr.species
            == Species::Oil || nbr.species == Species::Acid {
            api.set(0, 0, nbr);
            api.set(0, 1, cell);
        } else {
            api.set(0, 0, cell);
        }
    } else if ra == 1 {
        api.set(0, 0, Cell { ra: 2, ..cell });
    } else if ra == 2 {
        let (mut rdx, mut rdy) = api.rand_vec_8();
        assert(-1 <= rdx <= 1 && -1 <= rdy <= 1);
        let rnbr = api.get(rdx, rdy);
        if rnbr.species != Species::Empty {
            rdx *= -1;
            rdy *= -1;
        }
        api.set(0, 0, Cell { ra: 100 + join_dy_dx(rdx, rdy), ..cell });
    } else if ra > 50 {
        let (rdx, rdy) = split_dy_dx(cell.ra - 100);
        let rnbr = api.get(rdx, rdy * 2);
        if rnbr.species == Species::Empty || rnbr.species == Species::Fire || rnbr.species == Species::Rocket {
            let first = api.new_cell(clone_species);
            api.set(0, 0, first);
            let second = api.new_cell(clone_species);
            api.set(0, rdy, second);
            let (ndx, ndy) = match api.rand_int(100) % 5 {
                0 => adjacency_left((rdx, rdy)),
                1 => adjacency_right((rdx, rdy)),
                _ => (rdx, rdy),
            };
            api.set(rdx, rdy * 2, Cell { ra: 100 + join_dy_dx(ndx, ndy), ..cell });
        } else {
            api.set(0, 0, Cell::empty());
        }
    }
}

} // verus!
