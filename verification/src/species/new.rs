//! Snow, sponge, slime, glass and coral.

use super::Species;
use crate::cell::Cell;
use crate::kinds::{fits, kinds, lemma_moveto_kinds, lemma_sset_kinds, lemma_sset_same_kind, lemma_swap_kinds};
use crate::world::{
    bounds, draw_if, draw, fresh_cell, moveto, once, rdir, rvec, sadd, sfluid, sget, sset, ssub, stay, swap, Ctx, Draws, SandApi,
    Scene,
};
use vstd::prelude::*;

verus! {

/// Snow: melts into water (keeping `ra`) next to fire or lava in a random
/// direction, or under air pressure above 100. Otherwise it falls into
/// empty space; on water it floats (stays); it slides to a random lower diagonal, drifts sideways one
/// time in 3, settles onto ice one time in 4, or stays.
pub open spec fn snow_rule(c: Ctx, s: Scene, cell: Cell, ds: Draws) -> Scene {
    let v = rvec(ds, 0);
    let sample = sget(c, s, v.0, v.1).species;
    let melted = Cell { species: Species::Water, ra: cell.ra, rb: 0, clock: 0 };
    if sample == Species::Fire || sample == Species::Lava {
        stay(c, s, melted)
    } else if sfluid(c).pressure > 100 {
        stay(c, s, melted)
    } else {
        let dx2 = rdir(ds, 1);
        let below = sget(c, s, 0, 1).species;
        let side_empty = sget(c, s, dx2, 0).species == Species::Empty;
        if below == Species::Empty {
            moveto(c, s, 0, 1, cell)
        } else if below == Species::Water {
            stay(c, s, cell)
        } else if sget(c, s, dx2, 1).species == Species::Empty {
            moveto(c, s, dx2, 1, cell)
        } else if side_empty && once(ds, 2, 3) {
            moveto(c, s, dx2, 0, cell)
        } else if below == Species::Ice && once(ds, if side_empty { 3int } else { 2 }, 4) {
            moveto(c, s, 0, 1, cell)
        } else {
            stay(c, s, cell)
        }
    }
}

/// The first `n` neighbours of a sponge's soak (numbered column by column,
/// left to right, top to bottom), starting from `absorbed`: each water or
/// oil cell is emptied and adds 30 (stopping at 255), until `absorbed`
/// reaches 200.
pub open spec fn sponge_soak(c: Ctx, s: Scene, absorbed: u8, n: int) -> (Scene, u8)
    decreases n,
{
    if n <= 0 {
        (s, absorbed)
    } else {
        let prev = sponge_soak(c, s, absorbed, n - 1);
        let p = n - 1;
        if prev.1 >= 200 {
            prev
        } else {
            let t = sget(c, prev.0, p / 3 - 1, p % 3 - 1).species;
            if t == Species::Water || t == Species::Oil {
                (sset(c, prev.0, p / 3 - 1, p % 3 - 1, Cell::empty()), sadd(prev.1, 30))
            } else {
                prev
            }
        }
    }
}

/// Sponge: `ra` is how much it holds. It soaks up the water and oil around
/// it (see `sponge_soak`). Next to fire or lava in a random direction it
/// loses 5 when holding more than 50, else catches fire. Above 180 it drips
/// a fresh water cell into empty space below one time in 5 (losing 30).
/// Pressed by sand or stone above while holding more than 30, one time in 3
/// it squeezes a fresh water cell into an empty random side (losing 30).
/// One time in 20 it dries by 1.
pub open spec fn sponge_rule(c: Ctx, s: Scene, cell: Cell, ds: Draws) -> Scene {
    let v = rvec(ds, 0);
    let soaked = sponge_soak(c, s, cell.ra, 9);
    let s1 = soaked.0;
    let a1 = soaked.1;
    let nbr = sget(c, s1, v.0, v.1).species;
    if nbr == Species::Fire || nbr == Species::Lava {
        if a1 > 50 {
            stay(c, s1, Cell { ra: ssub(a1, 5), ..cell })
        } else {
            stay(c, s1, Cell { species: Species::Fire, ra: 30, rb: 0, clock: 0 })
        }
    } else {
        let drip = a1 > 180 && once(ds, 1, 5);
        let drip_room = sget(c, s1, 0, 1).species == Species::Empty;
        let s2 = if drip && drip_room { sset(c, s1, 0, 1, fresh_cell(Species::Water, draw(ds, 2, 50))) } else { s1 };
        let a2 = if drip && drip_room { ssub(a1, 30) } else { a1 };
        let k2: int = if a1 > 180 { if drip && drip_room { 3 } else { 2 } } else { 1 };
        let above = sget(c, s2, 0, -1).species;
        let pressed = above == Species::Sand || above == Species::Stone;
        let squeeze = pressed && a2 > 30 && once(ds, k2, 3);
        let side = rdir(ds, k2 + 1);
        let side_room = sget(c, s2, side, 0).species == Species::Empty;
        let s3 = if squeeze && side_room { sset(c, s2, side, 0, fresh_cell(Species::Water, draw(ds, k2 + 2, 50))) } else { s2 };
        let a3 = if squeeze { ssub(a2, 30) } else { a2 };
        let k3: int = if squeeze {
            if side_room { k2 + 3 } else { k2 + 2 }
        } else if pressed && a2 > 30 {
            k2 + 1
        } else {
            k2
        };
        let a4 = if a3 > 0 && once(ds, k3, 20) { ssub(a3, 1) } else { a3 };
        stay(c, s3, Cell { ra: a4, ..cell })
    }
}

/// Where slime goes when nothing burns or washes it (see `slime_rule`),
/// its draws starting at `k`: the scene afterwards and the draws used.
pub open spec fn slime_creep(c: Ctx, s: Scene, cell: Cell, ds: Draws, k: int) -> (Scene, int) {
    let v = rvec(ds, 0);
    let nbr = sget(c, s, v.0, v.1);
    let below = sget(c, s, 0, 1).species;
    if below == Species::Empty {
        if once(ds, k, 3) {
            (moveto(c, s, 0, 1, cell), k + 1)
        } else {
            (stay(c, s, cell), k + 1)
        }
    } else if below == Species::Slime && once(ds, k, 4) {
        let sdx = rdir(ds, k + 1);
        if sget(c, s, sdx, 1).species == Species::Empty {
            (moveto(c, s, sdx, 1, cell), k + 2)
        } else {
            (stay(c, s, cell), k + 2)
        }
    } else {
        let k1: int = if below == Species::Slime { k + 1 } else { k };
        let sdx = rdir(ds, k1);
        let side_empty = sget(c, s, sdx, 0).species == Species::Empty;
        let k2: int = if side_empty { k1 + 2 } else { k1 + 1 };
        let low_empty = sget(c, s, sdx, 1).species == Species::Empty;
        if side_empty && once(ds, k1 + 1, 3) {
            (moveto(c, s, sdx, 0, cell), k2)
        } else if low_empty && once(ds, k2, 4) {
            (moveto(c, s, sdx, 1, cell), k2 + 1)
        } else {
            let k3: int = if low_empty { k2 + 1 } else { k2 };
            if nbr.species == Species::Acid {
                (sset(c, stay(c, s, nbr), v.0, v.1, Cell::empty()), k3)
            } else {
                (stay(c, s, cell), k3)
            }
        }
    }
}

/// Slime: next to fire or lava in a random direction it catches fire; next
/// to water there it trades places one time in 3. Otherwise it falls into
/// empty space one time in 3 (else rests); on slime it oozes to an empty
/// random lower diagonal one time in 4; elsewhere it creeps to an empty
/// random side one time in 3 or an empty lower diagonal one time in 4; acid
/// there eats it (the acid takes its place). Then a bouncing slime
/// (`rb > 0`) counts down and hops to an empty random side.
pub open spec fn slime_rule(c: Ctx, s: Scene, cell: Cell, ds: Draws) -> Scene {
    let v = rvec(ds, 0);
    let nbr = sget(c, s, v.0, v.1);
    if nbr.species == Species::Fire || nbr.species == Species::Lava {
        stay(c, s, Cell { species: Species::Fire, ra: 20, rb: 0, clock: 0 })
    } else if nbr.species == Species::Water && once(ds, 1, 3) {
        swap(c, s, v.0, v.1, nbr, cell)
    } else {
        let k: int = if nbr.species == Species::Water { 2 } else { 1 };
        let m = slime_creep(c, s, cell, ds, k);
        slime_bounce(c, m.0, cell, ds, m.1)
    }
}

/// Slime that is not bouncing and not burning is never duplicated or lost:
/// the count of each species on the grid is kept, except that acid at the
/// random step may dissolve it, trading one slime for one empty cell (the
/// acid takes its place).
pub proof fn lemma_slime_keeps_kinds(c: Ctx, s: Scene, cell: Cell, ds: Draws)
    requires
        fits(c, s),
        cell.species == Species::Slime,
        sget(c, s, 0, 0).species == Species::Slime,
        cell.rb == 0,
        sget(c, s, rvec(ds, 0).0, rvec(ds, 0).1).species != Species::Fire,
        sget(c, s, rvec(ds, 0).0, rvec(ds, 0).1).species != Species::Lava,
    ensures
        kinds(slime_rule(c, s, cell, ds).cells) == kinds(s.cells) || (sget(c, s, rvec(ds, 0).0, rvec(ds, 0).1).species
            == Species::Acid && kinds(slime_rule(c, s, cell, ds).cells) == kinds(s.cells).insert(Species::Empty).remove(
            Species::Slime,
        )),
{
    let v = rvec(ds, 0);
    let nbr = sget(c, s, v.0, v.1);
    if nbr.species == Species::Water && once(ds, 1, 3) {
        lemma_swap_kinds(c, s, v.0, v.1, nbr, cell);
    } else {
        let k: int = if nbr.species == Species::Water { 2 } else { 1 };
        let below = sget(c, s, 0, 1).species;
        lemma_sset_same_kind(c, s, 0, 0, cell);
        if below == Species::Empty {
            lemma_moveto_kinds(c, s, 0, 1, cell);
        } else if below == Species::Slime && once(ds, k, 4) {
            let sdx = rdir(ds, k + 1);
            if sget(c, s, sdx, 1).species == Species::Empty {
                lemma_moveto_kinds(c, s, sdx, 1, cell);
            }
        } else {
            let k1: int = if below == Species::Slime { k + 1 } else { k };
            let sdx = rdir(ds, k1);
            let side_empty = sget(c, s, sdx, 0).species == Species::Empty;
            let k2: int = if side_empty { k1 + 2 } else { k1 + 1 };
            let low_empty = sget(c, s, sdx, 1).species == Species::Empty;
            if side_empty && once(ds, k1 + 1, 3) {
                lemma_moveto_kinds(c, s, sdx, 0, cell);
            } else if low_empty && once(ds, k2, 4) {
                lemma_moveto_kinds(c, s, sdx, 1, cell);
            } else if nbr.species == Species::Acid {
                let s1 = stay(c, s, nbr);
                lemma_sset_kinds(c, s, 0, 0, nbr);
                lemma_sset_kinds(c, s1, v.0, v.1, Cell::empty());
                assert(crate::world::in_grid(c, c.x + v.0, c.y + v.1));
                crate::world::lemma_index_bounds(c.width, c.height, c.x + v.0, c.y + v.1);
                crate::world::lemma_index_bounds(c.width, c.height, c.x, c.y);
                assert(sget(c, s1, v.0, v.1).species == Species::Acid);
                assert(kinds(sset(c, s1, v.0, v.1, Cell::empty()).cells) =~= kinds(s.cells).insert(Species::Empty).remove(
                    Species::Slime,
                ));
            }
        }
    }
}

/// The bounce at the end of a slime turn, its draws starting at `k`.
pub open spec fn slime_bounce(c: Ctx, s1: Scene, cell: Cell, ds: Draws, k: int) -> Scene {
    if cell.rb > 0 {
        let s2 = stay(c, s1, Cell { rb: ssub(cell.rb, 1), ..cell });
        let bdx = rdir(ds, k);
        if sget(c, s2, bdx, 0).species == Species::Empty {
            stay(c, sset(c, s2, bdx, 0, cell), Cell::empty())
        } else {
            s2
        }
    } else {
        s1
    }
}

/// Glass: next to fire or lava in a random direction it melts into lava one
/// time in 15; under air pressure above 200 it shatters into sand one time
/// in 5; next to acid it dissolves one time in 10; otherwise it falls into
/// empty space, sinks through water, oil or gas, or stays.
pub open spec fn glass_rule(c: Ctx, s: Scene, cell: Cell, ds: Draws) -> Scene {
    let v = rvec(ds, 0);
    let nbr = sget(c, s, v.0, v.1).species;
    let hot = nbr == Species::Fire || nbr == Species::Lava;
    let k1: int = if hot { 2 } else { 1 };
    let strong = sfluid(c).pressure > 200;
    let k2: int = if strong { k1 + 1 } else { k1 };
    if hot && once(ds, 1, 15) {
        stay(c, s, Cell { species: Species::Lava, ra: 80, rb: 0, clock: 0 })
    } else if strong && once(ds, k1, 5) {
        stay(c, s, Cell { species: Species::Sand, ra: cell.ra, rb: 0, clock: 0 })
    } else if nbr == Species::Acid && once(ds, k2, 10) {
        stay(c, s, Cell { species: Species::Empty, ra: 0, rb: 0, clock: 0 })
    } else {
        let below = sget(c, s, 0, 1);
        if below.species == Species::Empty {
            moveto(c, s, 0, 1, cell)
        } else if below.species == Species::Water || below.species == Species::Oil || below.species
            == Species::Gas {
            swap(c, s, 0, 1, below, cell)
        } else {
            stay(c, s, cell)
        }
    }
}

/// `v` held within `lo..=hi`.
pub open spec fn clamp_u8(v: u8, lo: u8, hi: u8) -> u8 {
    if v < lo {
        lo
    } else if v > hi {
        hi
    } else {
        v
    }
}

/// Coral: dies (empties) next to fire or lava in a random direction. With
/// no water on its four sides it turns to stone one time in 20. Above 30 it
/// grows a coral (`ra` shifted by -5..5) into water above one time in 8;
/// above 60 it branches into water on a random side one time in 12 (`ra`
/// shifted and held within 10..=100); below 100 it grows by 1 one time in 6.
pub open spec fn coral_rule(c: Ctx, s: Scene, cell: Cell, ds: Draws) -> Scene {
    let ra = cell.ra;
    let v = rvec(ds, 0);
    let nbr = sget(c, s, v.0, v.1).species;
    if nbr == Species::Fire || nbr == Species::Lava {
        stay(c, s, Cell { species: Species::Empty, ra: 0, rb: 0, clock: 0 })
    } else {
        let in_water = sget(c, s, 0, 1).species == Species::Water || sget(c, s, 1, 0).species == Species::Water
            || sget(c, s, -1, 0).species == Species::Water || sget(c, s, 0, -1).species == Species::Water;
        if !in_water && once(ds, 1, 20) {
            stay(c, s, Cell { species: Species::Stone, ra: cell.ra, rb: 0, clock: 0 })
        } else {
            coral_grow(c, s, cell, ds, if !in_water { 2 } else { 1 })
        }
    }
}

/// The growth part of a coral turn (see `coral_rule`), its draws from `k1` on.
pub open spec fn coral_grow(c: Ctx, s: Scene, cell: Cell, ds: Draws, k1: int) -> Scene {
    let ra = cell.ra;
    let up = ra > 30 && once(ds, k1, 8);
    let up_water = sget(c, s, 0, -1).species == Species::Water;
    let s1 = if up && up_water {
        sset(c, s, 0, -1, Cell { species: Species::Coral, ra: (ra + draw(ds, k1 + 1, 10) - 5) as u8, rb: 0, clock: 0 })
    } else {
        s
    };
    let k2: int = if ra > 30 { if up && up_water { k1 + 2 } else { k1 + 1 } } else { k1 };
    let branch = ra > 60 && once(ds, k2, 12);
    let bdx: int = if once(ds, k2 + 1, 2) { 1 } else { -1 };
    let side_water = sget(c, s1, bdx, 0).species == Species::Water;
    let s2 = if branch && side_water {
        sset(
            c,
            s1,
            bdx,
            0,
            Cell { species: Species::Coral, ra: clamp_u8((ra + draw(ds, k2 + 2, 10) - 5) as u8, 10, 100), rb: 0, clock: 0 },
        )
    } else {
        s1
    };
    let k3: int = if ra > 60 {
        if branch { if side_water { k2 + 3 } else { k2 + 2 } } else { k2 + 1 }
    } else {
        k2
    };
    if ra < 100 && once(ds, k3, 6) {
        stay(c, s2, Cell { ra: (ra + 1) as u8, ..cell })
    } else {
        s2
    }
}

/// The bounds of the draws snow makes (see `snow_rule`).
pub open spec fn snow_draws(c: Ctx, s: Scene, cell: Cell, ds: Draws) -> Seq<int> {
    let v = rvec(ds, 0);
    let sample = sget(c, s, v.0, v.1).species;
    if sample == Species::Fire || sample == Species::Lava || sfluid(c).pressure > 100 {
        seq![2000]
    } else {
        let dx2 = rdir(ds, 1);
        let below = sget(c, s, 0, 1).species;
        let side_empty = sget(c, s, dx2, 0).species == Species::Empty;
        if below == Species::Empty || below == Species::Water || sget(c, s, dx2, 1).species == Species::Empty {
            seq![2000, 1000]
        } else if side_empty && once(ds, 2, 3) {
            seq![2000, 1000, 3]
        } else {
            seq![2000, 1000] + draw_if(side_empty, 3) + draw_if(below == Species::Ice, 4)
        }
    }
}

/// The bounds of the draws a sponge makes (see `sponge_rule`).
pub open spec fn sponge_draws(c: Ctx, s: Scene, cell: Cell, ds: Draws) -> Seq<int> {
    let v = rvec(ds, 0);
    let soaked = sponge_soak(c, s, cell.ra, 9);
    let s1 = soaked.0;
    let a1 = soaked.1;
    let nbr = sget(c, s1, v.0, v.1).species;
    if nbr == Species::Fire || nbr == Species::Lava {
        seq![2000]
    } else {
        let drip = a1 > 180 && once(ds, 1, 5);
        let drip_room = sget(c, s1, 0, 1).species == Species::Empty;
        let s2 = if drip && drip_room { sset(c, s1, 0, 1, fresh_cell(Species::Water, draw(ds, 2, 50))) } else { s1 };
        let a2 = if drip && drip_room { ssub(a1, 30) } else { a1 };
        let k2: int = if a1 > 180 { if drip && drip_room { 3 } else { 2 } } else { 1 };
        let above = sget(c, s2, 0, -1).species;
        let pressed = above == Species::Sand || above == Species::Stone;
        let squeeze = pressed && a2 > 30 && once(ds, k2, 3);
        let side = rdir(ds, k2 + 1);
        let side_room = sget(c, s2, side, 0).species == Species::Empty;
        let a3 = if squeeze { ssub(a2, 30) } else { a2 };
        seq![2000] + draw_if(a1 > 180, 5) + draw_if(drip && drip_room, 50) + draw_if(pressed && a2 > 30, 3)
            + draw_if(squeeze, 1000) + draw_if(squeeze && side_room, 50) + draw_if(a3 > 0, 20)
    }
}

/// The bounds of the draws of `slime_creep` from `k`.
pub open spec fn slime_creep_draws(c: Ctx, s: Scene, cell: Cell, ds: Draws, k: int) -> Seq<int> {
    let below = sget(c, s, 0, 1).species;
    if below == Species::Empty {
        seq![3]
    } else if below == Species::Slime && once(ds, k, 4) {
        seq![4, 1000]
    } else {
        let k1: int = if below == Species::Slime { k + 1 } else { k };
        let sdx = rdir(ds, k1);
        let side_empty = sget(c, s, sdx, 0).species == Species::Empty;
        let low_empty = sget(c, s, sdx, 1).species == Species::Empty;
        draw_if(below == Species::Slime, 4) + seq![1000] + draw_if(side_empty, 3) + (if side_empty && once(ds, k1 + 1, 3) {
            seq![]
        } else {
            draw_if(low_empty, 4)
        })
    }
}

/// The bounds of the draws of `slime_bounce`: a `rand_dir` for a bouncing
/// slime.
pub open spec fn slime_bounce_draws(c: Ctx, s1: Scene, cell: Cell, ds: Draws, k: int) -> Seq<int> {
    draw_if(cell.rb > 0, 1000)
}

/// The bounds of the draws slime makes (see `slime_rule`).
pub open spec fn slime_draws(c: Ctx, s: Scene, cell: Cell, ds: Draws) -> Seq<int> {
    let v = rvec(ds, 0);
    let nbr = sget(c, s, v.0, v.1);
    if nbr.species == Species::Fire || nbr.species == Species::Lava {
        seq![2000]
    } else if nbr.species == Species::Water && once(ds, 1, 3) {
        seq![2000, 3]
    } else {
        let k: int = if nbr.species == Species::Water { 2 } else { 1 };
        let m = slime_creep(c, s, cell, ds, k);
        seq![2000] + draw_if(nbr.species == Species::Water, 3) + slime_creep_draws(c, s, cell, ds, k)
            + slime_bounce_draws(c, m.0, cell, ds, m.1)
    }
}

/// The bounds of the draws glass makes (see `glass_rule`).
pub open spec fn glass_draws(c: Ctx, s: Scene, cell: Cell, ds: Draws) -> Seq<int> {
    let v = rvec(ds, 0);
    let nbr = sget(c, s, v.0, v.1).species;
    let hot = nbr == Species::Fire || nbr == Species::Lava;
    let k1: int = if hot { 2 } else { 1 };
    let strong = sfluid(c).pressure > 200;
    if hot && once(ds, 1, 15) {
        seq![2000, 15]
    } else if strong && once(ds, k1, 5) {
        seq![2000] + draw_if(hot, 15) + seq![5]
    } else {
        seq![2000] + draw_if(hot, 15) + draw_if(strong, 5) + draw_if(nbr == Species::Acid, 10)
    }
}

/// The bounds of the draws coral makes (see `coral_rule`).
pub open spec fn coral_draws(c: Ctx, s: Scene, cell: Cell, ds: Draws) -> Seq<int> {
    let ra = cell.ra;
    let v = rvec(ds, 0);
    let nbr = sget(c, s, v.0, v.1).species;
    if nbr == Species::Fire || nbr == Species::Lava {
        seq![2000]
    } else {
        let in_water = sget(c, s, 0, 1).species == Species::Water || sget(c, s, 1, 0).species == Species::Water
            || sget(c, s, -1, 0).species == Species::Water || sget(c, s, 0, -1).species == Species::Water;
        if !in_water && once(ds, 1, 20) {
            seq![2000, 20]
        } else {
            seq![2000] + draw_if(!in_water, 20) + coral_grow_draws(c, s, cell, ds, if !in_water { 2 } else { 1 })
        }
    }
}

/// The bounds of the draws of `coral_grow`.
pub open spec fn coral_grow_draws(c: Ctx, s: Scene, cell: Cell, ds: Draws, k1: int) -> Seq<int> {
    let ra = cell.ra;
    let up = ra > 30 && once(ds, k1, 8);
    let up_water = sget(c, s, 0, -1).species == Species::Water;
    let s1 = if up && up_water {
        sset(c, s, 0, -1, Cell { species: Species::Coral, ra: (ra + draw(ds, k1 + 1, 10) - 5) as u8, rb: 0, clock: 0 })
    } else {
        s
    };
    let k2: int = if ra > 30 { if up && up_water { k1 + 2 } else { k1 + 1 } } else { k1 };
    let branch = ra > 60 && once(ds, k2, 12);
    let bdx: int = if once(ds, k2 + 1, 2) { 1 } else { -1 };
    let side_water = sget(c, s1, bdx, 0).species == Species::Water;
    draw_if(ra > 30, 8) + draw_if(up && up_water, 10) + draw_if(ra > 60, 12)
        + draw_if(branch, 2) + draw_if(branch && side_water, 10) + draw_if(ra < 100, 6)
}

/// One turn of snow (see `snow_rule`).
pub fn update_snow(cell: Cell, api: &mut SandApi)
    requires
        old(api).wf(),
    ensures
        final(api).continues(*old(api)),
        final(api).scene() == snow_rule(old(api).ctx(), old(api).scene(), cell, final(api).new_draws(*old(api))),
        bounds(final(api).new_draws(*old(api))) == snow_draws(old(api).ctx(), old(api).scene(), cell, final(api).new_draws(*old(api))),
{
    let (dx, dy) = api.rand_vec();
    let sample = api.get(dx, dy);
    if sample.species == Species::Fire || sample.species == Species::Lava {
        api.set(0, 0, Cell { species: Species::Water, ra: cell.ra, rb: 0, clock: 0 });
        return;
    }
    let fluid = api.get_fluid();
    if fluid.pressure > 100 {
        api.set(0, 0, Cell { species: Species::Water, ra: cell.ra, rb: 0, clock: 0 });
        return;
    }
    let dx2 = api.rand_dir();
    let below = api.get(0, 1);
    if below.species == Species::Empty {
        api.set(0, 0, Cell::empty());
        api.set(0, 1, cell);
    } else if below.species == Species::Water {
        api.set(0, 0, cell);
    } else if api.get(dx2, 1).species == Species::Empty {
        api.set(0, 0, Cell::empty());
        api.set(dx2, 1, cell);
    } else if api.get(dx2, 0).species == Species::Empty && api.once_in(3) {
        api.set(0, 0, Cell::empty());
        api.set(dx2, 0, cell);
    } else if below.species == Species::Ice && api.once_in(4) {
        api.set(0, 0, Cell::empty());
        api.set(0, 1, cell);
    } else {
        api.set(0, 0, cell);
    }
}

/// One turn of a sponge (see `sponge_rule`).
#[verifier::rlimit(60)]
#[verifier::spinoff_prover]
pub fn update_sponge(cell: Cell, api: &mut SandApi)
    requires
        old(api).wf(),
    ensures
        final(api).continues(*old(api)),
        final(api).scene() == sponge_rule(old(api).ctx(), old(api).scene(), cell, final(api).new_draws(*old(api))),
        bounds(final(api).new_draws(*old(api))) == sponge_draws(old(api).ctx(), old(api).scene(), cell, final(api).new_draws(*old(api))),
{
    let mut absorbed = cell.ra;
    let (dx, dy) = api.rand_vec();
    let ghost start = *api;
    let mut p: i32 = 0;
    while p < 9
        invariant
            0 <= p <= 9,
            api.continues(start),
            api.draws() == start.draws(),
            (api.scene(), absorbed) == sponge_soak(start.ctx(), start.scene(), cell.ra, p as int),
        decreases 9 - p,
    {
        let adx = p / 3 - 1;
        let ady = p % 3 - 1;
        if absorbed < 200 {
            let nbr = api.get(adx, ady);
            if nbr.species == Species::Water || nbr.species == Species::Oil {
                absorbed = absorbed.saturating_add(30);
                api.set(adx, ady, Cell::empty());
            }
        }
        p = p + 1;
    }
    let nbr = api.get(dx, dy);
    if nbr.species == Species::Fire || nbr.species == Species::Lava {
        if absorbed > 50 {
            api.set(0, 0, Cell { ra: absorbed.saturating_sub(5), ..cell });
        } else {
            api.set(0, 0, Cell { species: Species::Fire, ra: 30, rb: 0, clock: 0 });
        }
        return;
    }
    if absorbed > 180 && api.once_in(5) {
        let below = api.get(0, 1);
        if below.species == Species::Empty {
            let water = api.new_cell(Species::Water);
            api.set(0, 1, water);
            absorbed = absorbed.saturating_sub(30);
        }
    }
    if api.get(0, -1).species == Species::Sand || api.get(0, -1).species == Species::Stone {
        if absorbed > 30 && api.once_in(3) {
            let side_dx = api.rand_dir();
            if api.get(side_dx, 0).species == Species::Empty {
                let water = api.new_cell(Species::Water);
                api.set(side_dx, 0, water);
            }
            absorbed = absorbed.saturating_sub(30);
        }
    }
    if absorbed > 0 && api.once_in(20) {
        absorbed = absorbed.saturating_sub(1);
    }
    api.set(0, 0, Cell { ra: absorbed, ..cell });
}

/// One turn of slime (see `slime_rule`).
pub fn update_slime(cell: Cell, api: &mut SandApi)
    requires
        old(api).wf(),
    ensures
        final(api).continues(*old(api)),
        final(api).scene() == slime_rule(old(api).ctx(), old(api).scene(), cell, final(api).new_draws(*old(api))),
        bounds(final(api).new_draws(*old(api))) == slime_draws(old(api).ctx(), old(api).scene(), cell, final(api).new_draws(*old(api))),
{
    let (dx, dy) = api.rand_vec();
    let nbr = api.get(dx, dy);
    if nbr.species == Species::Fire || nbr.species == Species::Lava {
        api.set(0, 0, Cell { species: Species::Fire, ra: 20, rb: 0, clock: 0 });
        return;
    }
    if nbr.species == Species::Water && api.once_in(3) {
        api.set(0, 0, nbr);
        api.set(dx, dy, cell);
        return;
    }
    slime_creep_step(cell, api, nbr, dx, dy, Ghost(*old(api)));
}

/// Slime creeping and bouncing (see `slime_creep` and `slime_bounce`).
#[verifier::rlimit(60)]
#[verifier::spinoff_prover]
fn slime_creep_step(cell: Cell, api: &mut SandApi, nbr: Cell, dx: i32, dy: i32, Ghost(start): Ghost<SandApi>)
    requires
        old(api).continues(start),
        old(api).scene() == start.scene(),
        old(api).draws().len() > start.draws().len(),
        (dx as int, dy as int) == rvec(old(api).new_draws(start), 0),
        nbr == sget(old(api).ctx(), old(api).scene(), dx as int, dy as int),
    ensures
        final(api).continues(*old(api)),
        ({
            let m = slime_creep(
                old(api).ctx(),
                old(api).scene(),
                cell,
                final(api).new_draws(start),
                old(api).draws().len() - start.draws().len(),
            );
            final(api).scene() == slime_bounce(old(api).ctx(), m.0, cell, final(api).new_draws(start), m.1)
        }),
        ({
            let m = slime_creep(
                old(api).ctx(),
                old(api).scene(),
                cell,
                final(api).new_draws(start),
                old(api).draws().len() - start.draws().len(),
            );
            bounds(final(api).new_draws(start)) == bounds(old(api).new_draws(start)) + slime_creep_draws(
                old(api).ctx(),
                old(api).scene(),
                cell,
                final(api).new_draws(start),
                old(api).draws().len() - start.draws().len(),
            ) + slime_bounce_draws(old(api).ctx(), m.0, cell, final(api).new_draws(start), m.1)
        }),
{
    let below = api.get(0, 1);
    if below.species == Species::Empty {
        if api.once_in(3) {
            api.set(0, 0, Cell::empty());
            api.set(0, 1, cell);
        } else {
            api.set(0, 0, cell);
        }
    } else if below.species == Species::Slime && api.once_in(4) {
        let sdx = api.rand_dir();
        if api.get(sdx, 1).species == Species::Empty {
            api.set(0, 0, Cell::empty());
            api.set(sdx, 1, cell);
        } else {
            api.set(0, 0, cell);
        }
    } else {
        let sdx = api.rand_dir();
        if api.get(sdx, 0).species == Species::Empty && api.once_in(3) {
            api.set(0, 0, Cell::empty());
            api.set(sdx, 0, cell);
        } else if api.get(sdx, 1).species == Species::Empty && api.once_in(4) {
            api.set(0, 0, Cell::empty());
            api.set(sdx, 1, cell);
        } else if api.get(dx, dy).species == Species::Acid {
            api.set(0, 0, nbr);
            api.set(dx, dy, Cell::empty());
        } else {
            api.set(0, 0, cell);
        }
    }
    slime_bounce_step(cell, cell.rb, api, Ghost(start));
}

/// The bounce at the end of a slime turn (see `slime_bounce`).
fn slime_bounce_step(cell: Cell, rb: u8, api: &mut SandApi, Ghost(start): Ghost<SandApi>)
    requires
        old(api).continues(start),
        rb == cell.rb,
    ensures
        final(api).continues(*old(api)),
        final(api).scene() == slime_bounce(
            old(api).ctx(),
            old(api).scene(),
            cell,
            final(api).new_draws(start),
            old(api).draws().len() - start.draws().len(),
        ),
        bounds(final(api).new_draws(start)) == bounds(old(api).new_draws(start)) + slime_bounce_draws(old(api).ctx(), old(api).scene(), cell, final(api).new_draws(start), old(api).draws().len() - start.draws().len()),
{
    if rb > 0 {
        api.set(0, 0, Cell { rb: rb.saturating_sub(1), ..cell });
        let bdx = api.rand_dir();
        if api.get(bdx, 0).species == Species::Empty {
            api.set(bdx, 0, cell);
            api.set(0, 0, Cell::empty());
        }
    }
}

/// One turn of glass (see `glass_rule`).
pub fn update_glass(cell: Cell, api: &mut SandApi)
    requires
        old(api).wf(),
    ensures
        final(api).continues(*old(api)),
        final(api).scene() == glass_rule(old(api).ctx(), old(api).scene(), cell, final(api).new_draws(*old(api))),
        bounds(final(api).new_draws(*old(api))) == glass_draws(old(api).ctx(), old(api).scene(), cell, final(api).new_draws(*old(api))),
{
    let (dx, dy) = api.rand_vec();
    let nbr = api.get(dx, dy);
    if nbr.species == Species::Fire || nbr.species == Species::Lava {
        if api.once_in(15) {
            api.set(0, 0, Cell { species: Species::Lava, ra: 80, rb: 0, clock: 0 });
            return;
        }
    }
    let fluid = api.get_fluid();
    if fluid.pressure > 200 && api.once_in(5) {
        api.set(0, 0, Cell { species: Species::Sand, ra: cell.ra, rb: 0, clock: 0 });
        return;
    }
    if nbr.species == Species::Acid && api.once_in(10) {
        api.set(0, 0, Cell { species: Species::Empty, ra: 0, rb: 0, clock: 0 });
        return;
    }
    let below = api.get(0, 1);
    if below.species == Species::Empty {
        api.set(0, 0, Cell::empty());
        api.set(0, 1, cell);
    } else if below.species == Species::Water || below.species == Species::Oil || below.species == Species::Gas {
        api.set(0, 0, below);
        api.set(0, 1, cell);
    } else {
        api.set(0, 0, cell);
    }
}

/// One turn of coral (see `coral_rule`).
#[verifier::rlimit(60)]
#[verifier::spinoff_prover]
pub fn update_coral(cell: Cell, api: &mut SandApi)
    requires
        old(api).wf(),
    ensures
        final(api).continues(*old(api)),
        final(api).scene() == coral_rule(old(api).ctx(), old(api).scene(), cell, final(api).new_draws(*old(api))),
        bounds(final(api).new_draws(*old(api))) == coral_draws(old(api).ctx(), old(api).scene(), cell, final(api).new_draws(*old(api))),
{
    let ra = cell.ra;
    let (dx, dy) = api.rand_vec();
    let nbr = api.get(dx, dy);
    if nbr.species == Species::Fire || nbr.species == Species::Lava {
        api.set(0, 0, Cell { species: Species::Empty, ra: 0, rb: 0, clock: 0 });
        return;
    }
    let in_water = api.get(0, 1).species == Species::Water || api.get(1, 0).species == Species::Water
        || api.get(-1, 0).species == Species::Water || api.get(0, -1).species == Species::Water;
    if !in_water && api.once_in(20) {
        api.set(0, 0, Cell { species: Species::Stone, ra: cell.ra, rb: 0, clock: 0 });
        return;
    }
    coral_grow_step(cell, api, Ghost(*old(api)));
}

/// The growth part of a coral turn (see `coral_grow`).
#[verifier::rlimit(100)]
#[verifier::spinoff_prover]
fn coral_grow_step(cell: Cell, api: &mut SandApi, Ghost(start): Ghost<SandApi>)
    requires
        old(api).continues(start),
    ensures
        final(api).continues(*old(api)),
        final(api).scene() == coral_grow(
            old(api).ctx(),
            old(api).scene(),
            cell,
            final(api).new_draws(start),
            old(api).draws().len() - start.draws().len(),
        ),
        bounds(final(api).new_draws(start)) == bounds(old(api).new_draws(start)) + coral_grow_draws(
            old(api).ctx(),
            old(api).scene(),
            cell,
            final(api).new_draws(start),
            old(api).draws().len() - start.draws().len(),
        ),
{
    let ra = cell.ra;
    if ra > 30 && api.once_in(8) {
        let above = api.get(0, -1);
        if above.species == Species::Water {
            let new_ra = ((ra as i32 + api.rand_int(10)) - 5) as u8;
            api.set(0, -1, Cell { species: Species::Coral, ra: new_ra, rb: 0, clock: 0 });
        }
    }
    if ra > 60 && api.once_in(12) {
        let bdx = if api.once_in(2) { 1 } else { -1 };
        let side = api.get(bdx, 0);
        if side.species == Species::Water {
            let new_ra = ((ra as i32 + api.rand_int(10)) - 5) as u8;
            let held = if new_ra < 10 { 10 } else if new_ra > 100 { 100 } else { new_ra };
            api.set(bdx, 0, Cell { species: Species::Coral, ra: held, rb: 0, clock: 0 });
        }
    }
    if ra < 100 && api.once_in(6) {
        api.set(0, 0, Cell { ra: ra + 1, ..cell });
    }
}

} // verus!
