//! Plant life: leaf, flower, grass, vine, moss, mushroom, bark, root, fruit
//! and thorn.

use super::Species;
use crate::cell::Cell;
use crate::world::{
    bounds, draw_if, draw, extends, fresh_cell, lemma_new_draws_extend, moveto, once, rdir, rvec, rvec8, sget, sset, ssub,
    stay, wadd, Ctx, Draws, SandApi, Scene,
};
use vstd::prelude::*;

verus! {

/// The burning of a plant solid, its draws starting at `k`: the scene
/// afterwards and the index of the next draw. Unlit (`rb == 0`) next to
/// fire or lava at a random step it lights (`rb = burn_time`). Burning
/// (`rb > 1`) it counts down, throws a flame (`ra` in 20..50) into that
/// step when it is empty and `rb` is a multiple of 4, and water there puts
/// it out (`ra = 50`, `rb = 0`). At `rb == 1` it turns to ash (keeping
/// `ra`).
pub open spec fn burnable_solid(c: Ctx, s: Scene, cell: Cell, burn_time: u8, ds: Draws, k: int) -> (Scene, int) {
    let rb = cell.rb;
    let v = rvec(ds, k);
    let nbr = sget(c, s, v.0, v.1).species;
    if rb == 0 && (nbr == Species::Fire || nbr == Species::Lava) {
        (stay(c, s, Cell { species: cell.species, ra: cell.ra, rb: burn_time, clock: 0 }), k + 1)
    } else if rb > 1 {
        let s1 = stay(c, s, Cell { species: cell.species, ra: cell.ra, rb: (rb - 1) as u8, clock: 0 });
        let spark = rb % 4 == 0 && nbr == Species::Empty;
        let s2 = if spark {
            sset(c, s1, v.0, v.1, Cell { species: Species::Fire, ra: (20 + draw(ds, k + 1, 30)) as u8, rb: 0, clock: 0 })
        } else {
            s1
        };
        let s3 = if nbr == Species::Water {
            stay(c, s2, Cell { species: cell.species, ra: 50, rb: 0, clock: 0 })
        } else {
            s2
        };
        (s3, if spark { k + 2 } else { k + 1 })
    } else if rb == 1 {
        (stay(c, s, Cell { species: Species::Ash, ra: cell.ra, rb: 0, clock: 0 }), k + 1)
    } else {
        (s, k + 1)
    }
}

/// `burnable_solid` reads no draw past the ones it takes.
pub proof fn lemma_burnable_solid_stable(c: Ctx, s: Scene, cell: Cell, burn_time: u8, ds1: Draws, ds2: Draws, k: int)
    requires
        0 <= k,
        extends(ds1, ds2),
        burnable_solid(c, s, cell, burn_time, ds1, k).1 <= ds1.len(),
    ensures
        burnable_solid(c, s, cell, burn_time, ds2, k) == burnable_solid(c, s, cell, burn_time, ds1, k),
        burnable_solid_draws(c, s, cell, burn_time, ds2, k) == burnable_solid_draws(c, s, cell, burn_time, ds1, k),
{
    assert(ds2[k] == ds1[k]);
    if k + 1 < ds1.len() {
        assert(ds2[k + 1] == ds1[k + 1]);
    }
}

/// Leaf: burning (`rb > 0`) it burns (see `burnable_solid`, 15).
/// Otherwise it falls into empty space, or to the empty random lower
/// diagonal (left, straight or right), or drifts sideways into empty space
/// one time in 5; failing all that it may catch fire.
pub open spec fn leaf_rule(c: Ctx, s: Scene, cell: Cell, ds: Draws) -> Scene {
    if cell.rb > 0 {
        burnable_solid(c, s, cell, 15, ds, 0).0
    } else {
        let dx = rdir(ds, 0);
        let side = sget(c, s, dx, 0).species == Species::Empty;
        if sget(c, s, 0, 1).species == Species::Empty {
            moveto(c, s, 0, 1, cell)
        } else if sget(c, s, dx, 1).species == Species::Empty {
            moveto(c, s, dx, 1, cell)
        } else if side && once(ds, 1, 5) {
            moveto(c, s, dx, 0, cell)
        } else {
            burnable_solid(c, s, cell, 15, ds, if side { 2 } else { 1 }).0
        }
    }
}

/// Flower: a bee or butterfly at a random step pollinates it, one time in
/// 30 sowing a fresh seed into an empty random step; then it may burn (see
/// `burnable_solid`, 10).
pub open spec fn flower_rule(c: Ctx, s: Scene, cell: Cell, ds: Draws) -> Scene {
    let v = rvec(ds, 0);
    let nbr = sget(c, s, v.0, v.1).species;
    let visited = nbr == Species::Bee || nbr == Species::Butterfly;
    let pollinated = visited && once(ds, 1, 30);
    let sv = rvec(ds, 2);
    let sow = pollinated && sget(c, s, sv.0, sv.1).species == Species::Empty;
    let s1 = if sow {
        sset(c, s, sv.0, sv.1, fresh_cell(Species::Seed, draw(ds, 3, 50)))
    } else {
        s
    };
    let k: int = if sow {
        4
    } else if pollinated {
        3
    } else if visited {
        2
    } else {
        1
    };
    burnable_solid(c, s1, cell, 10, ds, k).0
}

/// The growth of unlit grass after it may have burnt, its draws starting
/// at `k`: on soil or sand at a random side it spreads into the empty step
/// above that side one time in 40 (`ra` down by 5); it grows up into empty
/// space one time in 60 when `ra` is above 30 (`ra` down by 3).
pub open spec fn grass_grow(c: Ctx, s: Scene, cell: Cell, ds: Draws, k: int) -> Scene {
    let ra = cell.ra;
    let sdx = rdir(ds, k);
    let side = sget(c, s, sdx, 0).species;
    let room = (side == Species::Soil || side == Species::Sand) && sget(c, s, sdx, -1).species == Species::Empty;
    let s1 = if room && once(ds, k + 1, 40) {
        sset(c, s, sdx, -1, Cell { ra: ssub(ra, 5), ..cell })
    } else {
        s
    };
    let k1: int = if room { k + 2 } else { k + 1 };
    if sget(c, s1, 0, -1).species == Species::Empty && once(ds, k1, 60) && ra > 30 {
        sset(c, s1, 0, -1, Cell { ra: ssub(ra, 3), ..cell })
    } else {
        s1
    }
}

/// Grass: may burn (see `burnable_solid`, 12); when it was unlit it then
/// grows (see `grass_grow`).
pub open spec fn grass_rule(c: Ctx, s: Scene, cell: Cell, ds: Draws) -> Scene {
    let (s1, k1) = burnable_solid(c, s, cell, 12, ds, 0);
    if cell.rb == 0 {
        grass_grow(c, s1, cell, ds, k1)
    } else {
        s1
    }
}

/// The `i`-th neighbour a vine looks at: the row above, then the row
/// below, each from left to right.
pub open spec fn vine_offset(i: int) -> (int, int) {
    (i % 3 - 1, if i < 3 { -1 } else { 1 })
}

/// One look of a climbing vine at its `i`-th neighbour (see
/// `vine_offset`), its draw at `k`: next to a wall, wood or vine it grows
/// into the empty opposite step one time in 20 (`ra` down by 2). The scene
/// afterwards and the index of the next draw.
pub open spec fn vine_look(c: Ctx, s: Scene, cell: Cell, ds: Draws, i: int, k: int) -> (Scene, int) {
    let d = vine_offset(i);
    let t = sget(c, s, d.0, d.1).species;
    if (t == Species::Wall || t == Species::Wood || t == Species::Vine) && sget(c, s, -d.0, -d.1).species
        == Species::Empty {
        if once(ds, k, 20) {
            (sset(c, s, -d.0, -d.1, Cell { ra: ssub(cell.ra, 2), ..cell }), k + 1)
        } else {
            (s, k + 1)
        }
    } else {
        (s, k)
    }
}

/// The first `n` looks of a climbing vine (see `vine_look`), its draws
/// starting at `k`.
pub open spec fn vine_climb(c: Ctx, s: Scene, cell: Cell, ds: Draws, n: int, k: int) -> (Scene, int)
    decreases n,
{
    if n <= 0 {
        (s, k)
    } else {
        let p = vine_climb(c, s, cell, ds, n - 1, k);
        vine_look(c, p.0, cell, ds, n - 1, p.1)
    }
}

/// The looks of a climbing vine take between none and one draw each, and
/// read no draw past the ones they take.
pub proof fn lemma_vine_climb_stable(c: Ctx, s: Scene, cell: Cell, ds1: Draws, ds2: Draws, n: int, k: int)
    requires
        0 <= k,
        extends(ds1, ds2),
        vine_climb(c, s, cell, ds1, n, k).1 <= ds1.len(),
    ensures
        vine_climb(c, s, cell, ds2, n, k) == vine_climb(c, s, cell, ds1, n, k),
        k <= vine_climb(c, s, cell, ds1, n, k).1,
    decreases n,
{
    if n > 0 {
        let p = vine_climb(c, s, cell, ds1, n - 1, k);
        assert(p.1 <= vine_climb(c, s, cell, ds1, n, k).1);
        lemma_vine_climb_stable(c, s, cell, ds1, ds2, n - 1, k);
        if p.1 < ds1.len() {
            assert(ds2[p.1] == ds1[p.1]);
        }
    }
}

/// Vine: may burn (see `burnable_solid`, 20); when it was unlit it then
/// climbs, looking at its six upper and lower neighbours (see
/// `vine_climb`).
pub open spec fn vine_rule(c: Ctx, s: Scene, cell: Cell, ds: Draws) -> Scene {
    let (s1, k1) = burnable_solid(c, s, cell, 20, ds, 0);
    if cell.rb == 0 {
        vine_climb(c, s1, cell, ds, 6, k1).0
    } else {
        s1
    }
}

/// The life of unlit moss after it may have burnt, its draws starting at
/// `k`: it spreads sideways into empty space at a random side one time in
/// 25 when `ra` is above 30 (`ra` down by 5); water at a random step
/// nourishes it (`ra` up by 1) one time in 3 while `ra` is below 200; with
/// `ra` above 20 it withers (`ra` down by 1) one time in 50.
pub open spec fn moss_life(c: Ctx, s: Scene, cell: Cell, ds: Draws, k: int) -> Scene {
    let ra = cell.ra;
    let sdx = rdir(ds, k);
    let room = sget(c, s, sdx, 0).species == Species::Empty;
    let s1 = if room && once(ds, k + 1, 25) && ra > 30 {
        sset(c, s, sdx, 0, Cell { ra: ssub(ra, 5), ..cell })
    } else {
        s
    };
    let k1: int = if room { k + 2 } else { k + 1 };
    let mv = rvec(ds, k1);
    let wet = sget(c, s1, mv.0, mv.1).species == Species::Water && ra < 200;
    let s2 = if wet && once(ds, k1 + 1, 3) {
        stay(c, s1, Cell { ra: (ra + 1) as u8, ..cell })
    } else {
        s1
    };
    let k2: int = if wet { k1 + 2 } else { k1 + 1 };
    if ra > 20 && once(ds, k2, 50) {
        stay(c, s2, Cell { ra: (ra - 1) as u8, ..cell })
    } else {
        s2
    }
}

/// Moss: may burn (see `burnable_solid`, 20); when it was unlit it then
/// lives on (see `moss_life`).
pub open spec fn moss_rule(c: Ctx, s: Scene, cell: Cell, ds: Draws) -> Scene {
    let (s1, k1) = burnable_solid(c, s, cell, 20, ds, 0);
    if cell.rb == 0 {
        moss_life(c, s1, cell, ds, k1)
    } else {
        s1
    }
}

/// The spreading of an unlit mushroom after it may have burnt, its draws
/// starting at `k`: next to wood, fungus or soil at a random step, with
/// `ra` above 40, it drops a copy (`ra` down by 5) into an empty random
/// neighbour one time in 15.
pub open spec fn mushroom_spread(c: Ctx, s: Scene, cell: Cell, ds: Draws, k: int) -> Scene {
    let mv = rvec(ds, k);
    let nbr = sget(c, s, mv.0, mv.1).species;
    let sv = rvec8(ds, k + 2);
    if (nbr == Species::Wood || nbr == Species::Fungus || nbr == Species::Soil) && once(ds, k + 1, 15) && cell.ra
        > 40 && sget(c, s, sv.0, sv.1).species == Species::Empty {
        sset(c, s, sv.0, sv.1, Cell { ra: (cell.ra - 5) as u8, ..cell })
    } else {
        s
    }
}

/// Mushroom: may burn (see `burnable_solid`, 15); when it was unlit it then
/// spreads (see `mushroom_spread`).
pub open spec fn mushroom_rule(c: Ctx, s: Scene, cell: Cell, ds: Draws) -> Scene {
    let (s1, k1) = burnable_solid(c, s, cell, 15, ds, 0);
    if cell.rb == 0 {
        mushroom_spread(c, s1, cell, ds, k1)
    } else {
        s1
    }
}

/// Bark: unlit (`rb == 0`) next to fire or lava at a random step it
/// smoulders (`rb = 40`); burning (`rb > 1`) it counts down and water there
/// puts it out (`ra = 50`, `rb = 0`); at `rb == 1` it turns to charcoal
/// (keeping `ra`).
pub open spec fn bark_rule(c: Ctx, s: Scene, cell: Cell, ds: Draws) -> Scene {
    let rb = cell.rb;
    let v = rvec(ds, 0);
    let nbr = sget(c, s, v.0, v.1).species;
    if rb == 0 && (nbr == Species::Fire || nbr == Species::Lava) {
        stay(c, s, Cell { species: Species::Bark, ra: cell.ra, rb: 40, clock: 0 })
    } else if rb > 1 {
        let s1 = stay(c, s, Cell { ra: cell.ra, rb: (rb - 1) as u8, ..cell });
        if nbr == Species::Water {
            stay(c, s1, Cell { ra: 50, rb: 0, ..cell })
        } else {
            s1
        }
    } else if rb == 1 {
        stay(c, s, Cell { species: Species::Charcoal, ra: cell.ra, rb: 0, clock: 0 })
    } else {
        s
    }
}

/// The growth of an unlit root after it may have burnt, its draws starting
/// at `k`: into soil, sand or clay below it grows one time in 15 when `ra`
/// is above 20 (`ra` down by 3); water at a random step (left, straight or
/// right; up, level or down) feeds it (`ra` up by 5, wrapping) one time in
/// 5.
pub open spec fn root_grow(c: Ctx, s: Scene, cell: Cell, ds: Draws, k: int) -> Scene {
    let ra = cell.ra;
    let below = sget(c, s, 0, 1).species;
    let soft = below == Species::Soil || below == Species::Sand || below == Species::Clay;
    let s1 = if soft && once(ds, k, 15) && ra > 20 {
        sset(c, s, 0, 1, Cell { ra: ssub(ra, 3), ..cell })
    } else {
        s
    };
    let k1: int = if soft { k + 1 } else { k };
    let rdx = rdir(ds, k1);
    let rdy = rdir(ds, k1 + 1);
    if sget(c, s1, rdx, rdy).species == Species::Water && once(ds, k1 + 2, 5) {
        stay(c, s1, Cell { ra: wadd(ra, 5), ..cell })
    } else {
        s1
    }
}

/// Root: may burn (see `burnable_solid`, 25); when it was unlit it then
/// grows (see `root_grow`).
pub open spec fn root_rule(c: Ctx, s: Scene, cell: Cell, ds: Draws) -> Scene {
    let (s1, k1) = burnable_solid(c, s, cell, 25, ds, 0);
    if cell.rb == 0 {
        root_grow(c, s1, cell, ds, k1)
    } else {
        s1
    }
}

/// Fruit: burning (`rb > 0`) it burns (see `burnable_solid`, 15).
/// Otherwise it falls into empty space; resting, it ripens (`ra` down by
/// 1) and, once `ra` would drop below 20, rots into a fresh seed, sowing a
/// second fresh seed into empty space at a random side; otherwise it may
/// catch fire as the riper fruit.
pub open spec fn fruit_rule(c: Ctx, s: Scene, cell: Cell, ds: Draws) -> Scene {
    if cell.rb > 0 {
        burnable_solid(c, s, cell, 15, ds, 0).0
    } else if sget(c, s, 0, 1).species == Species::Empty {
        moveto(c, s, 0, 1, cell)
    } else {
        let ra = ssub(cell.ra, 1);
        if ra < 20 {
            let s1 = stay(c, s, fresh_cell(Species::Seed, draw(ds, 0, 50)));
            let sdx = rdir(ds, 1);
            if sget(c, s1, sdx, 0).species == Species::Empty {
                sset(c, s1, sdx, 0, fresh_cell(Species::Seed, draw(ds, 2, 50)))
            } else {
                s1
            }
        } else {
            burnable_solid(c, s, Cell { ra, ..cell }, 15, ds, 0).0
        }
    }
}

/// What a thorn kills: mites, ants, spiders, bees, butterflies, birds,
/// snakes and worms.
pub open spec fn pricked(t: Species) -> bool {
    t == Species::Mite || t == Species::Ant || t == Species::Spider || t == Species::Bee || t
        == Species::Butterfly || t == Species::Bird || t == Species::Snake || t == Species::Worm
}

/// Thorn: kills a creature at a random step (see `pricked`); then it may
/// burn (see `burnable_solid`, 10).
pub open spec fn thorn_rule(c: Ctx, s: Scene, cell: Cell, ds: Draws) -> Scene {
    let v = rvec(ds, 0);
    let s1 = if pricked(sget(c, s, v.0, v.1).species) {
        sset(c, s, v.0, v.1, Cell::empty())
    } else {
        s
    };
    burnable_solid(c, s1, cell, 10, ds, 1).0
}

/// The bounds of the draws of `burnable_solid`: a `rand_vec`, and the
/// flame's colour when it throws one.
pub open spec fn burnable_solid_draws(c: Ctx, s: Scene, cell: Cell, burn_time: u8, ds: Draws, k: int) -> Seq<int> {
    let v = rvec(ds, k);
    let nbr = sget(c, s, v.0, v.1).species;
    seq![2000] + draw_if(cell.rb > 1 && cell.rb % 4 == 0 && nbr == Species::Empty, 30)
}

/// The bounds of the draws a leaf makes (see `leaf_rule`).
pub open spec fn leaf_draws(c: Ctx, s: Scene, cell: Cell, ds: Draws) -> Seq<int> {
    if cell.rb > 0 {
        burnable_solid_draws(c, s, cell, 15, ds, 0)
    } else {
        let dx = rdir(ds, 0);
        let side = sget(c, s, dx, 0).species == Species::Empty;
        if sget(c, s, 0, 1).species == Species::Empty || sget(c, s, dx, 1).species == Species::Empty {
            seq![1000]
        } else if side && once(ds, 1, 5) {
            seq![1000, 5]
        } else {
            seq![1000] + draw_if(side, 5) + burnable_solid_draws(c, s, cell, 15, ds, if side { 2 } else { 1 })
        }
    }
}

/// The bounds of the draws a flower makes (see `flower_rule`).
pub open spec fn flower_draws(c: Ctx, s: Scene, cell: Cell, ds: Draws) -> Seq<int> {
    let v = rvec(ds, 0);
    let nbr = sget(c, s, v.0, v.1).species;
    let visited = nbr == Species::Bee || nbr == Species::Butterfly;
    let pollinated = visited && once(ds, 1, 30);
    let sv = rvec(ds, 2);
    let sow = pollinated && sget(c, s, sv.0, sv.1).species == Species::Empty;
    let s1 = if sow {
        sset(c, s, sv.0, sv.1, fresh_cell(Species::Seed, draw(ds, 3, 50)))
    } else {
        s
    };
    let k: int = if sow {
        4
    } else if pollinated {
        3
    } else if visited {
        2
    } else {
        1
    };
    seq![2000] + draw_if(visited, 30) + draw_if(pollinated, 2000) + draw_if(sow, 50) + burnable_solid_draws(
        c, s1, cell, 10, ds, k)
}

/// The bounds of the draws of `grass_grow` from `k`.
pub open spec fn grass_grow_draws(c: Ctx, s: Scene, cell: Cell, ds: Draws, k: int) -> Seq<int> {
    let ra = cell.ra;
    let sdx = rdir(ds, k);
    let side = sget(c, s, sdx, 0).species;
    let room = (side == Species::Soil || side == Species::Sand) && sget(c, s, sdx, -1).species == Species::Empty;
    let s1 = if room && once(ds, k + 1, 40) {
        sset(c, s, sdx, -1, Cell { ra: ssub(ra, 5), ..cell })
    } else {
        s
    };
    seq![1000] + draw_if(room, 40) + draw_if(sget(c, s1, 0, -1).species == Species::Empty, 60)
}

/// The bounds of the draws grass makes (see `grass_rule`).
pub open spec fn grass_draws(c: Ctx, s: Scene, cell: Cell, ds: Draws) -> Seq<int> {
    let (s1, k1) = burnable_solid(c, s, cell, 12, ds, 0);
    burnable_solid_draws(c, s, cell, 12, ds, 0) + (if cell.rb == 0 { grass_grow_draws(c, s1, cell, ds, k1) } else { seq![] })
}

/// The bounds of the draws of `vine_climb` from `k`: one `once_in(20)`
/// for every neighbour it may grow away from.
pub open spec fn vine_climb_draws(c: Ctx, s: Scene, cell: Cell, ds: Draws, k: int) -> Seq<int> {
    Seq::new((vine_climb(c, s, cell, ds, 6, k).1 - k) as nat, |i: int| 20int)
}

/// The bounds of the draws a vine makes (see `vine_rule`).
pub open spec fn vine_draws(c: Ctx, s: Scene, cell: Cell, ds: Draws) -> Seq<int> {
    let (s1, k1) = burnable_solid(c, s, cell, 20, ds, 0);
    burnable_solid_draws(c, s, cell, 20, ds, 0) + (if cell.rb == 0 { vine_climb_draws(c, s1, cell, ds, k1) } else { seq![] })
}

/// The bounds of the draws of `moss_life` from `k`.
pub open spec fn moss_life_draws(c: Ctx, s: Scene, cell: Cell, ds: Draws, k: int) -> Seq<int> {
    let ra = cell.ra;
    let sdx = rdir(ds, k);
    let room = sget(c, s, sdx, 0).species == Species::Empty;
    let s1 = if room && once(ds, k + 1, 25) && ra > 30 {
        sset(c, s, sdx, 0, Cell { ra: ssub(ra, 5), ..cell })
    } else {
        s
    };
    let k1: int = if room { k + 2 } else { k + 1 };
    let mv = rvec(ds, k1);
    let wet = sget(c, s1, mv.0, mv.1).species == Species::Water && ra < 200;
    seq![1000] + draw_if(room, 25) + seq![2000] + draw_if(wet, 3) + draw_if(ra > 20, 50)
}

/// The bounds of the draws moss makes (see `moss_rule`).
pub open spec fn moss_draws(c: Ctx, s: Scene, cell: Cell, ds: Draws) -> Seq<int> {
    let (s1, k1) = burnable_solid(c, s, cell, 20, ds, 0);
    burnable_solid_draws(c, s, cell, 20, ds, 0) + (if cell.rb == 0 { moss_life_draws(c, s1, cell, ds, k1) } else { seq![] })
}

/// The bounds of the draws of `mushroom_spread` from `k`.
pub open spec fn mushroom_spread_draws(c: Ctx, s: Scene, cell: Cell, ds: Draws, k: int) -> Seq<int> {
    let mv = rvec(ds, k);
    let nbr = sget(c, s, mv.0, mv.1).species;
    let woody = nbr == Species::Wood || nbr == Species::Fungus || nbr == Species::Soil;
    seq![2000] + draw_if(woody, 15) + draw_if(woody && once(ds, k + 1, 15) && cell.ra > 40, 8)
}

/// The bounds of the draws a mushroom makes (see `mushroom_rule`).
pub open spec fn mushroom_draws(c: Ctx, s: Scene, cell: Cell, ds: Draws) -> Seq<int> {
    let (s1, k1) = burnable_solid(c, s, cell, 15, ds, 0);
    burnable_solid_draws(c, s, cell, 15, ds, 0) + (if cell.rb == 0 { mushroom_spread_draws(c, s1, cell, ds, k1) } else { seq![] })
}

/// The bounds of the draws bark makes: a `rand_vec`.
pub open spec fn bark_draws(c: Ctx, s: Scene, cell: Cell, ds: Draws) -> Seq<int> {
    seq![2000]
}

/// The bounds of the draws of `root_grow` from `k`.
pub open spec fn root_grow_draws(c: Ctx, s: Scene, cell: Cell, ds: Draws, k: int) -> Seq<int> {
    let ra = cell.ra;
    let below = sget(c, s, 0, 1).species;
    let soft = below == Species::Soil || below == Species::Sand || below == Species::Clay;
    let s1 = if soft && once(ds, k, 15) && ra > 20 {
        sset(c, s, 0, 1, Cell { ra: ssub(ra, 3), ..cell })
    } else {
        s
    };
    let k1: int = if soft { k + 1 } else { k };
    draw_if(soft, 15) + seq![1000, 1000] + draw_if(
        sget(c, s1, rdir(ds, k1), rdir(ds, k1 + 1)).species == Species::Water,
        5,
    )
}

/// The bounds of the draws a root makes (see `root_rule`).
pub open spec fn root_draws(c: Ctx, s: Scene, cell: Cell, ds: Draws) -> Seq<int> {
    let (s1, k1) = burnable_solid(c, s, cell, 25, ds, 0);
    burnable_solid_draws(c, s, cell, 25, ds, 0) + (if cell.rb == 0 { root_grow_draws(c, s1, cell, ds, k1) } else { seq![] })
}

/// The bounds of the draws a fruit makes (see `fruit_rule`).
pub open spec fn fruit_draws(c: Ctx, s: Scene, cell: Cell, ds: Draws) -> Seq<int> {
    if cell.rb > 0 {
        burnable_solid_draws(c, s, cell, 15, ds, 0)
    } else if sget(c, s, 0, 1).species == Species::Empty {
        seq![]
    } else {
        let ra = ssub(cell.ra, 1);
        if ra < 20 {
            let s1 = stay(c, s, fresh_cell(Species::Seed, draw(ds, 0, 50)));
            seq![50, 1000] + draw_if(sget(c, s1, rdir(ds, 1), 0).species == Species::Empty, 50)
        } else {
            burnable_solid_draws(c, s, Cell { ra, ..cell }, 15, ds, 0)
        }
    }
}

/// The bounds of the draws a thorn makes (see `thorn_rule`).
pub open spec fn thorn_draws(c: Ctx, s: Scene, cell: Cell, ds: Draws) -> Seq<int> {
    let v = rvec(ds, 0);
    let s1 = if pricked(sget(c, s, v.0, v.1).species) {
        sset(c, s, v.0, v.1, Cell::empty())
    } else {
        s
    };
    seq![2000] + burnable_solid_draws(c, s1, cell, 10, ds, 1)
}

/// The burning of a plant solid (see `burnable_solid`).
fn burnable_solid_step(cell: Cell, api: &mut SandApi, burn_time: u8, Ghost(start): Ghost<SandApi>)
    requires
        old(api).continues(start),
    ensures
        final(api).continues(*old(api)),
        final(api).scene() == burnable_solid(
            old(api).ctx(),
            old(api).scene(),
            cell,
            burn_time,
            final(api).new_draws(start),
            old(api).draws().len() - start.draws().len(),
        ).0,
        final(api).draws().len() - start.draws().len() == burnable_solid(
            old(api).ctx(),
            old(api).scene(),
            cell,
            burn_time,
            final(api).new_draws(start),
            old(api).draws().len() - start.draws().len(),
        ).1,
        bounds(final(api).new_draws(start)) == bounds(old(api).new_draws(start)) + burnable_solid_draws(old(api).ctx(), old(api).scene(), cell, burn_time, final(api).new_draws(start), old(api).draws().len() - start.draws().len()),
{
    let rb = cell.rb;
    let (dx, dy) = api.rand_vec();
    let nbr_species = api.get(dx, dy).species;
    if rb == 0 && (nbr_species == Species::Fire || nbr_species == Species::Lava) {
        api.set(0, 0, Cell { species: cell.species, ra: cell.ra, rb: burn_time, clock: 0 });
        return;
    }
    if rb > 1 {
        api.set(0, 0, Cell { species: cell.species, ra: cell.ra, rb: rb - 1, clock: 0 });
        if rb % 4 == 0 && nbr_species == Species::Empty {
            let ra = 20 + api.rand_int(30) as u8;
            api.set(dx, dy, Cell { species: Species::Fire, ra, rb: 0, clock: 0 });
        }
        if nbr_species == Species::Water {
            api.set(0, 0, Cell { species: cell.species, ra: 50, rb: 0, clock: 0 });
        }
    } else if rb == 1 {
        api.set(0, 0, Cell { species: Species::Ash, ra: cell.ra, rb: 0, clock: 0 });
    }
}

/// One turn of leaf (see `leaf_rule`).
pub fn update_leaf(cell: Cell, api: &mut SandApi)
    requires
        old(api).wf(),
    ensures
        final(api).continues(*old(api)),
        final(api).scene() == leaf_rule(old(api).ctx(), old(api).scene(), cell, final(api).new_draws(*old(api))),
        bounds(final(api).new_draws(*old(api))) == leaf_draws(old(api).ctx(), old(api).scene(), cell, final(api).new_draws(*old(api))),
{
    let rb = cell.rb;
    if rb > 0 {
        burnable_solid_step(cell, api, 15, Ghost(*old(api)));
        return;
    }
    let dx = api.rand_dir();
    let below = api.get(0, 1);
    if below.species == Species::Empty {
        api.set(0, 0, Cell::empty());
        api.set(0, 1, cell);
    } else if api.get(dx, 1).species == Species::Empty {
        api.set(0, 0, Cell::empty());
        api.set(dx, 1, cell);
    } else if api.get(dx, 0).species == Species::Empty && api.once_in(5) {
        api.set(0, 0, Cell::empty());
        api.set(dx, 0, cell);
    } else {
        burnable_solid_step(cell, api, 15, Ghost(*old(api)));
    }
}

/// One turn of flower (see `flower_rule`).
pub fn update_flower(cell: Cell, api: &mut SandApi)
    requires
        old(api).wf(),
    ensures
        final(api).continues(*old(api)),
        final(api).scene() == flower_rule(old(api).ctx(), old(api).scene(), cell, final(api).new_draws(*old(api))),
        bounds(final(api).new_draws(*old(api))) == flower_draws(old(api).ctx(), old(api).scene(), cell, final(api).new_draws(*old(api))),
{
    let (dx, dy) = api.rand_vec();
    let nbr = api.get(dx, dy);
    if nbr.species == Species::Bee || nbr.species == Species::Butterfly {
        if api.once_in(30) {
            let (sdx, sdy) = api.rand_vec();
            if api.get(sdx, sdy).species == Species::Empty {
                let seed = api.new_cell(Species::Seed);
                api.set(sdx, sdy, seed);
            }
        }
    }
    burnable_solid_step(cell, api, 10, Ghost(*old(api)));
}

/// The growth of unlit grass (see `grass_grow`), ending the turn.
fn grass_grow_step(cell: Cell, api: &mut SandApi, Ghost(start): Ghost<SandApi>)
    requires
        old(api).continues(start),
    ensures
        final(api).continues(*old(api)),
        final(api).scene() == grass_grow(
            old(api).ctx(),
            old(api).scene(),
            cell,
            final(api).new_draws(start),
            old(api).draws().len() - start.draws().len(),
        ),
        bounds(final(api).new_draws(start)) == bounds(old(api).new_draws(start)) + grass_grow_draws(old(api).ctx(), old(api).scene(), cell, final(api).new_draws(start), old(api).draws().len() - start.draws().len()),
{
    let ra = cell.ra;
    let sdx = api.rand_dir();
    let side = api.get(sdx, 0);
    if side.species == Species::Soil || side.species == Species::Sand {
        if api.get(sdx, -1).species == Species::Empty && api.once_in(40) {
            api.set(sdx, -1, Cell { ra: ra.saturating_sub(5), ..cell });
        }
    }
    if api.get(0, -1).species == Species::Empty && api.once_in(60) && ra > 30 {
        api.set(0, -1, Cell { ra: ra.saturating_sub(3), ..cell });
    }
}

/// One turn of grass (see `grass_rule`).
pub fn update_grass(cell: Cell, api: &mut SandApi)
    requires
        old(api).wf(),
    ensures
        final(api).continues(*old(api)),
        final(api).scene() == grass_rule(old(api).ctx(), old(api).scene(), cell, final(api).new_draws(*old(api))),
        bounds(final(api).new_draws(*old(api))) == grass_draws(old(api).ctx(), old(api).scene(), cell, final(api).new_draws(*old(api))),
{
    let rb = cell.rb;
    burnable_solid_step(cell, api, 12, Ghost(*old(api)));
    let ghost mid = *api;
    if rb == 0 {
        grass_grow_step(cell, api, Ghost(*old(api)));
    }
    proof {
        lemma_new_draws_extend(*old(api), mid, *api);
        lemma_burnable_solid_stable(
            old(api).ctx(),
            old(api).scene(),
            cell,
            12,
            mid.new_draws(*old(api)),
            api.new_draws(*old(api)),
            0,
        );
    }
}

/// The climbing of an unlit vine (see `vine_climb`), ending the turn.
fn vine_climb_step(cell: Cell, api: &mut SandApi, Ghost(start): Ghost<SandApi>)
    requires
        old(api).continues(start),
    ensures
        final(api).continues(*old(api)),
        final(api).scene() == vine_climb(
            old(api).ctx(),
            old(api).scene(),
            cell,
            final(api).new_draws(start),
            6,
            old(api).draws().len() - start.draws().len(),
        ).0,
        bounds(final(api).new_draws(start)) == bounds(old(api).new_draws(start)) + vine_climb_draws(old(api).ctx(), old(api).scene(), cell, final(api).new_draws(start), old(api).draws().len() - start.draws().len()),
{
    let ghost c = api.ctx();
    let ghost s0 = api.scene();
    let ghost k0 = api.draws().len() - start.draws().len();
    let ra = cell.ra;
    let dys: [i32; 2] = [-1, 1];
    let dxs: [i32; 3] = [-1, 0, 1];
    let mut a: usize = 0;
    while a < 2
        invariant
            0 <= a <= 2,
            dys@ == seq![-1i32, 1i32],
            dxs@ == seq![-1i32, 0i32, 1i32],
            api.continues(*old(api)),
            old(api).continues(start),
            c == api.ctx(),
            ra == cell.ra,
            0 <= k0,
            (api.scene(), api.draws().len() - start.draws().len()) == vine_climb(
                c,
                s0,
                cell,
                api.new_draws(start),
                3 * a,
                k0,
            ),
            k0 == old(api).draws().len() - start.draws().len(),
            forall|j: int| old(api).draws().len() <= j < api.draws().len() ==> #[trigger] api.draws()[j].0 == 20,
        decreases 2 - a,
    {
        let mut b: usize = 0;
        while b < 3
            invariant
                0 <= a < 2,
                0 <= b <= 3,
                dys@ == seq![-1i32, 1i32],
                dxs@ == seq![-1i32, 0i32, 1i32],
                api.continues(*old(api)),
                old(api).continues(start),
                c == api.ctx(),
                ra == cell.ra,
                0 <= k0,
                (api.scene(), api.draws().len() - start.draws().len()) == vine_climb(
                    c,
                    s0,
                    cell,
                    api.new_draws(start),
                    3 * a + b,
                    k0,
                ),
                k0 == old(api).draws().len() - start.draws().len(),
                forall|j: int| old(api).draws().len() <= j < api.draws().len() ==> #[trigger] api.draws()[j].0 == 20,
            decreases 3 - b,
        {
            let dy = dys[a];
            let dx = dxs[b];
            let ghost before = *api;
            let ghost i = 3 * a + b;
            assert(vine_offset(i) == (dx as int, dy as int));
            let nbr = api.get(dx, dy);
            if nbr.species == Species::Wall || nbr.species == Species::Wood || nbr.species == Species::Vine {
                if api.get(-dx, -dy).species == Species::Empty && api.once_in(20) {
                    api.set(-dx, -dy, Cell { ra: ra.saturating_sub(2), ..cell });
                }
            }
            proof {
                lemma_new_draws_extend(start, before, *api);
                lemma_vine_climb_stable(c, s0, cell, before.new_draws(start), api.new_draws(start), i, k0);
            }
            b = b + 1;
        }
        a = a + 1;
    }
    proof {
        let n = start.draws().len() as int;
        let m = old(api).draws().len() as int;
        assert(bounds(api.new_draws(start)) =~= bounds(old(api).new_draws(start)) + Seq::new(
            (api.draws().len() - m) as nat,
            |i: int| 20int,
        )) by {
            assert forall|j: int| 0 <= j < m - n implies #[trigger] api.draws()[n + j] == old(api).draws()[n + j] by {}
        }
    }
}

/// One turn of vine (see `vine_rule`).
pub fn update_vine(cell: Cell, api: &mut SandApi)
    requires
        old(api).wf(),
    ensures
        final(api).continues(*old(api)),
        final(api).scene() == vine_rule(old(api).ctx(), old(api).scene(), cell, final(api).new_draws(*old(api))),
        bounds(final(api).new_draws(*old(api))) == vine_draws(old(api).ctx(), old(api).scene(), cell, final(api).new_draws(*old(api))),
{
    let rb = cell.rb;
    burnable_solid_step(cell, api, 20, Ghost(*old(api)));
    let ghost mid = *api;
    if rb == 0 {
        vine_climb_step(cell, api, Ghost(*old(api)));
    }
    proof {
        lemma_new_draws_extend(*old(api), mid, *api);
        lemma_burnable_solid_stable(
            old(api).ctx(),
            old(api).scene(),
            cell,
            20,
            mid.new_draws(*old(api)),
            api.new_draws(*old(api)),
            0,
        );
    }
}

/// The life of unlit moss (see `moss_life`), ending the turn.
#[verifier::rlimit(60)]
#[verifier::spinoff_prover]
fn moss_life_step(cell: Cell, api: &mut SandApi, Ghost(start): Ghost<SandApi>)
    requires
        old(api).continues(start),
    ensures
        final(api).continues(*old(api)),
        final(api).scene() == moss_life(
            old(api).ctx(),
            old(api).scene(),
            cell,
            final(api).new_draws(start),
            old(api).draws().len() - start.draws().len(),
        ),
        bounds(final(api).new_draws(start)) == bounds(old(api).new_draws(start)) + moss_life_draws(old(api).ctx(), old(api).scene(), cell, final(api).new_draws(start), old(api).draws().len() - start.draws().len()),
{
    let ra = cell.ra;
    let sdx = api.rand_dir();
    if api.get(sdx, 0).species == Species::Empty && api.once_in(25) && ra > 30 {
        api.set(sdx, 0, Cell { ra: ra.saturating_sub(5), ..cell });
    }
    let (mdx, mdy) = api.rand_vec();
    if api.get(mdx, mdy).species == Species::Water && ra < 200 && api.once_in(3) {
        api.set(0, 0, Cell { ra: ra + 1, ..cell });
    }
    if ra > 20 && api.once_in(50) {
        api.set(0, 0, Cell { ra: ra - 1, ..cell });
    }
}

/// One turn of moss (see `moss_rule`).
pub fn update_moss(cell: Cell, api: &mut SandApi)
    requires
        old(api).wf(),
    ensures
        final(api).continues(*old(api)),
        final(api).scene() == moss_rule(old(api).ctx(), old(api).scene(), cell, final(api).new_draws(*old(api))),
        bounds(final(api).new_draws(*old(api))) == moss_draws(old(api).ctx(), old(api).scene(), cell, final(api).new_draws(*old(api))),
{
    let rb = cell.rb;
    burnable_solid_step(cell, api, 20, Ghost(*old(api)));
    let ghost mid = *api;
    if rb == 0 {
        moss_life_step(cell, api, Ghost(*old(api)));
    }
    proof {
        lemma_new_draws_extend(*old(api), mid, *api);
        lemma_burnable_solid_stable(
            old(api).ctx(),
            old(api).scene(),
            cell,
            20,
            mid.new_draws(*old(api)),
            api.new_draws(*old(api)),
            0,
        );
    }
}

/// The spreading of an unlit mushroom (see `mushroom_spread`), ending the
/// turn.
fn mushroom_spread_step(cell: Cell, api: &mut SandApi, Ghost(start): Ghost<SandApi>)
    requires
        old(api).continues(start),
    ensures
        final(api).continues(*old(api)),
        final(api).scene() == mushroom_spread(
            old(api).ctx(),
            old(api).scene(),
            cell,
            final(api).new_draws(start),
            old(api).draws().len() - start.draws().len(),
        ),
        bounds(final(api).new_draws(start)) == bounds(old(api).new_draws(start)) + mushroom_spread_draws(old(api).ctx(), old(api).scene(), cell, final(api).new_draws(start), old(api).draws().len() - start.draws().len()),
{
    let ra = cell.ra;
    let (mdx, mdy) = api.rand_vec();
    let nbr = api.get(mdx, mdy);
    if (nbr.species == Species::Wood || nbr.species == Species::Fungus || nbr.species == Species::Soil)
        && api.once_in(15) && ra > 40 {
        let (sdx, sdy) = api.rand_vec_8();
        if api.get(sdx, sdy).species == Species::Empty {
            api.set(sdx, sdy, Cell { ra: ra - 5, ..cell });
        }
    }
}

/// One turn of mushroom (see `mushroom_rule`).
pub fn update_mushroom(cell: Cell, api: &mut SandApi)
    requires
        old(api).wf(),
    ensures
        final(api).continues(*old(api)),
        final(api).scene() == mushroom_rule(old(api).ctx(), old(api).scene(), cell, final(api).new_draws(*old(api))),
        bounds(final(api).new_draws(*old(api))) == mushroom_draws(old(api).ctx(), old(api).scene(), cell, final(api).new_draws(*old(api))),
{
    let rb = cell.rb;
    burnable_solid_step(cell, api, 15, Ghost(*old(api)));
    let ghost mid = *api;
    if rb == 0 {
        mushroom_spread_step(cell, api, Ghost(*old(api)));
    }
    proof {
        lemma_new_draws_extend(*old(api), mid, *api);
        lemma_burnable_solid_stable(
            old(api).ctx(),
            old(api).scene(),
            cell,
            15,
            mid.new_draws(*old(api)),
            api.new_draws(*old(api)),
            0,
        );
    }
}

/// One turn of bark (see `bark_rule`).
pub fn update_bark(cell: Cell, api: &mut SandApi)
    requires
        old(api).wf(),
    ensures
        final(api).continues(*old(api)),
        final(api).scene() == bark_rule(old(api).ctx(), old(api).scene(), cell, final(api).new_draws(*old(api))),
        bounds(final(api).new_draws(*old(api))) == bark_draws(old(api).ctx(), old(api).scene(), cell, final(api).new_draws(*old(api))),
{
    let rb = cell.rb;
    let (dx, dy) = api.rand_vec();
    let nbr_species = api.get(dx, dy).species;
    if rb == 0 && (nbr_species == Species::Fire || nbr_species == Species::Lava) {
        api.set(0, 0, Cell { species: Species::Bark, ra: cell.ra, rb: 40, clock: 0 });
        return;
    }
    if rb > 1 {
        api.set(0, 0, Cell { ra: cell.ra, rb: rb - 1, ..cell });
        if nbr_species == Species::Water {
            api.set(0, 0, Cell { ra: 50, rb: 0, ..cell });
        }
    } else if rb == 1 {
        api.set(0, 0, Cell { species: Species::Charcoal, ra: cell.ra, rb: 0, clock: 0 });
    }
}

/// The growth of an unlit root (see `root_grow`), ending the turn.
fn root_grow_step(cell: Cell, api: &mut SandApi, Ghost(start): Ghost<SandApi>)
    requires
        old(api).continues(start),
    ensures
        final(api).continues(*old(api)),
        final(api).scene() == root_grow(
            old(api).ctx(),
            old(api).scene(),
            cell,
            final(api).new_draws(start),
            old(api).draws().len() - start.draws().len(),
        ),
        bounds(final(api).new_draws(start)) == bounds(old(api).new_draws(start)) + root_grow_draws(old(api).ctx(), old(api).scene(), cell, final(api).new_draws(start), old(api).draws().len() - start.draws().len()),
{
    let ra = cell.ra;
    let below = api.get(0, 1);
    if (below.species == Species::Soil || below.species == Species::Sand || below.species == Species::Clay)
        && api.once_in(15) && ra > 20 {
        api.set(0, 1, Cell { ra: ra.saturating_sub(3), ..cell });
    }
    let rdx = api.rand_dir();
    let rdy = api.rand_dir();
    let nbr = api.get(rdx, rdy);
    if nbr.species == Species::Water && api.once_in(5) {
        api.set(0, 0, Cell { ra: ra.wrapping_add(5), ..cell });
    }
}

/// One turn of root (see `root_rule`).
pub fn update_root(cell: Cell, api: &mut SandApi)
    requires
        old(api).wf(),
    ensures
        final(api).continues(*old(api)),
        final(api).scene() == root_rule(old(api).ctx(), old(api).scene(), cell, final(api).new_draws(*old(api))),
        bounds(final(api).new_draws(*old(api))) == root_draws(old(api).ctx(), old(api).scene(), cell, final(api).new_draws(*old(api))),
{
    let rb = cell.rb;
    burnable_solid_step(cell, api, 25, Ghost(*old(api)));
    let ghost mid = *api;
    if rb == 0 {
        root_grow_step(cell, api, Ghost(*old(api)));
    }
    proof {
        lemma_new_draws_extend(*old(api), mid, *api);
        lemma_burnable_solid_stable(
            old(api).ctx(),
            old(api).scene(),
            cell,
            25,
            mid.new_draws(*old(api)),
            api.new_draws(*old(api)),
            0,
        );
    }
}

/// One turn of fruit (see `fruit_rule`).
pub fn update_fruit(cell: Cell, api: &mut SandApi)
    requires
        old(api).wf(),
    ensures
        final(api).continues(*old(api)),
        final(api).scene() == fruit_rule(old(api).ctx(), old(api).scene(), cell, final(api).new_draws(*old(api))),
        bounds(final(api).new_draws(*old(api))) == fruit_draws(old(api).ctx(), old(api).scene(), cell, final(api).new_draws(*old(api))),
{
    let rb = cell.rb;
    if rb > 0 {
        burnable_solid_step(cell, api, 15, Ghost(*old(api)));
        return;
    }
    let below = api.get(0, 1);
    if below.species == Species::Empty {
        api.set(0, 0, Cell::empty());
        api.set(0, 1, cell);
    } else {
        let ra = cell.ra.saturating_sub(1);
        if ra < 20 {
            let seed = api.new_cell(Species::Seed);
            api.set(0, 0, seed);
            let sdx = api.rand_dir();
            if api.get(sdx, 0).species == Species::Empty {
                let seed2 = api.new_cell(Species::Seed);
                api.set(sdx, 0, seed2);
            }
        } else {
            burnable_solid_step(Cell { ra, ..cell }, api, 15, Ghost(*old(api)));
        }
    }
}

/// One turn of thorn (see `thorn_rule`).
pub fn update_thorn(cell: Cell, api: &mut SandApi)
    requires
        old(api).wf(),
    ensures
        final(api).continues(*old(api)),
        final(api).scene() == thorn_rule(old(api).ctx(), old(api).scene(), cell, final(api).new_draws(*old(api))),
        bounds(final(api).new_draws(*old(api))) == thorn_draws(old(api).ctx(), old(api).scene(), cell, final(api).new_draws(*old(api))),
{
    let (dx, dy) = api.rand_vec();
    let nbr = api.get(dx, dy);
    if nbr.species == Species::Mite || nbr.species == Species::Ant || nbr.species == Species::Spider
        || nbr.species == Species::Bee || nbr.species == Species::Butterfly || nbr.species == Species::Bird
        || nbr.species == Species::Snake || nbr.species == Species::Worm {
        api.set(dx, dy, Cell::empty());
    }
    burnable_solid_step(cell, api, 10, Ghost(*old(api)));
}

} // verus!
