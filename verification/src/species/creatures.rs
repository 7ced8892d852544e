//! Creatures: ant, spider, bee, butterfly, fish, bird, snake and worm.

use super::Species;
use crate::cell::Cell;
use crate::kinds::{fits, kinds, lemma_moveto_kinds, lemma_sset_same_kind};
use crate::world::{
    bounds, draw_if, moveto, once, rdir, rvec, rvec8, sget, sset, ssub, stay, swap, wadd, Ctx, Draws, SandApi, Scene,
};
use vstd::prelude::*;

verus! {

/// The energy `ra` of a creature after eating food worth `gain`: up by
/// `gain` (wrapping past 255), at most `cap`.
pub open spec fn fed(ra: u8, gain: u8, cap: u8) -> u8 {
    if wadd(ra, gain) < cap {
        wadd(ra, gain)
    } else {
        cap
    }
}

/// What scares a creature: fire, lava, poison and acid.
pub open spec fn dangerous(t: Species) -> bool {
    t == Species::Fire || t == Species::Lava || t == Species::Poison || t == Species::Acid
}

/// The wandering of a creature, its draws starting at `k`. With energy `ra`
/// below 5 it starves; otherwise it spends one unit. Fleeing (`rb > 0`) it
/// calms by one and runs to the step `(ra % 5 - 2, ±1)` (up when it
/// `favors_rise`) when empty, else to an empty random neighbour. Otherwise,
/// with `ra` and `rb` as they are then, it looks at a random step: danger
/// there makes it flee (`rb = 20`, `ra` down by 10 more), empty space it
/// moves into, anything else it stays beside.
pub open spec fn simple_creature(c: Ctx, s: Scene, cell: Cell, favors_rise: bool, ds: Draws, k: int) -> Scene {
    if cell.ra < 5 {
        stay(c, s, Cell::empty())
    } else {
        let ra = (cell.ra - 1) as u8;
        let fleeing = cell.rb > 0;
        let rb: u8 = if fleeing { (cell.rb - 1) as u8 } else { cell.rb };
        let dx = ra % 5 - 2;
        let dy: int = if favors_rise { -1 } else { 1 };
        let rv = rvec8(ds, k);
        if fleeing && sget(c, s, dx, dy).species == Species::Empty {
            moveto(c, s, dx, dy, Cell { ra, rb, ..cell })
        } else if fleeing && sget(c, s, rv.0, rv.1).species == Species::Empty {
            moveto(c, s, rv.0, rv.1, Cell { ra, rb, ..cell })
        } else {
            let k1: int = if fleeing { k + 1 } else { k };
            let sv = rvec(ds, k1);
            let sample = sget(c, s, sv.0, sv.1).species;
            if dangerous(sample) {
                stay(c, s, Cell { ra: ssub(ra, 10), rb: 20, ..cell })
            } else if sample == Species::Empty {
                moveto(c, s, sv.0, sv.1, Cell { ra, rb, ..cell })
            } else {
                stay(c, s, Cell { ra, rb, ..cell })
            }
        }
    }
}

/// Where a wandering creature ends: one with `ra` below 5 starves and
/// leaves an empty cell; any other ends in exactly one cell, its own place
/// or one that was empty (its own place then emptied), with `ra` lowered
/// by 1 to 11, and the count of each species on the grid is kept.
pub proof fn lemma_creature_ends_in_one_cell(c: Ctx, s: Scene, cell: Cell, favors_rise: bool, ds: Draws, k: int)
    requires
        fits(c, s),
        sget(c, s, 0, 0).species == cell.species,
    ensures
        cell.ra < 5 ==> simple_creature(c, s, cell, favors_rise, ds, k) == stay(c, s, Cell::empty()),
        cell.ra >= 5 ==> kinds(simple_creature(c, s, cell, favors_rise, ds, k).cells) == kinds(s.cells),
        cell.ra >= 5 ==> exists|dx: int, dy: int, w: Cell|
            #![trigger moveto(c, s, dx, dy, w)]
            w.species == cell.species && cell.ra - 11 <= w.ra < cell.ra && ((dx == 0 && dy == 0 && simple_creature(
                c,
                s,
                cell,
                favors_rise,
                ds,
                k,
            ) == stay(c, s, w)) || (sget(c, s, dx, dy).species == Species::Empty && simple_creature(
                c,
                s,
                cell,
                favors_rise,
                ds,
                k,
            ) == moveto(c, s, dx, dy, w))),
{
    let r = simple_creature(c, s, cell, favors_rise, ds, k);
    if cell.ra >= 5 {
        let ra = (cell.ra - 1) as u8;
        let fleeing = cell.rb > 0;
        let rb: u8 = if fleeing { (cell.rb - 1) as u8 } else { cell.rb };
        let w = Cell { ra, rb, ..cell };
        let dx = ra % 5 - 2;
        let dy: int = if favors_rise { -1 } else { 1 };
        let rv = rvec8(ds, k);
        if fleeing && sget(c, s, dx, dy).species == Species::Empty {
            lemma_moveto_kinds(c, s, dx, dy, w);
            assert(r == moveto(c, s, dx, dy, w));
        } else if fleeing && sget(c, s, rv.0, rv.1).species == Species::Empty {
            lemma_moveto_kinds(c, s, rv.0, rv.1, w);
            assert(r == moveto(c, s, rv.0, rv.1, w));
        } else {
            let k1: int = if fleeing { k + 1 } else { k };
            let sv = rvec(ds, k1);
            let sample = sget(c, s, sv.0, sv.1).species;
            if dangerous(sample) {
                let w2 = Cell { ra: ssub(ra, 10), rb: 20, ..cell };
                lemma_sset_same_kind(c, s, 0, 0, w2);
                assert(r == stay(c, s, w2) && moveto(c, s, 0, 0, w2) == moveto(c, s, 0, 0, w2));
            } else if sample == Species::Empty {
                lemma_moveto_kinds(c, s, sv.0, sv.1, w);
                assert(r == moveto(c, s, sv.0, sv.1, w));
            } else {
                lemma_sset_same_kind(c, s, 0, 0, w);
                assert(r == stay(c, s, w) && moveto(c, s, 0, 0, w) == moveto(c, s, 0, 0, w));
            }
        }
    }
}

/// What an ant eats: sugar, honey, bread, fruit, fungus, leaf, rice and
/// wheat.
pub open spec fn ant_food(t: Species) -> bool {
    t == Species::Sugar || t == Species::Honey || t == Species::Bread || t == Species::Fruit || t
        == Species::Fungus || t == Species::Leaf || t == Species::Rice || t == Species::Wheat
}

/// Ant: eats food at a random step (see `ant_food`; `fed` by 30 up to 200);
/// follows another ant there one time in 5 (moving into its place);
/// otherwise wanders (see `simple_creature`).
pub open spec fn ant_rule(c: Ctx, s: Scene, cell: Cell, ds: Draws) -> Scene {
    let sv = rvec(ds, 0);
    let sample = sget(c, s, sv.0, sv.1).species;
    if ant_food(sample) {
        stay(c, sset(c, s, sv.0, sv.1, Cell::empty()), Cell { ra: fed(cell.ra, 30, 200), rb: cell.rb, ..cell })
    } else if sample == Species::Ant && once(ds, 1, 5) {
        stay(c, sset(c, s, sv.0, sv.1, cell), Cell::empty())
    } else {
        simple_creature(c, s, cell, false, ds, if sample == Species::Ant { 2 } else { 1 })
    }
}

/// What a spider eats: ants, bees, butterflies, worms and mites.
pub open spec fn spider_food(t: Species) -> bool {
    t == Species::Ant || t == Species::Bee || t == Species::Butterfly || t == Species::Worm || t
        == Species::Mite
}

/// Spider: eats prey at a random step (see `spider_food`; `fed` by 50 up
/// to 200); climbs up onto a wall or wood above it; otherwise wanders
/// upwards (see `simple_creature`).
pub open spec fn spider_rule(c: Ctx, s: Scene, cell: Cell, ds: Draws) -> Scene {
    let sv = rvec(ds, 0);
    let sample = sget(c, s, sv.0, sv.1).species;
    let climb = sget(c, s, 0, -1).species;
    if spider_food(sample) {
        stay(c, sset(c, s, sv.0, sv.1, Cell::empty()), Cell { ra: fed(cell.ra, 50, 200), rb: cell.rb, ..cell })
    } else if climb == Species::Wall || climb == Species::Wood {
        moveto(c, s, 0, -1, cell)
    } else {
        simple_creature(c, s, cell, true, ds, 1)
    }
}

/// Bee: a flower at a random step feeds it (`fed` by 20 up to 200); it
/// flies up into empty space one time in 2; otherwise it wanders upwards
/// (see `simple_creature`).
pub open spec fn bee_rule(c: Ctx, s: Scene, cell: Cell, ds: Draws) -> Scene {
    let sv = rvec(ds, 0);
    let up = sget(c, s, 0, -1).species == Species::Empty;
    if sget(c, s, sv.0, sv.1).species == Species::Flower {
        stay(c, s, Cell { ra: fed(cell.ra, 20, 200), rb: cell.rb, ..cell })
    } else if up && once(ds, 1, 2) {
        moveto(c, s, 0, -1, cell)
    } else {
        simple_creature(c, s, cell, true, ds, if up { 2 } else { 1 })
    }
}

/// Butterfly: a flower at a random step feeds it (`fed` by 15 up to 200);
/// otherwise it flutters into an empty random step, or else wanders
/// upwards (see `simple_creature`).
pub open spec fn butterfly_rule(c: Ctx, s: Scene, cell: Cell, ds: Draws) -> Scene {
    let sv = rvec(ds, 0);
    if sget(c, s, sv.0, sv.1).species == Species::Flower {
        stay(c, s, Cell { ra: fed(cell.ra, 15, 200), rb: cell.rb, ..cell })
    } else {
        let rv = rvec(ds, 1);
        if sget(c, s, rv.0, rv.1).species == Species::Empty {
            moveto(c, s, rv.0, rv.1, cell)
        } else {
            simple_creature(c, s, cell, true, ds, 2)
        }
    }
}

/// What a fish eats: seeds, plants, grass and moss.
pub open spec fn fish_food(t: Species) -> bool {
    t == Species::Seed || t == Species::Plant || t == Species::Grass || t == Species::Moss
}

/// Fish: eats food at a random step (see `fish_food`; `fed` by 20 up to
/// 200). When that step holds no water and no water touches it on any
/// side, it suffocates: `ra` drops by 5, and a fish with `ra` below 5 dies
/// (leaves an empty cell). Otherwise it swims into water at
/// that step (leaving water with `ra = 100` behind), or else wanders (see
/// `simple_creature`).
pub open spec fn fish_rule(c: Ctx, s: Scene, cell: Cell, ds: Draws) -> Scene {
    let sv = rvec(ds, 0);
    let sample = sget(c, s, sv.0, sv.1).species;
    let in_water = sget(c, s, 1, 0).species == Species::Water || sget(c, s, -1, 0).species == Species::Water
        || sget(c, s, 0, 1).species == Species::Water || sget(c, s, 0, -1).species == Species::Water;
    if fish_food(sample) {
        stay(c, sset(c, s, sv.0, sv.1, Cell::empty()), Cell { ra: fed(cell.ra, 20, 200), rb: cell.rb, ..cell })
    } else if sample != Species::Water && !in_water {
        if cell.ra < 5 {
            stay(c, s, Cell::empty())
        } else {
            stay(c, s, Cell { ra: (cell.ra - 5) as u8, rb: cell.rb, ..cell })
        }
    } else if sample == Species::Water {
        swap(c, s, sv.0, sv.1, Cell { species: Species::Water, ra: 100, rb: 0, clock: 0 }, cell)
    } else {
        simple_creature(c, s, cell, false, ds, 1)
    }
}

/// What a bird eats: seeds, ants, bees, butterflies, worms, fruit, rice and
/// wheat.
pub open spec fn bird_food(t: Species) -> bool {
    t == Species::Seed || t == Species::Ant || t == Species::Bee || t == Species::Butterfly || t
        == Species::Worm || t == Species::Fruit || t == Species::Rice || t == Species::Wheat
}

/// Bird: eats food at a random step (see `bird_food`; `fed` by 40 up to
/// 200); when the step above a random column offset is empty it flies up
/// one time in 2, to the upper step of another random column offset;
/// otherwise it wanders upwards (see `simple_creature`).
pub open spec fn bird_rule(c: Ctx, s: Scene, cell: Cell, ds: Draws) -> Scene {
    let sv = rvec(ds, 0);
    let bdx = rdir(ds, 1);
    let room = sget(c, s, bdx, -1).species == Species::Empty;
    if bird_food(sget(c, s, sv.0, sv.1).species) {
        stay(c, sset(c, s, sv.0, sv.1, Cell::empty()), Cell { ra: fed(cell.ra, 40, 200), rb: cell.rb, ..cell })
    } else if room && once(ds, 2, 2) {
        moveto(c, s, rdir(ds, 3), -1, cell)
    } else {
        simple_creature(c, s, cell, true, ds, if room { 3 } else { 2 })
    }
}

/// What a snake eats: mites, ants, spiders, fish, worms and eggs.
pub open spec fn snake_food(t: Species) -> bool {
    t == Species::Mite || t == Species::Ant || t == Species::Spider || t == Species::Fish || t
        == Species::Worm || t == Species::Egg
}

/// Snake: eats prey at a random step (see `snake_food`; `fed` by 60 up to
/// 250); otherwise wanders (see `simple_creature`).
pub open spec fn snake_rule(c: Ctx, s: Scene, cell: Cell, ds: Draws) -> Scene {
    let sv = rvec(ds, 0);
    if snake_food(sget(c, s, sv.0, sv.1).species) {
        stay(c, sset(c, s, sv.0, sv.1, Cell::empty()), Cell { ra: fed(cell.ra, 60, 250), rb: cell.rb, ..cell })
    } else {
        simple_creature(c, s, cell, false, ds, 1)
    }
}

/// What a worm eats: soil, peat, ash and leaves.
pub open spec fn worm_food(t: Species) -> bool {
    t == Species::Soil || t == Species::Peat || t == Species::Ash || t == Species::Leaf
}

/// Worm: eats food at a random step (see `worm_food`; `fed` by 15 up to
/// 200); burrows into soil there one time in 5; otherwise wanders (see
/// `simple_creature`).
pub open spec fn worm_rule(c: Ctx, s: Scene, cell: Cell, ds: Draws) -> Scene {
    let sv = rvec(ds, 0);
    let sample = sget(c, s, sv.0, sv.1).species;
    if worm_food(sample) {
        stay(c, sset(c, s, sv.0, sv.1, Cell::empty()), Cell { ra: fed(cell.ra, 15, 200), rb: cell.rb, ..cell })
    } else if sample == Species::Soil && once(ds, 1, 5) {
        stay(c, sset(c, s, sv.0, sv.1, cell), Cell::empty())
    } else {
        simple_creature(c, s, cell, false, ds, if sample == Species::Soil { 2 } else { 1 })
    }
}

/// The bounds of the draws of `simple_creature`: none for a starving
/// creature or one that runs straight off; a fleeing one then draws a
/// `rand_vec_8`, and unless it runs there, it draws a `rand_vec` to look
/// around.
pub open spec fn simple_creature_draws(c: Ctx, s: Scene, cell: Cell, favors_rise: bool, ds: Draws, k: int) -> Seq<int> {
    if cell.ra < 5 {
        seq![]
    } else {
        let ra = (cell.ra - 1) as u8;
        let fleeing = cell.rb > 0;
        let dx = ra % 5 - 2;
        let dy: int = if favors_rise { -1 } else { 1 };
        let rv = rvec8(ds, k);
        if fleeing && sget(c, s, dx, dy).species == Species::Empty {
            seq![]
        } else if fleeing && sget(c, s, rv.0, rv.1).species == Species::Empty {
            seq![8]
        } else {
            draw_if(fleeing, 8) + seq![2000]
        }
    }
}

/// The bounds of the draws an ant makes (see `ant_rule`).
pub open spec fn ant_draws(c: Ctx, s: Scene, cell: Cell, ds: Draws) -> Seq<int> {
    let sv = rvec(ds, 0);
    let sample = sget(c, s, sv.0, sv.1).species;
    if ant_food(sample) {
        seq![2000]
    } else if sample == Species::Ant && once(ds, 1, 5) {
        seq![2000, 5]
    } else {
        seq![2000] + draw_if(sample == Species::Ant, 5) + simple_creature_draws(c, s, cell, false, ds, if sample
            == Species::Ant { 2 } else { 1 })
    }
}

/// The bounds of the draws a spider makes (see `spider_rule`).
pub open spec fn spider_draws(c: Ctx, s: Scene, cell: Cell, ds: Draws) -> Seq<int> {
    let sv = rvec(ds, 0);
    let climb = sget(c, s, 0, -1).species;
    if spider_food(sget(c, s, sv.0, sv.1).species) || climb == Species::Wall || climb == Species::Wood {
        seq![2000]
    } else {
        seq![2000] + simple_creature_draws(c, s, cell, true, ds, 1)
    }
}

/// The bounds of the draws a bee makes (see `bee_rule`).
pub open spec fn bee_draws(c: Ctx, s: Scene, cell: Cell, ds: Draws) -> Seq<int> {
    let sv = rvec(ds, 0);
    let up = sget(c, s, 0, -1).species == Species::Empty;
    if sget(c, s, sv.0, sv.1).species == Species::Flower {
        seq![2000]
    } else if up && once(ds, 1, 2) {
        seq![2000, 2]
    } else {
        seq![2000] + draw_if(up, 2) + simple_creature_draws(c, s, cell, true, ds, if up { 2 } else { 1 })
    }
}

/// The bounds of the draws a butterfly makes (see `butterfly_rule`).
pub open spec fn butterfly_draws(c: Ctx, s: Scene, cell: Cell, ds: Draws) -> Seq<int> {
    let sv = rvec(ds, 0);
    let rv = rvec(ds, 1);
    if sget(c, s, sv.0, sv.1).species == Species::Flower {
        seq![2000]
    } else if sget(c, s, rv.0, rv.1).species == Species::Empty {
        seq![2000, 2000]
    } else {
        seq![2000, 2000] + simple_creature_draws(c, s, cell, true, ds, 2)
    }
}

/// The bounds of the draws a fish makes (see `fish_rule`).
pub open spec fn fish_draws(c: Ctx, s: Scene, cell: Cell, ds: Draws) -> Seq<int> {
    let sv = rvec(ds, 0);
    let sample = sget(c, s, sv.0, sv.1).species;
    let in_water = sget(c, s, 1, 0).species == Species::Water || sget(c, s, -1, 0).species == Species::Water
        || sget(c, s, 0, 1).species == Species::Water || sget(c, s, 0, -1).species == Species::Water;
    if fish_food(sample) || (sample != Species::Water && !in_water) || sample == Species::Water {
        seq![2000]
    } else {
        seq![2000] + simple_creature_draws(c, s, cell, false, ds, 1)
    }
}

/// The bounds of the draws a bird makes (see `bird_rule`).
pub open spec fn bird_draws(c: Ctx, s: Scene, cell: Cell, ds: Draws) -> Seq<int> {
    let sv = rvec(ds, 0);
    let bdx = rdir(ds, 1);
    let room = sget(c, s, bdx, -1).species == Species::Empty;
    if bird_food(sget(c, s, sv.0, sv.1).species) {
        seq![2000]
    } else if room && once(ds, 2, 2) {
        seq![2000, 1000, 2, 1000]
    } else {
        seq![2000, 1000] + draw_if(room, 2) + simple_creature_draws(c, s, cell, true, ds, if room { 3 } else { 2 })
    }
}

/// The bounds of the draws a snake makes (see `snake_rule`).
pub open spec fn snake_draws(c: Ctx, s: Scene, cell: Cell, ds: Draws) -> Seq<int> {
    let sv = rvec(ds, 0);
    if snake_food(sget(c, s, sv.0, sv.1).species) {
        seq![2000]
    } else {
        seq![2000] + simple_creature_draws(c, s, cell, false, ds, 1)
    }
}

/// The bounds of the draws a worm makes (see `worm_rule`).
pub open spec fn worm_draws(c: Ctx, s: Scene, cell: Cell, ds: Draws) -> Seq<int> {
    let sv = rvec(ds, 0);
    let sample = sget(c, s, sv.0, sv.1).species;
    if worm_food(sample) {
        seq![2000]
    } else if sample == Species::Soil && once(ds, 1, 5) {
        seq![2000, 5]
    } else {
        seq![2000] + draw_if(sample == Species::Soil, 5) + simple_creature_draws(c, s, cell, false, ds, if sample
            == Species::Soil { 2 } else { 1 })
    }
}

/// The wandering of a creature (see `simple_creature`), ending the turn.
fn simple_creature_step(cell: Cell, api: &mut SandApi, favors_rise: bool, Ghost(start): Ghost<SandApi>)
    requires
        old(api).continues(start),
    ensures
        final(api).continues(*old(api)),
        final(api).scene() == simple_creature(
            old(api).ctx(),
            old(api).scene(),
            cell,
            favors_rise,
            final(api).new_draws(start),
            old(api).draws().len() - start.draws().len(),
        ),
        bounds(final(api).new_draws(start)) == bounds(old(api).new_draws(start)) + simple_creature_draws(old(api).ctx(), old(api).scene(), cell, favors_rise, final(api).new_draws(start), old(api).draws().len() - start.draws().len()),
{
    let mut ra = cell.ra;
    let mut rb = cell.rb;
    if ra < 5 {
        api.set(0, 0, Cell::empty());
        return;
    }
    ra = ra.saturating_sub(1);
    if rb > 0 {
        rb = rb.saturating_sub(1);
        let dx = (ra % 5) as i32 - 2;
        let dy: i32 = if favors_rise { -1 } else { 1 };
        let target = api.get(dx, dy);
        if target.species == Species::Empty {
            api.set(0, 0, Cell::empty());
            api.set(dx, dy, Cell { ra, rb, ..cell });
            return;
        } else {
            let (rdx, rdy) = api.rand_vec_8();
            if api.get(rdx, rdy).species == Species::Empty {
                api.set(0, 0, Cell::empty());
                api.set(rdx, rdy, Cell { ra, rb, ..cell });
                return;
            }
        }
    }
    let (sx, sy) = api.rand_vec();
    let sample = api.get(sx, sy);
    if sample.species == Species::Fire || sample.species == Species::Lava || sample.species == Species::Poison
        || sample.species == Species::Acid {
        rb = 20;
        ra = ra.saturating_sub(10);
        api.set(0, 0, Cell { ra, rb, ..cell });
        return;
    }
    if sample.species == Species::Empty {
        api.set(0, 0, Cell::empty());
        api.set(sx, sy, Cell { ra, rb, ..cell });
    } else {
        api.set(0, 0, Cell { ra, rb, ..cell });
    }
}

/// One turn of ant (see `ant_rule`).
pub fn update_ant(cell: Cell, api: &mut SandApi)
    requires
        old(api).wf(),
    ensures
        final(api).continues(*old(api)),
        final(api).scene() == ant_rule(old(api).ctx(), old(api).scene(), cell, final(api).new_draws(*old(api))),
        bounds(final(api).new_draws(*old(api))) == ant_draws(old(api).ctx(), old(api).scene(), cell, final(api).new_draws(*old(api))),
{
    let ra = cell.ra;
    let (sx, sy) = api.rand_vec();
    let sample = api.get(sx, sy);
    if sample.species == Species::Sugar || sample.species == Species::Honey || sample.species == Species::Bread
        || sample.species == Species::Fruit || sample.species == Species::Fungus || sample.species
        == Species::Leaf || sample.species == Species::Rice || sample.species == Species::Wheat {
        api.set(sx, sy, Cell::empty());
        let new_ra = ra.wrapping_add(30).min(200);
        api.set(0, 0, Cell { ra: new_ra, rb: cell.rb, ..cell });
        return;
    }
    if sample.species == Species::Ant && api.once_in(5) {
        api.set(sx, sy, cell);
        api.set(0, 0, Cell::empty());
        return;
    }
    simple_creature_step(cell, api, false, Ghost(*old(api)));
}

/// One turn of spider (see `spider_rule`).
pub fn update_spider(cell: Cell, api: &mut SandApi)
    requires
        old(api).wf(),
    ensures
        final(api).continues(*old(api)),
        final(api).scene() == spider_rule(old(api).ctx(), old(api).scene(), cell, final(api).new_draws(*old(api))),
        bounds(final(api).new_draws(*old(api))) == spider_draws(old(api).ctx(), old(api).scene(), cell, final(api).new_draws(*old(api))),
{
    let ra = cell.ra;
    let (sx, sy) = api.rand_vec();
    let sample = api.get(sx, sy);
    if sample.species == Species::Ant || sample.species == Species::Bee || sample.species == Species::Butterfly
        || sample.species == Species::Worm || sample.species == Species::Mite {
        api.set(sx, sy, Cell::empty());
        let new_ra = ra.wrapping_add(50).min(200);
        api.set(0, 0, Cell { ra: new_ra, rb: cell.rb, ..cell });
        return;
    }
    let climb_target = api.get(0, -1);
    if climb_target.species == Species::Wall || climb_target.species == Species::Wood {
        api.set(0, 0, Cell::empty());
        api.set(0, -1, cell);
        return;
    }
    simple_creature_step(cell, api, true, Ghost(*old(api)));
}

/// One turn of bee (see `bee_rule`).
pub fn update_bee(cell: Cell, api: &mut SandApi)
    requires
        old(api).wf(),
    ensures
        final(api).continues(*old(api)),
        final(api).scene() == bee_rule(old(api).ctx(), old(api).scene(), cell, final(api).new_draws(*old(api))),
        bounds(final(api).new_draws(*old(api))) == bee_draws(old(api).ctx(), old(api).scene(), cell, final(api).new_draws(*old(api))),
{
    let ra = cell.ra;
    let (sx, sy) = api.rand_vec();
    let sample = api.get(sx, sy);
    if sample.species == Species::Flower {
        let new_ra = ra.wrapping_add(20).min(200);
        api.set(0, 0, Cell { ra: new_ra, rb: cell.rb, ..cell });
        return;
    }
    if api.get(0, -1).species == Species::Empty && api.once_in(2) {
        api.set(0, 0, Cell::empty());
        api.set(0, -1, cell);
        return;
    }
    simple_creature_step(cell, api, true, Ghost(*old(api)));
}

/// One turn of butterfly (see `butterfly_rule`).
pub fn update_butterfly(cell: Cell, api: &mut SandApi)
    requires
        old(api).wf(),
    ensures
        final(api).continues(*old(api)),
        final(api).scene() == butterfly_rule(old(api).ctx(), old(api).scene(), cell, final(api).new_draws(*old(api))),
        bounds(final(api).new_draws(*old(api))) == butterfly_draws(old(api).ctx(), old(api).scene(), cell, final(api).new_draws(*old(api))),
{
    let (sx, sy) = api.rand_vec();
    let sample = api.get(sx, sy);
    if sample.species == Species::Flower {
        let new_ra = cell.ra.wrapping_add(15).min(200);
        api.set(0, 0, Cell { ra: new_ra, rb: cell.rb, ..cell });
        return;
    }
    let (rdx, rdy) = api.rand_vec();
    let target = api.get(rdx, rdy);
    if target.species == Species::Empty {
        api.set(0, 0, Cell::empty());
        api.set(rdx, rdy, cell);
    } else {
        simple_creature_step(cell, api, true, Ghost(*old(api)));
    }
}

/// One turn of fish (see `fish_rule`).
pub fn update_fish(cell: Cell, api: &mut SandApi)
    requires
        old(api).wf(),
    ensures
        final(api).continues(*old(api)),
        final(api).scene() == fish_rule(old(api).ctx(), old(api).scene(), cell, final(api).new_draws(*old(api))),
        bounds(final(api).new_draws(*old(api))) == fish_draws(old(api).ctx(), old(api).scene(), cell, final(api).new_draws(*old(api))),
{
    let (sx, sy) = api.rand_vec();
    let sample = api.get(sx, sy);
    if sample.species == Species::Seed || sample.species == Species::Plant || sample.species == Species::Grass
        || sample.species == Species::Moss {
        api.set(sx, sy, Cell::empty());
        let new_ra = cell.ra.wrapping_add(20).min(200);
        api.set(0, 0, Cell { ra: new_ra, rb: cell.rb, ..cell });
        return;
    }
    if sample.species != Species::Water {
        let in_water = api.get(1, 0).species == Species::Water || api.get(-1, 0).species == Species::Water
            || api.get(0, 1).species == Species::Water || api.get(0, -1).species == Species::Water;
        if !in_water {
            if cell.ra < 5 {
                api.set(0, 0, Cell::empty());
            } else {
                api.set(0, 0, Cell { ra: cell.ra - 5, rb: cell.rb, ..cell });
            }
            return;
        }
    }
    if api.get(sx, sy).species == Species::Water {
        api.set(0, 0, Cell { species: Species::Water, ra: 100, rb: 0, clock: 0 });
        api.set(sx, sy, cell);
    } else {
        simple_creature_step(cell, api, false, Ghost(*old(api)));
    }
}

/// One turn of bird (see `bird_rule`).
pub fn update_bird(cell: Cell, api: &mut SandApi)
    requires
        old(api).wf(),
    ensures
        final(api).continues(*old(api)),
        final(api).scene() == bird_rule(old(api).ctx(), old(api).scene(), cell, final(api).new_draws(*old(api))),
        bounds(final(api).new_draws(*old(api))) == bird_draws(old(api).ctx(), old(api).scene(), cell, final(api).new_draws(*old(api))),
{
    let (sx, sy) = api.rand_vec();
    let sample = api.get(sx, sy);
    if sample.species == Species::Seed || sample.species == Species::Ant || sample.species == Species::Bee
        || sample.species == Species::Butterfly || sample.species == Species::Worm || sample.species
        == Species::Fruit || sample.species == Species::Rice || sample.species == Species::Wheat {
        api.set(sx, sy, Cell::empty());
        let new_ra = cell.ra.wrapping_add(40).min(200);
        api.set(0, 0, Cell { ra: new_ra, rb: cell.rb, ..cell });
        return;
    }
    let bdx = api.rand_dir();
    if api.get(bdx, -1).species == Species::Empty && api.once_in(2) {
        api.set(0, 0, Cell::empty());
        let bdx = api.rand_dir();
        api.set(bdx, -1, cell);
        return;
    }
    simple_creature_step(cell, api, true, Ghost(*old(api)));
}

/// One turn of snake (see `snake_rule`).
pub fn update_snake(cell: Cell, api: &mut SandApi)
    requires
        old(api).wf(),
    ensures
        final(api).continues(*old(api)),
        final(api).scene() == snake_rule(old(api).ctx(), old(api).scene(), cell, final(api).new_draws(*old(api))),
        bounds(final(api).new_draws(*old(api))) == snake_draws(old(api).ctx(), old(api).scene(), cell, final(api).new_draws(*old(api))),
{
    let (sx, sy) = api.rand_vec();
    let sample = api.get(sx, sy);
    if sample.species == Species::Mite || sample.species == Species::Ant || sample.species == Species::Spider
        || sample.species == Species::Fish || sample.species == Species::Worm || sample.species == Species::Egg {
        api.set(sx, sy, Cell::empty());
        let new_ra = cell.ra.wrapping_add(60).min(250);
        api.set(0, 0, Cell { ra: new_ra, rb: cell.rb, ..cell });
        return;
    }
    simple_creature_step(cell, api, false, Ghost(*old(api)));
}

/// One turn of worm (see `worm_rule`).
pub fn update_worm(cell: Cell, api: &mut SandApi)
    requires
        old(api).wf(),
    ensures
        final(api).continues(*old(api)),
        final(api).scene() == worm_rule(old(api).ctx(), old(api).scene(), cell, final(api).new_draws(*old(api))),
        bounds(final(api).new_draws(*old(api))) == worm_draws(old(api).ctx(), old(api).scene(), cell, final(api).new_draws(*old(api))),
{
    let (sx, sy) = api.rand_vec();
    let sample = api.get(sx, sy);
    if sample.species == Species::Soil || sample.species == Species::Peat || sample.species == Species::Ash
        || sample.species == Species::Leaf {
        api.set(sx, sy, Cell::empty());
        let new_ra = cell.ra.wrapping_add(15).min(200);
        api.set(0, 0, Cell { ra: new_ra, rb: cell.rb, ..cell });
        return;
    }
    if sample.species == Species::Soil && api.once_in(5) {
        api.set(sx, sy, cell);
        api.set(0, 0, Cell::empty());
        return;
    }
    simple_creature_step(cell, api, false, Ghost(*old(api)));
}

} // verus!
