//! Toys: bubble, balloon, confetti, glitter, spring and domino.

use super::Species;
use crate::cell::{Cell, Wind};
use crate::world::{
    bounds, draw_if, moveto, once, rdir, rvec, rvec8, sget, sset, sset_fluid, ssub, stay, Ctx, Draws, SandApi, Scene,
};
use vstd::prelude::*;

verus! {

/// Bubble: pops when anything lies at a random step; otherwise it rises
/// to the diagonal above that step one time in 3 when empty, else straight
/// up when empty, else stays; finally it pops by itself one time in 200.
pub open spec fn bubble_rule(c: Ctx, s: Scene, cell: Cell, ds: Draws) -> Scene {
    let v = rvec(ds, 0);
    if sget(c, s, v.0, v.1).species != Species::Empty {
        stay(c, s, Cell::empty())
    } else {
        let open = sget(c, s, v.0, -1).species == Species::Empty;
        let s1 = if open && once(ds, 1, 3) {
            moveto(c, s, v.0, -1, cell)
        } else if sget(c, s, 0, -1).species == Species::Empty {
            moveto(c, s, 0, -1, cell)
        } else {
            stay(c, s, cell)
        };
        let k: int = if open { 2 } else { 1 };
        if once(ds, k, 200) {
            stay(c, s1, Cell::empty())
        } else {
            s1
        }
    }
}

/// Balloon: deflated (`ra < 20`) it falls into empty space or stays.
/// Inflated, with a random step: into empty space above that step it rises
/// one time in 2 (`ra` down by 1); against anything there but another
/// balloon it bounces two steps sideways when that is empty (`ra` down by
/// 2), else stays; otherwise it drifts sideways into empty space one time
/// in 5, else stays. Then, deflated or not, fire at another random step
/// pops it into fire (`ra = 30`).
pub open spec fn balloon_rule(c: Ctx, s: Scene, cell: Cell, ds: Draws) -> Scene {
    let ra = cell.ra;
    let (s1, k1) = if ra < 20 {
        if sget(c, s, 0, 1).species == Species::Empty {
            (moveto(c, s, 0, 1, cell), 0int)
        } else {
            (stay(c, s, cell), 0int)
        }
    } else {
        let v = rvec(ds, 0);
        let above = sget(c, s, v.0, -1).species;
        let rise = above == Species::Empty && once(ds, 1, 2);
        let k: int = if above == Species::Empty { 2 } else { 1 };
        let bounce = !rise && above != Species::Empty && above != Species::Balloon;
        let drift_room = sget(c, s, v.0, 0).species == Species::Empty;
        let s0 = if rise {
            moveto(c, s, v.0, -1, Cell { ra: ssub(ra, 1), ..cell })
        } else if bounce {
            if sget(c, s, v.0 * 2, 0).species == Species::Empty {
                moveto(c, s, v.0 * 2, 0, Cell { ra: ssub(ra, 2), ..cell })
            } else {
                stay(c, s, cell)
            }
        } else if drift_room && once(ds, k, 5) {
            moveto(c, s, v.0, 0, cell)
        } else {
            stay(c, s, cell)
        };
        (s0, if !rise && !bounce && drift_room { k + 1 } else { k })
    };
    let sv = rvec(ds, k1);
    if sget(c, s1, sv.0, sv.1).species == Species::Fire {
        stay(c, s1, Cell { species: Species::Fire, ra: 30, rb: 0, clock: 0 })
    } else {
        s1
    }
}

/// Confetti: moves to an empty random step one time in 2; otherwise falls
/// into empty space one time in 4, else stays. Then fire at another random
/// step burns it (fire, `ra = 20`).
pub open spec fn confetti_rule(c: Ctx, s: Scene, cell: Cell, ds: Draws) -> Scene {
    let v = rvec(ds, 0);
    let room = sget(c, s, v.0, v.1).species == Species::Empty;
    let flutter = room && once(ds, 1, 2);
    let k: int = if room { 2 } else { 1 };
    let falls = sget(c, s, 0, 1).species == Species::Empty;
    let s1 = if flutter {
        moveto(c, s, v.0, v.1, cell)
    } else if falls && once(ds, k, 4) {
        moveto(c, s, 0, 1, cell)
    } else {
        stay(c, s, cell)
    };
    let k1: int = if !flutter && falls { k + 1 } else { k };
    let sv = rvec(ds, k1);
    if sget(c, s1, sv.0, sv.1).species == Species::Fire {
        stay(c, s1, Cell { species: Species::Fire, ra: 20, rb: 0, clock: 0 })
    } else {
        s1
    }
}

/// Glitter: falls into empty space one time in 3, else to the empty random
/// lower diagonal (left, straight or right) one time in 4, else sideways
/// into empty space one time in 6, else stays.
pub open spec fn glitter_rule(c: Ctx, s: Scene, cell: Cell, ds: Draws) -> Scene {
    let dx = rdir(ds, 0);
    let e1 = sget(c, s, 0, 1).species == Species::Empty;
    let k1: int = if e1 { 2 } else { 1 };
    let e2 = sget(c, s, dx, 1).species == Species::Empty;
    let k2: int = if e2 { k1 + 1 } else { k1 };
    if e1 && once(ds, 1, 3) {
        moveto(c, s, 0, 1, cell)
    } else if e2 && once(ds, k1, 4) {
        moveto(c, s, dx, 1, cell)
    } else if sget(c, s, dx, 0).species == Species::Empty && once(ds, k2, 6) {
        moveto(c, s, dx, 0, cell)
    } else {
        stay(c, s, cell)
    }
}

/// Spring: anything but a wall or spring on top of it is launched two
/// steps up (as a fresh cell of its species keeping `ra`) when that is
/// empty, and otherwise stays on top; with anything below it, it writes an
/// upward burn one time in 5.
pub open spec fn spring_rule(c: Ctx, s: Scene, cell: Cell, ds: Draws) -> Scene {
    let above = sget(c, s, 0, -1);
    let s1 = if above.species != Species::Empty && above.species != Species::Wall && above.species
        != Species::Spring && sget(c, s, 0, -2).species == Species::Empty {
        let s0 = sset(c, s, 0, -1, Cell::empty());
        sset(c, s0, 0, -2, Cell { species: above.species, ra: above.ra, rb: 0, clock: 0 })
    } else {
        s
    };
    if sget(c, s1, 0, 1).species != Species::Empty && once(ds, 0, 5) {
        sset_fluid(c, s1, Wind { dx: 0, dy: 100, pressure: 50, density: 10 })
    } else {
        s1
    }
}

/// Domino: falling (`rb > 0`) it counts down and, at `rb == 1`, is gone,
/// knocking a standing domino at a random neighbour step over (`rb = 15`).
/// Standing, it is knocked over itself (`rb = 15`) one time in 3 by a
/// falling domino at that step; otherwise it stays.
pub open spec fn domino_rule(c: Ctx, s: Scene, cell: Cell, ds: Draws) -> Scene {
    let rb = cell.rb;
    let v = rvec8(ds, 0);
    let nbr = sget(c, s, v.0, v.1);
    if rb > 0 {
        let s1 = stay(c, s, Cell { rb: (rb - 1) as u8, ..cell });
        if rb == 1 {
            let s2 = stay(c, s1, Cell::empty());
            if nbr.species == Species::Domino && nbr.rb == 0 {
                sset(c, s2, v.0, v.1, Cell { rb: 15, ..nbr })
            } else {
                s2
            }
        } else {
            s1
        }
    } else if nbr.species == Species::Domino && nbr.rb > 0 && once(ds, 1, 3) {
        stay(c, s, Cell { rb: 15, ..cell })
    } else {
        stay(c, s, cell)
    }
}

/// The bounds of the draws a bubble makes (see `bubble_rule`).
pub open spec fn bubble_draws(c: Ctx, s: Scene, cell: Cell, ds: Draws) -> Seq<int> {
    let v = rvec(ds, 0);
    if sget(c, s, v.0, v.1).species != Species::Empty {
        seq![2000]
    } else {
        seq![2000] + draw_if(sget(c, s, v.0, -1).species == Species::Empty, 3) + seq![200]
    }
}

/// The bounds of the draws a balloon makes (see `balloon_rule`).
pub open spec fn balloon_draws(c: Ctx, s: Scene, cell: Cell, ds: Draws) -> Seq<int> {
    if cell.ra < 20 {
        seq![2000]
    } else {
        let v = rvec(ds, 0);
        let above = sget(c, s, v.0, -1).species;
        let rise = above == Species::Empty && once(ds, 1, 2);
        let bounce = !rise && above != Species::Empty && above != Species::Balloon;
        let drift_room = sget(c, s, v.0, 0).species == Species::Empty;
        seq![2000] + draw_if(above == Species::Empty, 2) + draw_if(!rise && !bounce && drift_room, 5) + seq![2000]
    }
}

/// The bounds of the draws confetti makes (see `confetti_rule`).
pub open spec fn confetti_draws(c: Ctx, s: Scene, cell: Cell, ds: Draws) -> Seq<int> {
    let v = rvec(ds, 0);
    let room = sget(c, s, v.0, v.1).species == Species::Empty;
    let flutter = room && once(ds, 1, 2);
    let falls = sget(c, s, 0, 1).species == Species::Empty;
    seq![2000] + draw_if(room, 2) + draw_if(!flutter && falls, 4) + seq![2000]
}

/// The bounds of the draws glitter makes (see `glitter_rule`).
pub open spec fn glitter_draws(c: Ctx, s: Scene, cell: Cell, ds: Draws) -> Seq<int> {
    let dx = rdir(ds, 0);
    let e1 = sget(c, s, 0, 1).species == Species::Empty;
    let k1: int = if e1 { 2 } else { 1 };
    let e2 = sget(c, s, dx, 1).species == Species::Empty;
    if e1 && once(ds, 1, 3) {
        seq![1000, 3]
    } else if e2 && once(ds, k1, 4) {
        seq![1000] + draw_if(e1, 3) + seq![4]
    } else {
        seq![1000] + draw_if(e1, 3) + draw_if(e2, 4) + draw_if(sget(c, s, dx, 0).species == Species::Empty, 6)
    }
}

/// The bounds of the draws a spring makes (see `spring_rule`).
pub open spec fn spring_draws(c: Ctx, s: Scene, cell: Cell, ds: Draws) -> Seq<int> {
    let above = sget(c, s, 0, -1);
    let s1 = if above.species != Species::Empty && above.species != Species::Wall && above.species
        != Species::Spring && sget(c, s, 0, -2).species == Species::Empty {
        sset(c, sset(c, s, 0, -1, Cell::empty()), 0, -2, Cell { species: above.species, ra: above.ra, rb: 0, clock: 0 })
    } else {
        s
    };
    draw_if(sget(c, s1, 0, 1).species != Species::Empty, 5)
}

/// The bounds of the draws a domino makes (see `domino_rule`).
pub open spec fn domino_draws(c: Ctx, s: Scene, cell: Cell, ds: Draws) -> Seq<int> {
    let v = rvec8(ds, 0);
    let nbr = sget(c, s, v.0, v.1);
    seq![8] + draw_if(cell.rb == 0 && nbr.species == Species::Domino && nbr.rb > 0, 3)
}

/// One turn of bubble (see `bubble_rule`).
pub fn update_bubble(cell: Cell, api: &mut SandApi)
    requires
        old(api).wf(),
    ensures
        final(api).continues(*old(api)),
        final(api).scene() == bubble_rule(old(api).ctx(), old(api).scene(), cell, final(api).new_draws(*old(api))),
        bounds(final(api).new_draws(*old(api))) == bubble_draws(old(api).ctx(), old(api).scene(), cell, final(api).new_draws(*old(api))),
{
    let (dx, dy) = api.rand_vec();
    let nbr = api.get(dx, dy);
    if nbr.species != Species::Empty {
        api.set(0, 0, Cell::empty());
        return;
    }
    if api.get(dx, -1).species == Species::Empty && api.once_in(3) {
        api.set(0, 0, Cell::empty());
        api.set(dx, -1, cell);
    } else if api.get(0, -1).species == Species::Empty {
        api.set(0, 0, Cell::empty());
        api.set(0, -1, cell);
    } else {
        api.set(0, 0, cell);
    }
    if api.once_in(200) {
        api.set(0, 0, Cell::empty());
    }
}

/// One turn of balloon (see `balloon_rule`).
pub fn update_balloon(cell: Cell, api: &mut SandApi)
    requires
        old(api).wf(),
    ensures
        final(api).continues(*old(api)),
        final(api).scene() == balloon_rule(old(api).ctx(), old(api).scene(), cell, final(api).new_draws(*old(api))),
        bounds(final(api).new_draws(*old(api))) == balloon_draws(old(api).ctx(), old(api).scene(), cell, final(api).new_draws(*old(api))),
{
    let ra = cell.ra;
    if ra < 20 {
        let below = api.get(0, 1);
        if below.species == Species::Empty {
            api.set(0, 0, Cell::empty());
            api.set(0, 1, cell);
        } else {
            api.set(0, 0, cell);
        }
    } else {
        let (dx, dy) = api.rand_vec();
        let above = api.get(dx, -1);
        if above.species == Species::Empty && api.once_in(2) {
            api.set(0, 0, Cell::empty());
            api.set(dx, -1, Cell { ra: ra.saturating_sub(1), ..cell });
        } else if above.species != Species::Empty && above.species != Species::Balloon {
            if api.get(dx * 2, 0).species == Species::Empty {
                api.set(0, 0, Cell::empty());
                api.set(dx * 2, 0, Cell { ra: ra.saturating_sub(2), ..cell });
            } else {
                api.set(0, 0, cell);
            }
        } else {
            if api.get(dx, 0).species == Species::Empty && api.once_in(5) {
                api.set(0, 0, Cell::empty());
                api.set(dx, 0, cell);
            } else {
                api.set(0, 0, cell);
            }
        }
    }
    let (sx, sy) = api.rand_vec();
    if api.get(sx, sy).species == Species::Fire {
        api.set(0, 0, Cell { species: Species::Fire, ra: 30, rb: 0, clock: 0 });
        return;
    }
}

/// One turn of confetti (see `confetti_rule`).
pub fn update_confetti(cell: Cell, api: &mut SandApi)
    requires
        old(api).wf(),
    ensures
        final(api).continues(*old(api)),
        final(api).scene() == confetti_rule(old(api).ctx(), old(api).scene(), cell, final(api).new_draws(*old(api))),
        bounds(final(api).new_draws(*old(api))) == confetti_draws(old(api).ctx(), old(api).scene(), cell, final(api).new_draws(*old(api))),
{
    let (dx, dy) = api.rand_vec();
    if api.get(dx, dy).species == Species::Empty && api.once_in(2) {
        api.set(0, 0, Cell::empty());
        api.set(dx, dy, cell);
    } else {
        let below = api.get(0, 1);
        if below.species == Species::Empty && api.once_in(4) {
            api.set(0, 0, Cell::empty());
            api.set(0, 1, cell);
        } else {
            api.set(0, 0, cell);
        }
    }
    let (sx, sy) = api.rand_vec();
    if api.get(sx, sy).species == Species::Fire {
        api.set(0, 0, Cell { species: Species::Fire, ra: 20, rb: 0, clock: 0 });
    }
}

/// One turn of glitter (see `glitter_rule`).
pub fn update_glitter(cell: Cell, api: &mut SandApi)
    requires
        old(api).wf(),
    ensures
        final(api).continues(*old(api)),
        final(api).scene() == glitter_rule(old(api).ctx(), old(api).scene(), cell, final(api).new_draws(*old(api))),
        bounds(final(api).new_draws(*old(api))) == glitter_draws(old(api).ctx(), old(api).scene(), cell, final(api).new_draws(*old(api))),
{
    let dx = api.rand_dir();
    let below = api.get(0, 1);
    if below.species == Species::Empty && api.once_in(3) {
        api.set(0, 0, Cell::empty());
        api.set(0, 1, cell);
    } else if api.get(dx, 1).species == Species::Empty && api.once_in(4) {
        api.set(0, 0, Cell::empty());
        api.set(dx, 1, cell);
    } else if api.get(dx, 0).species == Species::Empty && api.once_in(6) {
        api.set(0, 0, Cell::empty());
        api.set(dx, 0, cell);
    } else {
        api.set(0, 0, cell);
    }
}

/// One turn of spring (see `spring_rule`).
pub fn update_spring(cell: Cell, api: &mut SandApi)
    requires
        old(api).wf(),
    ensures
        final(api).continues(*old(api)),
        final(api).scene() == spring_rule(old(api).ctx(), old(api).scene(), cell, final(api).new_draws(*old(api))),
        bounds(final(api).new_draws(*old(api))) == spring_draws(old(api).ctx(), old(api).scene(), cell, final(api).new_draws(*old(api))),
{
    let above = api.get(0, -1);
    if above.species != Species::Empty && above.species != Species::Wall && above.species != Species::Spring {
        let launch_species = above.species;
        let launch_ra = above.ra;
        let target_y: i32 = -2;
        if api.get(0, target_y).species == Species::Empty {
            api.set(0, -1, Cell::empty());
            api.set(0, target_y, Cell { species: launch_species, ra: launch_ra, rb: 0, clock: 0 });
        }
    }
    let below = api.get(0, 1);
    if below.species != Species::Empty && api.once_in(5) {
        api.set_fluid(Wind { dx: 0, dy: 100, pressure: 50, density: 10 });
    }
}

/// One turn of domino (see `domino_rule`).
pub fn update_domino(cell: Cell, api: &mut SandApi)
    requires
        old(api).wf(),
    ensures
        final(api).continues(*old(api)),
        final(api).scene() == domino_rule(old(api).ctx(), old(api).scene(), cell, final(api).new_draws(*old(api))),
        bounds(final(api).new_draws(*old(api))) == domino_draws(old(api).ctx(), old(api).scene(), cell, final(api).new_draws(*old(api))),
{
    let rb = cell.rb;
    let (dx, dy) = api.rand_vec_8();
    let nbr = api.get(dx, dy);
    if rb > 0 {
        api.set(0, 0, Cell { rb: rb - 1, ..cell });
        if rb == 1 {
            api.set(0, 0, Cell::empty());
            if nbr.species == Species::Domino && nbr.rb == 0 {
                api.set(dx, dy, Cell { rb: 15, ..nbr });
            }
        }
        return;
    }
    if nbr.species == Species::Domino && nbr.rb > 0 && api.once_in(3) {
        api.set(0, 0, Cell { rb: 15, ..cell });
        return;
    }
    api.set(0, 0, cell);
}

} // verus!
