//! Organic elements: wood, plant, seed, fungus and mite.

use super::falling::sinks_through;
use super::Species;
use crate::cell::{Cell, Wind};
use crate::utils::{adjacency_left, adjacency_right, spec_adjacency_left, spec_adjacency_right};
use crate::world::{
    bounds, draw_if, draw, fresh_cell, moveto, product_percent, rdir, rvec, sget, sset, sset_fluid, ssub, stay, swap, Ctx, Draws, SandApi, Scene,
};
use vstd::prelude::*;

verus! {

/// Whether an unlit (`rb == 0`) element next to `nbr` catches fire: fire
/// lights it when unlit, lava always (the rules read `rb == 0 && fire ||
/// lava`).
pub open spec fn catches(rb: u8, nbr: Species) -> bool {
    rb == 0 && nbr == Species::Fire || nbr == Species::Lava
}

/// The register `ra` shifted by a drift of `i % 15 - 7`.
pub open spec fn drifted(ra: u8, i: int) -> u8 {
    (ra + (i % 15 - 7)) as u8
}

/// Wood: `rb` is a burn timer (0 unlit, 1 spent). Fire next to unlit wood,
/// or lava, lights it (`rb = 90`). Burning wood counts down, throws a flame
/// (`ra` in 30..90) into an empty neighbour when `rb` is a multiple of 4,
/// and water puts it out (`ra = 50`, steam density in its burn). Spent wood
/// leaves ash behind (keeping `ra`).
pub open spec fn wood_rule(c: Ctx, s: Scene, cell: Cell, ds: Draws) -> Scene {
    let rb = cell.rb;
    let v = rvec(ds, 0);
    let nbr = sget(c, s, v.0, v.1).species;
    let s1 = if catches(rb, nbr) {
        stay(c, s, Cell { species: Species::Wood, ra: cell.ra, rb: 90, clock: 0 })
    } else {
        s
    };
    if rb > 1 {
        let a = stay(c, s1, Cell { species: Species::Wood, ra: cell.ra, rb: (rb - 1) as u8, clock: 0 });
        let b = if rb % 4 == 0 && nbr == Species::Empty {
            sset(c, a, v.0, v.1, Cell { species: Species::Fire, ra: (30 + draw(ds, 1, 60)) as u8, rb: 0, clock: 0 })
        } else {
            a
        };
        if nbr == Species::Water {
            sset_fluid(
                c,
                stay(c, b, Cell { species: Species::Wood, ra: 50, rb: 0, clock: 0 }),
                Wind { dx: 0, dy: 0, pressure: 0, density: 220 },
            )
        } else {
            b
        }
    } else if rb == 1 {
        stay(c, s1, Cell { species: Species::Ash, ra: cell.ra, rb: 0, clock: 0 })
    } else {
        s1
    }
}

/// Plant: lit like wood (`rb = 20`). Next to wood it sprouts a plant with
/// drifted `ra` into an empty random neighbour. With a draw above 80 it
/// grows into neighbouring water, or into fungus when the opposite side is
/// empty, water or fungus, clearing that opposite side. Burning plant counts
/// down, throws a flame (`ra` in 20..50) into an empty neighbour, and water
/// puts it out; spent plant (`rb == 1`) turns to ash (keeping `ra`) and
/// does nothing more. Any other plant with `ra > 50` and no plant on its
/// lower diagonals grows down into empty space when a weighted percentage
/// plus `ra` exceeds 165, or else withers by 1.
pub open spec fn plant_rule(c: Ctx, s: Scene, cell: Cell, ds: Draws) -> Scene {
    let (s4, k) = plant_first(c, s, cell, ds);
    if cell.rb == 1 {
        s4
    } else {
        plant_grow_down(c, s4, cell, ds, k)
    }
}

/// The part of a plant's turn before it grows down (see `plant_rule`):
/// the scene afterwards and how many draws it took.
pub open spec fn plant_first(c: Ctx, s: Scene, cell: Cell, ds: Draws) -> (Scene, int) {
    let rb = cell.rb;
    let i = draw(ds, 0, 100);
    let v = rvec(ds, 1);
    let dx = v.0;
    let dy = v.1;
    let nbr = sget(c, s, dx, dy).species;
    let s1 = if catches(rb, nbr) {
        stay(c, s, Cell { species: Species::Plant, ra: cell.ra, rb: 20, clock: 0 })
    } else {
        s
    };
    let s2 = if nbr == Species::Wood {
        let sv = rvec(ds, 2);
        if sget(c, s1, sv.0, sv.1).species == Species::Empty {
            sset(c, s1, sv.0, sv.1, Cell { species: Species::Plant, ra: drifted(cell.ra, i), rb: 0, clock: 0 })
        } else {
            s1
        }
    } else {
        s1
    };
    let k1: int = if nbr == Species::Wood { 3 } else { 2 };
    let opp = sget(c, s2, -dx, dy).species;
    let grow = draw(ds, k1, 100) > 80 && (nbr == Species::Water || nbr == Species::Fungus && (opp
        == Species::Empty || opp == Species::Water || opp == Species::Fungus));
    let s3 = if grow {
        sset(c, sset(c, s2, dx, dy, Cell { ra: drifted(cell.ra, draw(ds, k1 + 1, 100)), rb: 0, ..cell }), -dx, dy, Cell::empty())
    } else {
        s2
    };
    let k2: int = if grow { k1 + 2 } else { k1 + 1 };
    let s4 = if rb > 1 {
        let a = stay(c, s3, Cell { ra: cell.ra, rb: (rb - 1) as u8, ..cell });
        let b = if nbr == Species::Empty {
            sset(c, a, dx, dy, Cell { species: Species::Fire, ra: (20 + draw(ds, k2, 30)) as u8, rb: 0, clock: 0 })
        } else {
            a
        };
        if nbr == Species::Water {
            stay(c, b, Cell { ra: 50, rb: 0, ..cell })
        } else {
            b
        }
    } else if rb == 1 {
        stay(c, s3, Cell { species: Species::Ash, ra: cell.ra, rb: 0, clock: 0 })
    } else {
        s3
    };
    let k3: int = if rb > 1 && nbr == Species::Empty { k2 + 1 } else { k2 };
    (s4, k3)
}

/// The last part of a plant's turn, its draws starting at `k` (see
/// `plant_rule`).
pub open spec fn plant_grow_down(c: Ctx, s4: Scene, cell: Cell, ds: Draws, k3: int) -> Scene {
    let ra = cell.ra;
    if ra > 50 && sget(c, s4, 1, 1).species != Species::Plant && sget(c, s4, -1, 1).species != Species::Plant {
        if sget(c, s4, 0, 1).species == Species::Empty {
            let plant_i = product_percent(draw(ds, k3, 10000), draw(ds, k3 + 1, 10000));
            let dec = draw(ds, k3 + 2, 30) - 20;
            if plant_i + ra > 165 {
                sset(c, s4, 0, 1, Cell { ra: (ra + dec) as u8, ..cell })
            } else {
                s4
            }
        } else {
            stay(c, s4, Cell { ra: (ra - 1) as u8, ..cell })
        }
    } else {
        s4
    }
}

/// Seed: burns up next to fire or lava. A falling seed (`rb == 0`) roots
/// (`rb` in 1..254) above sand, plant or fungus on a random lower diagonal,
/// else falls like sand. A rooted seed with `ra > 60` climbs, past a draw
/// above 75, into an empty, sand or seed cell on a random upper diagonal
/// (losing up to 9 of `ra`) leaving a plant behind, unless plants sit on
/// its upper corners, in which case it vanishes. With `ra` in 41..=60 it
/// spreads into an empty or plant cell in a random direction next to an
/// empty side when a weighted percentage plus `ra` exceeds 100. A young
/// seed turns neighbouring water into a new seed.
pub open spec fn seed_rule(c: Ctx, s: Scene, cell: Cell, ds: Draws) -> Scene {
    let rb = cell.rb;
    let v = rvec(ds, 0);
    let nbr = sget(c, s, v.0, v.1).species;
    if nbr == Species::Fire || nbr == Species::Lava {
        stay(c, s, Cell { species: Species::Fire, ra: 5, rb: 0, clock: 0 })
    } else if rb == 0 {
        let dxf = rdir(ds, 1);
        let b = sget(c, s, dxf, 1).species;
        if b == Species::Sand || b == Species::Plant || b == Species::Fungus {
            stay(c, s, Cell { rb: (draw(ds, 2, 253) + 1) as u8, ..cell })
        } else {
            let below = sget(c, s, 0, 1);
            if below.species == Species::Empty {
                moveto(c, s, 0, 1, cell)
            } else if sget(c, s, dxf, 1).species == Species::Empty {
                moveto(c, s, dxf, 1, cell)
            } else if sinks_through(below.species) {
                swap(c, s, 0, 1, below, cell)
            } else {
                stay(c, s, cell)
            }
        }
    } else {
        seed_rooted(c, s, cell, ds)
    }
}

/// The turn of a rooted seed (see `seed_rule`).
pub open spec fn seed_rooted(c: Ctx, s: Scene, cell: Cell, ds: Draws) -> Scene {
    let ra = cell.ra;
    let v = rvec(ds, 0);
    let nbr = sget(c, s, v.0, v.1).species;
    if ra > 60 {
        let dxr = rdir(ds, 1);
        if draw(ds, 2, 100) > 75 {
            let up = sget(c, s, dxr, -1).species;
            if (up == Species::Empty || up == Species::Sand || up == Species::Seed) && sget(c, s, 1, -1).species
                != Species::Plant && sget(c, s, -1, -1).species != Species::Plant {
                let s1 = sset(c, s, dxr, -1, Cell { ra: (ra - draw(ds, 3, 10)) as u8, ..cell });
                stay(c, s1, Cell { species: Species::Plant, ra: (80 + draw(ds, 4, 30)) as u8, rb: 0, clock: 0 })
            } else {
                stay(c, s, Cell::empty())
            }
        } else {
            s
        }
    } else if ra > 40 {
        let m = rvec(ds, 1);
        let l = spec_adjacency_left((m.0 as i32, m.1 as i32));
        let r = spec_adjacency_right((m.0 as i32, m.1 as i32));
        let t = sget(c, s, m.0, m.1).species;
        if (t == Species::Empty || t == Species::Plant) && (sget(c, s, l.0 as int, l.1 as int).species
            == Species::Empty || sget(c, s, r.0 as int, r.1 as int).species == Species::Empty) {
            let plant_i = product_percent(draw(ds, 2, 10000), draw(ds, 3, 10000));
            let dec = 9 - draw(ds, 4, 3);
            if plant_i + ra > 100 {
                sset(c, s, m.0, m.1, Cell { ra: (ra - dec) as u8, ..cell })
            } else {
                s
            }
        } else {
            s
        }
    } else if nbr == Species::Water {
        sset(c, s, v.0, v.1, fresh_cell(Species::Seed, draw(ds, 1, 50)))
    } else {
        s
    }
}

/// Fungus: lit like wood (`rb = 10`). Next to anything but empty space,
/// fungus, fire or ice it sprouts fungus with drifted `ra` into an empty
/// random neighbour. When its first draw is above 9 and it sits between
/// wood on the chosen side, the opposite side and the mirrored side, it
/// turns that wood (if its `ra` is not a multiple of 4) into fungus. Burning
/// fungus counts down, throws a flame (`ra` in 10..20) into an empty
/// neighbour, and water puts it out; spent fungus vanishes. Mature fungus
/// (`ra > 120`) spreads into an empty random neighbour not flanked by fungus
/// when a weighted percentage plus `ra` exceeds 165.
pub open spec fn fungus_rule(c: Ctx, s: Scene, cell: Cell, ds: Draws) -> Scene {
    let (s4, k) = fungus_first(c, s, cell, ds);
    fungus_spread(c, s4, cell, ds, k)
}

/// The part of a fungus turn before mature fungus spreads (see
/// `fungus_rule`): the scene afterwards and how many draws it took.
pub open spec fn fungus_first(c: Ctx, s: Scene, cell: Cell, ds: Draws) -> (Scene, int) {
    let rb = cell.rb;
    let v = rvec(ds, 0);
    let dx = v.0;
    let dy = v.1;
    let nbr = sget(c, s, dx, dy).species;
    let s1 = if catches(rb, nbr) {
        stay(c, s, Cell { species: Species::Fungus, ra: cell.ra, rb: 10, clock: 0 })
    } else {
        s
    };
    let i = draw(ds, 1, 100);
    let spread = nbr != Species::Empty && nbr != Species::Fungus && nbr != Species::Fire && nbr != Species::Ice;
    let s2 = if spread {
        let sv = rvec(ds, 2);
        if sget(c, s1, sv.0, sv.1).species == Species::Empty {
            sset(c, s1, sv.0, sv.1, Cell { species: Species::Fungus, ra: drifted(cell.ra, i), rb: 0, clock: 0 })
        } else {
            s1
        }
    } else {
        s1
    };
    let k1: int = if spread { 3 } else { 2 };
    let consume = i > 9 && nbr == Species::Wood && sget(c, s2, -dx, dy).species == Species::Wood && sget(
        c,
        s2,
        dx,
        -dy,
    ).species == Species::Wood && sget(c, s2, dx, dy).ra % 4 != 0;
    let s3 = if consume {
        sset(c, s2, dx, dy, Cell { ra: drifted(cell.ra, draw(ds, k1, 100)), rb: 0, ..cell })
    } else {
        s2
    };
    let k2: int = if consume { k1 + 1 } else { k1 };
    let s4 = if rb > 1 {
        let a = stay(c, s3, Cell { ra: cell.ra, rb: (rb - 1) as u8, ..cell });
        let b = if nbr == Species::Empty {
            sset(c, a, dx, dy, Cell { species: Species::Fire, ra: (10 + draw(ds, k2, 10)) as u8, rb: 0, clock: 0 })
        } else {
            a
        };
        if nbr == Species::Water {
            stay(c, b, Cell { ra: 50, rb: 0, ..cell })
        } else {
            b
        }
    } else if rb == 1 {
        stay(c, s3, Cell::empty())
    } else {
        s3
    };
    let k3: int = if rb > 1 && nbr == Species::Empty { k2 + 1 } else { k2 };
    (s4, k3)
}

/// The spreading of mature fungus, its draws starting at `k3` (see
/// `fungus_rule`).
pub open spec fn fungus_spread(c: Ctx, s4: Scene, cell: Cell, ds: Draws, k3: int) -> Scene {
    let ra = cell.ra;
    if ra > 120 {
        let m = rvec(ds, k3);
        let l = spec_adjacency_left((m.0 as i32, m.1 as i32));
        let r = spec_adjacency_right((m.0 as i32, m.1 as i32));
        if sget(c, s4, m.0, m.1).species == Species::Empty && sget(c, s4, l.0 as int, l.1 as int).species
            != Species::Fungus && sget(c, s4, r.0 as int, r.1 as int).species != Species::Fungus {
            let fungus_i = product_percent(draw(ds, k3 + 1, 10000), draw(ds, k3 + 2, 10000));
            let dec = 15 - draw(ds, k3 + 3, 20);
            if fungus_i + ra > 165 {
                sset(c, s4, m.0, m.1, Cell { ra: (ra - dec) as u8, ..cell })
            } else {
                s4
            }
        } else {
            s4
        }
    } else {
        s4
    }
}

/// The mites whose rule can run: a mite with `ra` in 4..20 and `rb > 1`
/// would look more than two steps away (no rule makes such a mite).
pub open spec fn mite_ok(cell: Cell) -> bool {
    !(4 <= cell.ra < 20 && cell.rb > 1)
}

/// Mite: `ra` steers a weak mite sideways and `rb` is a jump timer (above
/// 10: moving up; above 1: counting down). It dies next to fire, lava,
/// water or oil at a random spot, eats plant, wood or seed there (moving
/// in) on a draw above 800, and eats or leaves dust there. Then it moves
/// into empty space ahead; blocked while falling it may start a jump
/// (`ra` steering, `rb` in 10..20); crowded by mites on both sides and
/// above it dies; on ice it walks sideways into empty space; else it stays.
pub open spec fn mite_rule(c: Ctx, s: Scene, cell: Cell, ds: Draws) -> Scene {
    let i0 = draw(ds, 0, 100);
    let dx0: int = if cell.ra < 20 { cell.ra - 1 } else { 0 };
    let dy: int = if cell.rb > 10 { -1 } else { 1 };
    let dx: int = if cell.rb > 1 { dx0 } else { 0 };
    let mite = if cell.rb > 1 { Cell { rb: ssub(cell.rb, 1), ..cell } } else { cell };
    let nbr = sget(c, s, dx, dy);
    let sx = i0 % 3 - 1;
    let i1 = draw(ds, 1, 1000);
    let sy = i1 % 3 - 1;
    let sample = sget(c, s, sx, sy).species;
    if sample == Species::Fire || sample == Species::Lava || sample == Species::Water || sample == Species::Oil {
        stay(c, s, Cell::empty())
    } else if (sample == Species::Plant || sample == Species::Wood || sample == Species::Seed) && i1 > 800 {
        moveto(c, s, sx, sy, cell)
    } else {
        let s1 = if sample == Species::Dust {
            sset(c, s, sx, sy, if i1 > 800 { cell } else { Cell::empty() })
        } else {
            s
        };
        if nbr.species == Species::Empty {
            moveto(c, s1, dx, dy, mite)
        } else if dy == 1 && i1 > 800 {
            let i2 = draw(ds, 2, 100);
            let ndx = if i2 < 6 { dx } else { i2 % 3 - 1 };
            stay(c, s1, Cell { ra: (1 + ndx) as u8, rb: (10 + i2 % 10) as u8, ..mite })
        } else if sget(c, s1, -1, 0).species == Species::Mite && sget(c, s1, 1, 0).species == Species::Mite
            && sget(c, s1, 0, -1).species == Species::Mite {
            stay(c, s1, Cell::empty())
        } else if sget(c, s1, 0, 1).species == Species::Ice {
            if sget(c, s1, dx, 0).species == Species::Empty {
                moveto(c, s1, dx, 0, mite)
            } else {
                s1
            }
        } else {
            stay(c, s1, mite)
        }
    }
}

/// The bounds of the draws wood makes (see `wood_rule`).
pub open spec fn wood_draws(c: Ctx, s: Scene, cell: Cell, ds: Draws) -> Seq<int> {
    let v = rvec(ds, 0);
    let nbr = sget(c, s, v.0, v.1).species;
    seq![2000] + draw_if(cell.rb > 1 && cell.rb % 4 == 0 && nbr == Species::Empty, 60)
}

/// The bounds of the draws plant makes (see `plant_rule`).
pub open spec fn plant_draws(c: Ctx, s: Scene, cell: Cell, ds: Draws) -> Seq<int> {
    let (s4, k) = plant_first(c, s, cell, ds);
    plant_first_draws(c, s, cell, ds) + if cell.rb == 1 {
        seq![]
    } else {
        plant_grow_down_draws(c, s4, cell, ds, k)
    }
}

/// The bounds of the draws of `plant_first`.
pub open spec fn plant_first_draws(c: Ctx, s: Scene, cell: Cell, ds: Draws) -> Seq<int> {
    let rb = cell.rb;
    let v = rvec(ds, 1);
    let nbr = sget(c, s, v.0, v.1).species;
    let s1 = if catches(rb, nbr) {
        stay(c, s, Cell { species: Species::Plant, ra: cell.ra, rb: 20, clock: 0 })
    } else {
        s
    };
    let s2 = if nbr == Species::Wood {
        let sv = rvec(ds, 2);
        if sget(c, s1, sv.0, sv.1).species == Species::Empty {
            sset(c, s1, sv.0, sv.1, Cell { species: Species::Plant, ra: drifted(cell.ra, draw(ds, 0, 100)), rb: 0, clock: 0 })
        } else {
            s1
        }
    } else {
        s1
    };
    let k1: int = if nbr == Species::Wood { 3 } else { 2 };
    let opp = sget(c, s2, -v.0, v.1).species;
    let grow = draw(ds, k1, 100) > 80 && (nbr == Species::Water || nbr == Species::Fungus && (opp
        == Species::Empty || opp == Species::Water || opp == Species::Fungus));
    seq![100, 2000] + draw_if(nbr == Species::Wood, 2000) + seq![100] + draw_if(grow, 100) + draw_if(
        rb > 1 && nbr == Species::Empty,
        30,
    )
}

/// The bounds of the draws of `plant_grow_down`.
pub open spec fn plant_grow_down_draws(c: Ctx, s4: Scene, cell: Cell, ds: Draws, k3: int) -> Seq<int> {
    if cell.ra > 50 && sget(c, s4, 1, 1).species != Species::Plant && sget(c, s4, -1, 1).species != Species::Plant
        && sget(c, s4, 0, 1).species == Species::Empty {
        seq![10000, 10000, 30]
    } else {
        seq![]
    }
}

/// The bounds of the draws a seed makes (see `seed_rule`).
pub open spec fn seed_draws(c: Ctx, s: Scene, cell: Cell, ds: Draws) -> Seq<int> {
    let rb = cell.rb;
    let v = rvec(ds, 0);
    let nbr = sget(c, s, v.0, v.1).species;
    if nbr == Species::Fire || nbr == Species::Lava {
        seq![2000]
    } else if rb == 0 {
        let b = sget(c, s, rdir(ds, 1), 1).species;
        seq![2000, 1000] + draw_if(b == Species::Sand || b == Species::Plant || b == Species::Fungus, 253)
    } else {
        seq![2000] + seed_rooted_draws(c, s, cell, ds)
    }
}

/// The bounds of the draws of `seed_rooted` after the first.
pub open spec fn seed_rooted_draws(c: Ctx, s: Scene, cell: Cell, ds: Draws) -> Seq<int> {
    let ra = cell.ra;
    let v = rvec(ds, 0);
    let nbr = sget(c, s, v.0, v.1).species;
    if ra > 60 {
        let dxr = rdir(ds, 1);
        let up = sget(c, s, dxr, -1).species;
        let climb = draw(ds, 2, 100) > 75 && (up == Species::Empty || up == Species::Sand || up == Species::Seed)
            && sget(c, s, 1, -1).species != Species::Plant && sget(c, s, -1, -1).species != Species::Plant;
        seq![1000, 100] + if climb { seq![10, 30] } else { seq![] }
    } else if ra > 40 {
        let m = rvec(ds, 1);
        let l = spec_adjacency_left((m.0 as i32, m.1 as i32));
        let r = spec_adjacency_right((m.0 as i32, m.1 as i32));
        let t = sget(c, s, m.0, m.1).species;
        let go = (t == Species::Empty || t == Species::Plant) && (sget(c, s, l.0 as int, l.1 as int).species
            == Species::Empty || sget(c, s, r.0 as int, r.1 as int).species == Species::Empty);
        seq![2000] + if go { seq![10000, 10000, 3] } else { seq![] }
    } else {
        draw_if(nbr == Species::Water, 50)
    }
}

/// The bounds of the draws fungus makes (see `fungus_rule`).
pub open spec fn fungus_draws(c: Ctx, s: Scene, cell: Cell, ds: Draws) -> Seq<int> {
    let (s4, k) = fungus_first(c, s, cell, ds);
    fungus_first_draws(c, s, cell, ds) + fungus_spread_draws(c, s4, cell, ds, k)
}

/// The bounds of the draws of `fungus_first`.
pub open spec fn fungus_first_draws(c: Ctx, s: Scene, cell: Cell, ds: Draws) -> Seq<int> {
    let rb = cell.rb;
    let v = rvec(ds, 0);
    let dx = v.0;
    let dy = v.1;
    let nbr = sget(c, s, dx, dy).species;
    let s1 = if catches(rb, nbr) {
        stay(c, s, Cell { species: Species::Fungus, ra: cell.ra, rb: 10, clock: 0 })
    } else {
        s
    };
    let i = draw(ds, 1, 100);
    let spread = nbr != Species::Empty && nbr != Species::Fungus && nbr != Species::Fire && nbr != Species::Ice;
    let s2 = if spread {
        let sv = rvec(ds, 2);
        if sget(c, s1, sv.0, sv.1).species == Species::Empty {
            sset(c, s1, sv.0, sv.1, Cell { species: Species::Fungus, ra: drifted(cell.ra, i), rb: 0, clock: 0 })
        } else {
            s1
        }
    } else {
        s1
    };
    let consume = i > 9 && nbr == Species::Wood && sget(c, s2, -dx, dy).species == Species::Wood && sget(
        c,
        s2,
        dx,
        -dy,
    ).species == Species::Wood && sget(c, s2, dx, dy).ra % 4 != 0;
    seq![2000, 100] + draw_if(spread, 2000) + draw_if(consume, 100) + draw_if(rb > 1 && nbr == Species::Empty, 10)
}

/// The bounds of the draws of `fungus_spread`.
pub open spec fn fungus_spread_draws(c: Ctx, s4: Scene, cell: Cell, ds: Draws, k3: int) -> Seq<int> {
    if cell.ra > 120 {
        let m = rvec(ds, k3);
        let l = spec_adjacency_left((m.0 as i32, m.1 as i32));
        let r = spec_adjacency_right((m.0 as i32, m.1 as i32));
        let go = sget(c, s4, m.0, m.1).species == Species::Empty && sget(c, s4, l.0 as int, l.1 as int).species
            != Species::Fungus && sget(c, s4, r.0 as int, r.1 as int).species != Species::Fungus;
        seq![2000] + if go { seq![10000, 10000, 20] } else { seq![] }
    } else {
        seq![]
    }
}

/// The bounds of the draws a mite makes (see `mite_rule`).
pub open spec fn mite_draws(c: Ctx, s: Scene, cell: Cell, ds: Draws) -> Seq<int> {
    let i0 = draw(ds, 0, 100);
    let dx0: int = if cell.ra < 20 { cell.ra - 1 } else { 0 };
    let dy: int = if cell.rb > 10 { -1 } else { 1 };
    let dx: int = if cell.rb > 1 { dx0 } else { 0 };
    let nbr = sget(c, s, dx, dy);
    let i1 = draw(ds, 1, 1000);
    let sample = sget(c, s, i0 % 3 - 1, i1 % 3 - 1).species;
    let jump = !(sample == Species::Fire || sample == Species::Lava || sample == Species::Water || sample
        == Species::Oil) && !((sample == Species::Plant || sample == Species::Wood || sample == Species::Seed)
        && i1 > 800) && nbr.species != Species::Empty && dy == 1 && i1 > 800;
    seq![100, 1000] + draw_if(jump, 100)
}

/// One turn of wood (see `wood_rule`).
pub fn update_wood(cell: Cell, api: &mut SandApi)
    requires
        old(api).wf(),
    ensures
        final(api).continues(*old(api)),
        final(api).scene() == wood_rule(old(api).ctx(), old(api).scene(), cell, final(api).new_draws(*old(api))),
        bounds(final(api).new_draws(*old(api))) == wood_draws(old(api).ctx(), old(api).scene(), cell, final(api).new_draws(*old(api))),
{
    let rb = cell.rb;
    let (dx, dy) = api.rand_vec();
    let nbr_species = api.get(dx, dy).species;
    if rb == 0 && nbr_species == Species::Fire || nbr_species == Species::Lava {
        api.set(0, 0, Cell { species: Species::Wood, ra: cell.ra, rb: 90, clock: 0 });
    }
    if rb > 1 {
        api.set(0, 0, Cell { species: Species::Wood, ra: cell.ra, rb: rb - 1, clock: 0 });
        if rb % 4 == 0 && nbr_species == Species::Empty {
            let ra = 30 + api.rand_int(60) as u8;
            api.set(dx, dy, Cell { species: Species::Fire, ra, rb: 0, clock: 0 })
        }
        if nbr_species == Species::Water {
            api.set(0, 0, Cell { species: Species::Wood, ra: 50, rb: 0, clock: 0 });
            api.set_fluid(Wind { dx: 0, dy: 0, pressure: 0, density: 220 });
        }
    } else if rb == 1 {
        api.set(0, 0, Cell { species: Species::Ash, ra: cell.ra, rb: 0, clock: 0 });
    }
}

/// One turn of plant (see `plant_rule`).
#[verifier::rlimit(60)]
#[verifier::spinoff_prover]
pub fn update_plant(cell: Cell, api: &mut SandApi)
    requires
        old(api).wf(),
    ensures
        final(api).continues(*old(api)),
        final(api).scene() == plant_rule(old(api).ctx(), old(api).scene(), cell, final(api).new_draws(*old(api))),
        bounds(final(api).new_draws(*old(api))) == plant_draws(old(api).ctx(), old(api).scene(), cell, final(api).new_draws(*old(api))),
{
    let rb = cell.rb;
    let mut i = api.rand_int(100);
    let (dx, dy) = api.rand_vec();
    let nbr_species = api.get(dx, dy).species;
    if rb == 0 && nbr_species == Species::Fire || nbr_species == Species::Lava {
        api.set(0, 0, Cell { species: Species::Plant, ra: cell.ra, rb: 20, clock: 0 });
    }
    if nbr_species == Species::Wood {
        let (sdx, sdy) = api.rand_vec();
        let drift = (i % 15) - 7;
        let newra = (cell.ra as i32 + drift) as u8;
        if api.get(sdx, sdy).species == Species::Empty {
            api.set(sdx, sdy, Cell { species: Species::Plant, ra: newra, rb: 0, clock: 0 });
        }
    }
    if api.rand_int(100) > 80 && (nbr_species == Species::Water || nbr_species == Species::Fungus && (
    api.get(-dx, dy).species == Species::Empty || api.get(-dx, dy).species == Species::Water
        || api.get(-dx, dy).species == Species::Fungus)) {
        i = api.rand_int(100);
        let drift = (i % 15) - 7;
        let newra = (cell.ra as i32 + drift) as u8;
        api.set(dx, dy, Cell { ra: newra, rb: 0, ..cell });
        api.set(-dx, dy, Cell::empty());
    }
    if rb > 1 {
        api.set(0, 0, Cell { ra: cell.ra, rb: rb - 1, ..cell });
        if nbr_species == Species::Empty {
            let ra = 20 + api.rand_int(30) as u8;
            api.set(dx, dy, Cell { species: Species::Fire, ra, rb: 0, clock: 0 });
        }
        if nbr_species == Species::Water {
            api.set(0, 0, Cell { ra: 50, rb: 0, ..cell })
        }
    } else if rb == 1 {
        api.set(0, 0, Cell { species: Species::Ash, ra: cell.ra, rb: 0, clock: 0 });
        return;
    }
    plant_grow_down_step(cell, api, Ghost(*old(api)));
}

/// The last part of a plant's turn (see `plant_grow_down`).
fn plant_grow_down_step(cell: Cell, api: &mut SandApi, Ghost(start): Ghost<SandApi>)
    requires
        old(api).continues(start),
    ensures
        final(api).continues(*old(api)),
        final(api).scene() == plant_grow_down(
            old(api).ctx(),
            old(api).scene(),
            cell,
            final(api).new_draws(start),
            old(api).draws().len() - start.draws().len(),
        ),
        bounds(final(api).new_draws(start)) == bounds(old(api).new_draws(start)) + plant_grow_down_draws(old(api).ctx(), old(api).scene(), cell, final(api).new_draws(start), old(api).draws().len() - start.draws().len()),
{
    let ra = cell.ra;
    if ra > 50 && api.get(1, 1).species != Species::Plant && api.get(-1, 1).species != Species::Plant {
        if api.get(0, 1).species == Species::Empty {
            let plant_i = api.rand_product();
            let dec = api.rand_int(30) - 20;
            if (plant_i + ra as i32) > 165 {
                api.set(0, 1, Cell { ra: (ra as i32 + dec) as u8, ..cell });
            }
        } else {
            api.set(0, 0, Cell { ra: (ra - 1) as u8, ..cell });
        }
    }
}

/// One turn of seed (see `seed_rule`).
#[verifier::rlimit(100)]
#[verifier::spinoff_prover]
pub fn update_seed(cell: Cell, api: &mut SandApi)
    requires
        old(api).wf(),
    ensures
        final(api).continues(*old(api)),
        final(api).scene() == seed_rule(old(api).ctx(), old(api).scene(), cell, final(api).new_draws(*old(api))),
        bounds(final(api).new_draws(*old(api))) == seed_draws(old(api).ctx(), old(api).scene(), cell, final(api).new_draws(*old(api))),
{
    let rb = cell.rb;
    let (dx, dy) = api.rand_vec();
    let nbr_species = api.get(dx, dy).species;
    if nbr_species == Species::Fire || nbr_species == Species::Lava {
        api.set(0, 0, Cell { species: Species::Fire, ra: 5, rb: 0, clock: 0 });
        return;
    }
    if rb == 0 {
        let dxf = api.rand_dir();
        let nbr_species_below = api.get(dxf, 1).species;
        if nbr_species_below == Species::Sand || nbr_species_below == Species::Plant || nbr_species_below
            == Species::Fungus {
            let new_rb = (api.rand_int(253) + 1) as u8;
            api.set(0, 0, Cell { rb: new_rb, ..cell });
            return;
        }
        let nbr = api.get(0, 1);
        if nbr.species == Species::Empty {
            api.set(0, 0, Cell::empty());
            api.set(0, 1, cell);
        } else if api.get(dxf, 1).species == Species::Empty {
            api.set(0, 0, Cell::empty());
            api.set(dxf, 1, cell);
        } else if nbr.species == Species::Water || nbr.species == Species::Gas || nbr.species
            == Species::Oil || nbr.species == Species::Acid {
            api.set(0, 0, nbr);
            api.set(0, 1, cell);
        } else {
            api.set(0, 0, cell);
        }
    } else {
        seed_rooted_step(cell, api, nbr_species, dx, dy, Ghost(*old(api)));
    }
}

/// The turn of a rooted seed (see `seed_rooted`).
#[verifier::rlimit(100)]
#[verifier::spinoff_prover]
fn seed_rooted_step(cell: Cell, api: &mut SandApi, nbr_species: Species, dx: i32, dy: i32, Ghost(start): Ghost<SandApi>)
    requires
        old(api).continues(start),
        old(api).scene() == start.scene(),
        old(api).draws().len() == start.draws().len() + 1,
        (dx as int, dy as int) == rvec(old(api).new_draws(start), 0),
        nbr_species == sget(old(api).ctx(), old(api).scene(), dx as int, dy as int).species,
    ensures
        final(api).continues(*old(api)),
        final(api).scene() == seed_rooted(old(api).ctx(), old(api).scene(), cell, final(api).new_draws(start)),
        bounds(final(api).new_draws(start)) == bounds(old(api).new_draws(start)) + seed_rooted_draws(old(api).ctx(), old(api).scene(), cell, final(api).new_draws(start)),
{
    let ra = cell.ra;
    if ra > 60 {
        let dxr = api.rand_dir();
        if api.rand_int(100) > 75 {
            if (api.get(dxr, -1).species == Species::Empty || api.get(dxr, -1).species == Species::Sand
                || api.get(dxr, -1).species == Species::Seed) && api.get(1, -1).species
                != Species::Plant && api.get(-1, -1).species != Species::Plant {
                let new_ra = (ra as i32 - api.rand_int(10)) as u8;
                api.set(dxr, -1, Cell { ra: new_ra, ..cell });
                let ra2 = 80 + api.rand_int(30) as u8;
                api.set(0, 0, Cell { species: Species::Plant, ra: ra2, rb: 0, clock: 0 })
            } else {
                api.set(0, 0, Cell::empty());
            }
        }
    } else {
        if ra > 40 {
            let (mdx, mdy) = api.rand_vec();
            let (ldx, ldy) = adjacency_left((mdx, mdy));
            let (rdx, rdy) = adjacency_right((mdx, mdy));
            if (api.get(mdx, mdy).species == Species::Empty || api.get(mdx, mdy).species == Species::Plant)
                && (api.get(ldx, ldy).species == Species::Empty || api.get(rdx, rdy).species
                == Species::Empty) {
                let plant_i = api.rand_product();
                let dec = 9 - api.rand_int(3);
                if (plant_i + ra as i32) > 100 {
                    api.set(mdx, mdy, Cell { ra: (ra as i32 - dec) as u8, ..cell });
                }
            }
        } else {
            if nbr_species == Species::Water {
                let seed = api.new_cell(Species::Seed);
                api.set(dx, dy, seed)
            }
        }
    }
}

/// One turn of fungus (see `fungus_rule`).
#[verifier::rlimit(60)]
#[verifier::spinoff_prover]
pub fn update_fungus(cell: Cell, api: &mut SandApi)
    requires
        old(api).wf(),
    ensures
        final(api).continues(*old(api)),
        final(api).scene() == fungus_rule(old(api).ctx(), old(api).scene(), cell, final(api).new_draws(*old(api))),
        bounds(final(api).new_draws(*old(api))) == fungus_draws(old(api).ctx(), old(api).scene(), cell, final(api).new_draws(*old(api))),
{
    let rb = cell.rb;
    let (dx, dy) = api.rand_vec();
    let nbr_species = api.get(dx, dy).species;
    if rb == 0 && nbr_species == Species::Fire || nbr_species == Species::Lava {
        api.set(0, 0, Cell { species: Species::Fungus, ra: cell.ra, rb: 10, clock: 0 });
    }
    let mut i = api.rand_int(100);
    if nbr_species != Species::Empty && nbr_species != Species::Fungus && nbr_species != Species::Fire
        && nbr_species != Species::Ice {
        let (sdx, sdy) = api.rand_vec();
        let drift = (i % 15) - 7;
        let newra = (cell.ra as i32 + drift) as u8;
        if api.get(sdx, sdy).species == Species::Empty {
            api.set(sdx, sdy, Cell { species: Species::Fungus, ra: newra, rb: 0, clock: 0 });
        }
    }
    if i > 9 && nbr_species == Species::Wood && api.get(-dx, dy).species == Species::Wood && api.get(
        dx,
        -dy,
    ).species == Species::Wood && api.get(dx, dy).ra % 4 != 0 {
        i = api.rand_int(100);
        let drift = (i % 15) - 7;
        let newra = (cell.ra as i32 + drift) as u8;
        api.set(dx, dy, Cell { ra: newra, rb: 0, ..cell });
    }
    if rb > 1 {
        api.set(0, 0, Cell { ra: cell.ra, rb: rb - 1, ..cell });
        if nbr_species == Species::Empty {
            let ra = 10 + api.rand_int(10) as u8;
            api.set(dx, dy, Cell { species: Species::Fire, ra, rb: 0, clock: 0 })
        }
        if nbr_species == Species::Water {
            api.set(0, 0, Cell { ra: 50, rb: 0, ..cell })
        }
    } else if rb == 1 {
        api.set(0, 0, Cell::empty());
    }
    fungus_spread_step(cell, api, Ghost(*old(api)));
}

/// The spreading of mature fungus (see `fungus_spread`).
fn fungus_spread_step(cell: Cell, api: &mut SandApi, Ghost(start): Ghost<SandApi>)
    requires
        old(api).continues(start),
    ensures
        final(api).continues(*old(api)),
        final(api).scene() == fungus_spread(
            old(api).ctx(),
            old(api).scene(),
            cell,
            final(api).new_draws(start),
            old(api).draws().len() - start.draws().len(),
        ),
        bounds(final(api).new_draws(start)) == bounds(old(api).new_draws(start)) + fungus_spread_draws(old(api).ctx(), old(api).scene(), cell, final(api).new_draws(start), old(api).draws().len() - start.draws().len()),
{
    let ra = cell.ra;
    if ra > 120 {
        let (mdx, mdy) = api.rand_vec();
        let (ldx, ldy) = adjacency_left((mdx, mdy));
        let (rdx, rdy) = adjacency_right((mdx, mdy));
        if api.get(mdx, mdy).species == Species::Empty && api.get(ldx, ldy).species != Species::Fungus
            && api.get(rdx, rdy).species != Species::Fungus {
            let fungus_i = api.rand_product();
            let dec = 15 - api.rand_int(20);
            if (fungus_i + ra as i32) > 165 {
                api.set(mdx, mdy, Cell { ra: (ra as i32 - dec) as u8, ..cell });
            }
        }
    }
}

/// One turn of a mite (see `mite_rule`).
#[verifier::rlimit(60)]
#[verifier::spinoff_prover]
pub fn update_mite(cell: Cell, api: &mut SandApi)
    requires
        old(api).wf(),
        mite_ok(cell),
    ensures
        final(api).continues(*old(api)),
        final(api).scene() == mite_rule(old(api).ctx(), old(api).scene(), cell, final(api).new_draws(*old(api))),
        bounds(final(api).new_draws(*old(api))) == mite_draws(old(api).ctx(), old(api).scene(), cell, final(api).new_draws(*old(api))),
{
    let mut i = api.rand_int(100);
    let mut dx: i32 = 0;
    if cell.ra < 20 {
        dx = (cell.ra as i32) - 1;
    }
    let mut dy: i32 = 1;
    let mut mite = cell.clone();
    if cell.rb > 10 {
        mite.rb = mite.rb.saturating_sub(1);
        dy = -1;
    } else if cell.rb > 1 {
        mite.rb = mite.rb.saturating_sub(1);
    } else {
        dx = 0;
    }
    let nbr = api.get(dx, dy);
    let sx = (i % 3) - 1;
    i = api.rand_int(1000);
    let sy = (i % 3) - 1;
    let sample = api.get(sx, sy).species;
    if sample == Species::Fire || sample == Species::Lava || sample == Species::Water || sample == Species::Oil {
        api.set(0, 0, Cell::empty());
        return;
    }
    if (sample == Species::Plant || sample == Species::Wood || sample == Species::Seed) && i > 800 {
        api.set(0, 0, Cell::empty());
        api.set(sx, sy, cell);
        return;
    }
    if sample == Species::Dust {
        api.set(sx, sy, if i > 800 { cell } else { Cell::empty() });
    }
    if nbr.species == Species::Empty {
        api.set(0, 0, Cell::empty());
        api.set(dx, dy, mite);
    } else if dy == 1 && i > 800 {
        i = api.rand_int(100);
        let mut ndx = (i % 3) - 1;
        if i < 6 {
            ndx = dx;
        }
        mite.ra = (1 + ndx) as u8;
        mite.rb = 10 + (i % 10) as u8;
        api.set(0, 0, mite);
    } else {
        if api.get(-1, 0).species == Species::Mite && api.get(1, 0).species == Species::Mite && api.get(
            0,
            -1,
        ).species == Species::Mite {
            api.set(0, 0, Cell::empty());
        } else {
            if api.get(0, 1).species == Species::Ice {
                if api.get(dx, 0).species == Species::Empty {
                    api.set(0, 0, Cell::empty());
                    api.set(dx, 0, mite);
                }
            } else {
                api.set(0, 0, mite);
            }
        }
    }
}

} // verus!
