//! Falling solids: sand, dust and stone.

use super::Species;
use crate::cell::{Cell, Wind};
use crate::kinds::fits;
use crate::world::{
    bounds, moveto, once, stay, swap, rdir, rdir2, sfluid, sget, sset, sset_fluid, Ctx, Draws, SandApi, Scene,
};
use vstd::prelude::*;

verus! {

/// Whether a falling solid sinks through a cell of species `s` by swapping
/// places with it: water, gas, oil and acid.
pub open spec fn sinks_through(s: Species) -> bool {
    s == Species::Water || s == Species::Gas || s == Species::Oil || s == Species::Acid
}

/// Sand: falls straight down into empty space, otherwise slides to the
/// randomly chosen lower diagonal if that is empty, otherwise sinks through
/// water, gas, oil or acid below by swapping with it, otherwise stays.
pub open spec fn sand_rule(c: Ctx, s: Scene, cell: Cell, ds: Draws) -> Scene {
    let dx = rdir2(ds, 0);
    let nbr = sget(c, s, 0, 1);
    if nbr.species == Species::Empty {
        sset(c, sset(c, s, 0, 0, Cell::empty()), 0, 1, cell)
    } else if sget(c, s, dx, 1).species == Species::Empty {
        sset(c, sset(c, s, 0, 0, Cell::empty()), dx, 1, cell)
    } else if sinks_through(nbr.species) {
        sset(c, sset(c, s, 0, 0, nbr), 0, 1, cell)
    } else {
        sset(c, s, 0, 0, cell)
    }
}

/// Dust: under air pressure above 120 it explodes into fire whose `ra` is
/// `150 + ra / 10` and sets its burn to a blast; otherwise it falls into
/// empty space, sinks through water, slides to a random lower diagonal
/// (left, straight or right), or stays.
pub open spec fn dust_rule(c: Ctx, s: Scene, cell: Cell, ds: Draws) -> Scene {
    let dx = rdir(ds, 0);
    if sfluid(c).pressure > 120 {
        sset_fluid(
            c,
            sset(c, s, 0, 0, Cell { species: Species::Fire, ra: (150 + cell.ra / 10) as u8, rb: 0, clock: 0 }),
            Wind { dx: 0, dy: 0, pressure: 80, density: 5 },
        )
    } else {
        let nbr = sget(c, s, 0, 1);
        if nbr.species == Species::Empty {
            sset(c, sset(c, s, 0, 0, Cell::empty()), 0, 1, cell)
        } else if nbr.species == Species::Water {
            sset(c, sset(c, s, 0, 0, nbr), 0, 1, cell)
        } else if sget(c, s, dx, 1).species == Species::Empty {
            sset(c, sset(c, s, 0, 0, Cell::empty()), dx, 1, cell)
        } else {
            sset(c, s, 0, 0, cell)
        }
    }
}

/// Stone: held in place by stone on both upper corners (an arch); crushed
/// into sand (keeping `ra`) under air pressure above 120; otherwise falls
/// into empty space, sinks through water, gas, oil or acid, or stays.
pub open spec fn stone_rule(c: Ctx, s: Scene, cell: Cell, ds: Draws) -> Scene {
    if sget(c, s, -1, -1).species == Species::Stone && sget(c, s, 1, -1).species == Species::Stone {
        s
    } else if sfluid(c).pressure > 120 && once(ds, 0, 1) {
        sset(c, s, 0, 0, Cell { species: Species::Sand, ra: cell.ra, rb: 0, clock: 0 })
    } else {
        let nbr = sget(c, s, 0, 1);
        if nbr.species == Species::Empty {
            sset(c, sset(c, s, 0, 0, Cell::empty()), 0, 1, cell)
        } else if sinks_through(nbr.species) {
            sset(c, sset(c, s, 0, 0, nbr), 0, 1, cell)
        } else {
            sset(c, s, 0, 0, cell)
        }
    }
}

/// The bounds of the draws sand makes: one `rand_dir_2`.
pub open spec fn sand_draws(c: Ctx, s: Scene, cell: Cell, ds: Draws) -> Seq<int> {
    seq![1000]
}

/// The bounds of the draws dust makes: one `rand_dir`.
pub open spec fn dust_draws(c: Ctx, s: Scene, cell: Cell, ds: Draws) -> Seq<int> {
    seq![1000]
}

/// The bounds of the draws stone makes: none in an arch; otherwise, under
/// air pressure above 120, one `rand_int(1)` (so the crush is certain).
pub open spec fn stone_draws(c: Ctx, s: Scene, cell: Cell, ds: Draws) -> Seq<int> {
    if sget(c, s, -1, -1).species == Species::Stone && sget(c, s, 1, -1).species == Species::Stone {
        seq![]
    } else if sfluid(c).pressure > 120 {
        seq![1]
    } else {
        seq![]
    }
}

/// One turn of sand at the handle's position (see `sand_rule`).
pub fn update_sand(cell: Cell, api: &mut SandApi)
    requires
        old(api).wf(),
    ensures
        final(api).continues(*old(api)),
        final(api).scene() == sand_rule(old(api).ctx(), old(api).scene(), cell, final(api).new_draws(*old(api))),
        bounds(final(api).new_draws(*old(api))) == sand_draws(old(api).ctx(), old(api).scene(), cell, final(api).new_draws(*old(api))),
{
    let dx = api.rand_dir_2();
    let nbr = api.get(0, 1);
    if nbr.species == Species::Empty {
        api.set(0, 0, Cell::empty());
        api.set(0, 1, cell);
    } else if api.get(dx, 1).species == Species::Empty {
        api.set(0, 0, Cell::empty());
        api.set(dx, 1, cell);
    } else if nbr.species == Species::Water || nbr.species == Species::Gas || nbr.species
        == Species::Oil || nbr.species == Species::Acid {
        api.set(0, 0, nbr);
        api.set(0, 1, cell);
    } else {
        api.set(0, 0, cell);
    }
}

/// One turn of dust at the handle's position (see `dust_rule`).
pub fn update_dust(cell: Cell, api: &mut SandApi)
    requires
        old(api).wf(),
    ensures
        final(api).continues(*old(api)),
        final(api).scene() == dust_rule(old(api).ctx(), old(api).scene(), cell, final(api).new_draws(*old(api))),
        bounds(final(api).new_draws(*old(api))) == dust_draws(old(api).ctx(), old(api).scene(), cell, final(api).new_draws(*old(api))),
{
    let dx = api.rand_dir();
    let fluid = api.get_fluid();
    if fluid.pressure > 120 {
        api.set(0, 0, Cell { species: Species::Fire, ra: (150 + (cell.ra / 10)) as u8, rb: 0, clock: 0 });
        api.set_fluid(Wind { dx: 0, dy: 0, pressure: 80, density: 5 });
        return;
    }
    let nbr = api.get(0, 1);
    if nbr.species == Species::Empty {
        api.set(0, 0, Cell::empty());
        api.set(0, 1, cell);
    } else if nbr.species == Species::Water {
        api.set(0, 0, nbr);
        api.set(0, 1, cell);
    } else if api.get(dx, 1).species == Species::Empty {
        api.set(0, 0, Cell::empty());
        api.set(dx, 1, cell);
    } else {
        api.set(0, 0, cell);
    }
}

/// One turn of stone at the handle's position (see `stone_rule`).
pub fn update_stone(cell: Cell, api: &mut SandApi)
    requires
        old(api).wf(),
    ensures
        final(api).continues(*old(api)),
        final(api).scene() == stone_rule(old(api).ctx(), old(api).scene(), cell, final(api).new_draws(*old(api))),
        bounds(final(api).new_draws(*old(api))) == stone_draws(old(api).ctx(), old(api).scene(), cell, final(api).new_draws(*old(api))),
        sget(old(api).ctx(), old(api).scene(), -1, -1).species == Species::Stone && sget(
            old(api).ctx(),
            old(api).scene(),
            1,
            -1,
        ).species == Species::Stone ==> *final(api) == *old(api),
{
    if api.get(-1, -1).species == Species::Stone && api.get(1, -1).species == Species::Stone {
        return;
    }
    let fluid = api.get_fluid();
    if fluid.pressure > 120 && api.rand_int(1) == 0 {
        api.set(0, 0, Cell { species: Species::Sand, ra: cell.ra, rb: 0, clock: 0 });
        return;
    }
    let nbr = api.get(0, 1);
    let nbr_species = nbr.species;
    if nbr_species == Species::Empty {
        api.set(0, 0, Cell::empty());
        api.set(0, 1, cell);
    } else if nbr_species == Species::Water || nbr_species == Species::Gas || nbr_species
        == Species::Oil || nbr_species == Species::Acid {
        api.set(0, 0, nbr);
        api.set(0, 1, cell);
    } else {
        api.set(0, 0, cell);
    }
}

/// Sand falls: into empty space below; with something below and both lower
/// diagonals empty, to one of them; with both lower diagonals taken, it
/// sinks through water, gas, oil or acid below (trading places), and rests
/// on anything else; with one lower diagonal empty it either slides there
/// or does what it does with both taken.
pub proof fn lemma_sand_falls(c: Ctx, s: Scene, cell: Cell, ds: Draws)
    ensures
        sget(c, s, 0, 1).species == Species::Empty ==> sand_rule(c, s, cell, ds) == moveto(c, s, 0, 1, cell),
        sget(c, s, 0, 1).species != Species::Empty && sget(c, s, -1, 1).species == Species::Empty && sget(
            c,
            s,
            1,
            1,
        ).species == Species::Empty ==> sand_rule(c, s, cell, ds) == moveto(c, s, -1, 1, cell) || sand_rule(c, s, cell, ds)
            == moveto(c, s, 1, 1, cell),
        ({
            let b = sget(c, s, 0, 1);
            (b.species == Species::Water || b.species == Species::Gas || b.species == Species::Oil || b.species
                == Species::Acid) && sget(c, s, -1, 1).species != Species::Empty && sget(c, s, 1, 1).species
                != Species::Empty ==> sand_rule(c, s, cell, ds) == swap(c, s, 0, 1, b, cell)
        }),
        ({
            let b = sget(c, s, 0, 1);
            let rest = if b.species == Species::Water || b.species == Species::Gas || b.species == Species::Oil
                || b.species == Species::Acid {
                swap(c, s, 0, 1, b, cell)
            } else {
                stay(c, s, cell)
            };
            forall|d: int|
                (d == 1 || d == -1) && b.species != Species::Empty && #[trigger] sget(c, s, d, 1).species
                    == Species::Empty && sget(c, s, -d, 1).species != Species::Empty ==> sand_rule(c, s, cell, ds)
                    == moveto(c, s, d, 1, cell) || sand_rule(c, s, cell, ds) == rest
        }),
        ({
            let b = sget(c, s, 0, 1).species;
            b != Species::Empty && b != Species::Water && b != Species::Gas && b != Species::Oil && b != Species::Acid
                && sget(c, s, -1, 1).species != Species::Empty && sget(c, s, 1, 1).species != Species::Empty
                ==> sand_rule(c, s, cell, ds) == stay(c, s, cell)
        }),
{
}

/// Dust bursts into fire under air pressure above 120; otherwise it falls
/// into empty space below, or sinks through water below (trading places).
pub proof fn lemma_dust_falls(c: Ctx, s: Scene, cell: Cell, ds: Draws)
    requires
        fits(c, s),
    ensures
        sfluid(c).pressure > 120 ==> sget(c, dust_rule(c, s, cell, ds), 0, 0).species
            == Species::Fire,
        sfluid(c).pressure <= 120 && sget(c, s, 0, 1).species == Species::Empty ==> dust_rule(c, s, cell, ds) == moveto(
            c,
            s,
            0,
            1,
            cell,
        ),
        sfluid(c).pressure <= 120 && sget(c, s, 0, 1).species == Species::Water ==> dust_rule(c, s, cell, ds) == swap(
            c,
            s,
            0,
            1,
            sget(c, s, 0, 1),
            cell,
        ),
{
    crate::world::lemma_index_bounds(c.width, c.height, c.x, c.y);
}

/// Stone held up by stone on both upper diagonals (an arch) stays put.
/// Otherwise, when it is not crushed, it falls into empty space below, or
/// sinks through water, gas, oil or acid below (trading places); under air
/// pressure above 120 a draw below 1 (always 0) crushes it into sand.
pub proof fn lemma_stone_falls(c: Ctx, s: Scene, cell: Cell, ds: Draws)
    ensures
        sget(c, s, -1, -1).species == Species::Stone && sget(c, s, 1, -1).species == Species::Stone ==> stone_rule(
            c,
            s,
            cell,
            ds,
        ) == s,
        ({
            let arch = sget(c, s, -1, -1).species == Species::Stone && sget(c, s, 1, -1).species == Species::Stone;
            !arch && sfluid(c).pressure > 120 && ds.len() > 0 && ds[0].0 == 1 && 0 <= ds[0].1 < 1 ==> stone_rule(
                c,
                s,
                cell,
                ds,
            ) == stay(c, s, Cell { species: Species::Sand, ra: cell.ra, rb: 0, clock: 0 })
        }),
        ({
            let arch = sget(c, s, -1, -1).species == Species::Stone && sget(c, s, 1, -1).species == Species::Stone;
            !arch && sfluid(c).pressure <= 120 && sget(c, s, 0, 1).species == Species::Empty ==> stone_rule(
                c,
                s,
                cell,
                ds,
            ) == moveto(c, s, 0, 1, cell)
        }),
        ({
            let arch = sget(c, s, -1, -1).species == Species::Stone && sget(c, s, 1, -1).species == Species::Stone;
            let b = sget(c, s, 0, 1);
            !arch && sfluid(c).pressure <= 120 && (b.species == Species::Water || b.species == Species::Gas
                || b.species == Species::Oil || b.species == Species::Acid) ==> stone_rule(c, s, cell, ds) == swap(
                c,
                s,
                0,
                1,
                b,
                cell,
            )
        }),
{
}

} // verus!
