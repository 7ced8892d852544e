//! How many cells of each species a scene holds, and the writes that keep
//! those counts.

use crate::cell::Cell;
use crate::species::Species;
use crate::world::{grid_index, in_grid, lemma_index_bounds, moveto, sget, sset, swap, Ctx, Scene};
use vstd::multiset::Multiset;
use vstd::prelude::*;
use vstd::seq_lib::{to_multiset_contains, to_multiset_update};

verus! {

/// The species of the cells, counted: how many cells of each species there
/// are.
pub open spec fn kinds(cells: Seq<Cell>) -> Multiset<Species> {
    cells.map_values(|c: Cell| c.species).to_multiset()
}

/// The scene covers the context's grid and the context's position lies on
/// it.
pub open spec fn fits(c: Ctx, s: Scene) -> bool {
    &&& in_grid(c, c.x, c.y)
    &&& s.cells.len() == c.width * c.height
}

/// A write at offset `(dx, dy)` of a cell of the species already there (or
/// a write off the grid) keeps the counts and the grid.
pub proof fn lemma_sset_same_kind(c: Ctx, s: Scene, dx: int, dy: int, v: Cell)
    requires
        fits(c, s),
        !in_grid(c, c.x + dx, c.y + dy) || sget(c, s, dx, dy).species == v.species,
    ensures
        fits(c, sset(c, s, dx, dy, v)),
        kinds(sset(c, s, dx, dy, v).cells) == kinds(s.cells),
{
    let nx = c.x + dx;
    let ny = c.y + dy;
    if in_grid(c, nx, ny) {
        lemma_index_bounds(c.width, c.height, nx, ny);
        let i = grid_index(c.height, nx, ny);
        let w = Cell { clock: crate::world::next_clock(c.generation), ..v };
        let m = s.cells.map_values(|x: Cell| x.species);
        assert(s.cells.update(i, w).map_values(|x: Cell| x.species) =~= m.update(i, w.species));
        to_multiset_update(m, i, w.species);
        to_multiset_contains(m, m[i]);
        assert(m.update(i, w.species).to_multiset() =~= m.to_multiset());
    }
}

/// A write on the grid replaces one cell of the species that was there by
/// one of the written species; a write off the grid changes nothing.
pub proof fn lemma_sset_kinds(c: Ctx, s: Scene, dx: int, dy: int, v: Cell)
    requires
        fits(c, s),
    ensures
        fits(c, sset(c, s, dx, dy, v)),
        in_grid(c, c.x + dx, c.y + dy) ==> kinds(sset(c, s, dx, dy, v).cells) == kinds(s.cells).insert(
            v.species,
        ).remove(sget(c, s, dx, dy).species),
        in_grid(c, c.x + dx, c.y + dy) ==> kinds(s.cells).count(sget(c, s, dx, dy).species) > 0,
        !in_grid(c, c.x + dx, c.y + dy) ==> sset(c, s, dx, dy, v) == s,
{
    let nx = c.x + dx;
    let ny = c.y + dy;
    if in_grid(c, nx, ny) {
        lemma_index_bounds(c.width, c.height, nx, ny);
        let i = grid_index(c.height, nx, ny);
        let w = Cell { clock: crate::world::next_clock(c.generation), ..v };
        let m = s.cells.map_values(|x: Cell| x.species);
        assert(s.cells.update(i, w).map_values(|x: Cell| x.species) =~= m.update(i, w.species));
        to_multiset_update(m, i, w.species);
        to_multiset_contains(m, m[i]);
    }
}

/// Two writes on the grid that trade species between offsets `a` and `b`
/// (each taking a cell of the species the other held) keep the counts and
/// the grid.
pub proof fn lemma_trade_kinds(c: Ctx, s: Scene, ax: int, ay: int, va: Cell, bx: int, by: int, vb: Cell)
    requires
        fits(c, s),
        in_grid(c, c.x + ax, c.y + ay),
        in_grid(c, c.x + bx, c.y + by),
        va.species == sget(c, s, bx, by).species,
        vb.species == sget(c, s, ax, ay).species,
    ensures
        fits(c, sset(c, sset(c, s, ax, ay, va), bx, by, vb)),
        kinds(sset(c, sset(c, s, ax, ay, va), bx, by, vb).cells) == kinds(s.cells),
{
    let h = c.height;
    lemma_index_bounds(c.width, h, c.x + ax, c.y + ay);
    lemma_index_bounds(c.width, h, c.x + bx, c.y + by);
    let s1 = sset(c, s, ax, ay, va);
    lemma_sset_kinds(c, s, ax, ay, va);
    lemma_sset_kinds(c, s1, bx, by, vb);
    let k = kinds(s.cells);
    let k1 = kinds(s1.cells);
    let k2 = kinds(sset(c, s1, bx, by, vb).cells);
    assert(k2 =~= k);
}

/// Trading the cell at the position with the one at an offset on the grid,
/// each taking a cell of the other's species, keeps the counts and the
/// grid.
pub proof fn lemma_swap_kinds(c: Ctx, s: Scene, dx: int, dy: int, other: Cell, v: Cell)
    requires
        fits(c, s),
        in_grid(c, c.x + dx, c.y + dy),
        other.species == sget(c, s, dx, dy).species,
        v.species == sget(c, s, 0, 0).species,
    ensures
        fits(c, swap(c, s, dx, dy, other, v)),
        kinds(swap(c, s, dx, dy, other, v).cells) == kinds(s.cells),
{
    lemma_trade_kinds(c, s, 0, 0, other, dx, dy, v);
}

/// Moving the cell at the position into an empty cell at an offset keeps
/// the counts and the grid.
pub proof fn lemma_moveto_kinds(c: Ctx, s: Scene, dx: int, dy: int, v: Cell)
    requires
        fits(c, s),
        sget(c, s, dx, dy).species == Species::Empty,
        v.species == sget(c, s, 0, 0).species,
    ensures
        fits(c, moveto(c, s, dx, dy, v)),
        kinds(moveto(c, s, dx, dy, v).cells) == kinds(s.cells),
{
    lemma_swap_kinds(c, s, dx, dy, Cell::empty(), v);
}

} // verus!
