//! The contents of one grid position, and the air flow stored beside it.

use crate::species::{can_update, species_draws, species_rule, Species};
use crate::world::bounds;
use crate::world::SandApi;
use vstd::prelude::*;

verus! {

/// Air flow at one grid position: a direction (`dx`, `dy`, both offset so
/// that 126 means still air), a pressure and a density.
#[derive(Clone, Copy, Debug, PartialEq, Eq, Structural)]
pub struct Wind {
    pub dx: u8,
    pub dy: u8,
    pub pressure: u8,
    pub density: u8,
}

/// One grid position: its species, two species-specific registers (`ra`,
/// `rb`) and the clock of the generation that last wrote it.
#[derive(Clone, Copy, Debug, PartialEq, Eq, Structural)]
pub struct Cell {
    pub species: Species,
    pub ra: u8,
    pub rb: u8,
    pub clock: u8,
}

impl Wind {
    /// Still air.
    #[verifier::allow_in_spec]
    pub fn zero() -> Wind
        returns
            (Wind { dx: 0, dy: 0, pressure: 0, density: 0 }),
    {
        Wind { dx: 0, dy: 0, pressure: 0, density: 0 }
    }
}

impl Cell {
    /// The empty cell.
    #[verifier::allow_in_spec]
    pub fn empty() -> Cell
        returns
            (Cell { species: Species::Empty, ra: 0, rb: 0, clock: 0 }),
    {
        Cell { species: Species::Empty, ra: 0, rb: 0, clock: 0 }
    }

    /// A fresh cell of `species` whose `ra` register is 100 plus a random
    /// offset `roll` below 50 (the colour variation of a new particle).
    pub fn new(species: Species, roll: u8) -> (c: Cell)
        requires
            roll < 50,
        ensures
            c == (Cell { species, ra: (100 + roll) as u8, rb: 0, clock: 0 }),
    {
        Cell { species, ra: 100 + roll, rb: 0, clock: 0 }
    }

    /// One turn of this cell under its own species' rule (see
    /// `Species::update`).
    pub fn update(&self, api: &mut SandApi)
        requires
            old(api).wf(),
            can_update(self.species, *self),
        ensures
            final(api).continues(*old(api)),
            final(api).scene() == species_rule(
                self.species,
                old(api).ctx(),
                old(api).scene(),
                *self,
                final(api).new_draws(*old(api)),
            ),
            bounds(final(api).new_draws(*old(api))) == species_draws(
                self.species,
                old(api).ctx(),
                old(api).scene(),
                *self,
                final(api).new_draws(*old(api)),
            ),
    {
        self.species.update(*self, api);
    }
}

} // verus!
