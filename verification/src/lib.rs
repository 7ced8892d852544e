//! A falling-sand simulation: a grid of cells, each holding one of the
//! element species, advanced one tick at a time by per-species rules.

pub mod cell;
pub mod kinds;
pub mod rng;
pub mod species;
pub mod utils;
pub mod world;
