//! A turn-based simulation of creatures on a bounded 2D grid, competing for
//! regenerating grass under an energy economy.
//!
//! The engine keeps the grid and the creature table consistent while all
//! creatures act "simultaneously" each tick: every creature first decides on
//! at most one mutation (decision phase, no shared-state writes), and the
//! queued mutations are then committed in insertion order (apply phase).

pub mod entity;
pub mod settings;
pub mod rng;
pub mod genotype;
pub mod update;
pub mod creature;
pub mod grass;
pub mod grid;
pub mod world;
