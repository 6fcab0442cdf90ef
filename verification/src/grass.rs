//! The grass entity: a food resource with an identity, a coordinate, and an
//! energy payload that the eating creature gains when the block is destroyed.

use vstd::prelude::*;

use crate::entity::{Cell, Coord, Entity};

verus! {

/// A block of grass on the grid.
#[derive(Debug, Copy, Clone)]
pub struct Grass {
    pub id: u64,
    pub coord: Coord,
    /// The energy the creature that eats this block gains.
    pub energy: i64,
}

impl Grass {
    /// A grass block with the given identity, position and payload.
    pub fn new(id: u64, coord: Coord, energy: i64) -> (g: Grass)
        ensures
            g == (Grass { id, coord, energy }),
    {
        Grass { id, coord, energy }
    }
}

impl Entity for Grass {
    open spec fn id_spec(&self) -> u64 {
        self.id
    }

    open spec fn coord_spec(&self) -> Coord {
        self.coord
    }

    fn cell_type(id: u64) -> (r: Cell)
        ensures
            r == Cell::Grass(id),
    {
        Cell::Grass(id)
    }

    fn id(&self) -> (r: u64)
        ensures
            r == self.id_spec(),
    {
        self.id
    }

    fn coord(&self) -> (r: Coord)
        ensures
            r == self.coord_spec(),
    {
        self.coord
    }
}

} // verus!
