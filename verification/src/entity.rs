//! Grid cells, coordinates, compass directions, and the common interface of
//! the entities (creatures, grass) that occupy cells.

use vstd::prelude::*;

verus! {

/// The contents of a single cell in the world grid.
#[derive(Debug, Copy, Clone, PartialEq, Eq, Structural)]
pub enum Cell {
    /// the cell is empty
    Empty,
    /// the cell is occupied by a creature with the given id
    Creature(u64),
    /// the cell is occupied by a block of grass with the given id
    Grass(u64),
}

/// A position on the square grid; a world of size `n` spans
/// `[0, n) x [0, n)`.
#[derive(Debug, Copy, Clone, PartialEq, Eq, Structural)]
pub struct Coord {
    pub x: i32,
    pub y: i32,
}

impl Coord {
    /// The coordinate lies on a grid of the given size.
    pub open spec fn in_bounds(self, size: u16) -> bool {
        0 <= self.x < size && 0 <= self.y < size
    }
}

/// The eight compass directions a creature can move in. `North` points
/// towards row 0.
#[derive(Debug, Copy, Clone, PartialEq, Eq, Structural)]
pub enum Direction {
    North,
    NorthEast,
    East,
    SouthEast,
    South,
    SouthWest,
    West,
    NorthWest,
}

/// Column displacement of one step in the given direction.
pub open spec fn dir_dx(d: Direction) -> int {
    match d {
        Direction::North => 0,
        Direction::NorthEast => 1,
        Direction::East => 1,
        Direction::SouthEast => 1,
        Direction::South => 0,
        Direction::SouthWest => -1,
        Direction::West => -1,
        Direction::NorthWest => -1,
    }
}

/// Row displacement of one step in the given direction.
pub open spec fn dir_dy(d: Direction) -> int {
    match d {
        Direction::North => -1,
        Direction::NorthEast => -1,
        Direction::East => 0,
        Direction::SouthEast => 1,
        Direction::South => 1,
        Direction::SouthWest => 1,
        Direction::West => 0,
        Direction::NorthWest => -1,
    }
}

/// The direction a creature picks when its random stream yields `i`; every
/// draw is below 8, so the final arm never decides a real draw.
pub open spec fn dir_of_index(i: u64) -> Direction {
    if i == 0 {
        Direction::North
    } else if i == 1 {
        Direction::NorthEast
    } else if i == 2 {
        Direction::East
    } else if i == 3 {
        Direction::SouthEast
    } else if i == 4 {
        Direction::South
    } else if i == 5 {
        Direction::SouthWest
    } else if i == 6 {
        Direction::West
    } else {
        Direction::NorthWest
    }
}

/// Clamp a displaced ordinate back onto `[0, size)`: movement beyond an edge
/// sticks to the boundary, it never wraps.
pub open spec fn clamp_to(v: int, size: u16) -> int {
    if v < 0 {
        0
    } else if v >= size {
        size - 1
    } else {
        v
    }
}

/// Where one step from `c` in direction `d` lands on a grid of the given
/// size, with both ordinates clamped to the boundary.
pub open spec fn move_pos_spec(c: Coord, d: Direction, size: u16) -> Coord {
    Coord { x: clamp_to(c.x + dir_dx(d), size) as i32, y: clamp_to(c.y + dir_dy(d), size) as i32 }
}

/// Displace `c` one step in direction `d`, clamping to the grid bounds.
pub fn move_pos(c: Coord, d: Direction, size: u16) -> (r: Coord)
    requires
        1 <= size,
        c.in_bounds(size),
    ensures
        r == move_pos_spec(c, d, size),
        r.in_bounds(size),
{
    let (dx, dy): (i32, i32) = match d {
        Direction::North => (0, -1),
        Direction::NorthEast => (1, -1),
        Direction::East => (1, 0),
        Direction::SouthEast => (1, 1),
        Direction::South => (0, 1),
        Direction::SouthWest => (-1, 1),
        Direction::West => (-1, 0),
        Direction::NorthWest => (-1, -1),
    };
    let nx = clamp_exec(c.x + dx, size);
    let ny = clamp_exec(c.y + dy, size);
    Coord { x: nx, y: ny }
}

fn clamp_exec(v: i32, size: u16) -> (r: i32)
    requires
        1 <= size,
        -1 <= v <= 0x1_0000,
    ensures
        r == clamp_to(v as int, size),
{
    if v < 0 {
        0
    } else if v >= size as i32 {
        size as i32 - 1
    } else {
        v
    }
}

/// What every kind of entity that can occupy a cell exposes: the cell tag of
/// its kind, its identity, and its position.
pub trait Entity: Sized {
    /// The identity of the entity, as a spec-level value.
    spec fn id_spec(&self) -> u64;

    /// The position of the entity, as a spec-level value.
    spec fn coord_spec(&self) -> Coord;

    /// The cell tag marking an entity of this kind with the given id.
    fn cell_type(id: u64) -> Cell;

    /// The identity of the entity.
    fn id(&self) -> (r: u64)
        ensures
            r == self.id_spec(),
    ;

    /// The position of the entity.
    fn coord(&self) -> (r: Coord)
        ensures
            r == self.coord_spec(),
    ;
}

} // verus!
