//! The world grid: a square 2D array of cell tags, with occupancy lookup and
//! grass placement.

use vstd::prelude::*;

use crate::entity::{Cell, Coord};

verus! {

/// Spec-level snapshot of a grid.
pub ghost struct GridView {
    /// The cell tags, indexed `cells[y][x]`.
    pub cells: Seq<Seq<Cell>>,
    /// Side length of the square grid.
    pub size: u16,
    /// The identity the next grass block will get.
    pub next_grass_id: u64,
}

impl GridView {
    /// The grid is a `size` by `size` square.
    pub open spec fn wf(self) -> bool {
        &&& self.cells.len() == self.size
        &&& forall|y: int| 0 <= y < self.size ==> (#[trigger] self.cells[y]).len() == self.size
    }

    /// The tag of the cell at `c`.
    pub open spec fn cell_at(self, c: Coord) -> Cell {
        self.cells[c.y as int][c.x as int]
    }

    /// This grid with the cell at `c` replaced by `v`.
    pub open spec fn with_cell(self, c: Coord, v: Cell) -> GridView {
        GridView {
            cells: self.cells.update(c.y as int, self.cells[c.y as int].update(c.x as int, v)),
            ..self
        }
    }
}

/// What adding grass at `c` does to a grid: an empty cell gains a fresh
/// grass block, any other cell is left alone.
pub open spec fn add_grass_spec(g: GridView, c: Coord) -> GridView {
    if g.cell_at(c) is Empty {
        GridView {
            cells: g.with_cell(c, Cell::Grass(g.next_grass_id)).cells,
            next_grass_id: (g.next_grass_id + 1) as u64,
            ..g
        }
    } else {
        g
    }
}

/// The coordinates of the empty cells in the first `j` columns of row `y`,
/// in ascending column order.
pub open spec fn row_empties(row: Seq<Cell>, y: int, j: int) -> Seq<Coord>
    decreases j,
{
    if j <= 0 {
        Seq::empty()
    } else {
        row_empties(row, y, j - 1) + if row[j - 1] is Empty {
            seq![Coord { x: (j - 1) as i32, y: y as i32 }]
        } else {
            Seq::empty()
        }
    }
}

/// The coordinates of the empty cells in the first `i` rows, row by row.
pub open spec fn grid_empties_upto(cells: Seq<Seq<Cell>>, i: int) -> Seq<Coord>
    decreases i,
{
    if i <= 0 {
        Seq::empty()
    } else {
        grid_empties_upto(cells, i - 1) + row_empties(
            cells[i - 1],
            i - 1,
            cells[i - 1].len() as int,
        )
    }
}

/// The coordinates of all empty cells of the grid, in row-major order.
pub open spec fn grid_empties(g: GridView) -> Seq<Coord> {
    grid_empties_upto(g.cells, g.size as int)
}

/// The 2D array of cell tags for the world.
pub struct Grid {
    cells: Vec<Vec<Cell>>,
    size: u16,
    next_grass_id: u64,
}

impl View for Grid {
    type V = GridView;

    closed spec fn view(&self) -> GridView {
        GridView {
            cells: Seq::new(self.cells@.len() as nat, |y: int| self.cells@[y]@),
            size: self.size,
            next_grass_id: self.next_grass_id,
        }
    }
}

impl Grid {
    /// A `size` by `size` grid of empty cells.
    pub fn new(size: u16) -> (g: Grid)
        requires
            1 <= size,
        ensures
            g@.wf(),
            g@.size == size,
            g@.next_grass_id == 1,
            forall|y: int, x: int|
                0 <= y < size && 0 <= x < size ==> g@.cells[y][x] == Cell::Empty,
    {
        let mut cells: Vec<Vec<Cell>> = Vec::new();
        let mut y: usize = 0;
        while y < size as usize
            invariant
                y <= size,
                cells@.len() == y,
                forall|r: int| 0 <= r < y ==> (#[trigger] cells@[r])@.len() == size,
                forall|r: int, c: int|
                    0 <= r < y && 0 <= c < size ==> #[trigger] cells@[r]@[c] == Cell::Empty,
            decreases size - y,
        {
            let row: Vec<Cell> = vec![Cell::Empty; size as usize];
            cells.push(row);
            y += 1;
        }
        Grid { cells, size, next_grass_id: 1 }
    }

    /// Occupancy lookup.
    pub fn get_cell(&self, c: Coord) -> (r: Cell)
        requires
            self@.wf(),
            c.in_bounds(self@.size),
        ensures
            r == self@.cell_at(c),
    {
        self.cells[c.y as usize][c.x as usize]
    }

    /// Overwrite the cell at `c`.
    pub fn set_cell(&mut self, c: Coord, v: Cell)
        requires
            old(self)@.wf(),
            c.in_bounds(old(self)@.size),
        ensures
            final(self)@ == old(self)@.with_cell(c, v),
            final(self)@.wf(),
    {
        proof {
            assert(self.cells@.len() == self@.cells.len());
            assert(self.cells@[c.y as int]@ == self@.cells[c.y as int]);
        }
        self.cells[c.y as usize][c.x as usize] = v;
        proof {
            assert(final(self)@.cells =~~= old(self)@.with_cell(c, v).cells);
        }
    }

    /// Put a fresh grass block at `c` if that cell is empty; otherwise leave
    /// the grid alone.
    pub fn add_grass(&mut self, c: Coord)
        requires
            old(self)@.wf(),
            c.in_bounds(old(self)@.size),
            old(self)@.next_grass_id < u64::MAX,
        ensures
            final(self)@ == add_grass_spec(old(self)@, c),
            final(self)@.wf(),
    {
        let cur = self.get_cell(c);
        match cur {
            Cell::Empty => {
                let id = self.next_grass_id;
                self.set_cell(c, Cell::Grass(id));
                self.next_grass_id = id + 1;
            },
            _ => {},
        }
    }

    /// All empty cells of the grid, in row-major order.
    pub fn empty_cells(&self) -> (v: Vec<Coord>)
        requires
            self@.wf(),
        ensures
            v@ == grid_empties(self@),
            forall|k: int|
                0 <= k < v@.len() ==> (#[trigger] v@[k]).in_bounds(self@.size) && self@.cell_at(
                    v@[k],
                ) == Cell::Empty,
    {
        let mut v: Vec<Coord> = Vec::new();
        let mut y: usize = 0;
        while y < self.cells.len()
            invariant
                self@.wf(),
                y <= self@.size,
                self.cells@.len() == self@.size,
                v@ == grid_empties_upto(self@.cells, y as int),
                forall|k: int|
                    0 <= k < v@.len() ==> (#[trigger] v@[k]).in_bounds(self@.size)
                        && self@.cell_at(v@[k]) == Cell::Empty,
            decreases self@.size - y,
        {
            let row_len = self.cells[y].len();
            assert(row_len == self@.cells[y as int].len());
            let mut x: usize = 0;
            while x < row_len
                invariant
                    self@.wf(),
                    y < self@.size,
                    x <= row_len,
                    self.cells@.len() == self@.size,
                    row_len == self@.cells[y as int].len(),
                    v@ == grid_empties_upto(self@.cells, y as int) + row_empties(
                        self@.cells[y as int],
                        y as int,
                        x as int,
                    ),
                    forall|k: int|
                        0 <= k < v@.len() ==> (#[trigger] v@[k]).in_bounds(self@.size)
                            && self@.cell_at(v@[k]) == Cell::Empty,
                decreases row_len - x,
            {
                let tag = self.cells[y][x];
                match tag {
                    Cell::Empty => {
                        v.push(Coord { x: x as i32, y: y as i32 });
                    },
                    _ => {},
                }
                proof {
                    assert(v@ =~= grid_empties_upto(self@.cells, y as int) + row_empties(
                        self@.cells[y as int],
                        y as int,
                        x as int + 1,
                    ));
                }
                x += 1;
            }
            proof {
                assert(v@ =~= grid_empties_upto(self@.cells, y as int + 1));
            }
            y += 1;
        }
        v
    }
}

} // verus!
