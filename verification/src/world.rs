//! The world: the grid, the entity table (ascending-id list of creatures),
//! the update queue, and the two-phase tick engine.

use vstd::prelude::*;

use crate::creature::{decide_c, decide_u, Creature, ENERGY_FLOOR, SEED_DRAW_BOUND};
use crate::entity::{Cell, Coord};
use crate::genotype::Processor;
use crate::grid::{add_grass_spec, grid_empties, Grid, GridView};
use crate::rng::{rand_next, rand_value, Rand};
use crate::settings::Settings;
use crate::update::{Update, UpdateQueue};

verus! {

/// The lowest a live creature's energy can be while the tick that removes it
/// is still being applied: one idle cost below the resting floor.
pub const PENDING_ENERGY_FLOOR: i64 = -0xffff_ffff;

/// Spec-level snapshot of a world.
pub ghost struct WorldView {
    pub grid: GridView,
    /// The entity table, in ascending id order.
    pub creatures: Seq<Creature>,
    /// The pending mutations of the current tick.
    pub updates: Seq<Update>,
    pub config: Settings,
    /// The identity the next inserted creature will get; ids are never
    /// reused.
    pub next_id: u64,
    /// The state of the world's own random stream (seeding and grass
    /// regrowth).
    pub rng: u64,
}

/// First index holding the given id in `s` at or after `i`, or -1.
pub open spec fn find_from(s: Seq<Creature>, id: u64, i: int) -> int
    decreases s.len() - i,
{
    if i < 0 || i >= s.len() {
        -1
    } else if s[i].id == id {
        i
    } else {
        find_from(s, id, i + 1)
    }
}

/// First index holding the given id in `s`, or -1.
pub open spec fn find_idx(s: Seq<Creature>, id: u64) -> int {
    find_from(s, id, 0)
}

/// Some creature in `s` has the given id.
pub open spec fn has_id(s: Seq<Creature>, id: u64) -> bool {
    exists|i: int| 0 <= i < s.len() && (#[trigger] s[i]).id == id
}

/// What applying one queued update does to the world.
///
/// - `AddCreature`: assign the next id, insert the creature into the table
///   and tag its cell — unless the target cell is not empty, in which case
///   the insertion is dropped and no id is consumed (the occupancy invariant
///   takes precedence).
/// - `RemoveCreature`: erase the id from the table and empty its cell; a
///   no-op if the id is already absent.
/// - `MoveCreature`: relocate the creature and both cell tags — unless the
///   destination is not empty, in which case the move is dropped silently.
pub open spec fn apply1(w: WorldView, u: Update) -> WorldView {
    match u {
        Update::AddCreature(c) => {
            if c.coord.in_bounds(w.config.size) && w.grid.cell_at(c.coord) == Cell::Empty {
                let assigned = if c.id == 0 {
                    w.next_id
                } else {
                    c.id
                };
                WorldView {
                    grid: w.grid.with_cell(c.coord, Cell::Creature(assigned)),
                    creatures: w.creatures.push(Creature { id: assigned, ..c }),
                    next_id: (w.next_id + 1) as u64,
                    ..w
                }
            } else {
                w
            }
        },
        Update::RemoveCreature(id, _coord) => {
            let i = find_idx(w.creatures, id);
            if i == -1 {
                w
            } else {
                WorldView {
                    grid: w.grid.with_cell(w.creatures[i].coord, Cell::Empty),
                    creatures: w.creatures.remove(i),
                    ..w
                }
            }
        },
        Update::MoveCreature(id, _from, to) => {
            let i = find_idx(w.creatures, id);
            if i != -1 && to.in_bounds(w.config.size) && w.grid.cell_at(to) == Cell::Empty {
                let c = w.creatures[i];
                WorldView {
                    grid: w.grid.with_cell(c.coord, Cell::Empty).with_cell(to, Cell::Creature(id)),
                    creatures: w.creatures.update(i, Creature { coord: to, ..c }),
                    ..w
                }
            } else {
                w
            }
        },
    }
}

impl WorldView {
    /// The entity table is sound: ids are assigned, below the counter, and
    /// strictly increasing; coordinates are on the grid; every creature
    /// shares the world's configuration.
    pub open spec fn table_wf(self) -> bool {
        &&& forall|i: int|
            0 <= i < self.creatures.len() ==> {
                let c = #[trigger] self.creatures[i];
                &&& 1 <= c.id < self.next_id
                &&& c.coord.in_bounds(self.config.size)
                &&& c.config == self.config
            }
        &&& forall|i: int, j: int|
            0 <= i < j < self.creatures.len() ==> (#[trigger] self.creatures[i]).id < (
            #[trigger] self.creatures[j]).id
    }

    /// Every live creature's recorded coordinate tags that cell with its own
    /// id.
    pub open spec fn occupancy_forward(self) -> bool {
        forall|i: int|
            0 <= i < self.creatures.len() ==> self.grid.cell_at(
                (#[trigger] self.creatures[i]).coord,
            ) == Cell::Creature(self.creatures[i].id)
    }

    /// Every cell tagged with a creature id holds exactly a live creature of
    /// that id at that coordinate.
    pub open spec fn occupancy_backward(self) -> bool {
        forall|x: int, y: int|
            0 <= x < self.config.size && 0 <= y < self.config.size ==> (#[trigger] self.grid.cells[y][x]
                matches Cell::Creature(id) ==> exists|i: int|
                0 <= i < self.creatures.len() && (#[trigger] self.creatures[i]).id == id
                    && self.creatures[i].coord == (Coord { x: x as i32, y: y as i32 }))
    }

    /// What holds of the world at every point of the apply phase, the
    /// moments between two updates included.
    pub open spec fn mid_wf(self) -> bool {
        &&& self.config.wf()
        &&& 1 <= self.next_id
        &&& self.grid.wf()
        &&& self.grid.size == self.config.size
        &&& self.table_wf()
        &&& self.occupancy_forward()
        &&& self.occupancy_backward()
        &&& forall|i: int|
            0 <= i < self.creatures.len() ==> PENDING_ENERGY_FLOOR <= (
            #[trigger] self.creatures[i]).code.energy_spec()
    }

    /// What holds of the world between ticks: the apply-phase invariants,
    /// every energy above the resting floor, and an empty queue.
    pub open spec fn wf(self) -> bool {
        &&& self.mid_wf()
        &&& forall|i: int|
            0 <= i < self.creatures.len() ==> ENERGY_FLOOR <= (
            #[trigger] self.creatures[i]).code.energy_spec()
        &&& self.updates.len() == 0
    }

}

/// What the decision phase guarantees of every queued update, and the apply
/// phase relies on.
pub open spec fn update_wf(config: Settings, u: Update) -> bool {
    match u {
        Update::AddCreature(c) => {
            &&& c.id == 0
            &&& c.coord.in_bounds(config.size)
            &&& c.config == config
            &&& 0 <= c.code.energy_spec()
        },
        Update::RemoveCreature(_, _) => true,
        Update::MoveCreature(_, _, to) => to.in_bounds(config.size),
    }
}

/// The world: the grid, the creature table, the update queue, the
/// configuration and the world's own random stream.
pub struct World {
    grid: Grid,
    creatures: Vec<Creature>,
    updates: UpdateQueue,
    config: Settings,
    next_id: u64,
    rng: Rand,
}

impl View for World {
    type V = WorldView;

    closed spec fn view(&self) -> WorldView {
        WorldView {
            grid: self.grid@,
            creatures: self.creatures@,
            updates: self.updates@,
            config: self.config,
            next_id: self.next_id,
            rng: self.rng.state,
        }
    }
}

/// Replacing one cell leaves every other cell alone.
pub proof fn lemma_with_cell_frame(g: GridView, a: Coord, v: Cell, b: Coord)
    requires
        g.wf(),
        a.in_bounds(g.size),
        b.in_bounds(g.size),
    ensures
        g.with_cell(a, v).cell_at(b) == if b == a {
            v
        } else {
            g.cell_at(b)
        },
        g.with_cell(a, v).wf(),
{
}

/// Committing an insertion into an empty cell keeps the apply-phase
/// invariants.
#[verifier::rlimit(100)]
proof fn lemma_apply_add_wf(w: WorldView, c: Creature)
    requires
        w.mid_wf(),
        c.id == 0,
        c.config == w.config,
        c.coord.in_bounds(w.config.size),
        PENDING_ENERGY_FLOOR <= c.code.energy_spec(),
        w.next_id < u64::MAX,
        w.grid.cell_at(c.coord) == Cell::Empty,
    ensures
        apply1(w, Update::AddCreature(c)).mid_wf(),
{
    let v = apply1(w, Update::AddCreature(c));
    assert(v.creatures == w.creatures.push(Creature { id: w.next_id, ..c }));
    lemma_with_cell_frame(w.grid, c.coord, Cell::Creature(w.next_id), c.coord);
    assert(v.grid.wf());
    assert forall|i: int, j: int|
        0 <= i < j < v.creatures.len() implies (#[trigger] v.creatures[i]).id < (
    #[trigger] v.creatures[j]).id by {
        if j < w.creatures.len() as int {
        } else {
            assert(w.creatures[i].id < w.next_id);
        }
    }
    assert forall|i: int| 0 <= i < v.creatures.len() implies v.grid.cell_at(
        (#[trigger] v.creatures[i]).coord,
    ) == Cell::Creature(v.creatures[i].id) by {
        if i < w.creatures.len() as int {
            assert(w.grid.cell_at(w.creatures[i].coord) == Cell::Creature(w.creatures[i].id));
            lemma_with_cell_frame(w.grid, c.coord, Cell::Creature(w.next_id), w.creatures[i].coord);
        } else {
            lemma_with_cell_frame(w.grid, c.coord, Cell::Creature(w.next_id), c.coord);
        }
    }
    assert forall|x: int, y: int|
        0 <= x < v.config.size && 0 <= y < v.config.size implies (#[trigger] v.grid.cells[y][x]
        matches Cell::Creature(id) ==> exists|i: int|
        0 <= i < v.creatures.len() && (#[trigger] v.creatures[i]).id == id && v.creatures[i].coord
            == (Coord { x: x as i32, y: y as i32 })) by {
        let b = Coord { x: x as i32, y: y as i32 };
        assert(b.in_bounds(v.config.size));
        lemma_with_cell_frame(w.grid, c.coord, Cell::Creature(w.next_id), b);
        assert(v.grid.cell_at(b) == v.grid.cells[y][x]);
        assert(w.grid.cell_at(b) == w.grid.cells[y][x]);
        if b == c.coord {
            assert(v.creatures[w.creatures.len() as int].id == w.next_id);
        } else {
            match w.grid.cells[y][x] {
                Cell::Creature(cid) => {
                    let i = choose|i: int|
                        0 <= i < w.creatures.len() && (#[trigger] w.creatures[i]).id == cid
                            && w.creatures[i].coord == b;
                    assert(v.creatures[i].id == cid && v.creatures[i].coord == b);
                },
                _ => {},
            }
        }
    }
}

impl World {
    /// An empty world: no creatures, no grass, an all-empty grid, the id
    /// counter at 1, the world stream seeded with `seed`.
    pub fn new(config: Settings, seed: u64) -> (w: World)
        requires
            config.wf(),
        ensures
            w@.wf(),
            w@.config == config,
            w@.rng == seed,
            w@.next_id == 1,
            w@.creatures.len() == 0,
            w@.updates.len() == 0,
            w@.grid.next_grass_id == 1,
            forall|x: int, y: int|
                0 <= x < config.size && 0 <= y < config.size ==> w@.grid.cells[y][x]
                    == Cell::Empty,
    {
        let grid = Grid::new(config.size);
        World {
            grid,
            creatures: Vec::new(),
            updates: Vec::new(),
            config,
            next_id: 1,
            rng: Rand::new(seed),
        }
    }

    /// Side length of the grid.
    pub fn get_size(&self) -> (r: u16)
        ensures
            r == self@.config.size,
    {
        self.config.size
    }

    /// How many creatures are alive.
    pub fn creature_count(&self) -> (r: u64)
        ensures
            r == self@.creatures.len(),
    {
        self.creatures.len() as u64
    }

    /// Occupancy lookup, for renderers and rules that read the world
    /// between ticks.
    pub fn get_cell(&self, c: Coord) -> (r: Cell)
        requires
            self@.grid.wf(),
            c.in_bounds(self@.grid.size),
        ensures
            r == self@.grid.cell_at(c),
    {
        self.grid.get_cell(c)
    }

    /// The index of the creature with the given id, if it is alive.
    fn find_index(&self, id: u64) -> (r: Option<usize>)
        ensures
            match r {
                Some(i) => find_idx(self@.creatures, id) == i && i < self@.creatures.len()
                    && self@.creatures[i as int].id == id,
                None => find_idx(self@.creatures, id) == -1 && !has_id(self@.creatures, id),
            },
    {
        let ghost s = self@.creatures;
        let n = self.creatures.len();
        let mut i: usize = 0;
        while i < n
            invariant
                i <= n,
                n == s.len(),
                self@.creatures == s,
                find_from(s, id, 0) == find_from(s, id, i as int),
                forall|j: int| 0 <= j < i ==> (#[trigger] s[j]).id != id,
            decreases n - i,
        {
            if self.creatures[i].id == id {
                return Some(i);
            }
            i += 1;
        }
        None
    }

    /// The coordinate of the creature with the given id, if it is alive.
    pub fn creature_coord(&self, id: u64) -> (r: Option<Coord>)
        ensures
            match r {
                Some(c) => find_idx(self@.creatures, id) >= 0 && c == self@.creatures[find_idx(
                    self@.creatures,
                    id,
                )].coord,
                None => !has_id(self@.creatures, id),
            },
    {
        match self.find_index(id) {
            Some(i) => Some(self.creatures[i].coord),
            None => None,
        }
    }

    /// The energy of the creature with the given id, if it is alive.
    pub fn creature_energy(&self, id: u64) -> (r: Option<i64>)
        ensures
            match r {
                Some(e) => find_idx(self@.creatures, id) >= 0 && e == self@.creatures[find_idx(
                    self@.creatures,
                    id,
                )].code.energy_spec(),
                None => !has_id(self@.creatures, id),
            },
    {
        match self.find_index(id) {
            Some(i) => Some(self.creatures[i].energy()),
            None => None,
        }
    }

    /// Insert a creature directly: assign the next id, tag its cell, append
    /// it to the table. Dropped if the target cell is not empty.
    #[verifier::rlimit(50)]
    fn insert_creature(&mut self, c: Creature) -> (added: bool)
        requires
            old(self)@.mid_wf(),
            c.id == 0,
            c.config == old(self)@.config,
            c.coord.in_bounds(old(self)@.config.size),
            PENDING_ENERGY_FLOOR <= c.code.energy_spec(),
            old(self)@.next_id < u64::MAX,
        ensures
            final(self)@ == apply1(old(self)@, Update::AddCreature(c)),
            final(self)@.mid_wf(),
            added == (old(self)@.grid.cell_at(c.coord) == Cell::Empty),
    {
        let ghost w = self@;
        let cur = self.grid.get_cell(c.coord);
        match cur {
            Cell::Empty => {
                let mut c2 = c;
                c2.set_id(self.next_id);
                self.grid.set_cell(c.coord, Cell::Creature(c2.id));
                self.creatures.push(c2);
                self.next_id = self.next_id + 1;
                proof {
                    assert(self@ == apply1(w, Update::AddCreature(c)));
                    lemma_apply_add_wf(w, c);
                }
                true
            },
            _ => {
                assert(self@ == apply1(w, Update::AddCreature(c)));
                false
            },
        }
    }

    /// Seed one creature directly into the world, as population seeding
    /// does: the id is assigned immediately. Returns whether the creature
    /// was placed (its cell was free).
    pub fn spawn_creature(&mut self, c: Creature) -> (added: bool)
        requires
            old(self)@.wf(),
            c.id == 0,
            c.config == old(self)@.config,
            c.coord.in_bounds(old(self)@.config.size),
            ENERGY_FLOOR <= c.code.energy_spec(),
            old(self)@.next_id < u64::MAX,
        ensures
            final(self)@ == apply1(old(self)@, Update::AddCreature(c)),
            final(self)@.wf(),
            added == (old(self)@.grid.cell_at(c.coord) == Cell::Empty),
    {
        self.insert_creature(c)
    }

    /// Commit one queued update to the grid and the table together, keeping
    /// the occupancy invariant.
    fn apply_update(&mut self, u: Update)
        requires
            old(self)@.mid_wf(),
            update_wf(old(self)@.config, u),
            old(self)@.next_id < u64::MAX,
        ensures
            final(self)@ == apply1(old(self)@, u),
            final(self)@.mid_wf(),
            final(self)@.config == old(self)@.config,
            final(self)@.updates == old(self)@.updates,
            final(self)@.rng == old(self)@.rng,
            final(self)@.grid.next_grass_id == old(self)@.grid.next_grass_id,
            old(self)@.next_id <= final(self)@.next_id <= old(self)@.next_id + 1,
            forall|i: int|
                0 <= i < final(self)@.creatures.len() ==> {
                    let c = #[trigger] final(self)@.creatures[i];
                    (exists|j: int|
                        0 <= j < old(self)@.creatures.len() && (#[trigger] old(
                            self,
                        )@.creatures[j]).id == c.id && old(self)@.creatures[j].code == c.code) || (
                    c.id == old(self)@.next_id && 0 <= c.code.energy_spec())
                },
            forall|id: u64|
                has_id(final(self)@.creatures, id) ==> has_id(old(self)@.creatures, id) || id
                    == old(self)@.next_id,
            u matches Update::RemoveCreature(id, _) ==> !has_id(final(self)@.creatures, id),
    {
        let ghost w = self@;
        match u {
            Update::AddCreature(c) => {
                self.insert_creature(c);
                proof {
                    assert forall|i: int| 0 <= i < self@.creatures.len() implies {
                        let c2 = #[trigger] self@.creatures[i];
                        (exists|j: int|
                            0 <= j < w.creatures.len() && (#[trigger] w.creatures[j]).id == c2.id
                                && w.creatures[j].code == c2.code) || (c2.id == w.next_id && 0
                            <= c2.code.energy_spec())
                    } by {
                        if i < w.creatures.len() as int {
                            assert(w.creatures[i].id == self@.creatures[i].id && w.creatures[i].code
                                == self@.creatures[i].code);
                        }
                    }
                    assert forall|id: u64| has_id(self@.creatures, id) implies has_id(
                        w.creatures,
                        id,
                    ) || id == w.next_id by {
                        let i = choose|i: int|
                            0 <= i < self@.creatures.len() && (#[trigger] self@.creatures[i]).id
                                == id;
                        if i < w.creatures.len() as int {
                            assert(w.creatures[i].id == id);
                        }
                    }
                }
            },
            Update::RemoveCreature(id, _coord) => {
                match self.find_index(id) {
                    Some(i) => {
                        let c = self.creatures[i];
                        self.grid.set_cell(c.coord, Cell::Empty);
                        self.creatures.remove(i);
                        proof {
                            let v = self@;
                            let i = i as int;
                            w.creatures.remove_ensures(i);
                            assert(v == apply1(w, u));
                            assert forall|j: int|
                                0 <= j < w.creatures.len() && j != i implies (
                            #[trigger] w.creatures[j]).coord != c.coord by {
                                if w.creatures[j].coord == c.coord {
                                    assert(w.grid.cell_at(c.coord) == Cell::Creature(
                                        w.creatures[j].id,
                                    ));
                                    assert(w.grid.cell_at(c.coord) == Cell::Creature(c.id));
                                }
                            }
                            assert forall|k: int| 0 <= k < v.creatures.len() implies v.grid.cell_at(
                                (#[trigger] v.creatures[k]).coord,
                            ) == Cell::Creature(v.creatures[k].id) by {
                                let j = if k < i {
                                    k
                                } else {
                                    k + 1
                                };
                                assert(v.creatures[k] == w.creatures[j]);
                                lemma_with_cell_frame(w.grid, c.coord, Cell::Empty, w.creatures[j].coord);
                            }
                            assert forall|x: int, y: int|
                                0 <= x < v.config.size && 0 <= y < v.config.size implies (
                            #[trigger] v.grid.cells[y][x] matches Cell::Creature(id2)
                                ==> exists|k: int|
                                0 <= k < v.creatures.len() && (#[trigger] v.creatures[k]).id == id2
                                    && v.creatures[k].coord == (Coord { x: x as i32, y: y as i32 })) by {
                                let b = Coord { x: x as i32, y: y as i32 };
                                lemma_with_cell_frame(w.grid, c.coord, Cell::Empty, b);
                                assert(v.grid.cell_at(b) == v.grid.cells[y][x]);
                                assert(w.grid.cell_at(b) == w.grid.cells[y][x]);
                                if b != c.coord {
                                    match v.grid.cells[y][x] {
                                        Cell::Creature(cid) => {
                                            let jw = choose|jw: int|
                                                0 <= jw < w.creatures.len() && (
                                                #[trigger] w.creatures[jw]).id == cid
                                                    && w.creatures[jw].coord == b;
                                            assert(jw != i);
                                            let k = if jw < i {
                                                jw
                                            } else {
                                                jw - 1
                                            };
                                            assert(v.creatures[k] == w.creatures[jw]);
                                        },
                                        _ => {},
                                    }
                                }
                            }
                            assert forall|k: int| 0 <= k < v.creatures.len() implies {
                                let c2 = #[trigger] v.creatures[k];
                                (exists|j: int|
                                    0 <= j < w.creatures.len() && (#[trigger] w.creatures[j]).id
                                        == c2.id && w.creatures[j].code == c2.code) || (c2.id
                                    == w.next_id && 0 <= c2.code.energy_spec())
                            } by {
                                let j = if k < i {
                                    k
                                } else {
                                    k + 1
                                };
                                assert(v.creatures[k] == w.creatures[j]);
                            }
                            assert forall|id2: u64| has_id(v.creatures, id2) implies has_id(
                                w.creatures,
                                id2,
                            ) || id2 == w.next_id by {
                                let k = choose|k: int|
                                    0 <= k < v.creatures.len() && (#[trigger] v.creatures[k]).id
                                        == id2;
                                let j = if k < i {
                                    k
                                } else {
                                    k + 1
                                };
                                assert(w.creatures[j].id == id2);
                            }
                            assert(!has_id(v.creatures, id)) by {
                                if has_id(v.creatures, id) {
                                    let k = choose|k: int|
                                        0 <= k < v.creatures.len() && (#[trigger] v.creatures[k]).id
                                            == id;
                                    let j = if k < i {
                                        k
                                    } else {
                                        k + 1
                                    };
                                    assert(w.creatures[j].id == id && j != i);
                                    if j < i {
                                        assert(w.creatures[j].id < w.creatures[i].id);
                                    } else {
                                        assert(w.creatures[i].id < w.creatures[j].id);
                                    }
                                }
                            }
                        }
                    },
                    None => {},
                }
            },
            Update::MoveCreature(id, _from, to) => {
                match self.find_index(id) {
                    Some(i) => {
                        let dest = self.grid.get_cell(to);
                        match dest {
                            Cell::Empty => {
                                let mut c = self.creatures[i];
                                self.grid.set_cell(c.coord, Cell::Empty);
                                self.grid.set_cell(to, Cell::Creature(id));
                                c.move_to(to);
                                self.creatures[i] = c;
                                proof {
                                    let v = self@;
                                    let i = i as int;
                                    let old_c = w.creatures[i];
                                    assert(to != old_c.coord) by {
                                        assert(w.grid.cell_at(old_c.coord) == Cell::Creature(id));
                                    }
                                    assert(v == apply1(w, u));
                                    assert forall|j: int|
                                        0 <= j < w.creatures.len() && j != i implies (
                                    #[trigger] w.creatures[j]).coord != old_c.coord by {
                                        if w.creatures[j].coord == old_c.coord {
                                            assert(w.grid.cell_at(old_c.coord) == Cell::Creature(
                                                w.creatures[j].id,
                                            ));
                                        }
                                    }
                                    let g1 = w.grid.with_cell(old_c.coord, Cell::Empty);
                                    assert forall|k: int|
                                        0 <= k < v.creatures.len() implies v.grid.cell_at(
                                        (#[trigger] v.creatures[k]).coord,
                                    ) == Cell::Creature(v.creatures[k].id) by {
                                        lemma_with_cell_frame(w.grid, old_c.coord, Cell::Empty, to);
                                        if k == i {
                                            lemma_with_cell_frame(g1, to, Cell::Creature(id), to);
                                        } else {
                                            let d = w.creatures[k].coord;
                                            assert(w.grid.cell_at(d) == Cell::Creature(
                                                w.creatures[k].id,
                                            ));
                                            assert(d != to);
                                            lemma_with_cell_frame(w.grid, old_c.coord, Cell::Empty, d);
                                            lemma_with_cell_frame(g1, to, Cell::Creature(id), d);
                                        }
                                    }
                                    assert forall|x: int, y: int|
                                        0 <= x < v.config.size && 0 <= y < v.config.size implies (
                                    #[trigger] v.grid.cells[y][x] matches Cell::Creature(id2)
                                        ==> exists|k: int|
                                        0 <= k < v.creatures.len() && (#[trigger] v.creatures[k]).id
                                            == id2 && v.creatures[k].coord == (Coord {
                                            x: x as i32,
                                            y: y as i32,
                                        })) by {
                                        let b = Coord { x: x as i32, y: y as i32 };
                                        lemma_with_cell_frame(w.grid, old_c.coord, Cell::Empty, b);
                                        lemma_with_cell_frame(g1, to, Cell::Creature(id), b);
                                        assert(v.grid.cell_at(b) == v.grid.cells[y][x]);
                                        assert(w.grid.cell_at(b) == w.grid.cells[y][x]);
                                        if b == to {
                                            assert(v.creatures[i].id == id && v.creatures[i].coord
                                                == b);
                                        } else if b != old_c.coord {
                                            match v.grid.cells[y][x] {
                                                Cell::Creature(cid) => {
                                                    let jw = choose|jw: int|
                                                        0 <= jw < w.creatures.len() && (
                                                        #[trigger] w.creatures[jw]).id == cid
                                                            && w.creatures[jw].coord == b;
                                                    assert(jw != i);
                                                    assert(v.creatures[jw] == w.creatures[jw]);
                                                },
                                                _ => {},
                                            }
                                        }
                                    }
                                    assert forall|k: int| 0 <= k < v.creatures.len() implies {
                                        let c2 = #[trigger] v.creatures[k];
                                        (exists|j: int|
                                            0 <= j < w.creatures.len() && (
                                            #[trigger] w.creatures[j]).id == c2.id
                                                && w.creatures[j].code == c2.code) || (c2.id
                                            == w.next_id && 0 <= c2.code.energy_spec())
                                    } by {
                                        assert(v.creatures[k].id == w.creatures[k].id
                                            && v.creatures[k].code == w.creatures[k].code);
                                    }
                                    assert forall|id2: u64| has_id(v.creatures, id2) implies has_id(
                                        w.creatures,
                                        id2,
                                    ) || id2 == w.next_id by {
                                        let k = choose|k: int|
                                            0 <= k < v.creatures.len() && (
                                            #[trigger] v.creatures[k]).id == id2;
                                        assert(w.creatures[k].id == id2);
                                    }
                                }
                            },
                            _ => {},
                        }
                    },
                    None => {},
                }
            },
        }
    }

}

/// The creature table after every creature has made its decision; ids,
/// coordinates and configurations are untouched by decisions.
pub open spec fn decided_creatures(s: Seq<Creature>) -> Seq<Creature> {
    Seq::new(s.len(), |i: int| decide_c(s[i]))
}

/// The updates the first `n` creatures propose, in table (ascending id)
/// order; a creature contributes at most one.
pub open spec fn decided_updates(s: Seq<Creature>, n: int) -> Seq<Update>
    decreases n,
{
    if n <= 0 {
        Seq::empty()
    } else {
        decided_updates(s, n - 1) + match decide_u(s[n - 1]) {
            Some(u) => seq![u],
            None => Seq::empty(),
        }
    }
}

/// What the decision phase does to the world: every creature decides, in
/// ascending id order, and the proposals are queued; nothing else changes.
pub open spec fn decision_spec(w: WorldView) -> WorldView {
    WorldView {
        creatures: decided_creatures(w.creatures),
        updates: w.updates + decided_updates(w.creatures, w.creatures.len() as int),
        ..w
    }
}

/// The world after the first `n` queued updates are applied in order.
pub open spec fn apply_upto(w: WorldView, ups: Seq<Update>, n: int) -> WorldView
    decreases n,
{
    if n <= 0 {
        w
    } else {
        apply1(apply_upto(w, ups, n - 1), ups[n - 1])
    }
}

/// What grass regrowth does each tick: with the configured chance, one
/// uniformly random empty cell gains a grass block; with no empty cell the
/// regrowth is skipped silently.
pub open spec fn regrow_spec(w: WorldView) -> WorldView {
    let roll = rand_value(w.rng, 1000);
    let r1 = rand_next(w.rng, 1000);
    if roll < w.config.grass_rate as u64 {
        let es = grid_empties(w.grid);
        if es.len() > 0 {
            let pick = rand_value(r1, es.len() as u64);
            WorldView {
                grid: add_grass_spec(w.grid, es[pick as int]),
                rng: rand_next(r1, es.len() as u64),
                ..w
            }
        } else {
            WorldView { rng: r1, ..w }
        }
    } else {
        WorldView { rng: r1, ..w }
    }
}

/// One tick: grass regrowth, then the decision phase, then the apply phase
/// draining the whole queue in insertion order.
pub open spec fn tick_spec(w: WorldView) -> WorldView {
    let w1 = regrow_spec(w);
    let w2 = decision_spec(w1);
    let w3 = apply_upto(w2, w2.updates, w2.updates.len() as int);
    WorldView { updates: Seq::empty(), ..w3 }
}

/// The creature will propose its own removal this tick: its energy cannot
/// survive the idle cost.
pub open spec fn is_doomed(c: Creature) -> bool {
    c.code.energy_spec() - c.config.creature_idle_energy <= 0
}

/// Some update at or after position `k` still asks to remove this id.
pub open spec fn pending_remove(id: u64, ups: Seq<Update>, k: int) -> bool {
    exists|k2: int|
        k <= k2 < ups.len() && ((#[trigger] ups[k2]) matches Update::RemoveCreature(rid, _)
            && rid == id)
}

/// What one decision preserves and guarantees: identity, position and
/// configuration are untouched; the energy stays above the pending floor;
/// only a doomed creature proposes a removal, and every proposal is a
/// well-formed update.
pub proof fn lemma_decide_frame(c: Creature)
    requires
        c.wf(),
        c.coord.in_bounds(c.config.size),
    ensures
        decide_c(c).id == c.id,
        decide_c(c).coord == c.coord,
        decide_c(c).config == c.config,
        PENDING_ENERGY_FLOOR <= decide_c(c).code.energy_spec(),
        decide_c(c).code.energy_spec() < ENERGY_FLOOR ==> decide_u(c) == Some(
            Update::RemoveCreature(c.id, c.coord),
        ),
        is_doomed(c) <==> decide_u(c) == Some(Update::RemoveCreature(c.id, c.coord)),
        decide_u(c) matches Some(u) ==> update_wf(c.config, u),
        decide_u(c) matches Some(Update::RemoveCreature(rid, _)) ==> rid == c.id,
{
    reveal(crate::creature::decide_full);
    let e1 = c.code.energy_spec() - c.config.creature_idle_energy;
    if e1 > 0 && e1 >= c.config.creature_reproduction_energy {
        assert(0 <= e1 / 2 <= e1);
    }
}

/// Every update the decision phase queues is well-formed, and the first `n`
/// creatures queue at most `n` updates.
pub proof fn lemma_decided_updates_wf(s: Seq<Creature>, n: int, config: Settings)
    requires
        0 <= n <= s.len(),
        forall|j: int|
            0 <= j < s.len() ==> (#[trigger] s[j]).wf() && s[j].coord.in_bounds(config.size)
                && s[j].config == config,
    ensures
        decided_updates(s, n).len() <= n,
        forall|k: int|
            0 <= k < decided_updates(s, n).len() ==> update_wf(
                config,
                #[trigger] decided_updates(s, n)[k],
            ),
    decreases n,
{
    if n > 0 {
        lemma_decided_updates_wf(s, n - 1, config);
        lemma_decide_frame(s[n - 1]);
    }
}

/// A proposal of one of the first `n` creatures stands somewhere in the
/// queue the decision phase built.
pub proof fn lemma_decided_updates_contains(s: Seq<Creature>, n: int, j: int)
    requires
        0 <= j < n <= s.len(),
        decide_u(s[j]) is Some,
    ensures
        exists|k: int|
            0 <= k < decided_updates(s, n).len() && #[trigger] decided_updates(s, n)[k]
                == decide_u(s[j])->Some_0,
    decreases n,
{
    if j == n - 1 {
        let prefix = decided_updates(s, n - 1);
        assert(decided_updates(s, n)[prefix.len() as int] == decide_u(s[j])->Some_0);
    } else {
        lemma_decided_updates_contains(s, n - 1, j);
        let k = choose|k: int|
            0 <= k < decided_updates(s, n - 1).len() && #[trigger] decided_updates(s, n - 1)[k]
                == decide_u(s[j])->Some_0;
        assert(decided_updates(s, n)[k] == decide_u(s[j])->Some_0);
    }
}

/// The worlds grass seeding steps through: each step draws a coordinate in
/// `[0, size - 1)` for each axis and sows grass there if the cell is free.
pub open spec fn seed_grass_step(w: WorldView) -> WorldView {
    let bound = (w.config.size - 1) as u64;
    let gx = rand_value(w.rng, bound);
    let r1 = rand_next(w.rng, bound);
    let gy = rand_value(r1, bound);
    let r2 = rand_next(r1, bound);
    WorldView {
        grid: add_grass_spec(w.grid, Coord { x: gx as i32, y: gy as i32 }),
        rng: r2,
        ..w
    }
}

/// The world after `n` grass seeding steps.
pub open spec fn seed_grass(w: WorldView, n: int) -> WorldView
    decreases n,
{
    if n <= 0 {
        w
    } else {
        seed_grass_step(seed_grass(w, n - 1))
    }
}

/// One creature seeding step: draw a coordinate in `[0, size)` for each
/// axis and a seed for the newcomer's private stream, then insert it
/// directly (the id is assigned immediately; a taken cell drops the
/// newcomer).
pub open spec fn seed_creature_step(w: WorldView, genotype: Processor) -> WorldView {
    let bound = w.config.size as u64;
    let cx = rand_value(w.rng, bound);
    let r1 = rand_next(w.rng, bound);
    let cy = rand_value(r1, bound);
    let r2 = rand_next(r1, bound);
    let seed = rand_value(r2, SEED_DRAW_BOUND);
    let r3 = rand_next(r2, SEED_DRAW_BOUND);
    let c = Creature::new_spec(Coord { x: cx as i32, y: cy as i32 }, w.config, seed, genotype);
    apply1(WorldView { rng: r3, ..w }, Update::AddCreature(c))
}

/// The world after `n` creature seeding steps.
pub open spec fn seed_creatures(w: WorldView, genotype: Processor, n: int) -> WorldView
    decreases n,
{
    if n <= 0 {
        w
    } else {
        seed_creature_step(seed_creatures(w, genotype, n - 1), genotype)
    }
}

/// What populating a world does: seed the configured number of grass blocks,
/// then the configured number of creatures, all placements drawn from the
/// world's own stream.
pub open spec fn populate_spec(w: WorldView, genotype: Processor) -> WorldView {
    seed_creatures(seed_grass(w, w.config.grass_count as int), genotype, w.config.creature_count as int)
}

impl World {
    /// Sow one grass block at `c` if that cell is free.
    fn sow_grass(&mut self, c: Coord)
        requires
            old(self)@.mid_wf(),
            c.in_bounds(old(self)@.config.size),
            old(self)@.grid.next_grass_id < u64::MAX,
        ensures
            final(self)@ == (WorldView { grid: add_grass_spec(old(self)@.grid, c), ..old(self)@ }),
            final(self)@.mid_wf(),
    {
        let ghost w = self@;
        self.grid.add_grass(c);
        proof {
            assert(self@ == (WorldView { grid: add_grass_spec(w.grid, c), ..w }));
            if w.grid.cell_at(c) is Empty {
                let tag = Cell::Grass(w.grid.next_grass_id);
                assert(self@.grid.cells == w.grid.with_cell(c, tag).cells);
                lemma_with_cell_frame(w.grid, c, tag, c);
                assert forall|i: int| 0 <= i < self@.creatures.len() implies self@.grid.cell_at(
                    (#[trigger] self@.creatures[i]).coord,
                ) == Cell::Creature(self@.creatures[i].id) by {
                    assert(w.grid.cell_at(w.creatures[i].coord) == Cell::Creature(
                        w.creatures[i].id,
                    ));
                    lemma_with_cell_frame(w.grid, c, tag, w.creatures[i].coord);
                }
                assert forall|x: int, y: int|
                    0 <= x < self@.config.size && 0 <= y < self@.config.size implies (
                #[trigger] self@.grid.cells[y][x] matches Cell::Creature(id2) ==> exists|i: int|
                    0 <= i < self@.creatures.len() && (#[trigger] self@.creatures[i]).id == id2
                        && self@.creatures[i].coord == (Coord { x: x as i32, y: y as i32 })) by {
                    let b = Coord { x: x as i32, y: y as i32 };
                    lemma_with_cell_frame(w.grid, c, tag, b);
                    assert(self@.grid.cell_at(b) == self@.grid.cells[y][x]);
                    assert(w.grid.cell_at(b) == w.grid.cells[y][x]);
                    if b != c {
                        match self@.grid.cells[y][x] {
                            Cell::Creature(cid) => {
                                let i = choose|i: int|
                                    0 <= i < w.creatures.len() && (#[trigger] w.creatures[i]).id
                                        == cid && w.creatures[i].coord == b;
                                assert(self@.creatures[i].id == cid && self@.creatures[i].coord
                                    == b);
                            },
                            _ => {},
                        }
                    }
                }
            }
        }
    }

    /// Put a grass block on an empty cell, as seeding and consumption rules
    /// that act between ticks do; a taken cell is left alone.
    pub fn add_grass(&mut self, c: Coord)
        requires
            old(self)@.wf(),
            c.in_bounds(old(self)@.config.size),
            old(self)@.grid.next_grass_id < u64::MAX,
        ensures
            final(self)@ == (WorldView { grid: add_grass_spec(old(self)@.grid, c), ..old(self)@ }),
            final(self)@.wf(),
    {
        self.sow_grass(c);
    }

    /// Grass regrowth for one tick: with the configured chance, one
    /// uniformly random empty cell gains a grass block.
    fn regrow(&mut self)
        requires
            old(self)@.mid_wf(),
            old(self)@.grid.next_grass_id < u64::MAX,
        ensures
            final(self)@ == regrow_spec(old(self)@),
            final(self)@.mid_wf(),
            final(self)@.creatures == old(self)@.creatures,
            final(self)@.updates == old(self)@.updates,
            final(self)@.config == old(self)@.config,
            final(self)@.next_id == old(self)@.next_id,
    {
        let ghost w = self@;
        let roll = self.rng.below(1000);
        if roll < self.config.grass_rate as u64 {
            let empties = self.grid.empty_cells();
            if empties.len() > 0 {
                let pick = self.rng.below(empties.len() as u64);
                let c = empties[pick as usize];
                self.sow_grass(c);
            }
        }
        proof {
            assert(self@ == regrow_spec(w));
        }
    }

    /// One simulation step, in exactly two phases. Decision phase: every
    /// live creature, in ascending id order, decides and may queue one
    /// update; no shared state is written. Apply phase: the queue is drained
    /// in insertion order, restoring the occupancy invariant. Grass regrowth
    /// happens first, before any creature decides.
    #[verifier::rlimit(100)]
    pub fn tick(&mut self)
        requires
            old(self)@.wf(),
            old(self)@.next_id + old(self)@.creatures.len() < u64::MAX,
            old(self)@.grid.next_grass_id < u64::MAX,
        ensures
            final(self)@ == tick_spec(old(self)@),
            final(self)@.wf(),
            final(self)@.config == old(self)@.config,
            old(self)@.next_id <= final(self)@.next_id,
            // a creature that cannot survive the idle cost is gone afterwards
            forall|j: int|
                0 <= j < old(self)@.creatures.len() && is_doomed(#[trigger] old(self)@.creatures[j])
                    ==> !has_id(final(self)@.creatures, old(self)@.creatures[j].id),
    {
        let ghost w0 = self@;
        self.regrow();
        let ghost w1 = self@;
        proof {
            assert(w1.creatures == w0.creatures);
        }

        // decision phase
        let n = self.creatures.len();
        let mut i: usize = 0;
        while i < n
            invariant
                i <= n,
                n == self.creatures@.len(),
                n == w1.creatures.len(),
                self@.grid == w1.grid,
                self@.config == w1.config,
                self@.next_id == w1.next_id,
                self@.rng == w1.rng,
                forall|j: int| i <= j < n ==> self.creatures@[j] == w1.creatures[j],
                forall|j: int|
                    0 <= j < n ==> (#[trigger] w1.creatures[j]).wf() && w1.creatures[j].coord.in_bounds(
                        w1.config.size,
                    ) && w1.creatures[j].config == w1.config && ENERGY_FLOOR
                        <= w1.creatures[j].code.energy_spec(),
                forall|j: int| 0 <= j < i ==> self.creatures@[j] == decide_c(w1.creatures[j]),
                self@.updates == decided_updates(w1.creatures, i as int),
            decreases n - i,
        {
            let mut c = self.creatures[i];
            c.tick(&mut self.updates);
            self.creatures[i] = c;
            proof {
                assert(self@.updates =~= decided_updates(w1.creatures, i as int + 1));
            }
            i += 1;
        }

        let ghost w2 = self@;
        proof {
            assert(w2.creatures =~= decided_creatures(w1.creatures));
            assert(w1.updates + decided_updates(w1.creatures, n as int) =~= decided_updates(
                w1.creatures,
                n as int,
            ));
            assert(w2 == decision_spec(w1));
            lemma_decision_phase_wf(w1, w2);
        }

        // apply phase
        let ghost ups = w2.updates;
        let m = self.updates.len();
        let mut k: usize = 0;
        while k < m
            invariant
                k <= m,
                m == ups.len(),
                m <= n,
                n == w1.creatures.len(),
                self@.updates == ups,
                self@ == apply_upto(w2, ups, k as int),
                self@.mid_wf(),
                self@.config == w2.config,
                w2.next_id <= self@.next_id,
                self@.next_id as int <= w2.next_id + k,
                w2.next_id + m < u64::MAX,
                forall|k2: int| 0 <= k2 < m ==> update_wf(w2.config, #[trigger] ups[k2]),
                forall|i2: int|
                    0 <= i2 < self@.creatures.len() && (
                    #[trigger] self@.creatures[i2]).code.energy_spec() < ENERGY_FLOOR
                        ==> pending_remove(self@.creatures[i2].id, ups, k as int),
                forall|j: int|
                    0 <= j < n && is_doomed(#[trigger] w1.creatures[j]) ==> w1.creatures[j].id
                        < self@.next_id && (!has_id(self@.creatures, w1.creatures[j].id)
                        || pending_remove(w1.creatures[j].id, ups, k as int)),
            decreases m - k,
        {
            let u = self.updates[k];
            let ghost wp = self@;
            self.apply_update(u);
            proof {
                assert(self@ == apply_upto(w2, ups, k as int + 1));
                lemma_drain_step(w1, wp, self@, ups, k as int, n as int, u);
            }
            k += 1;
        }

        proof {
            assert forall|i2: int| 0 <= i2 < self@.creatures.len() implies ENERGY_FLOOR <= (
            #[trigger] self@.creatures[i2]).code.energy_spec() by {
                if self@.creatures[i2].code.energy_spec() < ENERGY_FLOOR {
                    assert(pending_remove(self@.creatures[i2].id, ups, m as int));
                }
            }
        }
        self.updates.clear();
        proof {
            assert(self@.updates =~= Seq::<Update>::empty());
            assert(self@ == tick_spec(w0));
        }
    }

    /// Seed the world: the configured number of grass blocks, then the
    /// configured number of creatures of the given genotype variant, all
    /// placements drawn from the world's own stream. A draw landing on a
    /// taken cell is dropped silently.
    pub fn populate(&mut self, genotype: Processor)
        requires
            old(self)@.wf(),
            old(self)@.next_id + old(self)@.config.creature_count < u64::MAX,
            old(self)@.grid.next_grass_id + old(self)@.config.grass_count < u64::MAX,
        ensures
            final(self)@ == populate_spec(old(self)@, genotype),
            final(self)@.wf(),
    {
        let ghost w0 = self@;
        let grass_count = self.config.grass_count;
        let mut i: u32 = 0;
        while i < grass_count
            invariant
                i <= grass_count,
                self@ == seed_grass(w0, i as int),
                self@.mid_wf(),
                self@.config == w0.config,
                self@.creatures == w0.creatures,
                self@.updates == w0.updates,
                self@.next_id == w0.next_id,
                w0.wf(),
                grass_count == w0.config.grass_count,
                self@.grid.next_grass_id as int <= w0.grid.next_grass_id + i,
                w0.grid.next_grass_id + grass_count < u64::MAX,
            decreases grass_count - i,
        {
            let bound = (self.config.size - 1) as u64;
            let gx = self.rng.below(bound);
            let gy = self.rng.below(bound);
            self.sow_grass(Coord { x: gx as i32, y: gy as i32 });
            proof {
                assert(self@ == seed_grass(w0, i as int + 1));
            }
            i += 1;
        }

        let ghost wg = self@;
        let creature_count = self.config.creature_count;
        let mut j: u32 = 0;
        while j < creature_count
            invariant
                j <= creature_count,
                self@ == seed_creatures(wg, genotype, j as int),
                self@.wf(),
                self@.config == wg.config,
                self@.config.wf(),
                creature_count == wg.config.creature_count,
                self@.next_id as int <= wg.next_id + j,
                wg.next_id + creature_count < u64::MAX,
            decreases creature_count - j,
        {
            let bound = self.config.size as u64;
            let cx = self.rng.below(bound);
            let cy = self.rng.below(bound);
            let seed = self.rng.below(SEED_DRAW_BOUND);
            let c = Creature::new(
                Coord { x: cx as i32, y: cy as i32 },
                self.config,
                seed,
                genotype,
            );
            self.spawn_creature(c);
            proof {
                assert(self@ == seed_creatures(wg, genotype, j as int + 1));
            }
            j += 1;
        }
    }
}

/// What the decision phase establishes for the apply phase: the apply-phase
/// invariants, a well-formed queue of at most one update per creature, and a
/// pending removal for every doomed creature and for every creature whose
/// energy fell below the resting floor.
proof fn lemma_decision_phase_wf(w1: WorldView, w2: WorldView)
    requires
        w1.mid_wf(),
        w1.updates.len() == 0,
        forall|j: int|
            0 <= j < w1.creatures.len() ==> ENERGY_FLOOR <= (
            #[trigger] w1.creatures[j]).code.energy_spec(),
        w2 == decision_spec(w1),
    ensures
        w2.mid_wf(),
        w2.updates.len() <= w1.creatures.len(),
        w2.next_id == w1.next_id,
        w2.config == w1.config,
        forall|k: int| 0 <= k < w2.updates.len() ==> update_wf(w2.config, #[trigger] w2.updates[k]),
        forall|i2: int|
            0 <= i2 < w2.creatures.len() && (#[trigger] w2.creatures[i2]).code.energy_spec()
                < ENERGY_FLOOR ==> pending_remove(w2.creatures[i2].id, w2.updates, 0),
        forall|j: int|
            0 <= j < w1.creatures.len() && is_doomed(#[trigger] w1.creatures[j])
                ==> pending_remove(w1.creatures[j].id, w2.updates, 0),
{
    let n = w1.creatures.len() as int;
    assert(w1.updates + decided_updates(w1.creatures, n) =~= decided_updates(w1.creatures, n));
    assert forall|j: int| 0 <= j < n implies {
        &&& (#[trigger] w2.creatures[j]).id == w1.creatures[j].id
        &&& w2.creatures[j].coord == w1.creatures[j].coord
        &&& w2.creatures[j].config == w1.config
        &&& PENDING_ENERGY_FLOOR <= w2.creatures[j].code.energy_spec()
    } by {
        lemma_decide_frame(w1.creatures[j]);
    }
    assert forall|i: int, j: int|
        0 <= i < j < w2.creatures.len() implies (#[trigger] w2.creatures[i]).id < (
    #[trigger] w2.creatures[j]).id by {
        assert(w1.creatures[i].id < w1.creatures[j].id);
    }
    assert forall|i: int| 0 <= i < w2.creatures.len() implies w2.grid.cell_at(
        (#[trigger] w2.creatures[i]).coord,
    ) == Cell::Creature(w2.creatures[i].id) by {
        assert(w1.grid.cell_at(w1.creatures[i].coord) == Cell::Creature(w1.creatures[i].id));
    }
    assert forall|x: int, y: int|
        0 <= x < w2.config.size && 0 <= y < w2.config.size implies (#[trigger] w2.grid.cells[y][x]
        matches Cell::Creature(id) ==> exists|i: int|
        0 <= i < w2.creatures.len() && (#[trigger] w2.creatures[i]).id == id
            && w2.creatures[i].coord == (Coord { x: x as i32, y: y as i32 })) by {
        let b = Coord { x: x as i32, y: y as i32 };
        match w2.grid.cells[y][x] {
            Cell::Creature(cid) => {
                let i = choose|i: int|
                    0 <= i < w1.creatures.len() && (#[trigger] w1.creatures[i]).id == cid
                        && w1.creatures[i].coord == b;
                assert(w2.creatures[i].id == cid && w2.creatures[i].coord == b);
            },
            _ => {},
        }
    }
    assert(w2.mid_wf());
    lemma_decided_updates_wf(w1.creatures, n, w1.config);
    assert forall|j: int|
        0 <= j < n && is_doomed(#[trigger] w1.creatures[j]) implies pending_remove(
        w1.creatures[j].id,
        w2.updates,
        0,
    ) by {
        lemma_decide_frame(w1.creatures[j]);
        lemma_decided_updates_contains(w1.creatures, n, j);
    }
    assert forall|i2: int|
        0 <= i2 < w2.creatures.len() && (#[trigger] w2.creatures[i2]).code.energy_spec()
            < ENERGY_FLOOR implies pending_remove(w2.creatures[i2].id, w2.updates, 0) by {
        lemma_decide_frame(w1.creatures[i2]);
    }
}

/// One apply step keeps the removal bookkeeping: a pending removal stays
/// pending (or its creature is gone), and newcomers enter above the floor.
proof fn lemma_drain_step(
    w1: WorldView,
    wp: WorldView,
    wq: WorldView,
    ups: Seq<Update>,
    k: int,
    n: int,
    u: Update,
)
    requires
        0 <= k < ups.len(),
        u == ups[k],
        n == w1.creatures.len(),
        wp.next_id <= wq.next_id,
        forall|i: int|
            0 <= i < wq.creatures.len() ==> {
                let c = #[trigger] wq.creatures[i];
                (exists|j: int|
                    0 <= j < wp.creatures.len() && (#[trigger] wp.creatures[j]).id == c.id
                        && wp.creatures[j].code == c.code) || (c.id == wp.next_id && 0
                    <= c.code.energy_spec())
            },
        forall|id: u64|
            has_id(wq.creatures, id) ==> has_id(wp.creatures, id) || id == wp.next_id,
        u matches Update::RemoveCreature(id, _) ==> !has_id(wq.creatures, id),
        forall|i2: int|
            0 <= i2 < wp.creatures.len() && (#[trigger] wp.creatures[i2]).code.energy_spec()
                < ENERGY_FLOOR ==> pending_remove(wp.creatures[i2].id, ups, k),
        forall|j: int|
            0 <= j < n && is_doomed(#[trigger] w1.creatures[j]) ==> w1.creatures[j].id
                < wp.next_id && (!has_id(wp.creatures, w1.creatures[j].id) || pending_remove(
                w1.creatures[j].id,
                ups,
                k,
            )),
    ensures
        forall|i2: int|
            0 <= i2 < wq.creatures.len() && (#[trigger] wq.creatures[i2]).code.energy_spec()
                < ENERGY_FLOOR ==> pending_remove(wq.creatures[i2].id, ups, k + 1),
        forall|j: int|
            0 <= j < n && is_doomed(#[trigger] w1.creatures[j]) ==> w1.creatures[j].id
                < wq.next_id && (!has_id(wq.creatures, w1.creatures[j].id) || pending_remove(
                w1.creatures[j].id,
                ups,
                k + 1,
            )),
{
    assert forall|i2: int|
        0 <= i2 < wq.creatures.len() && (#[trigger] wq.creatures[i2]).code.energy_spec()
            < ENERGY_FLOOR implies pending_remove(wq.creatures[i2].id, ups, k + 1) by {
        let c2 = wq.creatures[i2];
        if !(c2.id == wp.next_id && 0 <= c2.code.energy_spec()) {
            let j = choose|j: int|
                0 <= j < wp.creatures.len() && (#[trigger] wp.creatures[j]).id == c2.id
                    && wp.creatures[j].code == c2.code;
            assert(pending_remove(c2.id, ups, k));
            let k2 = choose|k2: int|
                k <= k2 < ups.len() && ((#[trigger] ups[k2]) matches Update::RemoveCreature(
                    rid,
                    _,
                ) && rid == c2.id);
            if k2 == k {
                assert(has_id(wq.creatures, c2.id));
                assert(false);
            }
        }
    }
    assert forall|j: int|
        0 <= j < n && is_doomed(#[trigger] w1.creatures[j]) implies w1.creatures[j].id
        < wq.next_id && (!has_id(wq.creatures, w1.creatures[j].id) || pending_remove(
        w1.creatures[j].id,
        ups,
        k + 1,
    )) by {
        let id = w1.creatures[j].id;
        assert(id < wp.next_id);
        if !has_id(wp.creatures, id) {
            assert(!has_id(wq.creatures, id));
        } else if pending_remove(id, ups, k) {
            let k2 = choose|k2: int|
                k <= k2 < ups.len() && ((#[trigger] ups[k2]) matches Update::RemoveCreature(
                    rid,
                    _,
                ) && rid == id);
            if k2 == k {
                assert(!has_id(wq.creatures, id));
            } else {
                assert(pending_remove(id, ups, k + 1));
            }
        }
    }
}

/// Law: occupancy consistency. In a well-formed world — as every tick's
/// apply phase leaves it — a cell is tagged with a creature id exactly when
/// the entity table holds a live creature with that id at that coordinate.
pub proof fn lemma_occupancy_consistency(w: WorldView, x: int, y: int, id: u64)
    requires
        w.wf(),
        0 <= x < w.config.size,
        0 <= y < w.config.size,
    ensures
        w.grid.cells[y][x] == Cell::Creature(id) <==> exists|i: int|
            0 <= i < w.creatures.len() && (#[trigger] w.creatures[i]).id == id
                && w.creatures[i].coord == (Coord { x: x as i32, y: y as i32 }),
{
    let b = Coord { x: x as i32, y: y as i32 };
    if exists|i: int|
        0 <= i < w.creatures.len() && (#[trigger] w.creatures[i]).id == id && w.creatures[i].coord
            == b {
        let i = choose|i: int|
            0 <= i < w.creatures.len() && (#[trigger] w.creatures[i]).id == id
                && w.creatures[i].coord == b;
        assert(w.grid.cell_at(b) == Cell::Creature(id));
        assert(w.grid.cells[y][x] == w.grid.cell_at(b));
    }
}

/// Law: id uniqueness. In a well-formed world no two live creatures share an
/// id, and every id is below the counter the next insertion will take, so an
/// id is never reused.
pub proof fn lemma_id_uniqueness(w: WorldView)
    requires
        w.wf(),
    ensures
        forall|i: int, j: int|
            0 <= i < w.creatures.len() && 0 <= j < w.creatures.len() && i != j ==> (
            #[trigger] w.creatures[i]).id != (#[trigger] w.creatures[j]).id,
        forall|i: int| 0 <= i < w.creatures.len() ==> (#[trigger] w.creatures[i]).id < w.next_id,
{
    assert forall|i: int, j: int|
        0 <= i < w.creatures.len() && 0 <= j < w.creatures.len() && i != j implies (
    #[trigger] w.creatures[i]).id != (#[trigger] w.creatures[j]).id by {
        if i < j {
            assert(w.creatures[i].id < w.creatures[j].id);
        } else {
            assert(w.creatures[j].id < w.creatures[i].id);
        }
    }
}

/// Law: determinism. A tick is a pure function of the world state — the
/// configuration and every random stream's state included — so two worlds
/// that agree tick to worlds that agree; by induction, two runs from equal
/// worlds produce equal queues and equal final states, tick for tick.
pub proof fn lemma_determinism(w1: WorldView, w2: WorldView)
    requires
        w1 == w2,
    ensures
        tick_spec(w1) == tick_spec(w2),
        decision_spec(w1) == decision_spec(w2),
{
}

} // verus!
