//! The creature entity: identity, position, a genotype processor, a private
//! random stream, and the per-tick decision logic.

use vstd::prelude::*;

use crate::entity::{dir_of_index, move_pos, move_pos_spec, Cell, Coord, Direction, Entity};
use crate::genotype::Processor;
use crate::rng::{rand_next, rand_value, Rand};
use crate::settings::Settings;
use crate::update::{Update, UpdateQueue};

verus! {

/// No live creature's energy is ever below this floor: a creature pays at
/// most an idle cost and a move cost per tick, both bounded by the
/// configuration, and is removed on the tick its energy falls to zero.
pub const ENERGY_FLOOR: i64 = -0x7fff_ffff;

/// The bound a parent draws a child's seed below: the whole seed space.
pub const SEED_DRAW_BOUND: u64 = 0xffff_ffff_ffff_ffff;

/// An autonomous agent on the grid.
#[derive(Debug, Copy, Clone)]
pub struct Creature {
    /// Identity: 0 means "not yet assigned"; the world assigns it exactly
    /// once, at insertion into the entity table.
    pub id: u64,
    /// Where the creature stands.
    pub coord: Coord,
    /// The genotype processor, which owns the creature's energy counter.
    pub code: Processor,
    /// The shared configuration, never mutated by a creature.
    pub config: Settings,
    /// The creature's private random stream.
    pub rng: Rand,
}

impl Creature {
    /// A creature's own well-formedness: a valid configuration and an energy
    /// counter above the floor.
    pub open spec fn wf(self) -> bool {
        &&& self.config.wf()
        &&& ENERGY_FLOOR <= self.code.energy_spec()
    }

    /// The creature [`Creature::new`] returns: starting energy drawn from
    /// the configured range by the creature's own stream, id unassigned.
    pub open spec fn new_spec(coord: Coord, config: Settings, seed: u64, genotype: Processor) -> Creature {
        let span = (config.creature_initial_energy.1 - config.creature_initial_energy.0) as u64;
        Creature {
            id: 0,
            coord,
            code: genotype.with_energy_spec(
                (config.creature_initial_energy.0 + rand_value(seed, span)) as i64,
            ),
            config,
            rng: Rand { state: rand_next(seed, span) },
        }
    }

    /// A fresh creature at `coord`: a private stream seeded with `seed`, a
    /// processor of the given variant, and a starting energy drawn from the
    /// configured range.
    pub fn new(coord: Coord, config: Settings, seed: u64, genotype: Processor) -> (c: Creature)
        requires
            config.wf(),
        ensures
            c == Creature::new_spec(coord, config, seed, genotype),
            c.wf(),
            c.id == 0,
            c.coord == coord,
            c.config == config,
    {
        let mut rng = Rand::new(seed);
        let (lo, hi) = config.creature_initial_energy;
        let draw = rng.below((hi - lo) as u64);
        let energy = lo + draw as i64;
        Creature { id: 0, coord, code: genotype.fresh(energy), config, rng }
    }

    /// The creature's energy counter.
    pub fn energy(&self) -> (r: i64)
        ensures
            r == self.code.energy_spec(),
    {
        self.code.energy()
    }

    /// Record a new position (the world calls this when it applies a move).
    pub fn move_to(&mut self, pos: Coord)
        ensures
            *final(self) == (Creature { coord: pos, ..*old(self) }),
    {
        self.coord = pos;
    }

    /// Assign the identity; it is immutable once set, so later assignment
    /// attempts are no-ops.
    pub fn set_id(&mut self, id: u64)
        ensures
            *final(self) == if old(self).id == 0 {
                Creature { id, ..*old(self) }
            } else {
                *old(self)
            },
    {
        if self.id == 0 {
            self.id = id;
        }
    }

    /// Gain energy, e.g. from a grass block an external rule had the
    /// creature eat. This never enqueues an update.
    pub fn eat(&mut self, amount: i64)
        requires
            0 <= amount,
            old(self).code.energy_spec() + amount <= i64::MAX,
        ensures
            *final(self) == (Creature {
                code: old(self).code.with_energy_spec(
                    (old(self).code.energy_spec() + amount) as i64,
                ),
                ..*old(self)
            }),
    {
        let e = self.code.energy();
        self.code.set_energy(e + amount);
    }

    /// One decision step: charge the idle cost, run the genotype, then — in
    /// this priority — propose death, reproduction, or possibly a move.
    /// At most one update is appended, and only the creature's own private
    /// state changes.
    pub fn tick(&mut self, queue: &mut UpdateQueue)
        requires
            old(self).wf(),
            old(self).coord.in_bounds(old(self).config.size),
        ensures
            *final(self) == decide_c(*old(self)),
            final(queue)@ == match decide_u(*old(self)) {
                Some(u) => old(queue)@.push(u),
                None => old(queue)@,
            },
    {
        proof {
            reveal(decide_full);
        }
        let e0 = self.code.energy();
        self.code.set_energy(e0 - self.config.creature_idle_energy);
        self.code.tick();
        let e1 = self.code.energy();
        if e1 <= 0 {
            queue.push(Update::RemoveCreature(self.id, self.coord));
        } else if e1 >= self.config.creature_reproduction_energy {
            let seed = self.rng.below(SEED_DRAW_BOUND);
            let e2 = e1 / 2;
            self.code.set_energy(e2);
            // the child spawns to the west unless the parent is against the
            // west wall, in which case it spawns to the east
            let child_x = if self.coord.x == 0 {
                self.coord.x + 1
            } else {
                self.coord.x - 1
            };
            let child = Creature {
                id: 0,
                coord: Coord { x: child_x, y: self.coord.y },
                code: self.code.fresh(e2),
                config: self.config,
                rng: Rand::new(seed),
            };
            queue.push(Update::AddCreature(child));
        } else {
            let roll = self.rng.below(1000);
            if roll < self.config.creature_move_rate as u64 {
                let dir_idx = self.rng.below(8);
                let new_pos = move_pos(self.coord, direction_of(dir_idx), self.config.size);
                self.code.set_energy(e1 - self.config.creature_move_energy);
                queue.push(Update::MoveCreature(self.id, self.coord, new_pos));
            }
        }
    }
}

impl Entity for Creature {
    open spec fn id_spec(&self) -> u64 {
        self.id
    }

    open spec fn coord_spec(&self) -> Coord {
        self.coord
    }

    fn cell_type(id: u64) -> (r: Cell)
        ensures
            r == Cell::Creature(id),
    {
        Cell::Creature(id)
    }

    fn id(&self) -> (r: u64)
        ensures
            r == self.id_spec(),
    {
        self.id
    }

    fn coord(&self) -> (r: Coord)
        ensures
            r == self.coord_spec(),
    {
        self.coord
    }
}

/// The direction a draw below 8 picks.
fn direction_of(i: u64) -> (r: Direction)
    ensures
        r == dir_of_index(i),
{
    match i {
        0 => Direction::North,
        1 => Direction::NorthEast,
        2 => Direction::East,
        3 => Direction::SouthEast,
        4 => Direction::South,
        5 => Direction::SouthWest,
        6 => Direction::West,
        _ => Direction::NorthWest,
    }
}

/// The complete decision of one creature in one tick: the creature's own
/// state afterwards, and the update it proposes, if any. This is a pure
/// function of the creature (its random stream included), which is what
/// makes a tick's outcome reproducible.
#[verifier::opaque]
pub open spec fn decide_full(c: Creature) -> (Creature, Option<Update>) {
    let e1 = c.code.energy_spec() - c.config.creature_idle_energy;
    if e1 <= 0 {
        // death takes absolute priority
        (
            Creature { code: c.code.with_energy_spec(e1 as i64), ..c },
            Some(Update::RemoveCreature(c.id, c.coord)),
        )
    } else if e1 >= c.config.creature_reproduction_energy {
        // reproduce: halve the parent's energy, give the child the same
        let seed = rand_value(c.rng.state, SEED_DRAW_BOUND);
        let e2 = e1 / 2;
        let child_x = if c.coord.x == 0 {
            c.coord.x + 1
        } else {
            c.coord.x - 1
        };
        let child = Creature {
            id: 0,
            coord: Coord { x: child_x as i32, y: c.coord.y },
            code: c.code.with_energy_spec(e2 as i64),
            config: c.config,
            rng: Rand { state: seed },
        };
        (
            Creature {
                code: c.code.with_energy_spec(e2 as i64),
                rng: Rand { state: rand_next(c.rng.state, SEED_DRAW_BOUND) },
                ..c
            },
            Some(Update::AddCreature(child)),
        )
    } else {
        let roll = rand_value(c.rng.state, 1000);
        let r1 = rand_next(c.rng.state, 1000);
        if roll < c.config.creature_move_rate as u64 {
            // move one step in a uniformly random direction, clamped to the
            // grid; the energy cost is charged even if the move is later
            // dropped for an occupied destination
            let to = move_pos_spec(c.coord, dir_of_index(rand_value(r1, 8)), c.config.size);
            (
                Creature {
                    code: c.code.with_energy_spec((e1 - c.config.creature_move_energy) as i64),
                    rng: Rand { state: rand_next(r1, 8) },
                    ..c
                },
                Some(Update::MoveCreature(c.id, c.coord, to)),
            )
        } else {
            (Creature { code: c.code.with_energy_spec(e1 as i64), rng: Rand { state: r1 }, ..c }, None)
        }
    }
}

/// The creature's own state after its decision.
pub open spec fn decide_c(c: Creature) -> Creature {
    decide_full(c).0
}

/// The update the creature proposes, if any.
pub open spec fn decide_u(c: Creature) -> Option<Update> {
    decide_full(c).1
}

/// Law: reproduction arithmetic and edge placement. A creature that
/// reproduces with energy `E` at the reproduction step keeps `E / 2`
/// (integer division), and its child starts with exactly the parent's
/// post-halving energy, one cell to the west — or to the east when the
/// parent stands against the west wall.
pub proof fn lemma_reproduction(c: Creature)
    requires
        c.wf(),
        c.coord.in_bounds(c.config.size),
        c.code.energy_spec() - c.config.creature_idle_energy > 0,
        c.code.energy_spec() - c.config.creature_idle_energy
            >= c.config.creature_reproduction_energy,
    ensures
        decide_c(c).code.energy_spec() == (c.code.energy_spec()
            - c.config.creature_idle_energy) / 2,
        decide_u(c) matches Some(u) && u matches Update::AddCreature(child)
            && child.code.energy_spec() == decide_c(c).code.energy_spec()
            && child.coord.y == c.coord.y
            && child.coord.x == if c.coord.x == 0 { c.coord.x + 1 } else { c.coord.x - 1 },
{
    reveal(decide_full);
}

} // verus!
