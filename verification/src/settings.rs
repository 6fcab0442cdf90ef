//! Simulation configuration: read-only after construction and shared by
//! value, so nothing ever synchronizes on it.

use vstd::prelude::*;

verus! {

/// All configuration the engine consumes. Rates are expressed in thousandths
/// (a rate of 1000 means the event happens every tick); energy values and
/// costs are plain integers.
#[derive(Debug, Copy, Clone)]
pub struct Settings {
    /// Side length of the square grid.
    pub size: u16,
    /// How many grass blocks to seed at startup.
    pub grass_count: u32,
    /// How many creatures to seed at startup.
    pub creature_count: u32,
    /// Chance, in thousandths per tick, that one grass block regrows.
    pub grass_rate: u32,
    /// Energy payload of a grass block, gained by the creature that eats it.
    pub grass_energy: i64,
    /// Half-open range `[lo, hi)` a seeded creature's starting energy is
    /// drawn from.
    pub creature_initial_energy: (i64, i64),
    /// Energy a creature loses every tick, whatever it does.
    pub creature_idle_energy: i64,
    /// Energy a creature pays for each movement attempt.
    pub creature_move_energy: i64,
    /// Chance, in thousandths per tick, that an idle creature tries to move.
    pub creature_move_rate: u32,
    /// Energy at which a creature splits into parent and child.
    pub creature_reproduction_energy: i64,
}

impl Settings {
    /// The configurations the simulation is defined for. The bounds on the
    /// energy values keep every energy computation inside `i64`.
    pub open spec fn wf(self) -> bool {
        &&& 2 <= self.size
        &&& self.grass_rate <= 1000
        &&& self.creature_move_rate <= 1000
        &&& 0 <= self.grass_energy <= 0x8000_0000
        &&& 1 <= self.creature_initial_energy.0
        &&& self.creature_initial_energy.0 < self.creature_initial_energy.1
        &&& self.creature_initial_energy.1 <= 0x8000_0000
        &&& 0 <= self.creature_idle_energy <= 0x8000_0000
        &&& 0 <= self.creature_move_energy <= 0x8000_0000
        &&& 0 <= self.creature_reproduction_energy <= 0x8000_0000
    }

    /// Whether this configuration is one the simulation is defined for.
    pub fn is_wf(&self) -> (r: bool)
        ensures
            r == self.wf(),
    {
        2 <= self.size && self.grass_rate <= 1000 && self.creature_move_rate <= 1000
            && 0 <= self.grass_energy && self.grass_energy <= 0x8000_0000
            && 1 <= self.creature_initial_energy.0
            && self.creature_initial_energy.0 < self.creature_initial_energy.1
            && self.creature_initial_energy.1 <= 0x8000_0000
            && 0 <= self.creature_idle_energy && self.creature_idle_energy <= 0x8000_0000
            && 0 <= self.creature_move_energy && self.creature_move_energy <= 0x8000_0000
            && 0 <= self.creature_reproduction_energy
            && self.creature_reproduction_energy <= 0x8000_0000
    }
}

} // verus!
