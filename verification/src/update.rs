//! Pending mutations. During a tick's decision phase every creature may
//! append at most one update; the apply phase drains the queue in insertion
//! order, so replay of a fixed decision-phase output is deterministic.

use vstd::prelude::*;

use crate::creature::Creature;
use crate::entity::Coord;

verus! {

/// A mutation intent produced during the decision phase.
#[derive(Debug, Copy, Clone)]
pub enum Update {
    /// Insert this creature (its id still unassigned) at its coordinate.
    AddCreature(Creature),
    /// Erase the creature with this id; it sat at the given coordinate.
    RemoveCreature(u64, Coord),
    /// Move the creature with this id from the first coordinate to the
    /// second.
    MoveCreature(u64, Coord, Coord),
}

/// The ordered, transient list of pending mutations of one tick: empty when
/// a decision phase starts, fully drained when the apply phase ends.
pub type UpdateQueue = Vec<Update>;

} // verus!
