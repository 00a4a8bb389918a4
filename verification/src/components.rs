//! Plain per-entity data that the passes read and write: positions, combat
//! statistics, and the monster capability flag.

use vstd::prelude::*;
use crate::geometry::Point;

verus! {

/// An entity's position on the grid.
#[derive(Clone, Copy, Debug, PartialEq, Eq, Structural)]
pub struct Position {
    pub point: Point,
}

/// An entity's combat numbers.
#[derive(Clone, Copy, Debug, PartialEq, Eq, Structural)]
pub struct CombatStats {
    pub max_hp: i32,
    pub hp: i32,
    pub defense: i32,
    pub power: i32,
}

/// The monster capability: whether the agent moves on its own turn.
#[derive(Clone, Copy, Debug, PartialEq, Eq, Structural)]
pub struct Monster {
    pub mobile: bool,
}

} // verus!
