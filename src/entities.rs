use vstd::prelude::*;
use crate::config::DIRECTION_SCALE;

verus! {

/// A point of the window, in micro-pixels from its lower left corner.
#[derive(Clone, Copy, Debug, PartialEq, Eq)]
pub struct Position {
    pub x: i64,
    pub y: i64,
}

/// A heading, each component in thousandths of a unit.
#[derive(Clone, Copy, Debug, PartialEq, Eq)]
pub struct Direction {
    pub x: i64,
    pub y: i64,
}

impl Direction {
    /// Neither component is longer than a full unit.
    pub open spec fn wf(self) -> bool {
        -DIRECTION_SCALE <= self.x <= DIRECTION_SCALE && -DIRECTION_SCALE <= self.y
            <= DIRECTION_SCALE
    }
}

/// The sprite that the keyboard steers.
#[derive(Clone, Copy, Debug, PartialEq, Eq)]
pub struct Player {
    pub position: Position,
}

/// A sprite that travels along its heading and bounces off the window's edges.
#[derive(Clone, Copy, Debug, PartialEq, Eq)]
pub struct Enemy {
    pub position: Position,
    pub direction: Direction,
}

impl Enemy {
    pub open spec fn wf(self) -> bool {
        self.direction.wf()
    }
}

/// The arrow keys held down this frame.
#[derive(Clone, Copy, Debug, PartialEq, Eq)]
pub struct Keys {
    pub up: bool,
    pub down: bool,
    pub left: bool,
    pub right: bool,
}

/// Every entity of the game: at most one player and the enemies.
#[derive(Debug)]
pub struct World {
    pub player: Option<Player>,
    pub enemies: Vec<Enemy>,
}

impl World {
    /// Every enemy's heading is well formed.
    pub open spec fn wf(&self) -> bool {
        forall|i: int| 0 <= i < self.enemies@.len() ==> (#[trigger] self.enemies@[i]).wf()
    }
}

} // verus!
