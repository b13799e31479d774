//! The game's data records: the shared manager resource, the bird and
//! obstacle components, and the transform that carries an entity's pose.

use vstd::prelude::*;

use crate::config::POSITION_LIMIT;

verus! {

/// The singleton shared state: the window's logical size (micro-units) and
/// the terminal game-over flag. Created once at setup and never destroyed.
#[derive(Clone, Copy, PartialEq, Eq, Structural, Debug)]
pub struct GameManager {
    pub window_width: i64,
    pub window_height: i64,
    pub game_over: bool,
}

/// The bird component: vertical velocity in milli-units per second, and a
/// dead flag that is set once and never cleared.
#[derive(Clone, Copy, PartialEq, Eq, Structural, Debug)]
pub struct Bird {
    pub velocity: i64,
    pub dead: bool,
}

/// An obstacle component: the direction sign of the pipe, +1 for the top
/// pipe of a pair and -1 for the bottom one.
#[derive(Clone, Copy, PartialEq, Eq, Structural, Debug)]
pub struct Obstacle {
    pub pipe_direction: i64,
}

/// An entity's pose: position in micro-units, and the rotation in clamped
/// velocity units (see `rotation_of`).
#[derive(Clone, Copy, PartialEq, Eq, Structural, Debug)]
pub struct Transform {
    pub x: i64,
    pub y: i64,
    pub rotation: i64,
}

/// One obstacle entity: its pose together with its component.
#[derive(Clone, Copy, PartialEq, Eq, Structural, Debug)]
pub struct ObstacleEntity {
    pub transform: Transform,
    pub obstacle: Obstacle,
}

/// A well-formed obstacle component: its direction sign is +1 or -1.
pub open spec fn obstacle_wf(o: Obstacle) -> bool {
    o.pipe_direction == 1 || o.pipe_direction == -1
}

/// Machine bounds under which one obstacle update step stays inside i64.
pub open spec fn obstacle_bounded(o: ObstacleEntity) -> bool {
    &&& -POSITION_LIMIT <= o.transform.x <= POSITION_LIMIT
    &&& obstacle_wf(o.obstacle)
}

} // verus!
