//! Gameplay tuning constants.
//!
//! All game quantities are fixed-point integers:
//! - positions are measured in micro-units (1 world unit = 1_000_000 micro-units),
//! - velocities in milli-units per second (1 unit/s = 1_000 milli-units/s),
//! - time in whole milliseconds.
//!
//! With these scales one integration step is exact integer arithmetic:
//! a velocity in milli-units/s times a duration in ms is a displacement in
//! micro-units, and a gravity of G units/s^2 times a duration in ms is a
//! velocity change of G * ms milli-units/s.

use vstd::prelude::*;

verus! {

/// Micro-units per world unit (the position scale).
pub const MICROS_PER_UNIT: i64 = 1_000_000;

/// Milli-units per world unit (the velocity scale, per second).
pub const MILLIS_PER_UNIT: i64 = 1_000;

/// Scale factor from source sprite pixels to world units.
pub const PIXEL_RATIO: i64 = 4;

/// Upward velocity a flap sets, in milli-units per second (500 units/s).
pub const FLAP_FORCE: i64 = 500_000;

/// Gravity, in units per second squared (2000 units/s^2). Numerically this is
/// also the velocity lost per millisecond, in milli-units per second.
pub const GRAVITY: i64 = 2_000;

/// Velocity (milli-units/s) per degree of visual rotation (7.5 units/s per degree).
pub const VELOCITY_TO_ROTATION_RATIO: i64 = 7_500;

/// Velocity magnitude that maps to the 90-degree rotation limit:
/// 90 degrees * VELOCITY_TO_ROTATION_RATIO.
pub const ROTATION_CLAMP: i64 = 675_000;

/// Number of obstacle pairs in the ring.
pub const OBSTACLE_AMOUNT: i64 = 5;

/// Obstacle sprite width in source pixels (world units before scaling).
pub const OBSTACLE_WIDTH: i64 = 32;

/// Obstacle sprite height in source pixels.
pub const OBSTACLE_HEIGHT: i64 = 144;

/// Maximum magnitude of the random per-pair vertical jitter, in source pixels.
pub const OBSTACLE_VERTICAL_OFFSET: i64 = 30;

/// Half of the vertical gap between the pipes of a pair, in source pixels.
pub const OBSTACLE_GAP_SIZE: i64 = 15;

/// Horizontal distance between consecutive obstacle slots, in source pixels.
pub const OBSTACLE_SPACING: i64 = 60;

/// Leftward obstacle speed, in milli-units per second (150 units/s).
pub const OBSTACLE_SPEED: i64 = 150_000;

/// Spacing between grid ticks of the debug coordinate overlay, in world units.
pub const GRID_STEP: i64 = 50;

/// Largest frame duration an update step accepts, in milliseconds.
pub const MAX_DELTA_MS: u32 = 1_000_000;

/// Largest velocity magnitude an update step accepts (milli-units/s).
/// A machine limit: it keeps one integration step inside i64.
pub const VELOCITY_LIMIT: i64 = 1_000_000_000_000;

/// Largest position magnitude an update step accepts (micro-units).
/// A machine limit: it keeps one integration step inside i64.
pub const POSITION_LIMIT: i64 = 1_000_000_000_000_000;

/// Maximum magnitude of the vertical jitter in micro-units:
/// OBSTACLE_VERTICAL_OFFSET * PIXEL_RATIO, scaled to micro-units.
pub const JITTER_AMPLITUDE: i64 = 120_000_000;

/// Horizontal period of the obstacle ring in micro-units:
/// OBSTACLE_AMOUNT * OBSTACLE_SPACING * PIXEL_RATIO, scaled to micro-units.
pub open spec fn recycle_period() -> int {
    OBSTACLE_AMOUNT * OBSTACLE_SPACING * PIXEL_RATIO * MICROS_PER_UNIT
}

/// Half the scaled obstacle width in micro-units.
pub open spec fn obstacle_half_width() -> int {
    OBSTACLE_WIDTH * PIXEL_RATIO * MICROS_PER_UNIT / 2
}

/// Distance from the gap's centre line to a pipe's centre, in micro-units:
/// (OBSTACLE_HEIGHT / 2 + OBSTACLE_GAP_SIZE) * PIXEL_RATIO, scaled.
pub open spec fn centered_pipe_offset() -> int {
    (OBSTACLE_HEIGHT / 2 + OBSTACLE_GAP_SIZE) * PIXEL_RATIO * MICROS_PER_UNIT
}

/// Horizontal distance between consecutive obstacle slots, in micro-units.
pub open spec fn slot_spacing() -> int {
    OBSTACLE_SPACING * PIXEL_RATIO * MICROS_PER_UNIT
}

} // verus!
