//! The bird's per-frame update: flap impulse, gravity integration, rotation,
//! and ground-collision death detection.

use vstd::prelude::*;

use crate::config::{
    FLAP_FORCE, GRAVITY, MAX_DELTA_MS, POSITION_LIMIT, ROTATION_CLAMP, VELOCITY_LIMIT,
};
use crate::entities::{Bird, GameManager, Transform};

verus! {

/// Velocity right after the input phase: a flap overrides the current
/// velocity with the fixed impulse; otherwise the velocity is unchanged.
pub open spec fn flapped_velocity(v: int, flap: bool) -> int {
    if flap {
        FLAP_FORCE as int
    } else {
        v
    }
}

/// Velocity at the end of one update step of `dt` milliseconds.
pub open spec fn stepped_velocity(v: int, flap: bool, dt: int) -> int {
    flapped_velocity(v, flap) - GRAVITY * dt
}

/// Vertical position at the end of one update step: the new velocity,
/// integrated over the step.
pub open spec fn stepped_y(y: int, v: int, flap: bool, dt: int) -> int {
    y + stepped_velocity(v, flap, dt) * dt
}

/// Visual rotation for a velocity: the velocity clamped to the magnitude
/// that maps to 90 degrees. Dividing by VELOCITY_TO_ROTATION_RATIO yields
/// degrees; that final scaling is the renderer's business.
pub open spec fn rotation_of(v: int) -> int {
    if v < -ROTATION_CLAMP {
        -ROTATION_CLAMP as int
    } else if v > ROTATION_CLAMP {
        ROTATION_CLAMP as int
    } else {
        v
    }
}

/// Whether a vertical position lies below the ground line, the bottom edge
/// of a window of the given height.
pub open spec fn below_ground(y: int, window_height: int) -> bool {
    y < -(window_height / 2)
}

/// Ghost mirror of everything the bird system reads and writes in one tick:
/// the bird's velocity and vertical position, its dead flag, and the shared
/// game-over flag.
pub ghost struct BirdModel {
    pub velocity: int,
    pub y: int,
    pub dead: bool,
    pub game_over: bool,
}

/// The model a concrete bird, pose and manager present to the bird system.
pub open spec fn bird_model_of(b: Bird, t: Transform, gm: GameManager) -> BirdModel {
    BirdModel {
        velocity: b.velocity as int,
        y: t.y as int,
        dead: b.dead,
        game_over: gm.game_over,
    }
}

/// One tick of the bird system over the model: frozen once the game is
/// over; otherwise flap and gravity update the velocity, the new velocity
/// is integrated into the position, and the bird dies (which ends the game
/// on the same tick) as soon as the new position is below the ground.
pub open spec fn bird_tick_model(s: BirdModel, flap: bool, dt: int, window_height: int) -> BirdModel {
    if s.game_over {
        s
    } else {
        let v = stepped_velocity(s.velocity, flap, dt);
        let y = s.y + v * dt;
        let dead = s.dead || below_ground(y, window_height);
        BirdModel { velocity: v, y: y, dead: dead, game_over: dead }
    }
}

/// Clamps a velocity to the rotation limit.
pub fn clamp_rotation(v: i64) -> (r: i64)
    ensures
        r == rotation_of(v as int),
{
    if v < -ROTATION_CLAMP {
        -ROTATION_CLAMP
    } else if v > ROTATION_CLAMP {
        ROTATION_CLAMP
    } else {
        v
    }
}

/// One frame of the bird system. While the game is not over: an optional
/// flap overrides the velocity, gravity then lowers it, the new velocity is
/// integrated into the vertical position, the rotation is recomputed from
/// the new velocity, and the bird dies (setting `game_over`) as soon as its
/// position drops below the bottom edge of the window. Once the game is
/// over the step changes nothing.
pub fn update_bird(
    transform: &mut Transform,
    bird: &mut Bird,
    game_manager: &mut GameManager,
    flap: bool,
    delta_ms: u32,
)
    requires
        delta_ms <= MAX_DELTA_MS,
        -VELOCITY_LIMIT <= old(bird).velocity <= VELOCITY_LIMIT,
        -POSITION_LIMIT <= old(transform).y <= POSITION_LIMIT,
        0 <= old(game_manager).window_height <= POSITION_LIMIT,
    ensures
        old(game_manager).game_over ==> {
            &&& *final(transform) == *old(transform)
            &&& *final(bird) == *old(bird)
            &&& *final(game_manager) == *old(game_manager)
        },
        !old(game_manager).game_over ==> {
            &&& final(bird).velocity == stepped_velocity(
                old(bird).velocity as int,
                flap,
                delta_ms as int,
            )
            &&& final(transform).y == stepped_y(
                old(transform).y as int,
                old(bird).velocity as int,
                flap,
                delta_ms as int,
            )
            &&& final(transform).x == old(transform).x
            &&& final(transform).rotation == rotation_of(final(bird).velocity as int)
            &&& final(bird).dead == (old(bird).dead || below_ground(
                final(transform).y as int,
                old(game_manager).window_height as int,
            ))
            &&& final(game_manager).game_over == final(bird).dead
            &&& final(game_manager).window_width == old(game_manager).window_width
            &&& final(game_manager).window_height == old(game_manager).window_height
        },
        bird_model_of(*final(bird), *final(transform), *final(game_manager)) == bird_tick_model(
            bird_model_of(*old(bird), *old(transform), *old(game_manager)),
            flap,
            delta_ms as int,
            old(game_manager).window_height as int,
        ),
{
    if game_manager.game_over {
        return ;
    }
    if flap {
        bird.velocity = FLAP_FORCE;
    }
    let dt: i64 = delta_ms as i64;
    bird.velocity = bird.velocity - GRAVITY * dt;
    proof {
        assert(-VELOCITY_LIMIT - GRAVITY * MAX_DELTA_MS <= bird.velocity
            <= VELOCITY_LIMIT);
        assert(bird.velocity * dt <= (VELOCITY_LIMIT + GRAVITY * MAX_DELTA_MS) * (
        MAX_DELTA_MS as int) && -((VELOCITY_LIMIT + GRAVITY * MAX_DELTA_MS) * (
        MAX_DELTA_MS as int)) <= bird.velocity * dt) by (nonlinear_arith)
            requires
                -VELOCITY_LIMIT - GRAVITY * MAX_DELTA_MS <= bird.velocity <= VELOCITY_LIMIT,
                0 <= dt <= MAX_DELTA_MS,
        ;
    }
    transform.y = transform.y + bird.velocity * dt;
    transform.rotation = clamp_rotation(bird.velocity);
    if transform.y < -(game_manager.window_height / 2) {
        bird.dead = true;
    }
    if bird.dead {
        game_manager.game_over = true;
    }
}

} // verus!
