//! The per-frame schedule: one game tick runs the bird system and then the
//! obstacle system, exactly as they are registered with the engine's loop.

use vstd::prelude::*;

use crate::bird::{below_ground, rotation_of, stepped_velocity, stepped_y, update_bird};
use crate::config::{JITTER_AMPLITUDE, MAX_DELTA_MS, POSITION_LIMIT, VELOCITY_LIMIT};
use crate::entities::obstacle_bounded;
use crate::obstacle::{obstacles_stepped, obstacles_stepped_randomly, update_obstacles};
use crate::setup::GameState;

verus! {

/// Machine bounds under which one tick of the whole state stays inside i64.
pub open spec fn state_bounded(s: GameState) -> bool {
    &&& -VELOCITY_LIMIT <= s.bird.velocity <= VELOCITY_LIMIT
    &&& -POSITION_LIMIT <= s.bird_transform.y <= POSITION_LIMIT
    &&& 0 <= s.game_manager.window_width <= POSITION_LIMIT
    &&& 0 <= s.game_manager.window_height <= POSITION_LIMIT
    &&& forall|i: int| 0 <= i < s.obstacles.len() ==> obstacle_bounded(#[trigger] s.obstacles[i])
}

/// One frame: the bird system, then the obstacle system. The bird freezes
/// once the game is over; the obstacles keep scrolling regardless.
pub fn tick(state: &mut GameState, flap: bool, delta_ms: u32)
    requires
        delta_ms <= MAX_DELTA_MS,
        state_bounded(*old(state)),
    ensures
        final(state).game_manager.window_width == old(state).game_manager.window_width,
        final(state).game_manager.window_height == old(state).game_manager.window_height,
        old(state).game_manager.game_over ==> {
            &&& final(state).bird == old(state).bird
            &&& final(state).bird_transform == old(state).bird_transform
            &&& final(state).game_manager == old(state).game_manager
        },
        !old(state).game_manager.game_over ==> {
            &&& final(state).bird.velocity == stepped_velocity(
                old(state).bird.velocity as int,
                flap,
                delta_ms as int,
            )
            &&& final(state).bird_transform.y == stepped_y(
                old(state).bird_transform.y as int,
                old(state).bird.velocity as int,
                flap,
                delta_ms as int,
            )
            &&& final(state).bird_transform.x == old(state).bird_transform.x
            &&& final(state).bird_transform.rotation == rotation_of(
                final(state).bird.velocity as int,
            )
            &&& final(state).bird.dead == (old(state).bird.dead || below_ground(
                final(state).bird_transform.y as int,
                old(state).game_manager.window_height as int,
            ))
            &&& final(state).game_manager.game_over == final(state).bird.dead
        },
        obstacles_stepped_randomly(
            old(state).obstacles@,
            final(state).obstacles@,
            delta_ms as int,
            old(state).game_manager.window_width as int,
        ),
{
    update_bird(
        &mut state.bird_transform,
        &mut state.bird,
        &mut state.game_manager,
        flap,
        delta_ms,
    );
    update_obstacles(&mut state.obstacles, &state.game_manager, delta_ms);
    proof {
        assert(state.game_manager.window_width == old(state).game_manager.window_width);
        let j = choose|j: int|
            -JITTER_AMPLITUDE <= j < JITTER_AMPLITUDE && #[trigger] obstacles_stepped(
                old(state).obstacles@,
                state.obstacles@,
                delta_ms as int,
                state.game_manager.window_width as int,
                j,
            );
        assert(-JITTER_AMPLITUDE <= j < JITTER_AMPLITUDE && obstacles_stepped(
            old(state).obstacles@,
            state.obstacles@,
            delta_ms as int,
            old(state).game_manager.window_width as int,
            j,
        ));
    }
}

} // verus!
