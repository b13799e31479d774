//! One-time level layout: the shared manager resource, the bird at the world
//! origin, and the initial ring of obstacle pairs extending rightward from
//! the window's right edge.

use vstd::prelude::*;

use crate::config::{
    centered_pipe_offset, slot_spacing, JITTER_AMPLITUDE, OBSTACLE_AMOUNT, OBSTACLE_GAP_SIZE,
    OBSTACLE_HEIGHT, PIXEL_RATIO, POSITION_LIMIT, MICROS_PER_UNIT,
};
use crate::entities::{obstacle_bounded, Bird, GameManager, Obstacle, ObstacleEntity, Transform};
use crate::random::generate_offset;

use vstd::arithmetic::div_mod::lemma_fundamental_div_mod;

verus! {

/// Horizontal position of obstacle slot `i`: the window's right edge plus
/// `i` slot spacings, in micro-units.
pub open spec fn slot_x(window_width: int, i: int) -> int {
    window_width / 2 + i * slot_spacing()
}

/// The initial obstacle ring for the given offsets: pair `i` stands at slot
/// `i`, its top pipe (direction +1) above the gap and its bottom pipe
/// (direction -1) below it, both shifted by the pair's vertical offset.
pub open spec fn obstacles_spawned(
    v: Seq<ObstacleEntity>,
    window_width: int,
    offsets: Seq<i64>,
) -> bool {
    &&& v.len() == 2 * OBSTACLE_AMOUNT
    &&& offsets.len() == OBSTACLE_AMOUNT
    &&& forall|i: int|
        0 <= i < OBSTACLE_AMOUNT ==> {
            &&& (#[trigger] v[2 * i]).transform.x == slot_x(window_width, i)
            &&& v[2 * i].transform.y == centered_pipe_offset() + offsets[i]
            &&& v[2 * i].transform.rotation == 0
            &&& v[2 * i].obstacle.pipe_direction == 1
            &&& v[2 * i + 1].transform.x == slot_x(window_width, i)
            &&& v[2 * i + 1].transform.y == -centered_pipe_offset() + offsets[i]
            &&& v[2 * i + 1].transform.rotation == 0
            &&& v[2 * i + 1].obstacle.pipe_direction == -1
        }
}

/// A freshly laid-out obstacle ring: pair `i` stands at slot `i` with its
/// top pipe above the gap and its bottom pipe below it, and the two pipes of
/// a pair share one vertical offset, somewhere within the jitter amplitude.
pub open spec fn ring_laid_out(v: Seq<ObstacleEntity>, window_width: int) -> bool {
    &&& v.len() == 2 * OBSTACLE_AMOUNT
    &&& forall|i: int|
        0 <= i < OBSTACLE_AMOUNT ==> {
            &&& (#[trigger] v[2 * i]).transform.x == slot_x(window_width, i)
            &&& v[2 * i + 1].transform.x == slot_x(window_width, i)
            &&& v[2 * i].transform.rotation == 0
            &&& v[2 * i + 1].transform.rotation == 0
            &&& v[2 * i].obstacle.pipe_direction == 1
            &&& v[2 * i + 1].obstacle.pipe_direction == -1
            &&& v[2 * i].transform.y - centered_pipe_offset() == v[2 * i + 1].transform.y
                + centered_pipe_offset()
            &&& -JITTER_AMPLITUDE <= v[2 * i].transform.y - centered_pipe_offset()
                < JITTER_AMPLITUDE
        }
}

/// Distance from the gap's centre line to a pipe's centre: half the pipe
/// height plus the gap half-size, scaled to micro-units.
pub fn get_centered_pipe_position() -> (r: i64)
    ensures
        r == centered_pipe_offset(),
{
    (OBSTACLE_HEIGHT / 2 + OBSTACLE_GAP_SIZE) * PIXEL_RATIO * MICROS_PER_UNIT
}

/// Builds one obstacle entity at the given position with the given
/// direction sign.
pub fn spawn_obstacle(x: i64, y: i64, pipe_direction: i64) -> (o: ObstacleEntity)
    ensures
        o.transform.x == x,
        o.transform.y == y,
        o.transform.rotation == 0,
        o.obstacle.pipe_direction == pipe_direction,
{
    ObstacleEntity {
        transform: Transform { x, y, rotation: 0 },
        obstacle: Obstacle { pipe_direction },
    }
}

/// Builds the initial obstacle ring for the given per-pair vertical offsets:
/// one top and one bottom pipe per slot, slots evenly spaced rightward from
/// the window's right edge.
pub fn spawn_obstacles(window_width: i64, offsets: &Vec<i64>) -> (v: Vec<ObstacleEntity>)
    requires
        offsets.len() == OBSTACLE_AMOUNT,
        0 <= window_width <= POSITION_LIMIT,
        forall|i: int|
            0 <= i < offsets.len() ==> -JITTER_AMPLITUDE <= #[trigger] offsets[i]
                <= JITTER_AMPLITUDE,
    ensures
        obstacles_spawned(v@, window_width as int, offsets@),
{
    let mut v: Vec<ObstacleEntity> = Vec::new();
    let centered = get_centered_pipe_position();
    assert(slot_spacing() == 240_000_000);
    let mut i: usize = 0;
    while i < 5
        invariant
            0 <= i <= 5,
            OBSTACLE_AMOUNT == 5,
            v.len() == 2 * i,
            offsets.len() == OBSTACLE_AMOUNT,
            0 <= window_width <= POSITION_LIMIT,
            centered == centered_pipe_offset(),
            slot_spacing() == 240_000_000,
            forall|k: int|
                0 <= k < offsets.len() ==> -JITTER_AMPLITUDE <= #[trigger] offsets[k]
                    <= JITTER_AMPLITUDE,
            forall|k: int|
                0 <= k < i ==> {
                    &&& (#[trigger] v@[2 * k]).transform.x == slot_x(window_width as int, k)
                    &&& v@[2 * k].transform.y == centered_pipe_offset() + offsets[k]
                    &&& v@[2 * k].transform.rotation == 0
                    &&& v@[2 * k].obstacle.pipe_direction == 1
                    &&& v@[2 * k + 1].transform.x == slot_x(window_width as int, k)
                    &&& v@[2 * k + 1].transform.y == -centered_pipe_offset() + offsets[k]
                    &&& v@[2 * k + 1].transform.rotation == 0
                    &&& v@[2 * k + 1].obstacle.pipe_direction == -1
                },
        decreases 5 - i,
    {
        let y_offset = offsets[i];
        let x_pos: i64 = window_width / 2 + (i as i64) * 240_000_000;
        proof {
            assert(x_pos == slot_x(window_width as int, i as int));
        }
        v.push(spawn_obstacle(x_pos, centered + y_offset, 1));
        v.push(spawn_obstacle(x_pos, -centered + y_offset, -1));
        proof {
            assert(v@[2 * (i as int)].transform.x == x_pos);
            assert(v@[2 * (i as int) + 1].transform.x == x_pos);
        }
        i = i + 1;
    }
    v
}

/// The whole game state: the shared manager, the bird with its pose, and
/// the obstacle ring.
pub struct GameState {
    pub game_manager: GameManager,
    pub bird: Bird,
    pub bird_transform: Transform,
    pub obstacles: Vec<ObstacleEntity>,
}

/// Builds the initial level for a window of the given logical size: the
/// manager with the game not over, the bird resting at the world origin
/// with zero velocity, and the obstacle ring with one fresh random vertical
/// offset per pair; only the offsets' range is known of them.
pub fn setup_level(window_width: i64, window_height: i64) -> (s: GameState)
    requires
        0 <= window_width <= POSITION_LIMIT,
        0 <= window_height <= POSITION_LIMIT,
    ensures
        s.game_manager == (GameManager { window_width, window_height, game_over: false }),
        s.bird == (Bird { velocity: 0, dead: false }),
        s.bird_transform == (Transform { x: 0, y: 0, rotation: 0 }),
        ring_laid_out(s.obstacles@, window_width as int),
        forall|k: int| 0 <= k < s.obstacles.len() ==> obstacle_bounded(#[trigger] s.obstacles[k]),
{
    let mut offsets: Vec<i64> = Vec::new();
    let mut i: usize = 0;
    while i < 5
        invariant
            offsets.len() == i,
            0 <= i <= 5,
            forall|k: int|
                0 <= k < i ==> -JITTER_AMPLITUDE <= #[trigger] offsets@[k] < JITTER_AMPLITUDE,
        decreases 5 - i,
    {
        offsets.push(generate_offset());
        i = i + 1;
    }
    assert(offsets.len() == OBSTACLE_AMOUNT);
    let obstacles = spawn_obstacles(window_width, &offsets);
    let s = GameState {
        game_manager: GameManager { window_width, window_height, game_over: false },
        bird: Bird { velocity: 0, dead: false },
        bird_transform: Transform { x: 0, y: 0, rotation: 0 },
        obstacles,
    };
    proof {
        assert(obstacles_spawned(s.obstacles@, window_width as int, offsets@));
        assert(ring_laid_out(s.obstacles@, window_width as int));
        assert forall|k: int| 0 <= k < s.obstacles.len() implies obstacle_bounded(
            #[trigger] s.obstacles[k],
        ) by {
            let i = k / 2;
            lemma_fundamental_div_mod(k, 2);
            assert(k == 2 * i || k == 2 * i + 1);
            assert(s.obstacles@[2 * i].transform.x == slot_x(window_width as int, i));
            assert(slot_spacing() == 240_000_000);
            assert(0 <= i * 240_000_000 <= 4 * 240_000_000);
        }
    }
    s
}

} // verus!
