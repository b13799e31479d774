//! The obstacle system: per-frame leftward movement of every pipe, and the
//! wrap-around recycling that teleports a pipe one full ring period to the
//! right, with a fresh vertical jitter, once it leaves the window's left edge.

use vstd::prelude::*;

use crate::config::{
    centered_pipe_offset, obstacle_half_width, recycle_period, JITTER_AMPLITUDE, MAX_DELTA_MS,
    OBSTACLE_SPEED, POSITION_LIMIT,
};
use crate::entities::{obstacle_bounded, GameManager, ObstacleEntity};
use crate::random::generate_offset;

verus! {

/// Horizontal position after moving leftward for `dt` milliseconds.
pub open spec fn moved_x(x: int, dt: int) -> int {
    x - OBSTACLE_SPEED * dt
}

/// Whether a pipe at horizontal position `x` has left the window: its right
/// edge lies beyond the left edge of a window of the given width.
pub open spec fn past_left_edge(x: int, window_width: int) -> bool {
    x + obstacle_half_width() < -(window_width / 2)
}

/// Horizontal position at the end of one update step: the moved position,
/// plus one full ring period if the pipe is recycled this step.
pub open spec fn obstacle_next_x(x: int, dt: int, window_width: int) -> int {
    if past_left_edge(moved_x(x, dt), window_width) {
        moved_x(x, dt) + recycle_period()
    } else {
        moved_x(x, dt)
    }
}

/// Vertical position at the end of one update step: unchanged unless the
/// pipe is recycled this step, in which case it is re-centred around the gap
/// (mirrored by the pipe's direction sign) plus the step's shared jitter.
pub open spec fn obstacle_next_y(
    x: int,
    y: int,
    dir: int,
    dt: int,
    window_width: int,
    y_offset: int,
) -> int {
    if past_left_edge(moved_x(x, dt), window_width) {
        centered_pipe_offset() * dir + y_offset
    } else {
        y
    }
}

/// One update step over a whole obstacle sequence, with the shared jitter
/// `y_offset`: every pipe keeps its identity and rotation, moves left, and is
/// recycled exactly when it passes the window's left edge.
pub open spec fn obstacles_stepped(
    before: Seq<ObstacleEntity>,
    after: Seq<ObstacleEntity>,
    dt: int,
    window_width: int,
    y_offset: int,
) -> bool {
    &&& after.len() == before.len()
    &&& forall|i: int|
        0 <= i < before.len() ==> {
            &&& (#[trigger] after[i]).obstacle == before[i].obstacle
            &&& after[i].transform.rotation == before[i].transform.rotation
            &&& after[i].transform.x == obstacle_next_x(
                before[i].transform.x as int,
                dt,
                window_width,
            )
            &&& after[i].transform.y == obstacle_next_y(
                before[i].transform.x as int,
                before[i].transform.y as int,
                before[i].obstacle.pipe_direction as int,
                dt,
                window_width,
                y_offset,
            )
        }
}

/// Ghost mirror of one obstacle entity: its position, direction sign and
/// rotation.
pub ghost struct ObstacleModel {
    pub x: int,
    pub y: int,
    pub dir: int,
    pub rotation: int,
}

/// The model a concrete obstacle entity presents to the obstacle system.
pub open spec fn obstacle_model_of(o: ObstacleEntity) -> ObstacleModel {
    ObstacleModel {
        x: o.transform.x as int,
        y: o.transform.y as int,
        dir: o.obstacle.pipe_direction as int,
        rotation: o.transform.rotation as int,
    }
}

/// The models of a whole obstacle sequence.
pub open spec fn obstacle_models_of(os: Seq<ObstacleEntity>) -> Seq<ObstacleModel> {
    os.map_values(|o: ObstacleEntity| obstacle_model_of(o))
}

/// One tick of the obstacle system over a single obstacle model.
pub open spec fn obstacle_tick_model(o: ObstacleModel, dt: int, window_width: int, j: int) -> ObstacleModel {
    ObstacleModel {
        x: obstacle_next_x(o.x, dt, window_width),
        y: obstacle_next_y(o.x, o.y, o.dir, dt, window_width, j),
        dir: o.dir,
        rotation: o.rotation,
    }
}

/// One tick of the obstacle system over a whole model sequence, with the
/// tick's shared jitter `j`.
pub open spec fn obstacles_tick_model(
    os: Seq<ObstacleModel>,
    dt: int,
    window_width: int,
    j: int,
) -> Seq<ObstacleModel> {
    os.map_values(|o: ObstacleModel| obstacle_tick_model(o, dt, window_width, j))
}

/// One frame of the obstacle system with the step's shared vertical jitter
/// given explicitly. Every pipe moves left by speed times elapsed time, and a
/// pipe whose right edge has passed the window's left edge is teleported one
/// ring period to the right and re-centred vertically with the jitter.
pub fn update_obstacles_with_offset(
    obstacles: &mut Vec<ObstacleEntity>,
    game_manager: &GameManager,
    delta_ms: u32,
    y_offset: i64,
)
    requires
        delta_ms <= MAX_DELTA_MS,
        0 <= game_manager.window_width <= POSITION_LIMIT,
        -POSITION_LIMIT <= y_offset <= POSITION_LIMIT,
        forall|i: int|
            0 <= i < old(obstacles).len() ==> obstacle_bounded(#[trigger] old(obstacles)[i]),
    ensures
        obstacles_stepped(
            old(obstacles)@,
            final(obstacles)@,
            delta_ms as int,
            game_manager.window_width as int,
            y_offset as int,
        ),
{
    let dt: i64 = delta_ms as i64;
    let step: i64 = OBSTACLE_SPEED * dt;
    let threshold: i64 = -(game_manager.window_width / 2);
    let half_width: i64 = 64_000_000;
    assert(half_width == obstacle_half_width());
    let period: i64 = 1_200_000_000;
    assert(period == recycle_period());
    let centered: i64 = 348_000_000;
    assert(centered == centered_pipe_offset());
    let n = obstacles.len();
    let mut i: usize = 0;
    while i < n
        invariant
            0 <= i <= n,
            n == obstacles.len() == old(obstacles).len(),
            dt == delta_ms as int,
            delta_ms <= MAX_DELTA_MS,
            step == OBSTACLE_SPEED * dt,
            threshold == -(game_manager.window_width as int / 2),
            half_width == obstacle_half_width(),
            period == recycle_period(),
            centered == centered_pipe_offset(),
            0 <= game_manager.window_width <= POSITION_LIMIT,
            -POSITION_LIMIT <= y_offset <= POSITION_LIMIT,
            forall|k: int| 0 <= k < n ==> obstacle_bounded(#[trigger] old(obstacles)[k]),
            forall|k: int| i <= k < n ==> obstacles[k] == #[trigger] old(obstacles)[k],
            forall|k: int|
                0 <= k < i ==> {
                    &&& (#[trigger] obstacles[k]).obstacle == old(obstacles)[k].obstacle
                    &&& obstacles[k].transform.rotation == old(
                        obstacles,
                    )[k].transform.rotation
                    &&& obstacles[k].transform.x == obstacle_next_x(
                        old(obstacles)[k].transform.x as int,
                        dt as int,
                        game_manager.window_width as int,
                    )
                    &&& obstacles[k].transform.y == obstacle_next_y(
                        old(obstacles)[k].transform.x as int,
                        old(obstacles)[k].transform.y as int,
                        old(obstacles)[k].obstacle.pipe_direction as int,
                        dt as int,
                        game_manager.window_width as int,
                        y_offset as int,
                    )
                },
        decreases n - i,
    {
        proof {
            assert(obstacles[i as int] == old(obstacles)[i as int]);
            assert(obstacle_bounded(old(obstacles)[i as int]));
        }
        let x_moved: i64 = obstacles[i].transform.x - step;
        obstacles[i].transform.x = x_moved;
        if x_moved + half_width < threshold {
            obstacles[i].transform.x = x_moved + period;
            obstacles[i].transform.y = centered * obstacles[i].obstacle.pipe_direction
                + y_offset;
        }
        i = i + 1;
    }
}

/// One update step over a whole obstacle sequence whose shared jitter was
/// drawn at random: the step holds for some jitter within the amplitude,
/// and everything the jitter cannot touch is said directly — every pipe
/// keeps its identity and rotation, its horizontal position moves exactly,
/// a pipe not recycled keeps its vertical position, and a recycled one is
/// re-centred to within the jitter amplitude of its gap position.
pub open spec fn obstacles_stepped_randomly(
    before: Seq<ObstacleEntity>,
    after: Seq<ObstacleEntity>,
    dt: int,
    window_width: int,
) -> bool {
    &&& exists|j: int|
        -JITTER_AMPLITUDE <= j < JITTER_AMPLITUDE && #[trigger] obstacles_stepped(
            before,
            after,
            dt,
            window_width,
            j,
        )
    &&& after.len() == before.len()
    &&& forall|i: int|
        0 <= i < before.len() ==> {
            &&& (#[trigger] after[i]).obstacle == before[i].obstacle
            &&& after[i].transform.rotation == before[i].transform.rotation
            &&& after[i].transform.x == obstacle_next_x(
                before[i].transform.x as int,
                dt,
                window_width,
            )
            &&& !past_left_edge(moved_x(before[i].transform.x as int, dt), window_width)
                ==> after[i].transform.y == before[i].transform.y
            &&& past_left_edge(moved_x(before[i].transform.x as int, dt), window_width) ==> {
                &&& centered_pipe_offset() * (before[i].obstacle.pipe_direction as int)
                    - JITTER_AMPLITUDE <= after[i].transform.y
                &&& after[i].transform.y < centered_pipe_offset() * (
                before[i].obstacle.pipe_direction as int) + JITTER_AMPLITUDE
            }
        }
}

/// One frame of the obstacle system, drawing the step's shared vertical
/// jitter itself. The jitter is drawn once per call and applied to every
/// pipe recycled in this step, exactly as the step with an explicit offset
/// describes; only the jitter's range is known of it.
pub fn update_obstacles(
    obstacles: &mut Vec<ObstacleEntity>,
    game_manager: &GameManager,
    delta_ms: u32,
)
    requires
        delta_ms <= MAX_DELTA_MS,
        0 <= game_manager.window_width <= POSITION_LIMIT,
        forall|i: int|
            0 <= i < old(obstacles).len() ==> obstacle_bounded(#[trigger] old(obstacles)[i]),
    ensures
        obstacles_stepped_randomly(
            old(obstacles)@,
            final(obstacles)@,
            delta_ms as int,
            game_manager.window_width as int,
        ),
{
    let y_offset = generate_offset();
    update_obstacles_with_offset(obstacles, game_manager, delta_ms, y_offset);
}

} // verus!
