//! Laws of the game's dynamics, stated over the ghost models of the bird
//! and obstacle systems and proved for every input.

use vstd::prelude::*;

use vstd::arithmetic::div_mod::lemma_mod_add_multiples_vanish;

use crate::bird::{bird_tick_model, flapped_velocity, BirdModel};
use crate::config::{recycle_period, FLAP_FORCE, GRAVITY};
use crate::entities::ObstacleEntity;
use crate::obstacle::{
    moved_x, obstacle_model_of, obstacle_models_of, obstacle_next_x, obstacle_tick_model,
    obstacles_stepped, obstacles_tick_model, past_left_edge, ObstacleModel,
};

verus! {

/// The bird states reached by running the bird system over a sequence of
/// ticks, each tick an input flag and an elapsed time in milliseconds.
pub open spec fn bird_run_model(
    s: BirdModel,
    events: Seq<(bool, int)>,
    window_height: int,
) -> BirdModel
    decreases events.len(),
{
    if events.len() == 0 {
        s
    } else {
        bird_run_model(
            bird_tick_model(s, events[0].0, events[0].1, window_height),
            events.drop_first(),
            window_height,
        )
    }
}

/// The sum of a sequence of elapsed times.
pub open spec fn total_time(dts: Seq<int>) -> int
    decreases dts.len(),
{
    if dts.len() == 0 {
        0
    } else {
        dts[0] + total_time(dts.drop_first())
    }
}

/// Without a flap, one tick of a live bird lowers the velocity by exactly
/// gravity times the elapsed time; strictly, whenever any time has passed.
pub proof fn lemma_velocity_decay_step(s: BirdModel, dt: int, window_height: int)
    requires
        !s.game_over,
        dt >= 0,
    ensures
        bird_tick_model(s, false, dt, window_height).velocity == s.velocity - GRAVITY * dt,
        dt > 0 ==> bird_tick_model(s, false, dt, window_height).velocity < s.velocity,
{
}

/// Whether every tick of a run begins with the game still on: the run never
/// passes through a game-over state before its last tick.
pub open spec fn run_stays_live(s: BirdModel, events: Seq<(bool, int)>, window_height: int) -> bool
    decreases events.len(),
{
    if events.len() == 0 {
        true
    } else {
        !s.game_over && run_stays_live(
            bird_tick_model(s, events[0].0, events[0].1, window_height),
            events.drop_first(),
            window_height,
        )
    }
}

/// The elapsed times of a sequence of ticks.
pub open spec fn elapsed_times(events: Seq<(bool, int)>) -> Seq<int> {
    events.map_values(|e: (bool, int)| e.1)
}

/// Whether no tick of a sequence carries a flap.
pub open spec fn no_flaps(events: Seq<(bool, int)>) -> bool {
    forall|i: int| 0 <= i < events.len() ==> !(#[trigger] events[i]).0
}

/// Running the bird system without input, while the bird stays live, lowers
/// the velocity by gravity times each tick's elapsed time: after any number
/// of ticks the velocity is the initial one minus gravity times the total
/// elapsed time.
pub proof fn lemma_velocity_decay_live_run(
    s: BirdModel,
    events: Seq<(bool, int)>,
    window_height: int,
)
    requires
        no_flaps(events),
        run_stays_live(s, events, window_height),
    ensures
        bird_run_model(s, events, window_height).velocity == s.velocity - GRAVITY * total_time(
            elapsed_times(events),
        ),
    decreases events.len(),
{
    if events.len() == 0 {
        assert(total_time(elapsed_times(events)) == 0);
    } else {
        let t = bird_tick_model(s, events[0].0, events[0].1, window_height);
        assert(!events[0].0);
        lemma_velocity_decay_live_run(t, events.drop_first(), window_height);
        assert(elapsed_times(events).drop_first() =~= elapsed_times(events.drop_first()));
    }
}

/// A flap overrides the velocity with the fixed impulse: right after the
/// input phase the velocity is exactly the impulse, and the velocity a
/// flapping tick ends with does not depend on the velocity it began with.
pub proof fn lemma_flap_overrides_velocity(s: BirdModel, dt: int, window_height: int)
    requires
        !s.game_over,
    ensures
        flapped_velocity(s.velocity, true) == FLAP_FORCE,
        bird_tick_model(s, true, dt, window_height).velocity == FLAP_FORCE - GRAVITY * dt,
{
}

/// Once the game is over, the bird system changes nothing, however many
/// ticks follow.
pub proof fn lemma_game_over_latches(s: BirdModel, events: Seq<(bool, int)>, window_height: int)
    requires
        s.game_over,
    ensures
        bird_run_model(s, events, window_height) == s,
    decreases events.len(),
{
    if events.len() == 0 {
    } else {
        lemma_game_over_latches(s, events.drop_first(), window_height);
    }
}

/// The tick on which the bird's position first drops below the bottom edge
/// of the window sets the game-over flag, and the flag (with the whole bird
/// state) then stays as it is for every later tick.
pub proof fn lemma_death_latches(
    s: BirdModel,
    flap: bool,
    dt: int,
    events: Seq<(bool, int)>,
    window_height: int,
)
    requires
        !s.game_over,
        bird_tick_model(s, flap, dt, window_height).y < -(window_height / 2),
    ensures
        bird_tick_model(s, flap, dt, window_height).game_over,
        bird_run_model(bird_tick_model(s, flap, dt, window_height), events, window_height)
            == bird_tick_model(s, flap, dt, window_height),
{
    lemma_game_over_latches(bird_tick_model(s, flap, dt, window_height), events, window_height);
}

/// The obstacle models reached by running the obstacle system over a
/// sequence of ticks, each tick an elapsed time and a jitter.
pub open spec fn obstacles_run_model(
    os: Seq<ObstacleModel>,
    ticks: Seq<(int, int)>,
    window_width: int,
) -> Seq<ObstacleModel>
    decreases ticks.len(),
{
    if ticks.len() == 0 {
        os
    } else {
        obstacles_run_model(
            obstacles_tick_model(os, ticks[0].0, window_width, ticks[0].1),
            ticks.drop_first(),
            window_width,
        )
    }
}

/// The obstacle count after any number of ticks equals the count at setup,
/// and every obstacle keeps its direction sign: recycling repositions, it
/// never creates or destroys.
pub proof fn lemma_obstacle_count_invariant(
    os: Seq<ObstacleModel>,
    ticks: Seq<(int, int)>,
    window_width: int,
)
    ensures
        obstacles_run_model(os, ticks, window_width).len() == os.len(),
        forall|i: int|
            0 <= i < os.len() ==> #[trigger] obstacles_run_model(os, ticks, window_width)[i].dir
                == os[i].dir,
    decreases ticks.len(),
{
    if ticks.len() == 0 {
    } else {
        lemma_obstacle_count_invariant(
            obstacles_tick_model(os, ticks[0].0, window_width, ticks[0].1),
            ticks.drop_first(),
            window_width,
        );
    }
}

/// What the executable obstacle step ensures is exactly one tick of the
/// model: the updated entities' models are the tick of the old entities'
/// models.
pub proof fn lemma_stepped_matches_model(
    before: Seq<ObstacleEntity>,
    after: Seq<ObstacleEntity>,
    dt: int,
    window_width: int,
    j: int,
)
    requires
        obstacles_stepped(before, after, dt, window_width, j),
    ensures
        obstacle_models_of(after) == obstacles_tick_model(
            obstacle_models_of(before),
            dt,
            window_width,
            j,
        ),
{
    assert forall|i: int| 0 <= i < after.len() implies #[trigger] obstacle_models_of(after)[i]
        == obstacles_tick_model(obstacle_models_of(before), dt, window_width, j)[i] by {
        assert(obstacle_models_of(after)[i] == obstacle_model_of(after[i]));
        assert(obstacles_tick_model(obstacle_models_of(before), dt, window_width, j)[i]
            == obstacle_tick_model(obstacle_model_of(before[i]), dt, window_width, j));
    }
    assert(obstacle_models_of(after) =~= obstacles_tick_model(
        obstacle_models_of(before),
        dt,
        window_width,
        j,
    ));
}

/// An obstacle's horizontal position, taken modulo the ring period, is
/// invariant under recycling: the teleport adds exactly one period, so the
/// recycled position and the un-recycled one share their phase.
pub proof fn lemma_recycle_preserves_phase(x: int, dt: int, window_width: int)
    requires
        past_left_edge(moved_x(x, dt), window_width),
    ensures
        obstacle_next_x(x, dt, window_width) % recycle_period() == moved_x(x, dt)
            % recycle_period(),
{
    lemma_mod_add_multiples_vanish(moved_x(x, dt), recycle_period());
}

} // verus!
