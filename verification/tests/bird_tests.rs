use flappybird::bird::{clamp_rotation, update_bird};
use flappybird::entities::{Bird, GameManager, Transform};

fn world(game_over: bool) -> (Transform, Bird, GameManager) {
    (
        Transform { x: 0, y: 0, rotation: 0 },
        Bird { velocity: 0, dead: false },
        GameManager {
            window_width: 512_000_000,
            window_height: 512_000_000,
            game_over,
        },
    )
}

#[test]
fn gravity_decays_velocity_each_step() {
    let (mut t, mut b, mut gm) = world(false);
    update_bird(&mut t, &mut b, &mut gm, false, 16);
    assert_eq!(b.velocity, -32_000);
    update_bird(&mut t, &mut b, &mut gm, false, 16);
    assert_eq!(b.velocity, -64_000);
    update_bird(&mut t, &mut b, &mut gm, false, 10);
    assert_eq!(b.velocity, -84_000);
}

#[test]
fn position_integrates_new_velocity() {
    let (mut t, mut b, mut gm) = world(false);
    update_bird(&mut t, &mut b, &mut gm, false, 100);
    // velocity drops to -200 milli-units/ms * 100 ... = -200_000 milli-units/s,
    // integrated over 100 ms: -20_000_000 micro-units.
    assert_eq!(b.velocity, -200_000);
    assert_eq!(t.y, -20_000_000);
    assert_eq!(t.x, 0);
}

#[test]
fn flap_overrides_prior_velocity() {
    let (mut t, mut b, mut gm) = world(false);
    b.velocity = -900_000;
    update_bird(&mut t, &mut b, &mut gm, true, 0);
    assert_eq!(b.velocity, 500_000);

    b.velocity = 2_000_000;
    update_bird(&mut t, &mut b, &mut gm, true, 0);
    assert_eq!(b.velocity, 500_000);
}

#[test]
fn flap_then_gravity_within_one_step() {
    let (mut t, mut b, mut gm) = world(false);
    b.velocity = -750_000;
    update_bird(&mut t, &mut b, &mut gm, true, 16);
    assert_eq!(b.velocity, 500_000 - 32_000);
    assert_eq!(t.y, 468_000 * 16);
}

#[test]
fn rotation_clamps_at_limits() {
    assert_eq!(clamp_rotation(1_000_000), 675_000);
    assert_eq!(clamp_rotation(-1_000_000), -675_000);
    assert_eq!(clamp_rotation(675_001), 675_000);
    assert_eq!(clamp_rotation(-675_001), -675_000);
    assert_eq!(clamp_rotation(123), 123);
    assert_eq!(clamp_rotation(0), 0);
}

#[test]
fn rotation_recomputed_from_new_velocity() {
    let (mut t, mut b, mut gm) = world(false);
    update_bird(&mut t, &mut b, &mut gm, false, 16);
    assert_eq!(t.rotation, -32_000);
    update_bird(&mut t, &mut b, &mut gm, true, 0);
    assert_eq!(t.rotation, 500_000);
}

#[test]
fn bird_freezes_once_game_over() {
    let (mut t, mut b, mut gm) = world(true);
    b.velocity = -42;
    t.y = 1_000;
    update_bird(&mut t, &mut b, &mut gm, true, 16);
    assert_eq!(b.velocity, -42);
    assert_eq!(t.y, 1_000);
    assert_eq!(t.rotation, 0);
    assert!(gm.game_over);
}

#[test]
fn death_when_dropping_below_window_bottom() {
    let (mut t, mut b, mut gm) = world(false);
    // Just above the bottom edge (-256_000_000 micro-units): one step of
    // gravity pushes the bird below it.
    t.y = -255_900_000;
    update_bird(&mut t, &mut b, &mut gm, false, 16);
    assert_eq!(t.y, -255_900_000 - 512_000);
    assert!(b.dead);
    assert!(gm.game_over);

    // The state is frozen from this tick on.
    let frozen = (t.y, b.velocity, t.rotation);
    for _ in 0..10 {
        update_bird(&mut t, &mut b, &mut gm, true, 16);
    }
    assert_eq!((t.y, b.velocity, t.rotation), frozen);
    assert!(b.dead && gm.game_over);
}

#[test]
fn no_death_while_above_bottom() {
    let (mut t, mut b, mut gm) = world(false);
    update_bird(&mut t, &mut b, &mut gm, false, 16);
    assert!(!b.dead);
    assert!(!gm.game_over);
}
