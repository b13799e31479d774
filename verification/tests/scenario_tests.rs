use flappybird::bird::update_bird;
use flappybird::entities::{Bird, GameManager, Transform};
use flappybird::game::tick;
use flappybird::setup::setup_level;

#[test]
fn one_second_free_fall_matches_analytic_integral() {
    // One real-time second in 1 ms steps, no input, the ground far away so
    // only the kinematics act. The discrete integral of a constant
    // 2000 units/s^2 deceleration from zero velocity is
    // -g * t * (t + dt) / 2 = -1001 units; the analytic integral is
    // -g * t^2 / 2 = -1000 units, so they agree to one unit, which is
    // within the integration scheme's tolerance of g * t * dt / 2.
    let mut t = Transform { x: 0, y: 0, rotation: 0 };
    let mut b = Bird { velocity: 0, dead: false };
    let mut gm = GameManager {
        window_width: 512_000_000,
        window_height: 1_000_000_000_000_000,
        game_over: false,
    };
    for _ in 0..1000 {
        update_bird(&mut t, &mut b, &mut gm, false, 1);
    }
    assert_eq!(b.velocity, -2_000_000); // -2000 units/s = -g * 1 s
    assert_eq!(t.y, -1_001_000_000);

    let simulated_units = t.y as f64 / 1_000_000.0;
    let analytic_units = -0.5 * 2000.0 * 1.0 * 1.0;
    let tolerance = 0.5 * 2000.0 * 1.0 * 0.001 + 1e-9;
    assert!((simulated_units - analytic_units).abs() <= tolerance);
}

#[test]
fn free_fall_in_the_real_window_ends_early() {
    // In the actual 512 x 512 window the bird reaches the bottom edge after
    // roughly half a second of free fall, dies there, and its state freezes
    // for the rest of the second.
    let mut t = Transform { x: 0, y: 0, rotation: 0 };
    let mut b = Bird { velocity: 0, dead: false };
    let mut gm = GameManager {
        window_width: 512_000_000,
        window_height: 512_000_000,
        game_over: false,
    };
    let mut death_step = None;
    for step in 0..1000 {
        update_bird(&mut t, &mut b, &mut gm, false, 1);
        if gm.game_over {
            death_step = Some(step);
            break;
        }
    }
    // y(t) = -1000 * t^2 units crosses -256 units near t = 0.506 s.
    let death_step = death_step.expect("the bird must die within one second");
    assert!((500..=512).contains(&death_step));
    assert!(t.y < -256_000_000);
    let frozen_y = t.y;
    for _ in 0..1000 {
        update_bird(&mut t, &mut b, &mut gm, false, 1);
    }
    assert_eq!(t.y, frozen_y);
    assert!(gm.game_over);
}

#[test]
fn single_flap_rotation_matches_clamp_formula() {
    // A flap at t = 0 and no further input: at t = 0+ the velocity is the
    // flap impulse and the stored rotation is that velocity clamped to the
    // 90-degree limit. Scaled to degrees and radians it equals
    // clamp(FLAP_FORCE / VELOCITY_TO_ROTATION_RATIO, -90, 90).to_radians().
    let mut t = Transform { x: 0, y: 0, rotation: 0 };
    let mut b = Bird { velocity: -875_000, dead: false };
    let mut gm = GameManager {
        window_width: 512_000_000,
        window_height: 512_000_000,
        game_over: false,
    };
    update_bird(&mut t, &mut b, &mut gm, true, 0);
    assert_eq!(b.velocity, 500_000);
    assert_eq!(t.rotation, 500_000);

    let degrees = t.rotation as f64 / 7_500.0;
    let expected_degrees = (500.0f64 / 7.5).clamp(-90.0, 90.0);
    assert!((degrees - expected_degrees).abs() < 1e-9);
    assert!((degrees.to_radians() - expected_degrees.to_radians()).abs() < 1e-12);
}

#[test]
fn full_game_runs_to_game_over_and_world_keeps_scrolling() {
    let mut s = setup_level(512_000_000, 512_000_000);
    for _ in 0..40 {
        tick(&mut s, false, 16);
    }
    // 640 ms of free fall: the bird is dead (it crosses the edge at ~506 ms).
    assert!(s.game_manager.game_over);
    assert!(s.bird.dead);
    let frozen_bird = (s.bird.velocity, s.bird_transform.y);
    let obstacle_x = s.obstacles[0].transform.x;
    tick(&mut s, true, 16);
    // The bird is frozen, the obstacles keep moving.
    assert_eq!((s.bird.velocity, s.bird_transform.y), frozen_bird);
    assert_eq!(s.obstacles[0].transform.x, obstacle_x - 150_000 * 16);
    assert_eq!(s.obstacles.len(), 10);
}
