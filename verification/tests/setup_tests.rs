use flappybird::setup::{get_centered_pipe_position, setup_level, spawn_obstacle, spawn_obstacles};

#[test]
fn centered_pipe_position_value() {
    // (144 / 2 + 15) * 4 world units, in micro-units.
    assert_eq!(get_centered_pipe_position(), 348_000_000);
}

#[test]
fn spawn_obstacle_builds_the_entity() {
    let o = spawn_obstacle(7, -9, -1);
    assert_eq!(o.transform.x, 7);
    assert_eq!(o.transform.y, -9);
    assert_eq!(o.transform.rotation, 0);
    assert_eq!(o.obstacle.pipe_direction, -1);
}

#[test]
fn spawn_obstacles_lays_out_the_ring() {
    let offsets = vec![0, 1_000_000, -2_000_000, 3_000_000, -4_000_000];
    let v = spawn_obstacles(512_000_000, &offsets);
    assert_eq!(v.len(), 10);
    for i in 0..5usize {
        let top = &v[2 * i];
        let bottom = &v[2 * i + 1];
        let x = 256_000_000 + (i as i64) * 240_000_000;
        assert_eq!(top.transform.x, x);
        assert_eq!(bottom.transform.x, x);
        assert_eq!(top.transform.y, 348_000_000 + offsets[i]);
        assert_eq!(bottom.transform.y, -348_000_000 + offsets[i]);
        assert_eq!(top.obstacle.pipe_direction, 1);
        assert_eq!(bottom.obstacle.pipe_direction, -1);
    }
}

#[test]
fn setup_level_builds_the_initial_state() {
    let s = setup_level(512_000_000, 512_000_000);
    assert_eq!(s.game_manager.window_width, 512_000_000);
    assert_eq!(s.game_manager.window_height, 512_000_000);
    assert!(!s.game_manager.game_over);
    assert_eq!(s.bird.velocity, 0);
    assert!(!s.bird.dead);
    assert_eq!(s.bird_transform.x, 0);
    assert_eq!(s.bird_transform.y, 0);
    assert_eq!(s.bird_transform.rotation, 0);
    assert_eq!(s.obstacles.len(), 10);
    for i in 0..5usize {
        let top = &s.obstacles[2 * i];
        let bottom = &s.obstacles[2 * i + 1];
        let x = 256_000_000 + (i as i64) * 240_000_000;
        assert_eq!(top.transform.x, x);
        assert_eq!(bottom.transform.x, x);
        assert_eq!(top.obstacle.pipe_direction, 1);
        assert_eq!(bottom.obstacle.pipe_direction, -1);
        // Top and bottom of a pair share the pair's random offset.
        assert_eq!(top.transform.y - 348_000_000, bottom.transform.y + 348_000_000);
        let offset = top.transform.y - 348_000_000;
        assert!(offset >= -120_000_000 && offset < 120_000_000);
    }
}

#[test]
fn setup_level_zero_window() {
    let s = setup_level(0, 0);
    assert_eq!(s.obstacles.len(), 10);
    assert_eq!(s.obstacles[0].transform.x, 0);
    assert_eq!(s.obstacles[8].transform.x, 4 * 240_000_000);
}
