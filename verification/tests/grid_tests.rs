use flappybird::grid::axis_ticks;

#[test]
fn ticks_for_half_extent_256() {
    let v = axis_ticks(256);
    let expected: Vec<i64> = vec![
        -256, -206, -156, -106, -56, -6, 44, 94, 144, 194, 244,
    ];
    assert_eq!(v, expected);
}

#[test]
fn ticks_for_half_extent_100() {
    let v = axis_ticks(100);
    assert_eq!(v, vec![-100, -50, 0, 50, 100]);
}

#[test]
fn ticks_for_zero_extent() {
    assert_eq!(axis_ticks(0), vec![0]);
}

#[test]
fn ticks_stop_before_the_edge() {
    assert_eq!(axis_ticks(49), vec![-49, 1]);
}
