use drone_fleet::coordinates::{Coordinates, UNITS_PER_DEGREE};
use drone_fleet::flight::{advance_axis, is_within_step, step_for, DRONE_SPEED};

#[test]
fn axis_moves_by_the_step_towards_the_target() {
    assert_eq!(advance_axis(0, 100, 30), 30);
    assert_eq!(advance_axis(100, 0, 30), 70);
    assert_eq!(advance_axis(-50, -10, 7), -43);
}

#[test]
fn axis_snaps_to_a_target_within_the_step() {
    assert_eq!(advance_axis(0, 30, 30), 30);
    assert_eq!(advance_axis(0, 29, 30), 29);
    assert_eq!(advance_axis(30, 0, 30), 0);
    assert_eq!(advance_axis(5, 5, 30), 5);
    assert_eq!(advance_axis(5, 5, 0), 5);
}

#[test]
fn axis_with_step_zero_stays() {
    assert_eq!(advance_axis(0, 10, 0), 0);
    assert_eq!(advance_axis(10, 0, 0), 10);
}

#[test]
fn axis_never_overshoots_at_the_ends_of_the_range() {
    assert_eq!(advance_axis(i64::MIN, i64::MAX, u64::MAX), i64::MAX);
    assert_eq!(advance_axis(i64::MAX, i64::MIN, u64::MAX), i64::MIN);
    assert_eq!(advance_axis(i64::MIN, i64::MAX, 1), i64::MIN + 1);
    assert_eq!(advance_axis(i64::MAX, i64::MIN, 1), i64::MAX - 1);
    assert_eq!(advance_axis(i64::MAX - 1, i64::MAX, 5), i64::MAX);
}

#[test]
fn axis_distance_shrinks_until_the_target_is_reached() {
    let target: i64 = 1_000;
    let step: u64 = 7;
    let mut current: i64 = -500;
    let mut moves = 0;
    while current != target {
        let next = advance_axis(current, target, step);
        assert!((target - next).abs() < (target - current).abs());
        current = next;
        moves += 1;
    }
    // 1500 units at 7 per move: 215 moves, the last one shorter.
    assert_eq!(moves, 215);
    assert_eq!(advance_axis(current, target, step), target);
}

#[test]
fn arrival_is_strictly_within_a_step_on_both_axes() {
    let target = Coordinates { latitude: 100, longitude: 200 };
    assert!(is_within_step(&Coordinates { latitude: 100, longitude: 200 }, &target, 1));
    assert!(is_within_step(&Coordinates { latitude: 91, longitude: 209 }, &target, 10));
    assert!(!is_within_step(&Coordinates { latitude: 90, longitude: 200 }, &target, 10));
    assert!(!is_within_step(&Coordinates { latitude: 100, longitude: 210 }, &target, 10));
    assert!(!is_within_step(&Coordinates { latitude: 100, longitude: 200 }, &target, 0));
    assert!(!is_within_step(
        &Coordinates { latitude: i64::MIN, longitude: 0 },
        &Coordinates { latitude: i64::MAX, longitude: 0 },
        u64::MAX
    ));
}

#[test]
fn step_is_speed_times_time() {
    assert_eq!(DRONE_SPEED, 1);
    assert_eq!(step_for(0), 0);
    assert_eq!(step_for(16_000), 16_000);
    // A thousandth of a degree per second.
    assert_eq!(step_for(1_000_000) as i64, UNITS_PER_DEGREE / 1_000);
    assert_eq!(step_for(u64::MAX), u64::MAX);
}

#[test]
fn default_coordinates_are_the_origin() {
    assert_eq!(Coordinates::default(), Coordinates { latitude: 0, longitude: 0 });
}
