use chase_game::{
    offset_between, rotation_toward, steer, turn_toward, Enemy, Point, Pose, FORWARD_SCALE,
    FULL_TURN, HALF_TURN, UNIT,
};

/// A quarter turn per second, 100 world units per second.
const CHASER: Enemy = Enemy { rotation_speed: 90_000, movement_speed: 100 };
const QUARTER: u32 = FULL_TURN / 4;
const UP: Point = Point { x: 0, y: FORWARD_SCALE };

#[test]
fn offset_takes_the_short_way_round() {
    assert_eq!(offset_between(0, QUARTER), QUARTER as i64);
    assert_eq!(offset_between(0, 3 * QUARTER), -(QUARTER as i64));
    assert_eq!(offset_between(FULL_TURN - 10, 20), 30);
    assert_eq!(offset_between(20, FULL_TURN - 10), -30);
    assert_eq!(offset_between(0, HALF_TURN), -(HALF_TURN as i64));
    assert_eq!(offset_between(5, 5), 0);
}

#[test]
fn rotation_is_bounded_by_rate_and_remaining_angle() {
    assert_eq!(rotation_toward(0, QUARTER, 90_000), 90_000);
    assert_eq!(rotation_toward(0, 3 * QUARTER, 90_000), -90_000);
    assert_eq!(rotation_toward(0, 1_000, 90_000), 1_000);
    assert_eq!(rotation_toward(0, FULL_TURN - 700, 90_000), -700);
    assert_eq!(rotation_toward(0, HALF_TURN, 90_000), -90_000);
    assert_eq!(rotation_toward(42, 42, 90_000), 0);
    for bearing in [1u32, 999, QUARTER, HALF_TURN - 1, HALF_TURN, HALF_TURN + 1, FULL_TURN - 1] {
        for heading in [0u32, 1, QUARTER, FULL_TURN - 1] {
            let r = rotation_toward(heading, bearing, 90_000).unsigned_abs();
            let remaining = offset_between(heading, bearing).unsigned_abs();
            assert!(r <= 90_000 && r <= remaining);
            assert_eq!(r, remaining.min(90_000));
        }
    }
}

#[test]
fn turning_wraps_around_zero() {
    assert_eq!(turn_toward(500, FULL_TURN - 10_000, 1_500), FULL_TURN - 1_000);
    assert_eq!(turn_toward(FULL_TURN - 500, 1_000, 1_500), 1_000);
    assert_eq!(turn_toward(FULL_TURN - 500, 5_000, 1_500), 1_000);
}

#[test]
fn turning_faces_the_bearing_after_ceil_of_angle_over_step() {
    // A quarter turn per second turns a third of a turn in 80 ticks.
    let step: u32 = CHASER.rotation_speed;
    let bearing: u32 = FULL_TURN / 3;
    let ticks = (bearing + step - 1) / step;
    assert_eq!(ticks, 80);
    let mut heading: u32 = 0;
    for _ in 0..ticks - 1 {
        let next = turn_toward(heading, bearing, step);
        assert_eq!(next, heading + step);
        heading = next;
    }
    heading = turn_toward(heading, bearing, step);
    assert_eq!(heading, bearing);
    assert_eq!(turn_toward(heading, bearing, step), bearing);
}

#[test]
fn slow_turn_rates_still_turn() {
    let slow = Enemy { rotation_speed: 59, movement_speed: 0 };
    let mut pose = Pose { position: Point { x: 0, y: 0 }, heading: 0 };
    let bearing: u32 = 40;
    steer(&mut pose, &slow, Point { x: 0, y: 100 }, bearing, UP);
    assert_eq!(pose.heading, 40);
    let mut pose = Pose { position: Point { x: 0, y: 0 }, heading: 0 };
    for tick in 1..=3u32 {
        steer(&mut pose, &slow, Point { x: -100, y: 0 }, QUARTER, UP);
        assert_eq!(pose.heading, 59 * tick);
    }
}

#[test]
fn one_tick_moves_speed_times_tick() {
    // 100 world units per second for a sixtieth of a second: 100 / 60 world units.
    let mut pose = Pose { position: Point { x: 0, y: 0 }, heading: 0 };
    steer(&mut pose, &CHASER, Point { x: UNIT, y: 0 }, FULL_TURN - QUARTER, UP);
    assert_eq!(pose, Pose { position: Point { x: 0, y: 100 }, heading: FULL_TURN - 90_000 });
    assert_eq!(pose.position.y as f64 / UNIT as f64, 100.0 / 60.0);
}

#[test]
fn small_offset_is_closed_in_one_tick() {
    let mut pose = Pose { position: Point { x: 0, y: 0 }, heading: 0 };
    let bearing: u32 = FULL_TURN - 34_377;
    steer(&mut pose, &CHASER, Point { x: UNIT, y: 100 * UNIT }, bearing, UP);
    assert_eq!(pose, Pose { position: Point { x: 0, y: 100 }, heading: bearing });
}

#[test]
fn steer_moves_along_the_old_heading_rounding_toward_zero() {
    let mut pose = Pose { position: Point { x: 0, y: 0 }, heading: FULL_TURN / 8 };
    let forward = Point { x: -2_896, y: 2_896 };
    let fast = Enemy { rotation_speed: 90_000, movement_speed: 6_000 };
    steer(&mut pose, &fast, Point { x: 0, y: 100 }, 0, forward);
    assert_eq!(pose, Pose { position: Point { x: -4_242, y: 4_242 }, heading: FULL_TURN / 8 - 90_000 });
}

#[test]
fn steer_on_the_target_changes_nothing() {
    let start = Pose { position: Point { x: 3, y: 4 }, heading: 12_345 };
    let mut pose = start;
    steer(&mut pose, &CHASER, Point { x: 3, y: 4 }, HALF_TURN, UP);
    assert_eq!(pose, start);
}

#[test]
fn steer_when_facing_is_a_no_op() {
    let start = Pose { position: Point { x: 0, y: 0 }, heading: 0 };
    let mut pose = start;
    steer(&mut pose, &CHASER, Point { x: 0, y: 50 }, 0, UP);
    assert_eq!(pose, start);
}

#[test]
fn target_straight_behind_turns_clockwise() {
    let mut pose = Pose { position: Point { x: 0, y: 0 }, heading: 0 };
    steer(&mut pose, &CHASER, Point { x: 0, y: -50 }, HALF_TURN, UP);
    assert_eq!(pose.heading, FULL_TURN - 90_000);
}

#[test]
fn moves_stop_at_the_edge_of_the_integer_plane() {
    let mut pose = Pose { position: Point { x: 0, y: i32::MAX - 10 }, heading: 0 };
    steer(&mut pose, &CHASER, Point { x: -100, y: 0 }, QUARTER, UP);
    assert_eq!(pose.position, Point { x: 0, y: i32::MAX });
}
