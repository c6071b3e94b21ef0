use truck_drive::geometry::{Direction, Position};
use truck_drive::input::Keys;
use truck_drive::kinematics::{can_move_truck, move_truck, Pose};
use truck_drive::units::{
    ANGULAR_SPEED, DIRECTION_ONE, HEADING_ONE, LINEAR_SPEED, POSITION_ONE, TIME_ONE,
};

const UP: Direction = Direction { x: 0, y: DIRECTION_ONE };

fn world_units(steps: i64) -> f64 {
    steps as f64 / POSITION_ONE as f64
}

#[test]
fn up_is_the_direction_at_heading_zero() {
    assert_eq!(Direction::up(), UP);
    assert_eq!(Direction::up(), Direction { x: 0, y: 1_000 });
}

fn keys(forward: bool, backward: bool, turn_left: bool, turn_right: bool) -> Keys {
    Keys { forward, backward, turn_left, turn_right }
}

fn pose(x: i64, y: i64, heading: i64) -> Pose {
    Pose { position: Position { x, y }, heading }
}

#[test]
fn one_world_unit_is_the_product_of_the_resolutions() {
    assert_eq!(POSITION_ONE, (TIME_ONE as i64) * (DIRECTION_ONE as i64));
    assert_eq!(HEADING_ONE, (TIME_ONE as i64) * ANGULAR_SPEED);
    assert_eq!(LINEAR_SPEED, 500);
    assert_eq!(ANGULAR_SPEED, 1);
}

#[test]
fn forward_for_one_second_from_the_origin() {
    let start = pose(0, 0, 0);
    let next = move_truck(keys(true, false, false, false), TIME_ONE, start, UP);
    assert_eq!(next.position, Position { x: 0, y: 500 * POSITION_ONE });
    assert_eq!(next.heading, 0);
    assert_eq!(world_units(next.position.x), 0.0);
    assert_eq!(world_units(next.position.y), 500.0);
}

#[test]
fn idle_keys_keep_the_pose() {
    let start = pose(-7 * POSITION_ONE, 3 * POSITION_ONE + 11, 2 * HEADING_ONE);
    let idle = Keys::none();
    assert_eq!(idle, keys(false, false, false, false));
    for dt in [0u32, 1, 16_667, TIME_ONE, u32::MAX] {
        assert!(can_move_truck(idle, dt, start, Direction { x: 600, y: -800 }));
        assert_eq!(move_truck(idle, dt, start, Direction { x: 600, y: -800 }), start);
    }
}

#[test]
fn zero_elapsed_time_keeps_the_pose() {
    let start = pose(5, -9, 77);
    for f in [false, true] {
        for b in [false, true] {
            for l in [false, true] {
                for r in [false, true] {
                    assert_eq!(move_truck(keys(f, b, l, r), 0, start, UP), start);
                }
            }
        }
    }
}

#[test]
fn forward_moves_along_the_given_direction() {
    let start = pose(1_000, -2_000, 123_456);
    let forward = Direction { x: -600, y: 800 };
    let next = move_truck(keys(true, false, false, false), 20_000, start, forward);
    assert_eq!(next.position.x, 1_000 - 500 * 20_000 * 600);
    assert_eq!(next.position.y, -2_000 + 500 * 20_000 * 800);
    assert_eq!(next.heading, 123_456);
}

#[test]
fn backward_moves_against_the_given_direction() {
    let start = pose(1_000, -2_000, 123_456);
    let forward = Direction { x: -600, y: 800 };
    let next = move_truck(keys(false, true, false, false), 20_000, start, forward);
    assert_eq!(next.position.x, 1_000 + 500 * 20_000 * 600);
    assert_eq!(next.position.y, -2_000 - 500 * 20_000 * 800);
    assert_eq!(next.heading, 123_456);
}

#[test]
fn forward_and_left_turns_counter_clockwise() {
    let start = pose(0, 0, 10);
    let next = move_truck(keys(true, false, true, false), 250_000, start, UP);
    assert_eq!(next.heading, 10 + 250_000);
    assert_eq!(next.position, Position { x: 0, y: 125 * POSITION_ONE });
}

#[test]
fn forward_and_right_turns_clockwise() {
    let start = pose(0, 0, 10);
    let next = move_truck(keys(true, false, false, true), 250_000, start, UP);
    assert_eq!(next.heading, 10 - 250_000);
    assert_eq!(next.position, Position { x: 0, y: 125 * POSITION_ONE });
}

#[test]
fn backing_up_reverses_the_steering() {
    let start = pose(0, 0, 0);
    let left = move_truck(keys(false, true, true, false), 1_000, start, UP);
    assert_eq!(left.heading, -1_000);
    assert_eq!(left.position, Position { x: 0, y: -500 * 1_000 * 1_000 });
    let right = move_truck(keys(false, true, false, true), 1_000, start, UP);
    assert_eq!(right.heading, 1_000);
    assert_eq!(right.position, Position { x: 0, y: -500 * 1_000 * 1_000 });
}

#[test]
fn turn_keys_alone_do_nothing() {
    let start = pose(4, 5, 6);
    assert_eq!(move_truck(keys(false, false, true, false), TIME_ONE, start, UP), start);
    assert_eq!(move_truck(keys(false, false, false, true), TIME_ONE, start, UP), start);
    assert_eq!(move_truck(keys(false, false, true, true), TIME_ONE, start, UP), start);
}

#[test]
fn opposite_keys_cancel() {
    let start = pose(4, 5, 6);
    for l in [false, true] {
        for r in [false, true] {
            assert_eq!(move_truck(keys(true, true, l, r), TIME_ONE, start, UP), start);
        }
    }
    let both_turns = move_truck(keys(true, false, true, true), TIME_ONE, start, UP);
    assert_eq!(both_turns.heading, 6);
    assert_eq!(both_turns.position, Position { x: 4, y: 5 + 500 * POSITION_ONE });
}

#[test]
fn backward_undoes_forward() {
    let start = pose(-123, 456, 789);
    let forward = Direction { x: 707, y: 707 };
    let there = move_truck(keys(true, false, true, false), 33_333, start, forward);
    assert_ne!(there, start);
    let back = move_truck(keys(false, true, true, false), 33_333, there, forward);
    assert_eq!(back, start);
}

#[test]
fn the_longest_frame_is_computed_exactly() {
    let start = pose(0, 0, 0);
    let forward = Direction { x: i32::MAX, y: i32::MIN };
    assert!(!can_move_truck(keys(true, false, false, false), u32::MAX, start, forward));
    let near = Direction { x: 1_000, y: -1_000 };
    assert!(can_move_truck(keys(true, false, true, false), u32::MAX, start, near));
    let next = move_truck(keys(true, false, true, false), u32::MAX, start, near);
    assert_eq!(next.position.x, 500 * 4_294_967_295 * 1_000);
    assert_eq!(next.position.y, -500 * 4_294_967_295 * 1_000);
    assert_eq!(next.heading, 4_294_967_295);
}

#[test]
fn a_pose_that_cannot_be_stored_is_reported() {
    let forward_key = keys(true, false, false, false);
    let edge = pose(i64::MAX, 0, 0);
    assert!(!can_move_truck(forward_key, 1, edge, Direction { x: 1, y: 0 }));
    assert!(can_move_truck(forward_key, 1, edge, Direction { x: 0, y: 1 }));
    assert!(can_move_truck(forward_key, 1, edge, Direction { x: -1, y: 0 }));
    assert!(can_move_truck(forward_key, 0, edge, Direction { x: 1, y: 0 }));
    let low = pose(0, i64::MIN, 0);
    assert!(!can_move_truck(keys(false, true, false, false), 1, low, Direction { x: 0, y: 1 }));
    let spun = pose(0, 0, i64::MAX);
    assert!(!can_move_truck(keys(true, false, true, false), 1, spun, UP));
    assert!(can_move_truck(keys(true, false, false, true), 1, spun, UP));
    assert!(can_move_truck(keys(true, false, false, false), 1, spun, UP));
    let kept = move_truck(keys(true, false, false, true), 1, spun, UP);
    assert_eq!(kept.heading, i64::MAX - 1);
}
