use souler_power::camera::{follow, track, Viewport};
use souler_power::geometry::{farther_than, overlap, squared_distance, Position, Size};
use souler_power::input::{Direction, Keys};

fn at(x: i32, y: i32) -> Position {
    Position { x, y }
}

fn keys(up: bool, down: bool, left: bool, right: bool) -> Keys {
    Keys { up, down, left, right, activate: false }
}

#[test]
fn squared_distance_of_a_three_four_five_triangle() {
    assert_eq!(squared_distance(at(0, 0), at(3, 4)), 25);
    assert_eq!(squared_distance(at(3, 4), at(0, 0)), 25);
    assert_eq!(squared_distance(at(-7, 9), at(-7, 9)), 0);
}

#[test]
fn squared_distance_across_the_whole_range() {
    let d = squared_distance(at(i32::MIN, i32::MIN), at(i32::MAX, i32::MAX));
    let side: u128 = u32::MAX as u128;
    assert_eq!(d, 2 * side * side);
}

#[test]
fn farther_than_is_strict() {
    // distance 5 against reach 5, 4 and 6
    assert!(!farther_than(at(0, 0), at(3, 4), 1, 5));
    assert!(farther_than(at(0, 0), at(3, 4), 1, 4));
    assert!(!farther_than(at(0, 0), at(3, 4), 1, 6));
}

#[test]
fn farther_than_a_negative_reach_always() {
    assert!(farther_than(at(0, 0), at(0, 0), 1, -1));
    assert!(farther_than(at(0, 0), at(0, 0), 10, i64::MIN));
    assert!(!farther_than(at(0, 0), at(0, 0), 1, 0));
}

#[test]
fn farther_than_scales_the_distance() {
    // 5 * 5 = 25 against 24, 25
    assert!(farther_than(at(0, 0), at(3, 4), 5, 24));
    assert!(!farther_than(at(0, 0), at(3, 4), 5, 25));
    // scale zero: nothing is greater than a reach of zero or more
    assert!(!farther_than(at(0, 0), at(3, 4), 0, 0));
}

#[test]
fn overlap_needs_both_axes() {
    let size = Size { width: 16, height: 16 };
    assert!(overlap(at(0, 0), size, at(0, 0), size));
    assert!(overlap(at(0, 0), size, at(15, 15), size));
    assert!(overlap(at(0, 0), size, at(-15, 15), size));
    assert!(!overlap(at(0, 0), size, at(16, 0), size));
    assert!(!overlap(at(0, 0), size, at(0, 16), size));
    assert!(!overlap(at(0, 0), size, at(15, 16), size));
    assert!(!overlap(at(0, 0), size, at(-16, -15), size));
}

#[test]
fn overlap_of_boxes_of_different_sizes() {
    let small = Size { width: 3, height: 3 };
    let large = Size { width: 10, height: 20 };
    // horizontally the half widths add up to 6.5, vertically to 11.5
    assert!(overlap(at(0, 0), small, at(6, 11), large));
    assert!(!overlap(at(0, 0), small, at(7, 11), large));
    assert!(!overlap(at(0, 0), small, at(6, 12), large));
    assert!(overlap(at(6, 11), large, at(0, 0), small));
}

#[test]
fn overlap_at_the_ends_of_the_range() {
    // centres 2^32 - 1 apart: boxes of that size only share an edge
    let size = Size { width: u32::MAX, height: u32::MAX };
    assert!(!overlap(at(i32::MIN, i32::MIN), size, at(i32::MAX, i32::MAX), size));
    assert!(overlap(at(i32::MIN + 1, i32::MIN + 1), size, at(i32::MAX, i32::MAX), size));
    assert!(!overlap(at(i32::MIN + 1, i32::MIN), size, at(i32::MAX, i32::MAX), size));
    let thin = Size { width: 1, height: 1 };
    assert!(!overlap(at(i32::MIN, 0), thin, at(i32::MAX, 0), thin));
}

#[test]
fn held_direction_follows_the_priority() {
    assert_eq!(keys(true, true, true, true).held_direction(), Some(Direction::Up));
    assert_eq!(keys(false, true, true, true).held_direction(), Some(Direction::Down));
    assert_eq!(keys(false, false, true, true).held_direction(), Some(Direction::Left));
    assert_eq!(keys(false, false, false, true).held_direction(), Some(Direction::Right));
    assert_eq!(keys(false, false, false, false).held_direction(), None);
    assert_eq!(Keys::none().held_direction(), None);
    assert!(!Keys::none().activate);
}

#[test]
fn track_keeps_its_place_up_to_the_threshold() {
    let viewpoint = at(10, 10);
    assert_eq!(track(viewpoint, at(13, 14), 5), viewpoint);
    assert_eq!(track(viewpoint, at(13, 14), 6), viewpoint);
    assert_eq!(track(viewpoint, at(10, 10), 0), viewpoint);
}

#[test]
fn track_jumps_onto_the_subject_beyond_the_threshold() {
    let viewpoint = at(10, 10);
    assert_eq!(track(viewpoint, at(13, 14), 4), at(13, 14));
    assert_eq!(track(viewpoint, at(10, 11), 0), at(10, 11));
    assert_eq!(track(at(i32::MIN, 0), at(i32::MAX, 0), u32::MAX - 1), at(i32::MAX, 0));
    assert_eq!(track(at(i32::MIN, 0), at(i32::MAX, 0), u32::MAX), at(i32::MIN, 0));
}

#[test]
fn follow_uses_a_fifth_of_the_extent_less_ten() {
    let viewport = Viewport { width: 1280, height: 720 };
    let origin = at(0, 0);
    let up = keys(true, false, false, false);
    // height 720: threshold 134
    assert_eq!(follow(origin, at(0, 134), &up, &viewport), origin);
    assert_eq!(follow(origin, at(0, 135), &up, &viewport), at(0, 135));
    let right = keys(false, false, false, true);
    // width 1280: threshold 246
    assert_eq!(follow(origin, at(246, 0), &right, &viewport), origin);
    assert_eq!(follow(origin, at(247, 0), &right, &viewport), at(247, 0));
    assert_eq!(follow(origin, at(0, 135), &right, &viewport), origin);
}

#[test]
fn follow_with_a_threshold_that_is_no_whole_number() {
    // height 721: threshold 134.2
    let viewport = Viewport { width: 4000, height: 721 };
    let down = keys(false, true, false, false);
    assert_eq!(follow(at(0, 0), at(0, -134), &down, &viewport), at(0, 0));
    assert_eq!(follow(at(0, 0), at(0, -135), &down, &viewport), at(0, -135));
    // 5 * sqrt(120^2 + 60^2) = 670.8.., against 721 - 50 = 671 and 720 - 50 = 670
    assert_eq!(follow(at(0, 0), at(120, 60), &down, &viewport), at(0, 0));
    let lower = Viewport { width: 4000, height: 720 };
    assert_eq!(follow(at(0, 0), at(120, 60), &down, &lower), at(120, 60));
}

#[test]
fn follow_waits_for_a_direction_key() {
    let viewport = Viewport { width: 1280, height: 720 };
    let idle = Keys { up: false, down: false, left: false, right: false, activate: true };
    assert_eq!(follow(at(0, 0), at(5000, 5000), &idle, &viewport), at(0, 0));
}

#[test]
fn follow_in_a_window_too_small_for_the_margin() {
    // extent 49: the threshold is negative, any distance exceeds it
    let viewport = Viewport { width: 49, height: 50 };
    let left = keys(false, false, true, false);
    assert_eq!(follow(at(3, 3), at(3, 3), &left, &viewport), at(3, 3));
    assert_eq!(follow(at(0, 0), at(3, 3), &left, &viewport), at(3, 3));
    // extent 50: the threshold is zero
    let up = keys(true, false, false, false);
    assert_eq!(follow(at(0, 0), at(0, 0), &up, &viewport), at(0, 0));
    assert_eq!(follow(at(0, 0), at(0, 1), &up, &viewport), at(0, 1));
}
