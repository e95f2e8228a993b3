use pong_core::collision::{collide_with_paddle, collide_with_side, Side};
use pong_core::geometry::{Aabb, Circle, Position, Shape, UNIT};
use pong_core::velocity::Velocity;

fn wall() -> Aabb {
    Aabb::new(Position::new(0, 0), 10, 10)
}

fn ball(x: i32, y: i32) -> Circle {
    Circle::new(Position::new(x, y), 5)
}

#[test]
fn side_is_left_when_the_ball_is_left_of_the_wall() {
    assert_eq!(collide_with_side(&ball(-13, 0), &wall()), Some(Side::Left));
    assert_eq!(collide_with_side(&ball(-13, 2), &wall()), Some(Side::Left));
}

#[test]
fn side_is_right_when_the_ball_is_right_of_the_wall() {
    assert_eq!(collide_with_side(&ball(13, 0), &wall()), Some(Side::Right));
    assert_eq!(collide_with_side(&ball(14, 12), &wall()), Some(Side::Right));
}

#[test]
fn side_is_top_when_the_ball_is_above_the_wall() {
    assert_eq!(collide_with_side(&ball(0, 13), &wall()), Some(Side::Top));
    assert_eq!(collide_with_side(&ball(12, 14), &wall()), Some(Side::Top));
}

#[test]
fn side_is_bottom_when_the_ball_is_below_the_wall() {
    assert_eq!(collide_with_side(&ball(0, -13), &wall()), Some(Side::Bottom));
    assert_eq!(collide_with_side(&ball(-12, -14), &wall()), Some(Side::Bottom));
}

#[test]
fn offsets_of_equal_length_count_as_vertical() {
    assert_eq!(collide_with_side(&ball(13, 13), &wall()), Some(Side::Top));
    assert_eq!(collide_with_side(&ball(-13, 13), &wall()), Some(Side::Top));
    assert_eq!(collide_with_side(&ball(13, -13), &wall()), Some(Side::Bottom));
    assert_eq!(collide_with_side(&ball(-13, -13), &wall()), Some(Side::Bottom));
}

#[test]
fn a_center_inside_the_wall_counts_as_bottom() {
    assert_eq!(collide_with_side(&ball(2, 3), &wall()), Some(Side::Bottom));
    assert_eq!(collide_with_side(&ball(10, -10), &wall()), Some(Side::Bottom));
}

#[test]
fn no_side_without_contact() {
    assert_eq!(collide_with_side(&ball(16, 0), &wall()), None);
    assert_eq!(collide_with_side(&ball(14, 14), &wall()), None);
    assert_eq!(collide_with_side(&ball(0, -1000), &wall()), None);
}

#[test]
fn ball_far_below_the_top_gutter_meets_nothing() {
    // Ball at the middle of the court, radius 5; gutter centered 110 above,
    // 10 to either side of its own middle, as wide as the screen.
    let ball = Circle::new(Position::new(0, 0), 5 * UNIT as u32);
    let gutter = Aabb::new(Position::new(0, 110 * UNIT), 640 * UNIT as u32, 10 * UNIT as u32);
    assert!(!ball.intersects(&gutter));
    assert_eq!(collide_with_side(&ball, &gutter), None);
}

#[test]
fn ball_that_reaches_the_top_gutter_meets_its_underside() {
    let gutter = Aabb::new(Position::new(0, 110 * UNIT), 640 * UNIT as u32, 10 * UNIT as u32);
    let touching = Circle::new(Position::new(0, 95 * UNIT), 5 * UNIT as u32);
    assert_eq!(collide_with_side(&touching, &gutter), Some(Side::Bottom));
    let above = Circle::new(Position::new(0, 123 * UNIT), 5 * UNIT as u32);
    assert_eq!(collide_with_side(&above, &gutter), Some(Side::Top));
}

#[test]
fn ball_right_of_the_right_paddle_is_sent_right() {
    let ball = Circle::new(Position::new(100 * UNIT, 0), 5 * UNIT as u32);
    let paddle_position = Position::new(95 * UNIT, 0);
    let paddle_shape = Shape::new(10 * UNIT as u32, 50 * UNIT as u32);
    assert!(ball.intersects(&Aabb::new(paddle_position, 5 * UNIT as u32, 25 * UNIT as u32)));
    let hit = collide_with_paddle(&ball, &paddle_position, &paddle_shape).unwrap();
    assert_eq!(hit.x(), UNIT as i64);
    assert_eq!(hit.y(), 0);
    assert_eq!(hit, Velocity::new(UNIT, 0));
}

#[test]
fn ball_left_of_a_paddle_is_sent_left() {
    let ball = Circle::new(Position::new(-100_000, 0), 5_000);
    let hit = collide_with_paddle(&ball, &Position::new(-95_000, 0), &Shape::new(10_000, 50_000));
    assert_eq!(hit, Some(Velocity::new(-1000, 0)));
}

#[test]
fn ball_level_with_the_middle_of_a_paddle_is_sent_left() {
    let ball = Circle::new(Position::new(95_000, 20_000), 5_000);
    let hit = collide_with_paddle(&ball, &Position::new(95_000, 0), &Shape::new(10_000, 50_000));
    assert_eq!(hit.unwrap().x(), -1000);
}

#[test]
fn deflection_rises_with_the_height_over_the_middle() {
    let position = Position::new(95_000, 0);
    let shape = Shape::new(10_000, 50_000);
    let at = |y: i32| {
        collide_with_paddle(&Circle::new(Position::new(100_000, y), 5_000), &position, &shape)
            .unwrap()
    };
    assert_eq!(at(10_000), Velocity::new(1000, 200));
    assert_eq!(at(25_000), Velocity::new(1000, 500));
    assert_eq!(at(-10_000), Velocity::new(1000, -200));
    assert_eq!(at(-25_000), Velocity::new(1000, -500));
    // Beyond the end of the paddle, still within reach of the ball.
    assert_eq!(at(29_000), Velocity::new(1000, 580));
}

#[test]
fn deflection_is_rounded_toward_zero() {
    let position = Position::new(0, 0);
    let shape = Shape::new(10, 3);
    let above = Circle::new(Position::new(1, 1), 5);
    let below = Circle::new(Position::new(1, -1), 5);
    assert_eq!(collide_with_paddle(&above, &position, &shape), Some(Velocity::new(1000, 333)));
    assert_eq!(collide_with_paddle(&below, &position, &shape), Some(Velocity::new(1000, -333)));
}

#[test]
fn deflection_can_exceed_thirty_two_bits() {
    let ball = Circle::new(Position::new(0, i32::MAX), u32::MAX);
    let hit = collide_with_paddle(&ball, &Position::new(0, i32::MIN), &Shape::new(2, 1)).unwrap();
    assert_eq!(hit.x(), -1000);
    assert_eq!(hit.y(), 4_294_967_295_000);
}

#[test]
fn no_deflection_without_contact() {
    let position = Position::new(95_000, 0);
    let shape = Shape::new(10_000, 50_000);
    let beside = Circle::new(Position::new(105_001, 0), 5_000);
    assert_eq!(collide_with_paddle(&beside, &position, &shape), None);
    let over = Circle::new(Position::new(95_000, 30_001), 5_000);
    assert_eq!(collide_with_paddle(&over, &position, &shape), None);
}
