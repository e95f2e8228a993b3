use pong_core::collision::Side;
use pong_core::entity::{Ball, Gutter, Paddle};
use pong_core::geometry::{Position, Shape, UNIT};
use pong_core::response::{
    bounce_off_gutter, bounce_off_gutters, bounce_off_paddle, bounce_off_paddles, respond_to_paddle,
    respond_to_side,
};
use pong_core::velocity::Velocity;

#[test]
fn a_flank_turns_the_horizontal_component_around() {
    for side in [Side::Left, Side::Right] {
        let mut velocity = Velocity::new(300, -700);
        respond_to_side(&mut velocity, side);
        assert_eq!(velocity, Velocity::new(-300, -700));
        respond_to_side(&mut velocity, side);
        assert_eq!(velocity, Velocity::new(300, -700));
    }
}

#[test]
fn top_and_bottom_turn_the_vertical_component_around() {
    for side in [Side::Top, Side::Bottom] {
        let mut velocity = Velocity::new(300, -700);
        respond_to_side(&mut velocity, side);
        assert_eq!(velocity, Velocity::new(300, 700));
        respond_to_side(&mut velocity, side);
        assert_eq!(velocity, Velocity::new(300, -700));
    }
}

#[test]
fn the_largest_components_can_be_turned_around() {
    let mut velocity = Velocity::checked(i64::MAX, -i64::MAX).unwrap();
    respond_to_side(&mut velocity, Side::Left);
    respond_to_side(&mut velocity, Side::Top);
    assert_eq!(velocity.x(), -i64::MAX);
    assert_eq!(velocity.y(), i64::MAX);
}

#[test]
fn a_component_without_a_negative_is_not_held() {
    assert_eq!(Velocity::checked(i64::MIN, 0), None);
    assert_eq!(Velocity::checked(0, i64::MIN), None);
    assert!(Velocity::checked(i64::MIN + 1, i64::MAX).is_some());
    assert_eq!(Velocity::checked(-4, 9), Some(Velocity::new(-4, 9)));
    assert_eq!(Velocity::zero(), Velocity::new(0, 0));
}

#[test]
fn a_paddle_response_overwrites_the_velocity() {
    let mut velocity = Velocity::new(-300, 700);
    respond_to_paddle(&mut velocity, Velocity::new(1000, 200));
    assert_eq!(velocity, Velocity::new(1000, 200));
}

fn top_gutter() -> Gutter {
    Gutter::new(Position::new(0, 110 * UNIT), Shape::new(1280 * UNIT as u32, 20 * UNIT as u32))
}

fn right_gutter() -> Gutter {
    Gutter::new(Position::new(650 * UNIT, 0), Shape::new(20 * UNIT as u32, 240 * UNIT as u32))
}

#[test]
fn ball_far_from_the_top_gutter_keeps_its_velocity() {
    let mut ball = Ball::new(Position::new(0, 0), Velocity::new(600, 800), 5 * UNIT as u32);
    let gutters = vec![top_gutter()];
    bounce_off_gutters(&mut ball, &gutters);
    assert_eq!(ball.velocity, Velocity::new(600, 800));
}

#[test]
fn ball_at_the_top_gutter_has_its_vertical_component_turned() {
    let mut ball = Ball::new(Position::new(0, 96 * UNIT), Velocity::new(600, 800), 5 * UNIT as u32);
    let gutters = vec![top_gutter()];
    bounce_off_gutters(&mut ball, &gutters);
    assert_eq!(ball.velocity.y(), -800);
    assert_eq!(ball.velocity.x(), 600);
    assert_eq!(ball.position, Position::new(0, 96 * UNIT));
    assert_eq!(ball.radius, 5 * UNIT as u32);
}

#[test]
fn each_gutter_that_is_met_turns_one_component() {
    let mut ball =
        Ball::new(Position::new(636 * UNIT, 97 * UNIT), Velocity::new(600, 800), 5 * UNIT as u32);
    let gutters = vec![top_gutter(), right_gutter()];
    bounce_off_gutters(&mut ball, &gutters);
    assert_eq!(ball.velocity, Velocity::new(-600, -800));
}

#[test]
fn the_same_gutter_twice_turns_the_component_back() {
    let mut ball = Ball::new(Position::new(0, 96 * UNIT), Velocity::new(600, 800), 5 * UNIT as u32);
    let gutters = vec![top_gutter(), top_gutter()];
    bounce_off_gutters(&mut ball, &gutters);
    assert_eq!(ball.velocity, Velocity::new(600, 800));
}

#[test]
fn detection_without_contact_never_changes_the_velocity() {
    let mut ball = Ball::new(Position::new(0, 0), Velocity::new(-350, 125), 5 * UNIT as u32);
    let gutters = vec![top_gutter(), right_gutter()];
    let paddles = vec![Paddle::new(
        Position::new(95 * UNIT, 0),
        Velocity::zero(),
        Shape::new(10 * UNIT as u32, 50 * UNIT as u32),
    )];
    for _ in 0..10 {
        bounce_off_gutters(&mut ball, &gutters);
        bounce_off_paddles(&mut ball, &paddles);
        assert_eq!(ball.velocity, Velocity::new(-350, 125));
    }
}

#[test]
fn no_gutters_and_no_paddles_change_nothing() {
    let mut ball = Ball::new(Position::new(3, 4), Velocity::new(1, 2), 5);
    bounce_off_gutters(&mut ball, &Vec::new());
    bounce_off_paddles(&mut ball, &Vec::new());
    assert_eq!(ball, Ball::new(Position::new(3, 4), Velocity::new(1, 2), 5));
}

#[test]
fn ball_right_of_a_paddle_leaves_to_the_right_whatever_it_came_with() {
    let paddles = vec![Paddle::new(
        Position::new(95 * UNIT, 0),
        Velocity::zero(),
        Shape::new(10 * UNIT as u32, 50 * UNIT as u32),
    )];
    for before in [Velocity::new(-1000, 0), Velocity::new(1000, 900), Velocity::new(0, -5)] {
        let mut ball = Ball::new(Position::new(100 * UNIT, 5 * UNIT), before, 5 * UNIT as u32);
        bounce_off_paddles(&mut ball, &paddles);
        assert_eq!(ball.velocity, Velocity::new(1000, 100));
        assert!(ball.velocity.x() > 0);
    }
}

#[test]
fn the_last_paddle_that_is_met_decides() {
    let shape = Shape::new(10 * UNIT as u32, 50 * UNIT as u32);
    let left_of_ball = Paddle::new(Position::new(95 * UNIT, 0), Velocity::zero(), shape);
    let right_of_ball = Paddle::new(Position::new(105 * UNIT, 10 * UNIT), Velocity::zero(), shape);
    let far_away = Paddle::new(Position::new(-600 * UNIT, 0), Velocity::zero(), shape);
    let mut ball =
        Ball::new(Position::new(100 * UNIT, 0), Velocity::new(1000, 0), 5 * UNIT as u32);
    bounce_off_paddles(&mut ball, &vec![left_of_ball, right_of_ball, far_away]);
    assert_eq!(ball.velocity, Velocity::new(-1000, -200));
    bounce_off_paddles(&mut ball, &vec![right_of_ball, far_away, left_of_ball]);
    assert_eq!(ball.velocity, Velocity::new(1000, 0));
}

#[test]
fn one_gutter_out_of_reach_reports_no_side_and_changes_nothing() {
    let mut ball = Ball::new(Position::new(0, 0), Velocity::new(600, 800), 5 * UNIT as u32);
    assert_eq!(bounce_off_gutter(&mut ball, &top_gutter()), None);
    assert_eq!(ball, Ball::new(Position::new(0, 0), Velocity::new(600, 800), 5 * UNIT as u32));
}

#[test]
fn one_gutter_that_is_met_reports_the_side_and_turns_the_velocity() {
    let mut ball = Ball::new(Position::new(0, 96 * UNIT), Velocity::new(600, 800), 5 * UNIT as u32);
    assert_eq!(bounce_off_gutter(&mut ball, &top_gutter()), Some(Side::Bottom));
    assert_eq!(ball.velocity, Velocity::new(600, -800));
    let mut above = Ball::new(Position::new(0, 124 * UNIT), Velocity::new(600, -800), 5 * UNIT as u32);
    assert_eq!(bounce_off_gutter(&mut above, &top_gutter()), Some(Side::Top));
    assert_eq!(above.velocity, Velocity::new(600, 800));
    let mut beside = Ball::new(Position::new(636 * UNIT, 0), Velocity::new(600, 800), 5 * UNIT as u32);
    assert_eq!(bounce_off_gutter(&mut beside, &right_gutter()), Some(Side::Left));
    assert_eq!(beside.velocity, Velocity::new(-600, 800));
    assert_eq!(beside.position, Position::new(636 * UNIT, 0));
}

#[test]
fn one_paddle_reports_whether_it_was_met() {
    let paddle = Paddle::new(
        Position::new(95 * UNIT, 0),
        Velocity::new(0, UNIT),
        Shape::new(10 * UNIT as u32, 50 * UNIT as u32),
    );
    let mut ball = Ball::new(Position::new(100 * UNIT, 0), Velocity::new(-600, 800), 5 * UNIT as u32);
    assert!(bounce_off_paddle(&mut ball, &paddle));
    assert_eq!(ball.velocity, Velocity::new(UNIT, 0));
    let mut far = Ball::new(Position::new(106 * UNIT, 0), Velocity::new(-600, 800), 5 * UNIT as u32);
    assert!(!bounce_off_paddle(&mut far, &paddle));
    assert_eq!(far.velocity, Velocity::new(-600, 800));
}
