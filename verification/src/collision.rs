//! Collision detection: where the ball meets a wall, and how a paddle sends
//! it back.

use vstd::prelude::*;
use crate::geometry::{abs, bounds_of, Aabb, Circle, Disc, Position, Rect, Shape, Vector, UNIT};
use crate::velocity::Velocity;

verus! {

/// The face of a wall that the ball has met.
#[derive(Clone, Copy, Debug, PartialEq, Eq, Structural)]
pub enum Side {
    Left,
    Right,
    Top,
    Bottom,
}

/// The side that an offset points to. `offset` leads from the nearest point
/// of the wall to the center of the ball. A horizontal side is reported only
/// where the horizontal part is strictly the longer one; an offset with two
/// parts of equal length, the zero offset among them, counts as vertical.
pub open spec fn side_of(offset: Vector) -> Side {
    if abs(offset.x) > abs(offset.y) {
        if offset.x < 0 {
            Side::Left
        } else {
            Side::Right
        }
    } else if offset.y > 0 {
        Side::Top
    } else {
        Side::Bottom
    }
}

/// The side of `wall` that the ball has met, if the two intersect.
pub open spec fn side_hit(ball: Disc, wall: Rect) -> Option<Side> {
    if ball.intersects(wall) {
        Some(side_of(ball.offset_from(wall)))
    } else {
        None
    }
}

/// Quotient of `n` by a positive `d`, rounded toward zero.
pub open spec fn toward_zero(n: int, d: int) -> int {
    if n >= 0 {
        n / d
    } else {
        -((-n) / d)
    }
}

/// The velocity with which a paddle sends the ball back.
///
/// Horizontally the ball leaves at full speed, away from the paddle: to the
/// right if its center is right of the paddle's center, else to the left.
/// Vertically it leaves with the height of its center over the paddle's
/// center, taken as a fraction of the paddle's full height: upward when it
/// met the paddle above the middle, downward when below, and the steeper the
/// farther from the middle. The fraction is rounded toward zero to a whole
/// fixed-point step.
pub open spec fn deflection(ball_center: Vector, paddle_center: Vector, paddle_height: int) -> Vector {
    Vector {
        x: if ball_center.x > paddle_center.x {
            UNIT as int
        } else {
            -(UNIT as int)
        },
        y: toward_zero((ball_center.y - paddle_center.y) * UNIT, paddle_height),
    }
}

/// The replacement velocity for a ball that has met the paddle of shape
/// `paddle_shape` centered on `paddle_position`, if the two intersect.
pub open spec fn paddle_hit(ball: Disc, paddle_position: Vector, paddle_shape: Shape) -> Option<
    Vector,
> {
    if ball.intersects(bounds_of(paddle_position, paddle_shape)) {
        Some(deflection(ball.center, paddle_position, paddle_shape.height as int))
    } else {
        None
    }
}

/// Magnitude of the difference of two coordinates.
fn gap(a: i32, b: i32) -> (d: i64)
    ensures
        d == abs(a - b),
{
    let d: i64 = a as i64 - b as i64;
    if d < 0 {
        -d
    } else {
        d
    }
}

/// Boundary detection: the side of `wall` that `ball` has met, or `None`
/// where the two do not intersect.
///
/// The first clause says it all. The others repeat, without squares, what
/// follows from it: when there is a collision with a wall whose nearest point
/// lies along an axis from the ball, and that a wall which is not near is not
/// met.
pub fn collide_with_side(ball: &Circle, wall: &Aabb) -> (hit: Option<Side>)
    ensures
        hit == side_hit(ball@, wall@),
        ball@.offset_from(wall@).along_an_axis() ==> (hit is Some <==> ball@.offset_from(
            wall@,
        ).span() <= ball.radius),
        hit is Some ==> ball@.near(wall@),
{
    if !ball.intersects(wall) {
        return None;
    }
    let closest: Position = wall.closest_point(ball.center);
    let side = if gap(ball.center.x, closest.x) > gap(ball.center.y, closest.y) {
        if ball.center.x < closest.x {
            Side::Left
        } else {
            Side::Right
        }
    } else if ball.center.y > closest.y {
        Side::Top
    } else {
        Side::Bottom
    };
    Some(side)
}

/// Paddle detection: the velocity that replaces the ball's own after it has
/// met the paddle, or `None` where the two do not intersect. The answer is
/// [`paddle_hit`], spelled out.
///
/// The paddle must have a height: the vertical part of the answer is a
/// fraction of it. The last two clauses repeat, without squares, what follows
/// from the first: when there is a collision with a paddle whose nearest
/// point lies along an axis from the ball, and that a paddle which is not near
/// is not met.
pub fn collide_with_paddle(ball: &Circle, paddle_position: &Position, paddle_shape: &Shape) -> (hit:
    Option<Velocity>)
    requires
        paddle_shape.height > 0,
    ensures
        hit is Some <==> ball@.intersects(bounds_of(paddle_position@, *paddle_shape)),
        hit matches Some(velocity) ==> velocity@ == deflection(
            ball@.center,
            paddle_position@,
            paddle_shape.height as int,
        ),
        ball@.offset_from(bounds_of(paddle_position@, *paddle_shape)).along_an_axis() ==> (hit is Some
            <==> ball@.offset_from(bounds_of(paddle_position@, *paddle_shape)).span()
            <= ball.radius),
        hit is Some ==> ball@.near(bounds_of(paddle_position@, *paddle_shape)),
{
    let paddle: Aabb = Aabb::from_shape(*paddle_position, *paddle_shape);
    if !ball.intersects(&paddle) {
        return None;
    }
    let x: i64 = if ball.center.x > paddle_position.x {
        UNIT as i64
    } else {
        -(UNIT as i64)
    };
    let rise: i64 = (ball.center.y as i64 - paddle_position.y as i64) * (UNIT as i64);
    let y: i64 = rise / (paddle_shape.height as i64);
    Some(Velocity::from_parts(x, y))
}

/// Ties go to the vertical sides. A flank is reported exactly where the
/// horizontal part of the offset is strictly the longer one; where the two
/// parts are equally long the ball has met the top if it stands above the
/// nearest point of the wall, and the bottom otherwise.
pub proof fn tie_break(offset: Vector)
    ensures
        (side_of(offset) == Side::Left || side_of(offset) == Side::Right) <==> abs(offset.x) > abs(
            offset.y,
        ),
        abs(offset.x) == abs(offset.y) ==> side_of(offset) == (if offset.y > 0 {
            Side::Top
        } else {
            Side::Bottom
        }),
{
}

/// No false positive: where circle and box do not intersect, neither
/// detection reports a collision.
pub proof fn no_collision_without_contact(
    ball: Disc,
    wall: Rect,
    paddle_position: Vector,
    paddle_shape: Shape,
)
    ensures
        !ball.intersects(wall) ==> side_hit(ball, wall) is None,
        !ball.intersects(bounds_of(paddle_position, paddle_shape)) ==> paddle_hit(
            ball,
            paddle_position,
            paddle_shape,
        ) is None,
{
}

/// A ball that meets a paddle while its center is right of the paddle's
/// center is sent to the right, at full speed; any other ball that meets a
/// paddle is sent to the left.
pub proof fn deflection_leads_away(ball: Disc, paddle_position: Vector, paddle_shape: Shape)
    requires
        ball.intersects(bounds_of(paddle_position, paddle_shape)),
    ensures
        paddle_hit(ball, paddle_position, paddle_shape) is Some,
        ball.center.x > paddle_position.x ==> paddle_hit(
            ball,
            paddle_position,
            paddle_shape,
        )->Some_0.x == UNIT,
        ball.center.x <= paddle_position.x ==> paddle_hit(
            ball,
            paddle_position,
            paddle_shape,
        )->Some_0.x == -UNIT,
{
}

} // verus!
