//! Movement: bodies advance along their velocities once per tick, and a
//! paddle stops short of the gutters.

use vstd::prelude::*;
use crate::entity::{Ball, Paddle};
use crate::geometry::{abs, Position, Vector};
use crate::velocity::Velocity;

verus! {

/// Where a body at `position` stands after one tick at the given velocity
/// and speed.
pub open spec fn advanced(position: Vector, velocity: Vector, speed: int) -> Vector {
    Vector { x: position.x + velocity.x * speed, y: position.y + velocity.y * speed }
}

/// The bound on a paddle's vertical travel: half of the window, less the
/// gutter, less half of the paddle. Halves are rounded down to a whole
/// fixed-point step.
pub open spec fn paddle_limit(window_height: int, gutter_height: int, paddle_height: int) -> int {
    window_height / 2 - gutter_height - paddle_height / 2
}

/// Whether a paddle's move to `next` is carried out: the new height must lie
/// strictly within `max_y` of the middle of the court, and the new position
/// must be one that can be held.
pub open spec fn move_allowed(next: Vector, max_y: int) -> bool {
    abs(next.y) < max_y && next.representable()
}

/// Where a paddle stands after one tick. A move that is not allowed is
/// dropped whole: the paddle stays where it was, it is not carried to the
/// bound.
pub open spec fn paddle_advanced(position: Vector, velocity: Vector, speed: int, max_y: int) -> Vector {
    let next = advanced(position, velocity, speed);
    if move_allowed(next, max_y) {
        next
    } else {
        position
    }
}

/// Where the ball stands after one tick. A move that would leave the part of
/// the plane in which positions can be held is dropped.
pub open spec fn ball_advanced(position: Vector, velocity: Vector, speed: int) -> Vector {
    let next = advanced(position, velocity, speed);
    if next.representable() {
        next
    } else {
        position
    }
}

/// `after` is `before` moved by one tick, with its own travel bound in a
/// window of the given height; velocity and shape are untouched.
pub open spec fn paddle_stepped(
    after: Paddle,
    before: Paddle,
    speed: int,
    window_height: int,
    gutter_height: int,
) -> bool {
    &&& after.position@ == paddle_advanced(
        before.position@,
        before.velocity@,
        speed,
        paddle_limit(window_height, gutter_height, before.shape.height as int),
    )
    &&& after.velocity == before.velocity
    &&& after.shape == before.shape
}

/// Where a paddle stands after as many ticks as `velocities` has entries,
/// moving in each tick with the velocity given for it.
pub open spec fn paddle_after(position: Vector, velocities: Seq<Vector>, speed: int, max_y: int) -> Vector
    decreases velocities.len(),
{
    if velocities.len() == 0 {
        position
    } else {
        paddle_advanced(
            paddle_after(position, velocities.drop_last(), speed, max_y),
            velocities.last(),
            speed,
            max_y,
        )
    }
}

/// Travel bound: however often and in whatever direction a paddle is moved,
/// it is never carried to its bound or beyond. It is found either where it
/// started or strictly within the bound, and a paddle that started within the
/// bound stays within it.
pub proof fn paddle_travel_is_bounded(position: Vector, velocities: Seq<Vector>, speed: int, max_y: int)
    ensures
        paddle_after(position, velocities, speed, max_y) == position || abs(
            paddle_after(position, velocities, speed, max_y).y,
        ) < max_y,
        abs(position.y) < max_y ==> abs(paddle_after(position, velocities, speed, max_y).y) < max_y,
    decreases velocities.len(),
{
    if velocities.len() > 0 {
        paddle_travel_is_bounded(position, velocities.drop_last(), speed, max_y);
    }
}

/// One coordinate after one tick, as wide as it can get.
fn advanced_coordinate(from: i32, rate: i64, speed: i32) -> (to: i128)
    ensures
        to == from + rate * speed,
{
    assert(-0x8000_0000_0000_0000 * 0x8000_0000 <= rate * speed <= 0x8000_0000_0000_0000
        * 0x8000_0000) by (nonlinear_arith)
        requires
            -0x8000_0000_0000_0000 <= rate <= 0x8000_0000_0000_0000,
            -0x8000_0000 <= speed <= 0x8000_0000,
    ;
    from as i128 + (rate as i128) * (speed as i128)
}

/// `position + velocity * speed`, or `None` where that point cannot be held.
pub fn advance(position: Position, velocity: Velocity, speed: i32) -> (next: Option<Position>)
    ensures
        next is Some <==> advanced(position@, velocity@, speed as int).representable(),
        next matches Some(p) ==> p@ == advanced(position@, velocity@, speed as int),
{
    let x: i128 = advanced_coordinate(position.x, velocity.x(), speed);
    let y: i128 = advanced_coordinate(position.y, velocity.y(), speed);
    if x < i32::MIN as i128 || x > i32::MAX as i128 || y < i32::MIN as i128 || y > i32::MAX as i128 {
        None
    } else {
        Some(Position { x: x as i32, y: y as i32 })
    }
}

/// The bound on the vertical travel of a paddle of the given height.
pub fn max_paddle_y(window_height: u32, gutter_height: u32, paddle_height: u32) -> (max_y: i64)
    ensures
        max_y == paddle_limit(window_height as int, gutter_height as int, paddle_height as int),
{
    (window_height / 2) as i64 - gutter_height as i64 - (paddle_height / 2) as i64
}

/// Moves a paddle by one tick, unless that would take it to the bound or
/// past it. Reports whether the paddle moved.
pub fn move_paddle(paddle: &mut Paddle, speed: i32, max_y: i64) -> (committed: bool)
    ensures
        committed == move_allowed(
            advanced(old(paddle).position@, old(paddle).velocity@, speed as int),
            max_y as int,
        ),
        final(paddle).position@ == paddle_advanced(
            old(paddle).position@,
            old(paddle).velocity@,
            speed as int,
            max_y as int,
        ),
        final(paddle).velocity == old(paddle).velocity,
        final(paddle).shape == old(paddle).shape,
{
    match advance(paddle.position, paddle.velocity, speed) {
        Some(next) => {
            let height: i64 = next.y as i64;
            let reach: i64 = if height < 0 {
                -height
            } else {
                height
            };
            if reach < max_y {
                paddle.position = next;
                true
            } else {
                false
            }
        },
        None => false,
    }
}

/// Moves the ball by one tick. Reports whether the ball moved: it does not
/// where its new position could not be held.
pub fn move_ball(ball: &mut Ball, speed: i32) -> (moved: bool)
    ensures
        moved == advanced(old(ball).position@, old(ball).velocity@, speed as int).representable(),
        final(ball).position@ == ball_advanced(
            old(ball).position@,
            old(ball).velocity@,
            speed as int,
        ),
        final(ball).velocity == old(ball).velocity,
        final(ball).radius == old(ball).radius,
{
    match advance(ball.position, ball.velocity, speed) {
        Some(next) => {
            ball.position = next;
            true
        },
        None => false,
    }
}

/// Moves every paddle by one tick, each within the bound that its own height
/// gives it in a window of height `window_height` with gutters of height
/// `gutter_height`.
pub fn move_paddles(paddles: &mut Vec<Paddle>, speed: i32, window_height: u32, gutter_height: u32)
    ensures
        final(paddles)@.len() == old(paddles)@.len(),
        forall|i: int|
            0 <= i < old(paddles)@.len() ==> paddle_stepped(
                #[trigger] final(paddles)@[i],
                old(paddles)@[i],
                speed as int,
                window_height as int,
                gutter_height as int,
            ),
{
    let ghost before: Seq<Paddle> = paddles@;
    let mut i: usize = 0;
    while i < paddles.len()
        invariant
            i <= paddles.len(),
            paddles@.len() == before.len(),
            forall|j: int|
                0 <= j < i ==> paddle_stepped(
                    #[trigger] paddles@[j],
                    before[j],
                    speed as int,
                    window_height as int,
                    gutter_height as int,
                ),
            forall|j: int| i <= j < before.len() ==> paddles@[j] == before[j],
        decreases paddles.len() - i,
    {
        let mut paddle: Paddle = paddles[i];
        let max_y: i64 = max_paddle_y(window_height, gutter_height, paddle.shape.height);
        move_paddle(&mut paddle, speed, max_y);
        paddles.set(i, paddle);
        i += 1;
    }
}

} // verus!
