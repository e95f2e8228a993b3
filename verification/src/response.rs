//! Collision response: what a detected collision does to the ball's velocity.

use vstd::prelude::*;
use crate::collision::{collide_with_paddle, collide_with_side, paddle_hit, side_hit, Side};
use crate::entity::{Ball, Gutter, Paddle};
use crate::geometry::{Aabb, Circle, Disc, Vector};
use crate::velocity::Velocity;

verus! {

/// A velocity after the ball has met a wall on `side`: the component across
/// that side is turned around, the other is kept.
pub open spec fn reflected(velocity: Vector, side: Side) -> Vector {
    match side {
        Side::Left | Side::Right => Vector { x: -velocity.x, y: velocity.y },
        Side::Top | Side::Bottom => Vector { x: velocity.x, y: -velocity.y },
    }
}

/// A velocity after the ball has been tested against one wall.
pub open spec fn after_wall(ball: Disc, velocity: Vector, gutter: Gutter) -> Vector {
    match side_hit(ball, gutter.bounds()) {
        Some(side) => reflected(velocity, side),
        None => velocity,
    }
}

/// A velocity after the ball has been tested against each of `gutters` in
/// turn. Every gutter that the ball intersects turns one component around.
pub open spec fn after_walls(ball: Disc, velocity: Vector, gutters: Seq<Gutter>) -> Vector
    decreases gutters.len(),
{
    if gutters.len() == 0 {
        velocity
    } else {
        after_wall(ball, after_walls(ball, velocity, gutters.drop_last()), gutters.last())
    }
}

/// A velocity after the ball has been tested against one paddle: a paddle
/// that the ball intersects replaces the velocity as a whole.
pub open spec fn after_paddle(ball: Disc, velocity: Vector, paddle: Paddle) -> Vector {
    match paddle_hit(ball, paddle.position@, paddle.shape) {
        Some(deflection) => deflection,
        None => velocity,
    }
}

/// A velocity after the ball has been tested against each of `paddles` in
/// turn. Where the ball intersects several, the last of them decides.
pub open spec fn after_paddles(ball: Disc, velocity: Vector, paddles: Seq<Paddle>) -> Vector
    decreases paddles.len(),
{
    if paddles.len() == 0 {
        velocity
    } else {
        after_paddle(ball, after_paddles(ball, velocity, paddles.drop_last()), paddles.last())
    }
}

/// One round of responses: the gutters first, then the paddles.
pub open spec fn after_round(
    ball: Disc,
    velocity: Vector,
    gutters: Seq<Gutter>,
    paddles: Seq<Paddle>,
) -> Vector {
    after_paddles(ball, after_walls(ball, velocity, gutters), paddles)
}

/// The velocity after `rounds` rounds of responses with nothing moved in
/// between.
pub open spec fn after_rounds(
    ball: Disc,
    velocity: Vector,
    gutters: Seq<Gutter>,
    paddles: Seq<Paddle>,
    rounds: nat,
) -> Vector
    decreases rounds,
{
    if rounds == 0 {
        velocity
    } else {
        after_round(
            ball,
            after_rounds(ball, velocity, gutters, paddles, (rounds - 1) as nat),
            gutters,
            paddles,
        )
    }
}

/// The ball intersects none of the gutters and none of the paddles.
pub open spec fn clear_of_all(ball: Disc, gutters: Seq<Gutter>, paddles: Seq<Paddle>) -> bool {
    &&& forall|i: int| 0 <= i < gutters.len() ==> !ball.intersects((#[trigger] gutters[i]).bounds())
    &&& forall|i: int| 0 <= i < paddles.len() ==> !ball.intersects((#[trigger] paddles[i]).bounds())
}

/// Side flip: a collision on the left or right turns the horizontal component
/// around and keeps the vertical one; a collision on the top or bottom turns
/// the vertical component around and keeps the horizontal one.
pub proof fn side_flip(velocity: Vector, side: Side)
    ensures
        (side == Side::Left || side == Side::Right) ==> reflected(velocity, side) == (Vector {
            x: -velocity.x,
            y: velocity.y,
        }),
        (side == Side::Top || side == Side::Bottom) ==> reflected(velocity, side) == (Vector {
            x: velocity.x,
            y: -velocity.y,
        }),
{
}

/// A response to a paddle owes nothing to the velocity that it replaces, and
/// it leads to the right exactly if the ball's center is right of the
/// paddle's.
pub proof fn paddle_response_forgets(ball: Disc, first: Vector, second: Vector, paddle: Paddle)
    requires
        ball.intersects(paddle.bounds()),
    ensures
        after_paddle(ball, first, paddle) == after_paddle(ball, second, paddle),
        after_paddle(ball, first, paddle).x > 0 <==> ball.center.x > paddle.position@.x,
{
}

/// Gutters that the ball does not intersect leave its velocity alone.
pub proof fn clear_gutters_change_nothing(ball: Disc, velocity: Vector, gutters: Seq<Gutter>)
    requires
        forall|i: int| 0 <= i < gutters.len() ==> !ball.intersects((#[trigger] gutters[i]).bounds()),
    ensures
        after_walls(ball, velocity, gutters) == velocity,
    decreases gutters.len(),
{
    if gutters.len() > 0 {
        clear_gutters_change_nothing(ball, velocity, gutters.drop_last());
    }
}

/// Paddles that the ball does not intersect leave its velocity alone.
pub proof fn clear_paddles_change_nothing(ball: Disc, velocity: Vector, paddles: Seq<Paddle>)
    requires
        forall|i: int| 0 <= i < paddles.len() ==> !ball.intersects((#[trigger] paddles[i]).bounds()),
    ensures
        after_paddles(ball, velocity, paddles) == velocity,
    decreases paddles.len(),
{
    if paddles.len() > 0 {
        clear_paddles_change_nothing(ball, velocity, paddles.drop_last());
    }
}

/// Where nothing is in contact, detection and response may run any number
/// of times and the velocity stays what it was.
pub proof fn no_contact_no_change(
    ball: Disc,
    velocity: Vector,
    gutters: Seq<Gutter>,
    paddles: Seq<Paddle>,
    rounds: nat,
)
    requires
        clear_of_all(ball, gutters, paddles),
    ensures
        after_rounds(ball, velocity, gutters, paddles, rounds) == velocity,
    decreases rounds,
{
    if rounds > 0 {
        no_contact_no_change(ball, velocity, gutters, paddles, (rounds - 1) as nat);
        clear_gutters_change_nothing(ball, velocity, gutters);
        clear_paddles_change_nothing(ball, velocity, paddles);
    }
}

/// Response to a boundary collision: exactly one component of the velocity
/// changes sign.
pub fn respond_to_side(velocity: &mut Velocity, side: Side)
    ensures
        final(velocity)@ == reflected(old(velocity)@, side),
{
    match side {
        Side::Left | Side::Right => velocity.flip_x(),
        Side::Top | Side::Bottom => velocity.flip_y(),
    }
}

/// Response to a paddle collision: the velocity is overwritten, and nothing
/// of the old one remains.
pub fn respond_to_paddle(velocity: &mut Velocity, deflection: Velocity)
    ensures
        *final(velocity) == deflection,
{
    *velocity = deflection;
}

/// Tests the ball against one gutter and responds to the collision, if there
/// is one. Returns the side that the ball met. The ball stays where it is;
/// only its velocity changes.
///
/// The last two clauses repeat, without squares, what follows from the
/// first: when there is a collision with a gutter whose nearest point lies
/// along an axis from the ball, and that a gutter which is not near is not
/// met.
pub fn bounce_off_gutter(ball: &mut Ball, gutter: &Gutter) -> (hit: Option<Side>)
    ensures
        hit == side_hit(old(ball).disc(), gutter.bounds()),
        final(ball).position == old(ball).position,
        final(ball).radius == old(ball).radius,
        final(ball).velocity@ == after_wall(old(ball).disc(), old(ball).velocity@, *gutter),
        old(ball).disc().offset_from(gutter.bounds()).along_an_axis() ==> (hit is Some <==> old(
            ball,
        ).disc().offset_from(gutter.bounds()).span() <= old(ball).radius),
        hit is Some ==> old(ball).disc().near(gutter.bounds()),
{
    let circle: Circle = ball.circle();
    let wall: Aabb = gutter.aabb();
    let hit: Option<Side> = collide_with_side(&circle, &wall);
    match hit {
        Some(side) => respond_to_side(&mut ball.velocity, side),
        None => {},
    }
    hit
}

/// Tests the ball against one paddle and responds to the collision, if there
/// is one. Returns whether the ball met the paddle. The ball stays where it
/// is; only its velocity changes.
///
/// The last two clauses repeat, without squares, what follows from the
/// first: when there is a collision with a paddle whose nearest point lies
/// along an axis from the ball, and that a paddle which is not near is not
/// met.
pub fn bounce_off_paddle(ball: &mut Ball, paddle: &Paddle) -> (hit: bool)
    requires
        paddle.well_formed(),
    ensures
        hit == old(ball).disc().intersects(paddle.bounds()),
        final(ball).position == old(ball).position,
        final(ball).radius == old(ball).radius,
        final(ball).velocity@ == after_paddle(old(ball).disc(), old(ball).velocity@, *paddle),
        old(ball).disc().offset_from(paddle.bounds()).along_an_axis() ==> (hit <==> old(
            ball,
        ).disc().offset_from(paddle.bounds()).span() <= old(ball).radius),
        hit ==> old(ball).disc().near(paddle.bounds()),
{
    let circle: Circle = ball.circle();
    match collide_with_paddle(&circle, &paddle.position, &paddle.shape) {
        Some(deflection) => {
            respond_to_paddle(&mut ball.velocity, deflection);
            true
        },
        None => false,
    }
}

/// Tests the ball against every gutter, in order, and responds to each
/// collision found. The ball stays where it is; only its velocity changes.
pub fn bounce_off_gutters(ball: &mut Ball, gutters: &Vec<Gutter>)
    ensures
        final(ball).position == old(ball).position,
        final(ball).radius == old(ball).radius,
        final(ball).velocity@ == after_walls(old(ball).disc(), old(ball).velocity@, gutters@),
{
    let ghost start: Ball = *ball;
    let mut i: usize = 0;
    while i < gutters.len()
        invariant
            i <= gutters.len(),
            ball.position == start.position,
            ball.radius == start.radius,
            ball.velocity@ == after_walls(start.disc(), start.velocity@, gutters@.take(i as int)),
        decreases gutters.len() - i,
    {
        bounce_off_gutter(ball, &gutters[i]);
        proof {
            let seen = gutters@.take(i + 1);
            assert(seen.drop_last() == gutters@.take(i as int));
            assert(seen.last() == gutters@[i as int]);
        }
        i += 1;
    }
    proof {
        assert(gutters@.take(gutters@.len() as int) == gutters@);
    }
}

/// Tests the ball against every paddle, in order, and responds to each
/// collision found. The ball stays where it is; only its velocity changes.
pub fn bounce_off_paddles(ball: &mut Ball, paddles: &Vec<Paddle>)
    requires
        forall|i: int| 0 <= i < paddles@.len() ==> (#[trigger] paddles@[i]).well_formed(),
    ensures
        final(ball).position == old(ball).position,
        final(ball).radius == old(ball).radius,
        final(ball).velocity@ == after_paddles(old(ball).disc(), old(ball).velocity@, paddles@),
{
    let ghost start: Ball = *ball;
    let mut i: usize = 0;
    while i < paddles.len()
        invariant
            i <= paddles.len(),
            forall|i: int| 0 <= i < paddles@.len() ==> (#[trigger] paddles@[i]).well_formed(),
            ball.position == start.position,
            ball.radius == start.radius,
            ball.velocity@ == after_paddles(start.disc(), start.velocity@, paddles@.take(i as int)),
        decreases paddles.len() - i,
    {
        bounce_off_paddle(ball, &paddles[i]);
        proof {
            let seen = paddles@.take(i + 1);
            assert(seen.drop_last() == paddles@.take(i as int));
            assert(seen.last() == paddles@[i as int]);
        }
        i += 1;
    }
    proof {
        assert(paddles@.take(paddles@.len() as int) == paddles@);
    }
}

} // verus!
