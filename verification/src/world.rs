//! The court as a whole, and the order of events within one tick.

use vstd::prelude::*;
use crate::entity::{Ball, Gutter, Intent, Paddle};
use crate::geometry::{Vector, UNIT};
use crate::movement::{ball_advanced, move_ball, move_paddles, paddle_advanced, paddle_limit};
use crate::response::{after_paddles, after_walls, bounce_off_gutters, bounce_off_paddles};

verus! {

/// The numbers that a game is played by.
#[derive(Clone, Copy, Debug, PartialEq, Eq)]
pub struct Rules {
    /// Distance that the ball covers per tick and unit of velocity.
    pub ball_speed: i32,
    /// Distance that a paddle covers per tick and unit of velocity.
    pub paddle_speed: i32,
    /// Height of the window that shows the court.
    pub window_height: u32,
    /// Height of the gutters at the top and bottom of the court.
    pub gutter_height: u32,
}

/// Everything on the court. There is at most one ball.
pub struct World {
    pub ball: Option<Ball>,
    pub paddles: Vec<Paddle>,
    pub gutters: Vec<Gutter>,
}

/// A paddle's velocity once it has taken up an intent.
pub open spec fn steered(velocity: Vector, intent: Intent) -> Vector {
    Vector { x: velocity.x, y: intent.direction() * UNIT }
}

impl World {
    /// Every paddle on the court has a height.
    pub open spec fn well_formed(&self) -> bool {
        forall|i: int| 0 <= i < self.paddles@.len() ==> (#[trigger] self.paddles@[i]).well_formed()
    }

    /// The velocity with which paddle `i` moves in a tick in which paddle
    /// `player` takes up `intent`.
    pub open spec fn velocity_in_force(&self, i: int, player: int, intent: Intent) -> Vector {
        if i == player {
            steered(self.paddles@[i].velocity@, intent)
        } else {
            self.paddles@[i].velocity@
        }
    }

    /// `after` is paddle `i` of this court one tick later.
    pub open spec fn paddle_ticked(&self, after: Paddle, i: int, rules: Rules, player: int, intent: Intent) -> bool {
        let before = self.paddles@[i];
        let velocity = self.velocity_in_force(i, player, intent);
        &&& after.shape == before.shape
        &&& after.velocity@ == velocity
        &&& after.position@ == paddle_advanced(
            before.position@,
            velocity,
            rules.paddle_speed as int,
            paddle_limit(
                rules.window_height as int,
                rules.gutter_height as int,
                before.shape.height as int,
            ),
        )
    }

    /// `after` is the ball `before` one tick later, on this court as it
    /// stands once its paddles have moved: the ball has moved with the
    /// velocity that it had, and its new velocity answers first the gutters
    /// and then the paddles that it meets in its new place.
    pub open spec fn ball_ticked(&self, after: Ball, before: Ball, rules: Rules) -> bool {
        &&& after.radius == before.radius
        &&& after.position@ == ball_advanced(
            before.position@,
            before.velocity@,
            rules.ball_speed as int,
        )
        &&& after.velocity@ == after_paddles(
            after.disc(),
            after_walls(after.disc(), before.velocity@, self.gutters@),
            self.paddles@,
        )
    }

    /// A court with gutters and nothing else on it.
    pub fn new(gutters: Vec<Gutter>) -> (world: World)
        ensures
            world.ball is None,
            world.paddles@.len() == 0,
            world.gutters == gutters,
            world.well_formed(),
    {
        World { ball: None, paddles: Vec::new(), gutters }
    }

    /// Puts a paddle on the court, behind those already there.
    pub fn add_paddle(&mut self, paddle: Paddle)
        requires
            old(self).well_formed(),
            paddle.well_formed(),
        ensures
            final(self).well_formed(),
            final(self).paddles@ == old(self).paddles@.push(paddle),
            final(self).ball == old(self).ball,
            final(self).gutters == old(self).gutters,
    {
        self.paddles.push(paddle);
    }

    /// Advances the court by one tick.
    ///
    /// First the paddle at index `player`, if there is one, takes up
    /// `intent`. Then every paddle and the ball move. Then the ball, where it
    /// now stands, is tested against the gutters and after them against the
    /// paddles, where they now stand, and its velocity answers each
    /// collision; the new velocity moves the ball from the next tick on.
    /// Without a ball, only the paddles move.
    pub fn tick(&mut self, rules: &Rules, player: usize, intent: Intent)
        requires
            old(self).well_formed(),
        ensures
            final(self).well_formed(),
            final(self).gutters == old(self).gutters,
            final(self).paddles@.len() == old(self).paddles@.len(),
            forall|i: int|
                0 <= i < old(self).paddles@.len() ==> old(self).paddle_ticked(
                    #[trigger] final(self).paddles@[i],
                    i,
                    *rules,
                    player as int,
                    intent,
                ),
            old(self).ball is Some <==> final(self).ball is Some,
            old(self).ball is Some ==> final(self).ball_ticked(
                final(self).ball->Some_0,
                old(self).ball->Some_0,
                *rules,
            ),
    {
        if player < self.paddles.len() {
            let mut paddle: Paddle = self.paddles[player];
            paddle.steer(intent);
            self.paddles.set(player, paddle);
        }
        move_paddles(
            &mut self.paddles,
            rules.paddle_speed,
            rules.window_height,
            rules.gutter_height,
        );
        match self.ball {
            Some(before) => {
                let mut ball: Ball = before;
                move_ball(&mut ball, rules.ball_speed);
                bounce_off_gutters(&mut ball, &self.gutters);
                bounce_off_paddles(&mut ball, &self.paddles);
                self.ball = Some(ball);
            },
            None => {},
        }
    }
}

} // verus!
