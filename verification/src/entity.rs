//! The bodies of the game: one ball, the paddles, and the gutters that bound
//! the court.

use vstd::prelude::*;
use crate::geometry::{bounds_of, Aabb, Circle, Disc, Position, Rect, Shape, Vector, UNIT};
use crate::velocity::Velocity;

verus! {

/// The ball: a circle that travels.
#[derive(Clone, Copy, Debug, PartialEq, Eq)]
pub struct Ball {
    pub position: Position,
    pub velocity: Velocity,
    pub radius: u32,
}

impl Ball {
    pub fn new(position: Position, velocity: Velocity, radius: u32) -> (ball: Ball)
        ensures
            ball.position == position,
            ball.velocity == velocity,
            ball.radius == radius,
    {
        Ball { position, velocity, radius }
    }

    /// The region of the plane that the ball covers.
    pub open spec fn disc(self) -> Disc {
        Disc { center: self.position@, radius: self.radius as int }
    }

    /// The ball's bounding circle.
    pub fn circle(&self) -> (circle: Circle)
        ensures
            circle.center == self.position,
            circle.radius == self.radius,
            circle@ == self.disc(),
    {
        Circle { center: self.position, radius: self.radius }
    }
}

/// What the player, or whoever steers a paddle, asks of it for one tick.
#[derive(Clone, Copy, Debug, PartialEq, Eq, Structural)]
pub enum Intent {
    Down,
    Stay,
    Up,
}

impl Intent {
    /// The intent as a vertical direction: -1, 0 or 1.
    pub open spec fn direction(self) -> int {
        match self {
            Intent::Down => -1,
            Intent::Stay => 0,
            Intent::Up => 1,
        }
    }

    /// The intent that a direction of -1, 0 or 1 stands for. No other number
    /// is an intent.
    pub fn from_direction(direction: i32) -> (intent: Option<Intent>)
        ensures
            intent is Some <==> -1 <= direction <= 1,
            intent matches Some(found) ==> found.direction() == direction,
    {
        if direction == -1 {
            Some(Intent::Down)
        } else if direction == 0 {
            Some(Intent::Stay)
        } else if direction == 1 {
            Some(Intent::Up)
        } else {
            None
        }
    }
}

/// A paddle: a rectangle that travels up and down.
#[derive(Clone, Copy, Debug, PartialEq, Eq)]
pub struct Paddle {
    pub position: Position,
    pub velocity: Velocity,
    pub shape: Shape,
}

impl Paddle {
    pub fn new(position: Position, velocity: Velocity, shape: Shape) -> (paddle: Paddle)
        ensures
            paddle.position == position,
            paddle.velocity == velocity,
            paddle.shape == shape,
    {
        Paddle { position, velocity, shape }
    }

    /// A paddle has a height: the ball is sent back at an angle measured
    /// against it.
    pub open spec fn well_formed(self) -> bool {
        self.shape.height > 0
    }

    /// The region of the plane that the paddle covers.
    pub open spec fn bounds(self) -> Rect {
        bounds_of(self.position@, self.shape)
    }

    /// The paddle's bounding box.
    pub fn aabb(&self) -> (aabb: Aabb)
        ensures
            aabb@ == self.bounds(),
    {
        Aabb::from_shape(self.position, self.shape)
    }

    /// Takes up an intent: the vertical velocity becomes one unit in the
    /// direction asked for, or zero. Nothing else changes.
    pub fn steer(&mut self, intent: Intent)
        ensures
            final(self).position == old(self).position,
            final(self).shape == old(self).shape,
            final(self).velocity@ == (Vector {
                x: old(self).velocity@.x,
                y: intent.direction() * UNIT,
            }),
    {
        let y: i32 = match intent {
            Intent::Down => -UNIT,
            Intent::Stay => 0,
            Intent::Up => UNIT,
        };
        self.velocity.set_y(y);
    }
}

/// A gutter: a fixed rectangle at the edge of the court.
#[derive(Clone, Copy, Debug, PartialEq, Eq)]
pub struct Gutter {
    pub position: Position,
    pub shape: Shape,
}

impl Gutter {
    pub fn new(position: Position, shape: Shape) -> (gutter: Gutter)
        ensures
            gutter.position == position,
            gutter.shape == shape,
    {
        Gutter { position, shape }
    }

    /// The region of the plane that the gutter covers.
    pub open spec fn bounds(self) -> Rect {
        bounds_of(self.position@, self.shape)
    }

    /// The gutter's bounding box.
    pub fn aabb(&self) -> (aabb: Aabb)
        ensures
            aabb@ == self.bounds(),
    {
        Aabb::from_shape(self.position, self.shape)
    }
}

} // verus!
