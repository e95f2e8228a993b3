//! Scene content: the bodies that a level is built from, kept as plain data
//! apart from the collision logic that consumes them.
//!
//! All lengths are in fixed-point steps, a thousand to the world unit.

use vstd::prelude::*;
use crate::entity::Gutter;
use crate::geometry::{Position, Shape};

verus! {

/// Whether a body is moved by the physics of the world or stands still.
#[derive(Clone, Copy, Debug, PartialEq, Eq, Structural)]
pub enum Rigidity {
    Static,
    Dynamic,
}

/// The outline of a body, around its own origin.
#[derive(Clone, Copy, Debug, PartialEq, Eq)]
pub enum Outline {
    /// An axis-aligned rectangle centered on the origin.
    Rectangle { width: u32, height: u32 },
    /// A triangle with its three corners given relative to the origin.
    Triangle { a: Position, b: Position, c: Position },
    /// An upright capsule centered on the origin: a rectangle of the given
    /// length between two half circles of the given radius.
    Capsule { radius: u32, length: u32 },
}

/// One body of a scene: where its origin lies, its outline, and whether it
/// moves.
#[derive(Clone, Copy, Debug, PartialEq, Eq)]
pub struct Body {
    pub position: Position,
    pub outline: Outline,
    pub rigidity: Rigidity,
}

/// The position with the given coordinates.
pub open spec fn point(x: int, y: int) -> Position {
    Position { x: x as i32, y: y as i32 }
}

/// A rectangular body.
pub open spec fn block(x: int, y: int, width: u32, height: u32, rigidity: Rigidity) -> Body {
    Body { position: point(x, y), outline: Outline::Rectangle { width, height }, rigidity }
}

/// A fixed triangular body.
pub open spec fn ramp(x: int, y: int, a: Position, b: Position, c: Position) -> Body {
    Body { position: point(x, y), outline: Outline::Triangle { a, b, c }, rigidity: Rigidity::Static }
}

/// The levels that can be played.
#[derive(Clone, Copy, Debug, PartialEq, Eq, Structural)]
pub enum Level {
    Level1,
}

impl Level {
    /// The bodies of a level, in the order in which they are put into the
    /// world.
    ///
    /// The first level holds a loose cube, a long floor, two ledges, two
    /// blocks at the far ends of the floor, and two ramps.
    pub open spec fn layout(self) -> Seq<Body> {
        match self {
            Level::Level1 => seq![
                block(50_000, -100_000, 30_000, 30_000, Rigidity::Dynamic),
                block(0, -175_000, 1_100_000, 50_000, Rigidity::Static),
                block(175_000, -35_000, 300_000, 25_000, Rigidity::Static),
                block(-175_000, 0, 300_000, 25_000, Rigidity::Static),
                block(475_000, -110_000, 150_000, 80_000, Rigidity::Static),
                block(-475_000, -110_000, 150_000, 80_000, Rigidity::Static),
                ramp(
                    -275_000,
                    -150_000,
                    point(-125_000, 80_000),
                    point(-125_000, 0),
                    point(125_000, 0),
                ),
                ramp(
                    380_000,
                    -110_000,
                    point(20_000, -40_000),
                    point(20_000, 40_000),
                    point(-20_000, -40_000),
                ),
            ],
        }
    }

    /// The bodies of a level, in the order in which they are put into the
    /// world.
    pub fn bodies(&self) -> (bodies: Vec<Body>)
        ensures
            bodies@ == self.layout(),
    {
        let mut bodies: Vec<Body> = Vec::new();
        match self {
            Level::Level1 => {
                bodies.push(rectangle(50_000, -100_000, 30_000, 30_000, Rigidity::Dynamic));
                bodies.push(rectangle(0, -175_000, 1_100_000, 50_000, Rigidity::Static));
                bodies.push(rectangle(175_000, -35_000, 300_000, 25_000, Rigidity::Static));
                bodies.push(rectangle(-175_000, 0, 300_000, 25_000, Rigidity::Static));
                bodies.push(rectangle(475_000, -110_000, 150_000, 80_000, Rigidity::Static));
                bodies.push(rectangle(-475_000, -110_000, 150_000, 80_000, Rigidity::Static));
                bodies.push(
                    triangle(
                        -275_000,
                        -150_000,
                        Position::new(-125_000, 80_000),
                        Position::new(-125_000, 0),
                        Position::new(125_000, 0),
                    ),
                );
                bodies.push(
                    triangle(
                        380_000,
                        -110_000,
                        Position::new(20_000, -40_000),
                        Position::new(20_000, 40_000),
                        Position::new(-20_000, -40_000),
                    ),
                );
            },
        }
        assert(bodies@ =~= self.layout());
        bodies
    }
}

/// The body that the player steers: an upright capsule that stands a little
/// above the floor.
pub open spec fn player_body() -> Body {
    Body {
        position: point(0, -100_000),
        outline: Outline::Capsule { radius: 12_500, length: 20_000 },
        rigidity: Rigidity::Dynamic,
    }
}

/// The body that the player steers.
pub fn player() -> (body: Body)
    ensures
        body == player_body(),
{
    Body {
        position: Position::new(0, -100_000),
        outline: Outline::Capsule { radius: 12_500, length: 20_000 },
        rigidity: Rigidity::Dynamic,
    }
}

fn rectangle(x: i32, y: i32, width: u32, height: u32, rigidity: Rigidity) -> (body: Body)
    ensures
        body == block(x as int, y as int, width, height, rigidity),
{
    Body { position: Position::new(x, y), outline: Outline::Rectangle { width, height }, rigidity }
}

fn triangle(x: i32, y: i32, a: Position, b: Position, c: Position) -> (body: Body)
    ensures
        body == ramp(x as int, y as int, a, b, c),
{
    Body {
        position: Position::new(x, y),
        outline: Outline::Triangle { a, b, c },
        rigidity: Rigidity::Static,
    }
}

/// The wall that a body makes for the ball: a fixed rectangle is one, with
/// the body's position and extent; nothing else is.
pub open spec fn wall_of(body: Body) -> Option<Gutter> {
    match body.outline {
        Outline::Rectangle { width, height } => if body.rigidity == Rigidity::Static {
            Some(Gutter { position: body.position, shape: Shape { width, height } })
        } else {
            None
        },
        _ => None,
    }
}

/// The walls that `bodies` make, in the order of the bodies.
pub open spec fn walls_of(bodies: Seq<Body>) -> Seq<Gutter>
    decreases bodies.len(),
{
    if bodies.len() == 0 {
        Seq::empty()
    } else {
        match wall_of(bodies.last()) {
            Some(wall) => walls_of(bodies.drop_last()).push(wall),
            None => walls_of(bodies.drop_last()),
        }
    }
}

/// The wall that a body makes for the ball, if it makes one.
pub fn wall(body: &Body) -> (wall: Option<Gutter>)
    ensures
        wall == wall_of(*body),
{
    match body.outline {
        Outline::Rectangle { width, height } => match body.rigidity {
            Rigidity::Static => Some(Gutter::new(body.position, Shape::new(width, height))),
            Rigidity::Dynamic => None,
        },
        _ => None,
    }
}

/// Builds the static geometry of a scene: the walls that its bodies make, in
/// the order of the bodies.
pub fn build_static_geometry(bodies: &Vec<Body>) -> (walls: Vec<Gutter>)
    ensures
        walls@ == walls_of(bodies@),
{
    let mut walls: Vec<Gutter> = Vec::new();
    let mut i: usize = 0;
    while i < bodies.len()
        invariant
            i <= bodies.len(),
            walls@ == walls_of(bodies@.take(i as int)),
        decreases bodies.len() - i,
    {
        match wall(&bodies[i]) {
            Some(found) => walls.push(found),
            None => {},
        }
        proof {
            let seen = bodies@.take(i + 1);
            assert(seen.drop_last() == bodies@.take(i as int));
            assert(seen.last() == bodies@[i as int]);
        }
        i += 1;
    }
    proof {
        assert(bodies@.take(bodies@.len() as int) == bodies@);
    }
    walls
}

} // verus!
