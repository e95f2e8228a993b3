//! Collision core of a small paddle-and-ball game: discrete, per-tick
//! detection of a circle against axis-aligned boxes, the velocity responses
//! that follow, and the movement rules of ball and paddles.
//!
//! Lengths and coordinates are whole numbers of fixed-point steps,
//! [`geometry::UNIT`] of them to the world unit, so every result is exact and
//! the same on every machine. Positions and extents are 32 bits wide and
//! velocities 64; a speed is a plain factor. Each type has a view into the
//! unbounded integer plane, and what a function returns is stated there.
//!
//! * [`geometry`]: points, boxes, circles, nearest point and intersection.
//! * [`velocity`]: the velocity of a body.
//! * [`entity`]: ball, paddle and gutter.
//! * [`movement`]: one tick of travel, and the bound on a paddle's travel.
//! * [`collision`]: which side of a wall the ball met; how a paddle sends it
//!   back.
//! * [`response`]: what a collision does to the ball's velocity.
//! * [`world`]: the court as a whole and the order of events in a tick.
//! * [`scene`]: the bodies of a level as plain data.

pub mod geometry;
pub mod velocity;
pub mod entity;
pub mod movement;
pub mod collision;
pub mod response;
pub mod world;
pub mod scene;
