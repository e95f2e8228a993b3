//! Velocity of a moving body.

use vstd::prelude::*;
use crate::geometry::Vector;

verus! {

/// A direction of travel, in fixed-point steps per unit of speed.
///
/// Both components can always be negated: the one 64-bit value that has no
/// negative counterpart is never held.
#[derive(Clone, Copy, Debug, PartialEq, Eq)]
pub struct Velocity {
    x: i64,
    y: i64,
}

impl View for Velocity {
    type V = Vector;

    closed spec fn view(&self) -> Vector {
        Vector { x: self.x as int, y: self.y as int }
    }
}

impl Velocity {
    #[verifier::type_invariant]
    spec fn negatable(self) -> bool {
        self.x > i64::MIN && self.y > i64::MIN
    }

    /// Whether a velocity with these components can be held.
    pub open spec fn admits(v: Vector) -> bool {
        &&& i64::MIN < v.x <= i64::MAX
        &&& i64::MIN < v.y <= i64::MAX
    }

    /// The velocity with the given components.
    pub fn new(x: i32, y: i32) -> (velocity: Velocity)
        ensures
            velocity@ == (Vector { x: x as int, y: y as int }),
    {
        Velocity { x: x as i64, y: y as i64 }
    }

    /// The velocity with the given components, if it can be held.
    pub fn checked(x: i64, y: i64) -> (velocity: Option<Velocity>)
        ensures
            velocity is Some <==> Self::admits(Vector { x: x as int, y: y as int }),
            velocity matches Some(v) ==> v@ == (Vector { x: x as int, y: y as int }),
    {
        if x > i64::MIN && y > i64::MIN {
            Some(Velocity::from_parts(x, y))
        } else {
            None
        }
    }

    /// The velocity with the given components, both of which can be negated.
    pub(crate) fn from_parts(x: i64, y: i64) -> (velocity: Velocity)
        requires
            Self::admits(Vector { x: x as int, y: y as int }),
        ensures
            velocity@ == (Vector { x: x as int, y: y as int }),
    {
        Velocity { x, y }
    }

    /// A velocity at rest.
    pub fn zero() -> (velocity: Velocity)
        ensures
            velocity@ == (Vector { x: 0, y: 0 }),
    {
        Velocity { x: 0, y: 0 }
    }

    pub fn x(&self) -> (x: i64)
        ensures
            x == self@.x,
            x > i64::MIN,
    {
        proof {
            use_type_invariant(self);
        }
        self.x
    }

    pub fn y(&self) -> (y: i64)
        ensures
            y == self@.y,
            y > i64::MIN,
    {
        proof {
            use_type_invariant(self);
        }
        self.y
    }

    /// Turns the horizontal component around and keeps the vertical one.
    pub fn flip_x(&mut self)
        ensures
            final(self)@ == (Vector { x: -old(self)@.x, y: old(self)@.y }),
    {
        proof {
            use_type_invariant(&*self);
        }
        self.x = -self.x;
    }

    /// Turns the vertical component around and keeps the horizontal one.
    pub fn flip_y(&mut self)
        ensures
            final(self)@ == (Vector { x: old(self)@.x, y: -old(self)@.y }),
    {
        proof {
            use_type_invariant(&*self);
        }
        self.y = -self.y;
    }

    /// Replaces the vertical component and keeps the horizontal one.
    pub fn set_y(&mut self, y: i32)
        ensures
            final(self)@ == (Vector { x: old(self)@.x, y: y as int }),
    {
        proof {
            use_type_invariant(&*self);
        }
        self.y = y as i64;
    }

    /// Two velocities with the same components are the same velocity.
    pub proof fn view_is_injective(self, other: Velocity)
        requires
            self@ == other@,
        ensures
            self == other,
    {
    }
}

} // verus!
