//! Geometry primitives: points, axis-aligned boxes and circles.
//!
//! Every coordinate is a whole number of fixed-point steps, [`UNIT`] of them to
//! one world unit. The executable types are bounded; each has a view into the
//! unbounded plane, and the queries are defined there.

use vstd::prelude::*;

verus! {

/// Number of fixed-point steps in one world unit.
pub const UNIT: i32 = 1000;

/// Magnitude of an integer.
pub open spec fn abs(a: int) -> int {
    if a < 0 {
        -a
    } else {
        a
    }
}

/// `value` moved into the interval from `low` to `high`.
pub open spec fn clamp(value: int, low: int, high: int) -> int {
    if value < low {
        low
    } else if value > high {
        high
    } else {
        value
    }
}

/// A point, or a displacement, of the unbounded integer plane.
pub struct Vector {
    pub x: int,
    pub y: int,
}

impl Vector {
    /// Displacement that leads from `other` to `self`.
    pub open spec fn minus(self, other: Vector) -> Vector {
        Vector { x: self.x - other.x, y: self.y - other.y }
    }

    /// Square of the Euclidean distance between two points.
    pub open spec fn distance_squared(self, other: Vector) -> int {
        (self.x - other.x) * (self.x - other.x) + (self.y - other.y) * (self.y - other.y)
    }

    /// Whether the vector runs along one of the two axes. The zero vector
    /// does.
    pub open spec fn along_an_axis(self) -> bool {
        self.x == 0 || self.y == 0
    }

    /// Sum of the magnitudes of the two components. For a vector that runs
    /// along an axis this is its length.
    pub open spec fn span(self) -> int {
        abs(self.x) + abs(self.y)
    }

    /// Whether both coordinates fit a [`Position`].
    pub open spec fn representable(self) -> bool {
        &&& i32::MIN <= self.x <= i32::MAX
        &&& i32::MIN <= self.y <= i32::MAX
    }
}

/// An axis-aligned box of the plane, given by its two extreme corners.
pub struct Rect {
    pub min: Vector,
    pub max: Vector,
}

impl Rect {
    /// The corners are in order on both axes.
    pub open spec fn well_formed(self) -> bool {
        self.min.x <= self.max.x && self.min.y <= self.max.y
    }

    /// Whether the point lies in the box, border included.
    pub open spec fn contains(self, point: Vector) -> bool {
        &&& self.min.x <= point.x <= self.max.x
        &&& self.min.y <= point.y <= self.max.y
    }

    /// The point of the box nearest to `point`: each coordinate is clamped
    /// into the box's extent on its own axis.
    pub open spec fn closest_point(self, point: Vector) -> Vector {
        Vector {
            x: clamp(point.x, self.min.x, self.max.x),
            y: clamp(point.y, self.min.y, self.max.y),
        }
    }
}

/// A circle of the plane together with its interior.
pub struct Disc {
    pub center: Vector,
    pub radius: int,
}

impl Disc {
    /// Displacement from the point of `rect` nearest to the circle's center
    /// to that center. It is zero where the center lies in the box.
    pub open spec fn offset_from(self, rect: Rect) -> Vector {
        self.center.minus(rect.closest_point(self.center))
    }

    /// Whether circle and box touch or overlap: the distance from the
    /// circle's center to the nearest point of the box is at most the radius.
    /// The comparison is made between the squares, which is the same for a
    /// radius that is not negative.
    pub open spec fn intersects(self, rect: Rect) -> bool {
        &&& self.radius >= 0
        &&& self.center.distance_squared(rect.closest_point(self.center)) <= self.radius
            * self.radius
    }

    /// Whether the box comes within the radius of the center on each axis
    /// taken alone. Without this there is no contact.
    pub open spec fn near(self, rect: Rect) -> bool {
        &&& abs(self.offset_from(rect).x) <= self.radius
        &&& abs(self.offset_from(rect).y) <= self.radius
    }

    /// Contact without squares. Where the nearest point of the box lies
    /// level with the circle's center, or straight above or below it, the two
    /// intersect exactly if the gap between them is at most the radius. A
    /// circle whose center lies in the box intersects it, and no circle
    /// reaches farther along either axis than its radius.
    pub proof fn contact_along_an_axis(self, rect: Rect)
        requires
            self.radius >= 0,
        ensures
            self.offset_from(rect).along_an_axis() ==> (self.intersects(rect) <==> self.offset_from(
                rect,
            ).span() <= self.radius),
            rect.contains(self.center) ==> self.intersects(rect),
            self.intersects(rect) ==> self.near(rect),
    {
        let dx = self.offset_from(rect).x;
        let dy = self.offset_from(rect).y;
        let r = self.radius;
        assert(self.intersects(rect) <==> dx * dx + dy * dy <= r * r);
        assert(abs(dx) <= r <==> dx * dx <= r * r) by (nonlinear_arith)
            requires
                r >= 0,
        ;
        assert(abs(dy) <= r <==> dy * dy <= r * r) by (nonlinear_arith)
            requires
                r >= 0,
        ;
        assert(dx * dx >= 0 && dy * dy >= 0) by (nonlinear_arith);
        assert(dx == 0 ==> dx * dx == 0) by (nonlinear_arith);
        assert(dy == 0 ==> dy * dy == 0) by (nonlinear_arith);
    }
}

/// A position in the world.
#[derive(Clone, Copy, Debug, PartialEq, Eq)]
pub struct Position {
    pub x: i32,
    pub y: i32,
}

impl View for Position {
    type V = Vector;

    open spec fn view(&self) -> Vector {
        Vector { x: self.x as int, y: self.y as int }
    }
}

impl Position {
    pub fn new(x: i32, y: i32) -> (position: Position)
        ensures
            position.x == x,
            position.y == y,
    {
        Position { x, y }
    }
}

/// Full width and height of a rectangular body, fixed when the body is made.
#[derive(Clone, Copy, Debug, PartialEq, Eq)]
pub struct Shape {
    pub width: u32,
    pub height: u32,
}

impl Shape {
    pub fn new(width: u32, height: u32) -> (shape: Shape)
        ensures
            shape.width == width,
            shape.height == height,
    {
        Shape { width, height }
    }

    /// Half of the width, rounded down to a whole step.
    pub open spec fn half_width(self) -> int {
        self.width as int / 2
    }

    /// Half of the height, rounded down to a whole step.
    pub open spec fn half_height(self) -> int {
        self.height as int / 2
    }
}

/// An axis-aligned bounding box, held as its center and half extents.
#[derive(Clone, Copy, Debug, PartialEq, Eq)]
pub struct Aabb {
    pub center: Position,
    pub half_width: u32,
    pub half_height: u32,
}

impl View for Aabb {
    type V = Rect;

    open spec fn view(&self) -> Rect {
        Rect {
            min: Vector { x: self.center.x - self.half_width, y: self.center.y - self.half_height },
            max: Vector { x: self.center.x + self.half_width, y: self.center.y + self.half_height },
        }
    }
}

impl Aabb {
    /// The box around `center` that reaches `half_width` to either side and
    /// `half_height` up and down.
    pub fn new(center: Position, half_width: u32, half_height: u32) -> (aabb: Aabb)
        ensures
            aabb.center == center,
            aabb.half_width == half_width,
            aabb.half_height == half_height,
            aabb@.well_formed(),
    {
        Aabb { center, half_width, half_height }
    }

    /// The box that a rectangular body of the given shape covers when it is
    /// centered on `position`: half of the shape to each side.
    pub fn from_shape(position: Position, shape: Shape) -> (aabb: Aabb)
        ensures
            aabb.center == position,
            aabb.half_width == shape.half_width(),
            aabb.half_height == shape.half_height(),
            aabb@ == bounds_of(position@, shape),
    {
        Aabb { center: position, half_width: shape.width / 2, half_height: shape.height / 2 }
    }

    /// The point of the box nearest to `point`. A point inside the box is
    /// returned as it is.
    pub fn closest_point(&self, point: Position) -> (closest: Position)
        ensures
            closest@ == self@.closest_point(point@),
            self@.contains(closest@),
            self@.contains(point@) ==> closest == point,
    {
        let x: i32 = nearest_in_span(point.x, self.center.x, self.half_width);
        let y: i32 = nearest_in_span(point.y, self.center.y, self.half_height);
        Position { x, y }
    }
}

/// The box covered by a rectangular body of shape `shape` centered on `center`.
pub open spec fn bounds_of(center: Vector, shape: Shape) -> Rect {
    Rect {
        min: Vector { x: center.x - shape.half_width(), y: center.y - shape.half_height() },
        max: Vector { x: center.x + shape.half_width(), y: center.y + shape.half_height() },
    }
}

/// `value` clamped into the span that reaches `half` to either side of
/// `middle`. The ends of the span may lie outside the 32-bit range; the
/// result never does, since it lies between `value` and `middle`.
fn nearest_in_span(value: i32, middle: i32, half: u32) -> (nearest: i32)
    ensures
        nearest == clamp(value as int, middle - half, middle + half),
{
    let low: i64 = middle as i64 - half as i64;
    let high: i64 = middle as i64 + half as i64;
    let wide: i64 = value as i64;
    if wide < low {
        low as i32
    } else if wide > high {
        high as i32
    } else {
        value
    }
}

/// A bounding circle.
#[derive(Clone, Copy, Debug, PartialEq, Eq)]
pub struct Circle {
    pub center: Position,
    pub radius: u32,
}

impl View for Circle {
    type V = Disc;

    open spec fn view(&self) -> Disc {
        Disc { center: self.center@, radius: self.radius as int }
    }
}

impl Circle {
    pub fn new(center: Position, radius: u32) -> (circle: Circle)
        ensures
            circle.center == center,
            circle.radius == radius,
    {
        Circle { center, radius }
    }

    /// Whether the circle touches or overlaps the box. Touching counts.
    ///
    /// The first clause says it all. The others repeat, without squares, what
    /// follows from it: the answer for a box whose nearest point lies along an
    /// axis from the center, and that a box which is not near is not met.
    pub fn intersects(&self, aabb: &Aabb) -> (hit: bool)
        ensures
            hit == self@.intersects(aabb@),
            self@.offset_from(aabb@).along_an_axis() ==> hit == (self@.offset_from(aabb@).span()
                <= self.radius),
            hit ==> self@.near(aabb@),
    {
        proof {
            self@.contact_along_an_axis(aabb@);
        }
        let closest: Position = aabb.closest_point(self.center);
        let dx: i64 = self.center.x as i64 - closest.x as i64;
        let dy: i64 = self.center.y as i64 - closest.y as i64;
        let r: i64 = self.radius as i64;
        assert(0 <= dx * dx <= 0x1_0000_0000 * 0x1_0000_0000) by (nonlinear_arith)
            requires
                -0x1_0000_0000 <= dx <= 0x1_0000_0000,
        ;
        assert(0 <= dy * dy <= 0x1_0000_0000 * 0x1_0000_0000) by (nonlinear_arith)
            requires
                -0x1_0000_0000 <= dy <= 0x1_0000_0000,
        ;
        assert(0 <= r * r <= 0x1_0000_0000 * 0x1_0000_0000) by (nonlinear_arith)
            requires
                0 <= r <= 0x1_0000_0000,
        ;
        let distance_squared: i128 = (dx as i128) * (dx as i128) + (dy as i128) * (dy as i128);
        distance_squared <= (r as i128) * (r as i128)
    }
}

} // verus!
