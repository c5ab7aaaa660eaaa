//! The orientation of three points: the sign of the cross product of their
//! differences, in a plane whose `y` axis grows downwards.
use crate::arith::lemma_mul_bound;
use crate::model::Point;
use crate::ordered_coordinate::{OrderedCoordinateI128, OrderedCoordinateI32};
use vstd::prelude::*;

verus! {

/// Is the object clockwise, counterclockwise, or collinear?
#[derive(Debug, Copy, Clone, PartialEq, Eq, Structural)]
pub enum Orientation {
    Collinear,
    Clockwise,
    CounterClockwise,
}

/// Largest size of a 128-bit coordinate for which `orient` is computed without
/// overflow: with every coordinate within `2^61`, a difference is within
/// `2^62`, a product within `2^124` and the cross product within `2^125`.
pub const ORIENT_LIMIT: i128 = 0x2000_0000_0000_0000;

/// Twice the signed area of the triangle `a`, `b`, `c`: the cross product of
/// `a - c` and `b - c`.
pub open spec fn orient_value(a: Point, b: Point, c: Point) -> int {
    a.minus(c).cross(b.minus(c))
}

/// Clockwise for a positive value, counterclockwise for a negative one,
/// collinear for zero.
pub open spec fn orientation_of(value: int) -> Orientation {
    if value < 0 {
        Orientation::CounterClockwise
    } else if value > 0 {
        Orientation::Clockwise
    } else {
        Orientation::Collinear
    }
}

/// The orientation of `a`, `b`, `c`.
pub open spec fn orientation(a: Point, b: Point, c: Point) -> Orientation {
    orientation_of(orient_value(a, b, c))
}

impl OrderedCoordinateI128 {
    /// Orientation calculated from twice the area of the triangle formed by
    /// the three coordinates, directly in 128 bits.
    #[inline]
    pub fn orient(&self, b: &Self, c: &Self) -> (o: Orientation)
        requires
            self@.within(ORIENT_LIMIT as int),
            b@.within(ORIENT_LIMIT as int),
            c@.within(ORIENT_LIMIT as int),
        ensures
            o == orientation(self@, b@, c@),
    {
        let dac = *self - c;
        let dbc = *b - c;
        proof {
            let l = 2 * ORIENT_LIMIT as int;
            lemma_mul_bound(dac.x as int, dbc.y as int, l, l);
            lemma_mul_bound(dac.y as int, dbc.x as int, l, l);
        }
        let res = dac.x * dbc.y - dac.y * dbc.x;

        if res < 0 {
            Orientation::CounterClockwise
        } else if res > 0 {
            Orientation::Clockwise
        } else {
            Orientation::Collinear
        }
    }
}

impl OrderedCoordinateI32 {
    /// Orientation calculated from twice the area of the triangle formed by
    /// the three coordinates. The coordinates are widened to 128 bits first:
    /// with 32-bit inputs the cross product can reach `2^66`.
    #[inline]
    pub fn orient(&self, b: &Self, c: &Self) -> (o: Orientation)
        ensures
            o == orientation(self@, b@, c@),
    {
        let a = OrderedCoordinateI128::from(self);
        let b = OrderedCoordinateI128::from(b);
        let c = OrderedCoordinateI128::from(c);
        a.orient(&b, &c)
    }
}

} // verus!
