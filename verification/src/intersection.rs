//! Whether two segments cross, and where.
//!
//! Three formulations are given: the line through each segment in coefficient
//! form, the parametric form along the first segment, and the parametric form
//! bounded to the span of both segments. All work in 128 bits and keep the
//! point of intersection as an exact quotient.
use crate::arith::lemma_mul_bound;
use crate::model::{dnm, t0_num, t1_num, Point, RationalPoint, Segment};
use crate::ordered_coordinate::OrderedCoordinateRatio;
use crate::ordered_segment::{OrderedSegmentI128, OrderedSegmentI32};
use crate::orientation::{orientation, Orientation, ORIENT_LIMIT};
use vstd::prelude::*;

verus! {

/// Largest size of a 128-bit coordinate for which the solvers are computed
/// without overflow: with every coordinate within `2^40`, a difference is
/// within `2^41`, a cross product within `2^83` and a numerator within `2^125`.
pub const SOLVER_LIMIT: i128 = 0x100_0000_0000;

/// Inverse of the tolerance of the bounded solver: `epsilon` is `1e-8`.
pub const EPSILON_INVERSE: i128 = 100_000_000;

/// Whether the segments cross: the endpoints of each lie on different sides
/// of the other, or on it. Two segments on one line do not count as crossing.
pub open spec fn intersects(s1: Segment, s2: Segment) -> bool {
    let xa = orientation(s1.start, s1.end, s2.start);
    let xb = orientation(s1.start, s1.end, s2.end);
    let xc = orientation(s2.start, s2.end, s1.start);
    let xd = orientation(s2.start, s2.end, s1.end);
    &&& !(xa == Orientation::Collinear && xb == Orientation::Collinear)
    &&& xa != xb
    &&& xc != xd
}

/// Coefficient `A` of the line `A x + B y + C = 0` through the endpoints of `s`.
pub open spec fn line_a(s: Segment) -> int {
    s.end.y - s.start.y
}

/// Coefficient `B` of the line `A x + B y + C = 0` through the endpoints of `s`.
pub open spec fn line_b(s: Segment) -> int {
    s.start.x - s.end.x
}

/// Coefficient `C` of the line `A x + B y + C = 0` through the endpoints of `s`.
pub open spec fn line_c(s: Segment) -> int {
    s.end.x * s.start.y - s.start.x * s.end.y
}

/// `A x + B y + C` at the point `p`: zero on the line through `s`, of one sign
/// on each side of it.
pub open spec fn line_value(s: Segment, p: Point) -> int {
    line_a(s) * p.x + line_b(s) * p.y + line_c(s)
}

/// Determinant of the system of the two line equations.
pub open spec fn determinant(s1: Segment, s2: Segment) -> int {
    line_a(s1) * line_b(s2) - line_a(s2) * line_b(s1)
}

/// Solution of the system of the two line equations, by determinants.
pub open spec fn coefficient_point(s1: Segment, s2: Segment) -> RationalPoint {
    RationalPoint {
        x_num: line_b(s1) * line_c(s2) - line_b(s2) * line_c(s1),
        y_num: line_a(s2) * line_c(s1) - line_a(s1) * line_c(s2),
        dnm: determinant(s1, s2),
    }
}

/// The point `start + (t0_num / dnm) * delta` of the first segment's line.
pub open spec fn parametric_point(s1: Segment, s2: Segment) -> RationalPoint {
    RationalPoint {
        x_num: s1.start.x * dnm(s1, s2) + t0_num(s1, s2) * s1.delta().x,
        y_num: s1.start.y * dnm(s1, s2) + t0_num(s1, s2) * s1.delta().y,
        dnm: dnm(s1, s2),
    }
}

/// Where the two lines cross, in coefficient form; `None` for a zero
/// determinant.
pub open spec fn line_intersection1(s1: Segment, s2: Segment) -> Option<RationalPoint> {
    if determinant(s1, s2) == 0 {
        None
    } else {
        Some(coefficient_point(s1, s2))
    }
}

/// Where the two lines cross, in parametric form; `None` for a zero
/// denominator.
pub open spec fn line_intersection2(s1: Segment, s2: Segment) -> Option<RationalPoint> {
    if dnm(s1, s2) == 0 {
        None
    } else {
        Some(parametric_point(s1, s2))
    }
}

/// The quotient `num / dnm` lies in `[0 - epsilon, 1 + epsilon]`.
pub open spec fn within_unit_tolerance(num: int, dnm: int) -> bool {
    if dnm > 0 {
        -dnm <= num * EPSILON_INVERSE && (num - dnm) * EPSILON_INVERSE <= dnm
    } else {
        num * EPSILON_INVERSE <= -dnm && dnm <= (num - dnm) * EPSILON_INVERSE
    }
}

/// Where the two segments cross, in parametric form: the crossing of the lines
/// where its position along each segment is within the tolerance of `[0, 1]`.
pub open spec fn segment_intersection(s1: Segment, s2: Segment) -> Option<RationalPoint> {
    if dnm(s1, s2) == 0 {
        None
    } else if !within_unit_tolerance(t0_num(s1, s2), dnm(s1, s2)) {
        None
    } else if !within_unit_tolerance(t1_num(s1, s2), dnm(s1, s2)) {
        None
    } else {
        Some(parametric_point(s1, s2))
    }
}

/// Both values are non-zero and of one sign.
pub open spec fn strictly_same_side(u: int, v: int) -> bool {
    u != 0 && v != 0 && ((u < 0) == (v < 0))
}

/// Where the two segments cross, in coefficient form: the crossing of the
/// lines unless both endpoints of one segment lie strictly on one side of the
/// other segment's line.
pub open spec fn segment_intersection2(s1: Segment, s2: Segment) -> Option<RationalPoint> {
    if determinant(s1, s2) == 0 {
        None
    } else if strictly_same_side(line_value(s1, s2.start), line_value(s1, s2.end)) {
        None
    } else if strictly_same_side(line_value(s2, s1.start), line_value(s2, s1.end)) {
        None
    } else {
        Some(coefficient_point(s1, s2))
    }
}

/// The model of a solver's result.
pub open spec fn ratio_view(r: Option<OrderedCoordinateRatio>) -> Option<RationalPoint> {
    match r {
        Some(p) => Some(p@),
        None => None,
    }
}

/// Whether the two values have the same sign bit: both negative or neither.
pub fn same_signs(a: i128, b: i128) -> (r: bool)
    ensures
        r == ((a < 0) == (b < 0)),
{
    assert((a ^ b >= 0) == ((a < 0) == (b < 0))) by (bit_vector);
    a ^ b >= 0
}

/// The sizes that the solvers' intermediate values can reach.
proof fn lemma_solver_sizes(s1: Segment, s2: Segment)
    requires
        s1.within(SOLVER_LIMIT as int),
        s2.within(SOLVER_LIMIT as int),
    ensures
        s1.delta().within(0x200_0000_0000),
        s2.delta().within(0x200_0000_0000),
        s1.start.minus(s2.start).within(0x200_0000_0000),
        -0x8_0000_0000_0000_0000_0000 <= dnm(s1, s2) <= 0x8_0000_0000_0000_0000_0000,
        -0x8_0000_0000_0000_0000_0000 <= t0_num(s1, s2) <= 0x8_0000_0000_0000_0000_0000,
        -0x8_0000_0000_0000_0000_0000 <= t1_num(s1, s2) <= 0x8_0000_0000_0000_0000_0000,
        -0x2_0000_0000_0000_0000_0000 <= line_c(s1) <= 0x2_0000_0000_0000_0000_0000,
        -0x2_0000_0000_0000_0000_0000 <= line_c(s2) <= 0x2_0000_0000_0000_0000_0000,
        -0x8_0000_0000_0000_0000_0000 <= determinant(s1, s2) <= 0x8_0000_0000_0000_0000_0000,
{
    let l: int = 0x100_0000_0000;
    let d: int = 0x200_0000_0000;
    let d1 = s1.delta();
    let d2 = s2.delta();
    let ac = s1.start.minus(s2.start);
    lemma_mul_bound(d1.x, d2.y, d, d);
    lemma_mul_bound(d1.y, d2.x, d, d);
    lemma_mul_bound(d2.x, ac.y, d, d);
    lemma_mul_bound(d2.y, ac.x, d, d);
    lemma_mul_bound(d1.x, ac.y, d, d);
    lemma_mul_bound(d1.y, ac.x, d, d);
    lemma_mul_bound(s1.end.x, s1.start.y, l, l);
    lemma_mul_bound(s1.start.x, s1.end.y, l, l);
    lemma_mul_bound(s2.end.x, s2.start.y, l, l);
    lemma_mul_bound(s2.start.x, s2.end.y, l, l);
    lemma_mul_bound(line_a(s1), line_b(s2), d, d);
    lemma_mul_bound(line_a(s2), line_b(s1), d, d);
}

impl OrderedSegmentI128 {
    /// Whether the two segments cross, by four orientation tests.
    pub fn intersects(&self, other: &Self) -> (r: bool)
        requires
            self@.within(ORIENT_LIMIT as int),
            other@.within(ORIENT_LIMIT as int),
        ensures
            r == intersects(self@, other@),
    {
        let (a, b) = self.coordinates();
        let (c, d) = other.coordinates();

        let xa = a.orient(&b, &c);
        let xb = a.orient(&b, &d);

        // may intersect in an overlapping line or not intersect at all
        if xa == Orientation::Collinear && xb == Orientation::Collinear {
            return false;
        }
        let xc = c.orient(&d, &a);
        let xd = c.orient(&d, &b);

        if xa != xb && xc != xd {
            return true;
        }
        false
    }

    /// Where the lines through the two segments cross, from the coefficients
    /// of the two line equations.
    pub fn line_intersection1(&self, other: &Self) -> (r: Option<OrderedCoordinateRatio>)
        requires
            self@.within(SOLVER_LIMIT as int),
            other@.within(SOLVER_LIMIT as int),
        ensures
            ratio_view(r) == line_intersection1(self@, other@),
    {
        let (x1, y1, x2, y2) = self.coords();
        let (x3, y3, x4, y4) = other.coords();
        proof {
            lemma_solver_sizes(self@, other@);
            let l: int = 0x100_0000_0000;
            lemma_mul_bound(x2 as int, y1 as int, l, l);
            lemma_mul_bound(x1 as int, y2 as int, l, l);
            lemma_mul_bound(x4 as int, y3 as int, l, l);
            lemma_mul_bound(x3 as int, y4 as int, l, l);
        }

        // First line coefficients where "a1 x  +  b1 y  +  c1  =  0"
        let a1 = y2 - y1;
        let b1 = x1 - x2;
        let c1 = x2 * y1 - x1 * y2;

        // Second line coefficients
        let a2 = y4 - y3;
        let b2 = x3 - x4;
        let c2 = x4 * y3 - x3 * y4;

        proof {
            let d: int = 0x200_0000_0000;
            let c: int = 0x2_0000_0000_0000_0000_0000;
            lemma_mul_bound(a1 as int, b2 as int, d, d);
            lemma_mul_bound(a2 as int, b1 as int, d, d);
            lemma_mul_bound(b1 as int, c2 as int, d, c);
            lemma_mul_bound(b2 as int, c1 as int, d, c);
            lemma_mul_bound(a2 as int, c1 as int, d, c);
            lemma_mul_bound(a1 as int, c2 as int, d, c);
        }
        let denom = a1 * b2 - a2 * b1;

        // Lines are parallel
        if denom == 0 {
            return None;
        }
        let x_num = b1 * c2 - b2 * c1;
        let y_num = a2 * c1 - a1 * c2;

        Some(OrderedCoordinateRatio { x_num, y_num, dnm: denom })
    }

    /// Where the lines through the two segments cross, from the position of
    /// the crossing along `self`.
    pub fn line_intersection2(&self, other: &Self) -> (r: Option<OrderedCoordinateRatio>)
        requires
            self@.within(SOLVER_LIMIT as int),
            other@.within(SOLVER_LIMIT as int),
        ensures
            ratio_view(r) == line_intersection2(self@, other@),
    {
        proof {
            lemma_solver_sizes(self@, other@);
            let d: int = 0x200_0000_0000;
            let d1 = self@.delta();
            let d2 = other@.delta();
            lemma_mul_bound(d1.x, d2.y, d, d);
            lemma_mul_bound(d1.y, d2.x, d, d);
        }
        let d1 = self.delta();
        let d2 = other.delta();

        let dnm = d1.cross(d2);
        if dnm == 0 {
            return None;
        }
        // Determine the vector distance from a

        let d_ac = self.start - other.start;
        proof {
            let d: int = 0x200_0000_0000;
            let n: int = 0x8_0000_0000_0000_0000_0000;
            let l: int = 0x100_0000_0000;
            lemma_mul_bound(d2.x as int, d_ac.y as int, d, d);
            lemma_mul_bound(d2.y as int, d_ac.x as int, d, d);
            lemma_mul_bound(self.start.x as int, dnm as int, l, n);
            lemma_mul_bound(self.start.y as int, dnm as int, l, n);
            lemma_mul_bound(t0_num(self@, other@), d1.x as int, n, d);
            lemma_mul_bound(t0_num(self@, other@), d1.y as int, n, d);
        }
        let t0 = d2.cross(d_ac);

        let x_num = self.start.x * dnm + t0 * d1.x;
        let y_num = self.start.y * dnm + t0 * d1.y;

        Some(OrderedCoordinateRatio { x_num, y_num, dnm })
    }

    /// Where the two segments cross: the crossing of the lines, unless its
    /// position along either segment is outside `[0 - epsilon, 1 + epsilon]`.
    pub fn segment_intersection(&self, other: &Self) -> (r: Option<OrderedCoordinateRatio>)
        requires
            self@.within(SOLVER_LIMIT as int),
            other@.within(SOLVER_LIMIT as int),
        ensures
            ratio_view(r) == segment_intersection(self@, other@),
    {
        proof {
            lemma_solver_sizes(self@, other@);
            let d: int = 0x200_0000_0000;
            let d1 = self@.delta();
            let d2 = other@.delta();
            lemma_mul_bound(d1.x, d2.y, d, d);
            lemma_mul_bound(d1.y, d2.x, d, d);
        }
        let d1 = self.delta();
        let d2 = other.delta();

        let dnm = d1.cross(d2);
        if dnm == 0 {
            return None;
        }
        // Determine the vector distance from a

        let d_ac = self.start - other.start;
        proof {
            let d: int = 0x200_0000_0000;
            let n: int = 0x8_0000_0000_0000_0000_0000;
            let l: int = 0x100_0000_0000;
            lemma_mul_bound(d2.x as int, d_ac.y as int, d, d);
            lemma_mul_bound(d2.y as int, d_ac.x as int, d, d);
            lemma_mul_bound(d1.x as int, d_ac.y as int, d, d);
            lemma_mul_bound(d1.y as int, d_ac.x as int, d, d);
            lemma_mul_bound(self.start.x as int, dnm as int, l, n);
            lemma_mul_bound(self.start.y as int, dnm as int, l, n);
            lemma_mul_bound(t0_num(self@, other@), d1.x as int, n, d);
            lemma_mul_bound(t0_num(self@, other@), d1.y as int, n, d);
        }

        // vector distance from self.start (a)
        let t0 = d2.cross(d_ac);
        if !in_unit_tolerance(t0, dnm) {
            return None;
        }
        // vector distance from other.start (c)

        let t1 = d1.cross(d_ac);
        if !in_unit_tolerance(t1, dnm) {
            return None;
        }
        let x_num = self.start.x * dnm + t0 * d1.x;
        let y_num = self.start.y * dnm + t0 * d1.y;

        Some(OrderedCoordinateRatio { x_num, y_num, dnm })
    }

    /// Where the two segments cross, from the coefficients of the two line
    /// equations: the crossing of the lines, unless both endpoints of one
    /// segment lie strictly on one side of the other segment's line.
    pub fn segment_intersection2(&self, other: &Self) -> (r: Option<OrderedCoordinateRatio>)
        requires
            self@.within(SOLVER_LIMIT as int),
            other@.within(SOLVER_LIMIT as int),
        ensures
            ratio_view(r) == segment_intersection2(self@, other@),
    {
        let (x1, y1, x2, y2) = self.coords();
        let (x3, y3, x4, y4) = other.coords();
        proof {
            lemma_solver_sizes(self@, other@);
            let l: int = 0x100_0000_0000;
            lemma_mul_bound(x2 as int, y1 as int, l, l);
            lemma_mul_bound(x1 as int, y2 as int, l, l);
            lemma_mul_bound(x4 as int, y3 as int, l, l);
            lemma_mul_bound(x3 as int, y4 as int, l, l);
        }

        // First line coefficients where "a1 x  +  b1 y  +  c1  =  0"
        let a1 = y2 - y1;
        let b1 = x1 - x2;
        let c1 = x2 * y1 - x1 * y2;

        // Second line coefficients
        let a2 = y4 - y3;
        let b2 = x3 - x4;
        let c2 = x4 * y3 - x3 * y4;

        proof {
            let l: int = 0x100_0000_0000;
            let d: int = 0x200_0000_0000;
            let c: int = 0x2_0000_0000_0000_0000_0000;
            lemma_mul_bound(a1 as int, b2 as int, d, d);
            lemma_mul_bound(a2 as int, b1 as int, d, d);
            lemma_mul_bound(b1 as int, c2 as int, d, c);
            lemma_mul_bound(b2 as int, c1 as int, d, c);
            lemma_mul_bound(a2 as int, c1 as int, d, c);
            lemma_mul_bound(a1 as int, c2 as int, d, c);
            lemma_mul_bound(a1 as int, x3 as int, d, l);
            lemma_mul_bound(b1 as int, y3 as int, d, l);
            lemma_mul_bound(a1 as int, x4 as int, d, l);
            lemma_mul_bound(b1 as int, y4 as int, d, l);
            lemma_mul_bound(a2 as int, x1 as int, d, l);
            lemma_mul_bound(b2 as int, y1 as int, d, l);
            lemma_mul_bound(a2 as int, x2 as int, d, l);
            lemma_mul_bound(b2 as int, y2 as int, d, l);
        }
        let denom = a1 * b2 - a2 * b1;

        // Lines are parallel
        if denom == 0 {
            return None;
        }
        // Sign values of the second segment's endpoints for the first line

        let r3 = a1 * x3 + b1 * y3 + c1;
        let r4 = a1 * x4 + b1 * y4 + c1;

        // If both point 3 and point 4 lie on the same side of line 1, the
        // segments do not intersect.
        if r3 != 0 && r4 != 0 && same_signs(r3, r4) {
            return None;
        }
        // Sign values of the first segment's endpoints for the second line

        let r1 = a2 * x1 + b2 * y1 + c2;
        let r2 = a2 * x2 + b2 * y2 + c2;

        // If both point 1 and point 2 lie on the same side of line 2, the
        // segments do not intersect.
        if r1 != 0 && r2 != 0 && same_signs(r1, r2) {
            return None;
        }
        let x_num = b1 * c2 - b2 * c1;
        let y_num = a2 * c1 - a1 * c2;

        Some(OrderedCoordinateRatio { x_num, y_num, dnm: denom })
    }
}

/// Whether `num / dnm` lies in `[0 - epsilon, 1 + epsilon]`, decided on the
/// integers.
fn in_unit_tolerance(num: i128, dnm: i128) -> (r: bool)
    requires
        dnm != 0,
        -0x8_0000_0000_0000_0000_0000 <= num <= 0x8_0000_0000_0000_0000_0000,
        -0x8_0000_0000_0000_0000_0000 <= dnm <= 0x8_0000_0000_0000_0000_0000,
    ensures
        r == within_unit_tolerance(num as int, dnm as int),
{
    let low = num * EPSILON_INVERSE;
    let high = (num - dnm) * EPSILON_INVERSE;
    if dnm > 0 {
        -dnm <= low && high <= dnm
    } else {
        low <= -dnm && dnm <= high
    }
}

impl OrderedSegmentI32 {
    /// Whether the two segments cross, by four orientation tests in 128 bits.
    pub fn intersects(&self, other: &Self) -> (r: bool)
        ensures
            r == intersects(self@, other@),
    {
        let ab = OrderedSegmentI128::from(self);
        let other = OrderedSegmentI128::from(other);
        ab.intersects(&other)
    }

    /// Where the lines through the two segments cross, from the coefficients
    /// of the two line equations. The long products cannot be formed without
    /// widening from 32 to 128 bits.
    pub fn line_intersection1(&self, other: &Self) -> (r: Option<OrderedCoordinateRatio>)
        ensures
            ratio_view(r) == line_intersection1(self@, other@),
    {
        let ab = OrderedSegmentI128::from(self);
        let other = OrderedSegmentI128::from(other);
        ab.line_intersection1(&other)
    }

    /// Where the lines through the two segments cross, from the position of
    /// the crossing along `self`, in 128 bits.
    pub fn line_intersection2(&self, other: &Self) -> (r: Option<OrderedCoordinateRatio>)
        ensures
            ratio_view(r) == line_intersection2(self@, other@),
    {
        let ab = OrderedSegmentI128::from(self);
        let other = OrderedSegmentI128::from(other);
        ab.line_intersection2(&other)
    }

    /// Where the two segments cross: the crossing of the lines, unless its
    /// position along either segment is outside `[0 - epsilon, 1 + epsilon]`.
    pub fn segment_intersection(&self, other: &Self) -> (r: Option<OrderedCoordinateRatio>)
        ensures
            ratio_view(r) == segment_intersection(self@, other@),
    {
        let ab = OrderedSegmentI128::from(self);
        let other = OrderedSegmentI128::from(other);
        ab.segment_intersection(&other)
    }

    /// Where the two segments cross, from the coefficients of the two line
    /// equations, in 128 bits.
    pub fn segment_intersection2(&self, other: &Self) -> (r: Option<OrderedCoordinateRatio>)
        ensures
            ratio_view(r) == segment_intersection2(self@, other@),
    {
        let ab = OrderedSegmentI128::from(self);
        let other = OrderedSegmentI128::from(other);
        ab.segment_intersection2(&other)
    }
}

} // verus!
