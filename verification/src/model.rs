//! The mathematical model that the contracts speak of: points and segments
//! over the integers, and points of intersection as exact quotients.
use vstd::prelude::*;

verus! {

/// A point, or a vector, of the integer plane.
pub struct Point {
    pub x: int,
    pub y: int,
}

/// A segment from `start` to `end`, with the index that ties it to the
/// caller's input.
pub struct Segment {
    pub start: Point,
    pub end: Point,
    pub idx: int,
}

/// The point `(x_num / dnm, y_num / dnm)` of the rational plane.
pub struct RationalPoint {
    pub x_num: int,
    pub y_num: int,
    pub dnm: int,
}

/// One crossing, as a driver reports it: the point, and the indices of the two
/// segments in the order in which the pair was visited.
pub struct Intersection {
    pub ix: RationalPoint,
    pub idx1: int,
    pub idx2: int,
}

impl Point {
    /// The vector from `other` to `self`.
    pub open spec fn minus(self, other: Point) -> Point {
        Point { x: self.x - other.x, y: self.y - other.y }
    }

    /// Norm of the cross product of two vectors.
    pub open spec fn cross(self, other: Point) -> int {
        self.x * other.y - self.y * other.x
    }

    /// Both components lie between `-limit` and `limit`.
    pub open spec fn within(self, limit: int) -> bool {
        -limit <= self.x <= limit && -limit <= self.y <= limit
    }

    /// `self` comes strictly before `other` in the order by `x`, then by `y`.
    pub open spec fn nw_before(self, other: Point) -> bool {
        self.x < other.x || (self.x == other.x && self.y < other.y)
    }
}

impl Segment {
    /// The vector from `start` to `end`.
    pub open spec fn delta(self) -> Point {
        self.end.minus(self.start)
    }

    /// Both endpoints lie within `limit`.
    pub open spec fn within(self, limit: int) -> bool {
        self.start.within(limit) && self.end.within(limit)
    }

    /// `start` does not come after `end`.
    pub open spec fn is_canonical(self) -> bool {
        !self.end.nw_before(self.start)
    }

    /// Endpoints exchanged where `start` comes after `end`.
    pub open spec fn reordered(self) -> Segment {
        if self.end.nw_before(self.start) {
            Segment { start: self.end, end: self.start, idx: self.idx }
        } else {
            self
        }
    }

    /// `self` ends before `other` starts.
    pub open spec fn is_nw(self, other: Segment) -> bool {
        self.end.nw_before(other.start)
    }

    /// `self` starts after `other` ends.
    pub open spec fn is_se(self, other: Segment) -> bool {
        other.end.nw_before(self.start)
    }
}

impl RationalPoint {
    /// The two name one point of the rational plane.
    pub open spec fn same_point(self, other: RationalPoint) -> bool {
        &&& self.x_num * other.dnm == other.x_num * self.dnm
        &&& self.y_num * other.dnm == other.y_num * self.dnm
    }

    /// `self` is the point `p` of the integer plane.
    pub open spec fn is_point(self, p: Point) -> bool {
        self.x_num == p.x * self.dnm && self.y_num == p.y * self.dnm
    }

    /// `self` lies on the line through the endpoints of `s`.
    pub open spec fn on_line(self, s: Segment) -> bool {
        s.delta().x * (self.y_num - s.start.y * self.dnm) == s.delta().y * (self.x_num
            - s.start.x * self.dnm)
    }
}

/// The order from north-west to south-east is a strict total order on points:
/// of two points exactly one comes first unless they are equal, and the order
/// carries over a point in between.
pub proof fn lemma_nw_order_is_total(a: Point, b: Point, c: Point)
    ensures
        !a.nw_before(a),
        a.nw_before(b) ==> !b.nw_before(a),
        a.nw_before(b) || b.nw_before(a) || a == b,
        a.nw_before(b) && b.nw_before(c) ==> a.nw_before(c),
        !b.nw_before(a) && !c.nw_before(b) ==> !c.nw_before(a),
{
}

/// Denominator shared by the parametric solutions: the cross product of the
/// two direction vectors. Zero exactly for parallel or degenerate segments.
pub open spec fn dnm(s1: Segment, s2: Segment) -> int {
    s1.delta().cross(s2.delta())
}

/// Numerator of `t0`, the position of the crossing along `s1`.
pub open spec fn t0_num(s1: Segment, s2: Segment) -> int {
    s2.delta().cross(s1.start.minus(s2.start))
}

/// Numerator of `t1`, the position of the crossing along `s2`.
pub open spec fn t1_num(s1: Segment, s2: Segment) -> int {
    s1.delta().cross(s1.start.minus(s2.start))
}

} // verus!
