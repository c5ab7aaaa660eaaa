//! What holds of the predicates and solvers on every pair of segments.
use crate::intersection::{
    coefficient_point, determinant, intersects, line_intersection1, line_intersection2,
    parametric_point, segment_intersection, segment_intersection2, within_unit_tolerance,
};
use crate::model::{dnm, t0_num, t1_num, Point, Segment};
use crate::orientation::{orient_value, orientation, Orientation};
use vstd::prelude::*;

verus! {

/// The quotient `num / dnm` lies in `[0, 1]`.
pub open spec fn in_unit_interval(num: int, dnm: int) -> bool {
    if dnm > 0 {
        0 <= num <= dnm
    } else {
        dnm <= num <= 0
    }
}

/// The cross products behind the four orientation tests and behind the two
/// positions of the crossing are the same numbers.
proof fn lemma_cross_identities(
    ax: int,
    ay: int,
    bx: int,
    by: int,
    cx: int,
    cy: int,
    dx: int,
    dy: int,
)
    by (nonlinear_arith)
    ensures
        ({
            let dnm = (bx - ax) * (dy - cy) - (by - ay) * (dx - cx);
            let t0 = (dx - cx) * (ay - cy) - (dy - cy) * (ax - cx);
            let t1 = (bx - ax) * (ay - cy) - (by - ay) * (ax - cx);
            &&& (ax - cx) * (by - cy) - (ay - cy) * (bx - cx) == -t1
            &&& (ax - dx) * (by - dy) - (ay - dy) * (bx - dx) == dnm - t1
            &&& (cx - ax) * (dy - ay) - (cy - ay) * (dx - ax) == t0
            &&& (cx - bx) * (dy - by) - (cy - by) * (dx - bx) == t0 - dnm
        }),
{
}

/// The coefficient `C` of a line in terms of the direction of its segment.
proof fn lemma_line_c(ax: int, ay: int, bx: int, by: int)
    by (nonlinear_arith)
    ensures
        bx * ay - ax * by == (bx - ax) * ay - ax * (by - ay),
{
}

/// The numerators of the coefficient form, with each `C` written out over the
/// directions `(u, v)` and `(p, q)` of the two segments.
proof fn lemma_numerators(u: int, v: int, p: int, q: int, ax: int, ay: int, cx: int, cy: int)
    ensures
        (-u) * (p * cy - cx * q) - (-p) * (u * ay - ax * v) == ax * (u * q - v * p) + (p * (ay
            - cy) - q * (ax - cx)) * u,
        q * (u * ay - ax * v) - v * (p * cy - cx * q) == ay * (u * q - v * p) + (p * (ay - cy)
            - q * (ax - cx)) * v,
{
    assert((-u) * (p * cy - cx * q) == -(u * (p * cy)) + u * (cx * q)) by (nonlinear_arith);
    assert((-p) * (u * ay - ax * v) == -(p * (u * ay)) + p * (ax * v)) by (nonlinear_arith);
    assert(ax * (u * q - v * p) == ax * (u * q) - ax * (v * p)) by (nonlinear_arith);
    assert((p * (ay - cy) - q * (ax - cx)) * u == u * (p * ay) - u * (p * cy) - u * (q * ax) + u
        * (q * cx)) by (nonlinear_arith);
    assert(u * (cx * q) == u * (q * cx)) by (nonlinear_arith);
    assert(p * (u * ay) == u * (p * ay)) by (nonlinear_arith);
    assert(p * (ax * v) == ax * (v * p)) by (nonlinear_arith);
    assert(ax * (u * q) == u * (q * ax)) by (nonlinear_arith);

    assert(q * (u * ay - ax * v) == q * (u * ay) - q * (ax * v)) by (nonlinear_arith);
    assert(v * (p * cy - cx * q) == v * (p * cy) - v * (cx * q)) by (nonlinear_arith);
    assert(ay * (u * q - v * p) == ay * (u * q) - ay * (v * p)) by (nonlinear_arith);
    assert((p * (ay - cy) - q * (ax - cx)) * v == v * (p * ay) - v * (p * cy) - v * (q * ax) + v
        * (q * cx)) by (nonlinear_arith);
    assert(q * (u * ay) == ay * (u * q)) by (nonlinear_arith);
    assert(q * (ax * v) == v * (q * ax)) by (nonlinear_arith);
    assert(v * (cx * q) == v * (q * cx)) by (nonlinear_arith);
    assert(ay * (v * p) == v * (p * ay)) by (nonlinear_arith);
}

/// The coefficient form and the parametric form are the same numbers.
proof fn lemma_coefficient_identities(
    ax: int,
    ay: int,
    bx: int,
    by: int,
    cx: int,
    cy: int,
    dx: int,
    dy: int,
)
    ensures
        ({
            let dnm = (bx - ax) * (dy - cy) - (by - ay) * (dx - cx);
            let t0 = (dx - cx) * (ay - cy) - (dy - cy) * (ax - cx);
            let t1 = (bx - ax) * (ay - cy) - (by - ay) * (ax - cx);
            let a1 = by - ay;
            let b1 = ax - bx;
            let c1 = bx * ay - ax * by;
            let a2 = dy - cy;
            let b2 = cx - dx;
            let c2 = dx * cy - cx * dy;
            &&& a1 * b2 - a2 * b1 == dnm
            &&& a1 * cx + b1 * cy + c1 == t1
            &&& a1 * dx + b1 * dy + c1 == t1 - dnm
            &&& a2 * ax + b2 * ay + c2 == -t0
            &&& a2 * bx + b2 * by + c2 == dnm - t0
            &&& b1 * c2 - b2 * c1 == ax * dnm + t0 * (bx - ax)
            &&& a2 * c1 - a1 * c2 == ay * dnm + t0 * (by - ay)
        }),
{
    let u = bx - ax;
    let v = by - ay;
    let p = dx - cx;
    let q = dy - cy;
    let dnm = u * q - v * p;
    let t0 = p * (ay - cy) - q * (ax - cx);
    let t1 = u * (ay - cy) - v * (ax - cx);
    let c1 = bx * ay - ax * by;
    let c2 = dx * cy - cx * dy;
    lemma_line_c(ax, ay, bx, by);
    lemma_line_c(cx, cy, dx, dy);
    assert(c1 == u * ay - ax * v);
    assert(c2 == p * cy - cx * q);
    assert(v * (cx - dx) - q * (ax - bx) == u * q - v * p) by (nonlinear_arith)
        requires
            u == bx - ax,
            p == dx - cx,
    ;
    assert(v * cx + (ax - bx) * cy + (u * ay - ax * v) == u * (ay - cy) - v * (ax - cx))
        by (nonlinear_arith)
        requires
            u == bx - ax,
    ;
    assert(v * dx + (ax - bx) * dy + (u * ay - ax * v) == u * (ay - cy) - v * (ax - cx) - (u * q
        - v * p)) by (nonlinear_arith)
        requires
            u == bx - ax,
            p == dx - cx,
            q == dy - cy,
    ;
    assert(q * ax + (cx - dx) * ay + (p * cy - cx * q) == -(p * (ay - cy) - q * (ax - cx)))
        by (nonlinear_arith)
        requires
            p == dx - cx,
    ;
    assert(q * bx + (cx - dx) * by + (p * cy - cx * q) == (u * q - v * p) - (p * (ay - cy) - q
        * (ax - cx))) by (nonlinear_arith)
        requires
            p == dx - cx,
            u == bx - ax,
            v == by - ay,
    ;
    lemma_numerators(u, v, p, q, ax, ay, cx, cy);
    assert(t0 * u == (p * (ay - cy) - q * (ax - cx)) * u);
    assert(t0 * v == (p * (ay - cy) - q * (ax - cx)) * v);
    assert((ax - bx) * c2 == (-u) * (p * cy - cx * q));
    assert((cx - dx) * c1 == (-p) * (u * ay - ax * v));
}

/// The crossing is one point, reached along either segment: the numerators of
/// `a + t0 * (u, v)` and of `c + t1 * (p, q)` are equal.
pub proof fn lemma_crossing_two_ways(
    ax: int,
    ay: int,
    u: int,
    v: int,
    cx: int,
    cy: int,
    p: int,
    q: int,
)
    ensures
        ({
            let dnm = u * q - v * p;
            let t0 = p * (ay - cy) - q * (ax - cx);
            let t1 = u * (ay - cy) - v * (ax - cx);
            &&& ax * dnm + t0 * u == cx * dnm + t1 * p
            &&& ay * dnm + t0 * v == cy * dnm + t1 * q
        }),
{
    let ex = ax - cx;
    let ey = ay - cy;
    let dnm = u * q - v * p;
    let t0 = p * ey - q * ex;
    let t1 = u * ey - v * ex;
    assert(ex * dnm + t0 * u == t1 * p) by {
        assert(ex * (u * q - v * p) == ex * (u * q) - ex * (v * p)) by (nonlinear_arith);
        assert((p * ey - q * ex) * u == u * (p * ey) - u * (q * ex)) by (nonlinear_arith);
        assert((u * ey - v * ex) * p == p * (u * ey) - p * (v * ex)) by (nonlinear_arith);
        assert(ex * (u * q) == u * (q * ex)) by (nonlinear_arith);
        assert(u * (p * ey) == p * (u * ey)) by (nonlinear_arith);
        assert(ex * (v * p) == p * (v * ex)) by (nonlinear_arith);
    }
    assert(ey * dnm + t0 * v == t1 * q) by {
        assert(ey * (u * q - v * p) == ey * (u * q) - ey * (v * p)) by (nonlinear_arith);
        assert((p * ey - q * ex) * v == v * (p * ey) - v * (q * ex)) by (nonlinear_arith);
        assert((u * ey - v * ex) * q == q * (u * ey) - q * (v * ex)) by (nonlinear_arith);
        assert(ey * (u * q) == q * (u * ey)) by (nonlinear_arith);
        assert(v * (p * ey) == ey * (v * p)) by (nonlinear_arith);
        assert(v * (q * ex) == q * (v * ex)) by (nonlinear_arith);
    }
    assert(ax * dnm == cx * dnm + ex * dnm) by (nonlinear_arith)
        requires
            ex == ax - cx,
    ;
    assert(ay * dnm == cy * dnm + ey * dnm) by (nonlinear_arith)
        requires
            ey == ay - cy,
    ;
}

/// The crossing point satisfies both line equations.
proof fn lemma_on_line_identities(
    ax: int,
    ay: int,
    bx: int,
    by: int,
    cx: int,
    cy: int,
    dx: int,
    dy: int,
)
    ensures
        ({
            let dnm = (bx - ax) * (dy - cy) - (by - ay) * (dx - cx);
            let t0 = (dx - cx) * (ay - cy) - (dy - cy) * (ax - cx);
            let xn = ax * dnm + t0 * (bx - ax);
            let yn = ay * dnm + t0 * (by - ay);
            &&& (bx - ax) * (yn - ay * dnm) == (by - ay) * (xn - ax * dnm)
            &&& (dx - cx) * (yn - cy * dnm) == (dy - cy) * (xn - cx * dnm)
        }),
{
    let u = bx - ax;
    let v = by - ay;
    let p = dx - cx;
    let q = dy - cy;
    let dnm = u * q - v * p;
    let t0 = p * (ay - cy) - q * (ax - cx);
    let t1 = u * (ay - cy) - v * (ax - cx);
    // on the first line: both sides are t0 * u * v
    assert(u * (t0 * v) == v * (t0 * u)) by (nonlinear_arith);
    // on the second line: both sides are t1 * p * q
    lemma_crossing_two_ways(ax, ay, u, v, cx, cy, p, q);
    assert(p * (t1 * q) == q * (t1 * p)) by (nonlinear_arith);
}

/// Each of the four orientation tests of `intersects` is the sign of a
/// position of the crossing: of `t1` and `t1 - 1` along the second segment, of
/// `t0` and `t0 - 1` along the first, each times the common denominator.
pub proof fn lemma_orientations_are_positions(s1: Segment, s2: Segment)
    ensures
        orient_value(s1.start, s1.end, s2.start) == -t1_num(s1, s2),
        orient_value(s1.start, s1.end, s2.end) == dnm(s1, s2) - t1_num(s1, s2),
        orient_value(s2.start, s2.end, s1.start) == t0_num(s1, s2),
        orient_value(s2.start, s2.end, s1.end) == t0_num(s1, s2) - dnm(s1, s2),
{
    lemma_cross_identities(
        s1.start.x,
        s1.start.y,
        s1.end.x,
        s1.end.y,
        s2.start.x,
        s2.start.y,
        s2.end.x,
        s2.end.y,
    );
}

/// `intersects` holds exactly where the lines are not parallel and the
/// crossing lies within both segments: both positions are in `[0, 1]`.
pub proof fn lemma_intersects_is_crossing_within(s1: Segment, s2: Segment)
    ensures
        intersects(s1, s2) <==> dnm(s1, s2) != 0 && in_unit_interval(
            t0_num(s1, s2),
            dnm(s1, s2),
        ) && in_unit_interval(t1_num(s1, s2), dnm(s1, s2)),
{
    lemma_orientations_are_positions(s1, s2);
}

/// The two formulations of the crossing of two lines agree: they fail on the
/// same pairs, and give the same numerators and the same denominator.
pub proof fn lemma_line_solvers_agree(s1: Segment, s2: Segment)
    ensures
        determinant(s1, s2) == dnm(s1, s2),
        coefficient_point(s1, s2) == parametric_point(s1, s2),
        line_intersection1(s1, s2) == line_intersection2(s1, s2),
{
    lemma_coefficient_identities(
        s1.start.x,
        s1.start.y,
        s1.end.x,
        s1.end.y,
        s2.start.x,
        s2.start.y,
        s2.end.x,
        s2.end.y,
    );
}

/// The point that the line solvers return lies on the line through each of
/// the two segments.
pub proof fn lemma_crossing_on_both_lines(s1: Segment, s2: Segment)
    ensures
        parametric_point(s1, s2).on_line(s1),
        parametric_point(s1, s2).on_line(s2),
        coefficient_point(s1, s2).on_line(s1),
        coefficient_point(s1, s2).on_line(s2),
{
    lemma_line_solvers_agree(s1, s2);
    lemma_on_line_identities(
        s1.start.x,
        s1.start.y,
        s1.end.x,
        s1.end.y,
        s2.start.x,
        s2.start.y,
        s2.end.x,
        s2.end.y,
    );
}

/// The bounded solver in coefficient form succeeds exactly where `intersects`
/// holds, and then returns what the line solvers return.
pub proof fn lemma_segment_intersection2_is_intersects(s1: Segment, s2: Segment)
    ensures
        segment_intersection2(s1, s2).is_some() <==> intersects(s1, s2),
        segment_intersection2(s1, s2).is_some() ==> segment_intersection2(s1, s2)
            == line_intersection2(s1, s2),
{
    lemma_intersects_is_crossing_within(s1, s2);
    lemma_line_solvers_agree(s1, s2);
    lemma_coefficient_identities(
        s1.start.x,
        s1.start.y,
        s1.end.x,
        s1.end.y,
        s2.start.x,
        s2.start.y,
        s2.end.x,
        s2.end.y,
    );
}

/// A position in `[0, 1]` is within the tolerance of `[0, 1]`.
pub proof fn lemma_unit_interval_within_tolerance(num: int, dnm: int)
    requires
        dnm != 0,
        in_unit_interval(num, dnm),
    ensures
        within_unit_tolerance(num, dnm),
{
}

/// The two bounded solvers agree wherever both are defined. Where the
/// coefficient form finds a crossing, the parametric form finds the same one.
/// Where the parametric form finds a crossing whose two positions lie in
/// `[0, 1]` itself, the coefficient form finds the same one. They differ only
/// where a position lies outside `[0, 1]` and within the tolerance of it: the
/// coefficient form has no tolerance.
pub proof fn lemma_segment_solvers_agree(s1: Segment, s2: Segment)
    ensures
        segment_intersection2(s1, s2).is_some() ==> segment_intersection(s1, s2)
            == segment_intersection2(s1, s2),
        segment_intersection(s1, s2).is_some() && in_unit_interval(
            t0_num(s1, s2),
            dnm(s1, s2),
        ) && in_unit_interval(t1_num(s1, s2), dnm(s1, s2)) ==> segment_intersection2(s1, s2)
            == segment_intersection(s1, s2),
        segment_intersection2(s1, s2).is_some() ==> segment_intersection(s1, s2).is_some(),
{
    lemma_segment_intersection2_is_intersects(s1, s2);
    lemma_intersects_is_crossing_within(s1, s2);
    if dnm(s1, s2) != 0 {
        if in_unit_interval(t0_num(s1, s2), dnm(s1, s2)) {
            lemma_unit_interval_within_tolerance(t0_num(s1, s2), dnm(s1, s2));
        }
        if in_unit_interval(t1_num(s1, s2), dnm(s1, s2)) {
            lemma_unit_interval_within_tolerance(t1_num(s1, s2), dnm(s1, s2));
        }
    }
}

/// Parallel segments, two segments of one line and segments without length
/// among them, have no crossing: every solver returns `None`, and `intersects`
/// is false.
pub proof fn lemma_parallel_never_cross(s1: Segment, s2: Segment)
    requires
        dnm(s1, s2) == 0,
    ensures
        !intersects(s1, s2),
        line_intersection1(s1, s2).is_none(),
        line_intersection2(s1, s2).is_none(),
        segment_intersection(s1, s2).is_none(),
        segment_intersection2(s1, s2).is_none(),
{
    lemma_intersects_is_crossing_within(s1, s2);
    lemma_line_solvers_agree(s1, s2);
}

/// Two segments of one line have no crossing: where both endpoints of the
/// second are collinear with the first, every solver returns `None` and
/// `intersects` is false.
pub proof fn lemma_collinear_never_cross(s1: Segment, s2: Segment)
    requires
        orientation(s1.start, s1.end, s2.start) == Orientation::Collinear,
        orientation(s1.start, s1.end, s2.end) == Orientation::Collinear,
    ensures
        dnm(s1, s2) == 0,
        !intersects(s1, s2),
        line_intersection1(s1, s2).is_none(),
        line_intersection2(s1, s2).is_none(),
        segment_intersection(s1, s2).is_none(),
        segment_intersection2(s1, s2).is_none(),
{
    lemma_orientations_are_positions(s1, s2);
    lemma_parallel_never_cross(s1, s2);
}

/// The two segments have an endpoint in common.
pub open spec fn shares_endpoint(s1: Segment, s2: Segment, p: Point) -> bool {
    (s1.start == p || s1.end == p) && (s2.start == p || s2.end == p)
}

/// Two segments that are not parallel and have an endpoint in common cross,
/// and every solver returns that endpoint.
pub proof fn lemma_shared_endpoint_crosses(s1: Segment, s2: Segment, p: Point)
    requires
        shares_endpoint(s1, s2, p),
        dnm(s1, s2) != 0,
    ensures
        intersects(s1, s2),
        parametric_point(s1, s2).is_point(p),
        line_intersection1(s1, s2) == Some(parametric_point(s1, s2)),
        line_intersection2(s1, s2) == Some(parametric_point(s1, s2)),
        segment_intersection(s1, s2) == Some(parametric_point(s1, s2)),
        segment_intersection2(s1, s2) == Some(parametric_point(s1, s2)),
{
    lemma_intersects_is_crossing_within(s1, s2);
    lemma_line_solvers_agree(s1, s2);
    lemma_segment_intersection2_is_intersects(s1, s2);
    lemma_shared_endpoint_positions(
        s1.start.x,
        s1.start.y,
        s1.end.x,
        s1.end.y,
        s2.start.x,
        s2.start.y,
        s2.end.x,
        s2.end.y,
    );
    lemma_segment_solvers_agree(s1, s2);
}

/// With a common endpoint the positions of the crossing are `0` or `1`, and
/// the crossing is that endpoint.
proof fn lemma_shared_endpoint_positions(
    ax: int,
    ay: int,
    bx: int,
    by: int,
    cx: int,
    cy: int,
    dx: int,
    dy: int,
)
    by (nonlinear_arith)
    ensures
        ({
            let dnm = (bx - ax) * (dy - cy) - (by - ay) * (dx - cx);
            let t0 = (dx - cx) * (ay - cy) - (dy - cy) * (ax - cx);
            let t1 = (bx - ax) * (ay - cy) - (by - ay) * (ax - cx);
            let xn = ax * dnm + t0 * (bx - ax);
            let yn = ay * dnm + t0 * (by - ay);
            &&& ax == cx && ay == cy ==> t0 == 0 && t1 == 0 && xn == ax * dnm && yn == ay * dnm
            &&& ax == dx && ay == dy ==> t0 == 0 && t1 == dnm && xn == ax * dnm && yn == ay
                * dnm
            &&& bx == cx && by == cy ==> t0 == dnm && t1 == 0 && xn == bx * dnm && yn == by
                * dnm
            &&& bx == dx && by == dy ==> t0 == dnm && t1 == dnm && xn == bx * dnm && yn == by
                * dnm
        }),
{
}

} // verus!
