//! Why the sweep may skip what it skips: on lists whose segments run from
//! north-west to south-east and are sorted by their start points, the sweep
//! records exactly what the exhaustive scan records.
use crate::intersect_segments::{
    bounded_crossing, crossing, pair_result, recorded, scan_double, scan_row, scan_single,
    segments_view, sorted_by_start, sweep_double, sweep_row, sweep_single,
};
use crate::ordered_segment::OrderedSegmentI32;
use crate::intersection::{intersects, parametric_point, segment_intersection};
use crate::laws::{
    lemma_crossing_two_ways, lemma_intersects_is_crossing_within,
    lemma_segment_intersection2_is_intersects, lemma_segment_solvers_agree,
};
use crate::model::{dnm, t0_num, t1_num, Intersection, Segment};
use vstd::prelude::*;

verus! {

/// Every segment of the list runs from north-west to south-east.
pub open spec fn all_canonical(segments: Seq<Segment>) -> bool {
    forall|i: int| 0 <= i < segments.len() ==> (#[trigger] segments[i]).is_canonical()
}

/// A point common to two segments that run from north-west to south-east does
/// not come before the start of the first, nor after the end of the second: so
/// the second does not end before the first starts.
proof fn lemma_no_common_point(
    ax: int,
    ay: int,
    u: int,
    v: int,
    cx: int,
    cy: int,
    p: int,
    q: int,
    d: int,
    t0: int,
    t1: int,
)
    requires
        d > 0,
        0 <= t0 <= d,
        0 <= t1 <= d,
        ax * d + t0 * u == cx * d + t1 * p,
        ay * d + t0 * v == cy * d + t1 * q,
        u > 0 || (u == 0 && v >= 0),
        p > 0 || (p == 0 && q >= 0),
    ensures
        ax <= cx + p,
        ax == cx + p ==> ay <= cy + q,
{
    assert(t0 * u >= 0) by (nonlinear_arith)
        requires
            t0 >= 0,
            u >= 0,
    ;
    assert(t1 * p <= d * p) by (nonlinear_arith)
        requires
            t1 <= d,
            p >= 0,
    ;
    assert(d * (cx + p) == cx * d + d * p) by (nonlinear_arith);
    assert(ax * d <= d * (cx + p));
    assert(ax <= cx + p) by (nonlinear_arith)
        requires
            ax * d <= d * (cx + p),
            d > 0,
    ;
    if cx + p == ax {
        assert(ax * d == d * (cx + p)) by (nonlinear_arith)
            requires
                cx + p == ax,
        ;
        lemma_no_common_point_aligned(ay, u, v, cy, p, q, d, t0, t1);
    }
}

/// The case of `lemma_no_common_point` in which the second segment ends at the
/// `x` at which the first starts: the common point lies at the end of both.
proof fn lemma_no_common_point_aligned(
    ay: int,
    u: int,
    v: int,
    cy: int,
    p: int,
    q: int,
    d: int,
    t0: int,
    t1: int,
)
    requires
        d > 0,
        0 <= t0 <= d,
        0 <= t1 <= d,
        t0 * u == t1 * p - d * p,
        ay * d + t0 * v == cy * d + t1 * q,
        u > 0 || (u == 0 && v >= 0),
        p > 0 || (p == 0 && q >= 0),
    ensures
        ay <= cy + q,
{
    assert(t0 * u >= 0) by (nonlinear_arith)
        requires
            t0 >= 0,
            u >= 0,
    ;
    assert(t1 * p <= d * p) by (nonlinear_arith)
        requires
            t1 <= d,
            p >= 0,
    ;
    assert(t0 * u == 0);
    assert(t1 * p == d * p);
    assert(t0 == 0 || u == 0) by (nonlinear_arith)
        requires
            t0 * u == 0,
    ;
    assert(t1 == d || p == 0) by (nonlinear_arith)
        requires
            t1 * p == d * p,
    ;
    assert(t0 * v >= 0) by (nonlinear_arith)
        requires
            t0 >= 0,
            t0 == 0 || v >= 0,
    ;
    assert(t1 * q <= d * q) by (nonlinear_arith)
        requires
            t1 <= d,
            t1 == d || q >= 0,
    ;
    assert(d * (cy + q) == cy * d + d * q) by (nonlinear_arith);
    assert(ay * d <= d * (cy + q));
    assert(ay <= cy + q) by (nonlinear_arith)
        requires
            ay * d <= d * (cy + q),
            d > 0,
    ;
}

/// `intersects` does not depend on the order of the two segments.
pub proof fn lemma_intersects_symmetric(s1: Segment, s2: Segment)
    ensures
        intersects(s1, s2) == intersects(s2, s1),
{
}

/// A segment that ends before another starts does not cross it, where both
/// run from north-west to south-east.
pub proof fn lemma_before_never_crosses(first: Segment, second: Segment)
    requires
        first.is_canonical(),
        second.is_canonical(),
        first.is_nw(second),
    ensures
        !intersects(second, first),
        !intersects(first, second),
{
    lemma_intersects_symmetric(first, second);
    if intersects(second, first) {
        let s1 = second;
        let s2 = first;
        lemma_intersects_is_crossing_within(s1, s2);
        let u = s1.delta().x;
        let v = s1.delta().y;
        let p = s2.delta().x;
        let q = s2.delta().y;
        let d = dnm(s1, s2);
        let t0 = t0_num(s1, s2);
        let t1 = t1_num(s1, s2);
        lemma_crossing_two_ways(s1.start.x, s1.start.y, u, v, s2.start.x, s2.start.y, p, q);
        if d > 0 {
            lemma_no_common_point(
                s1.start.x,
                s1.start.y,
                u,
                v,
                s2.start.x,
                s2.start.y,
                p,
                q,
                d,
                t0,
                t1,
            );
        } else {
            assert(s1.start.x * (-d) == -(s1.start.x * d)) by (nonlinear_arith);
            assert(s1.start.y * (-d) == -(s1.start.y * d)) by (nonlinear_arith);
            assert(s2.start.x * (-d) == -(s2.start.x * d)) by (nonlinear_arith);
            assert(s2.start.y * (-d) == -(s2.start.y * d)) by (nonlinear_arith);
            assert((-t0) * u == -(t0 * u)) by (nonlinear_arith);
            assert((-t0) * v == -(t0 * v)) by (nonlinear_arith);
            assert((-t1) * p == -(t1 * p)) by (nonlinear_arith);
            assert((-t1) * q == -(t1 * q)) by (nonlinear_arith);
            lemma_no_common_point(
                s1.start.x,
                s1.start.y,
                u,
                v,
                s2.start.x,
                s2.start.y,
                p,
                q,
                -d,
                -t0,
                -t1,
            );
        }
    }
}

/// What the sweep skips cannot cross: a segment wholly north-west or wholly
/// south-east of another does not cross it, where both run from north-west to
/// south-east.
pub proof fn lemma_separated_never_cross(si: Segment, sj: Segment)
    requires
        si.is_canonical(),
        sj.is_canonical(),
        sj.is_nw(si) || sj.is_se(si),
    ensures
        !intersects(si, sj),
        crossing(si, sj).is_none(),
{
    if sj.is_nw(si) {
        lemma_before_never_crosses(sj, si);
    } else {
        lemma_before_never_crosses(si, sj);
    }
}

/// A list that is sorted and whose segments run from north-west to south-east
/// stays so without its first segment.
proof fn lemma_rest_stays_sorted(segments: Seq<Segment>)
    requires
        segments.len() > 0,
    ensures
        sorted_by_start(segments) ==> sorted_by_start(segments.drop_first()),
        all_canonical(segments) ==> all_canonical(segments.drop_first()),
{
    let rest = segments.drop_first();
    assert forall|i: int| 0 <= i < rest.len() implies rest[i] == segments[i + 1] by {}
    if sorted_by_start(segments) {
        assert forall|i: int, j: int| 0 <= i < j < rest.len() implies !(#[trigger] rest[j]).start.nw_before(
            (#[trigger] rest[i]).start,
        ) by {
            assert(rest[i] == segments[i + 1]);
            assert(rest[j] == segments[j + 1]);
        }
    }
    if all_canonical(segments) {
        assert forall|i: int| 0 <= i < rest.len() implies (#[trigger] rest[i]).is_canonical() by {
            assert(rest[i] == segments[i + 1]);
        }
    }
}

/// A row records nothing where no pair of it crosses.
proof fn lemma_row_without_crossing(si: Segment, others: Seq<Segment>)
    requires
        forall|j: int| 0 <= j < others.len() ==> crossing(si, #[trigger] others[j]).is_none(),
    ensures
        scan_row(si, others, false) == Seq::<Intersection>::empty(),
    decreases others.len(),
{
    if others.len() > 0 {
        let rest = others.drop_first();
        assert(crossing(si, others[0]).is_none());
        assert forall|j: int| 0 <= j < rest.len() implies crossing(si, #[trigger] rest[j]).is_none() by {
            assert(rest[j] == others[j + 1]);
        }
        lemma_row_without_crossing(si, rest);
        assert(scan_row(si, others, false) =~= Seq::<Intersection>::empty());
    }
}

/// One row of the sweep records what one row of the exhaustive scan records,
/// where the row is sorted by start points and every segment runs from
/// north-west to south-east.
pub proof fn lemma_sweep_row_is_scan_row(si: Segment, others: Seq<Segment>)
    requires
        si.is_canonical(),
        all_canonical(others),
        sorted_by_start(others),
    ensures
        sweep_row(si, others) == scan_row(si, others, false),
    decreases others.len(),
{
    if others.len() > 0 {
        let first = others.first();
        let rest = others.drop_first();
        lemma_rest_stays_sorted(others);
        assert(others[0].is_canonical());
        if first.is_nw(si) {
            lemma_separated_never_cross(si, first);
            lemma_sweep_row_is_scan_row(si, rest);
            assert(scan_row(si, others, false) =~= scan_row(si, rest, false));
        } else if first.is_se(si) {
            assert forall|j: int| 0 <= j < others.len() implies crossing(
                si,
                #[trigger] others[j],
            ).is_none() by {
                assert(others[j].is_canonical());
                if j > 0 {
                    assert(!others[j].start.nw_before(others[0].start));
                }
                assert(others[j].is_se(si));
                lemma_separated_never_cross(si, others[j]);
            }
            lemma_row_without_crossing(si, others);
        } else {
            lemma_sweep_row_is_scan_row(si, rest);
        }
    }
}

/// The sweep over one list records exactly what the exhaustive scan with the
/// same test records, in the same order, where the list is sorted by start
/// points and every segment runs from north-west to south-east: no pair that
/// the sweep skips crosses.
pub proof fn lemma_sweep_single_is_scan(segments: Seq<Segment>)
    requires
        all_canonical(segments),
        sorted_by_start(segments),
    ensures
        sweep_single(segments) == scan_single(segments, false),
    decreases segments.len(),
{
    if segments.len() > 0 {
        lemma_rest_stays_sorted(segments);
        assert(segments[0].is_canonical());
        lemma_sweep_row_is_scan_row(segments.first(), segments.drop_first());
        lemma_sweep_single_is_scan(segments.drop_first());
    }
}

/// The sweep over two lists records exactly what the exhaustive scan records,
/// in the same order, where the second list is sorted by start points and
/// every segment of both runs from north-west to south-east.
pub proof fn lemma_sweep_double_is_scan(segments1: Seq<Segment>, segments2: Seq<Segment>)
    requires
        all_canonical(segments1),
        all_canonical(segments2),
        sorted_by_start(segments2),
    ensures
        sweep_double(segments1, segments2) == scan_double(segments1, segments2, false),
    decreases segments1.len(),
{
    if segments1.len() > 0 {
        lemma_rest_stays_sorted(segments1);
        assert(segments1[0].is_canonical());
        lemma_sweep_row_is_scan_row(segments1.first(), segments2);
        lemma_sweep_double_is_scan(segments1.drop_first(), segments2);
    }
}

/// A record is in a concatenation exactly where it is in one of the parts.
proof fn lemma_concat_contains(a: Seq<Intersection>, b: Seq<Intersection>, r: Intersection)
    ensures
        (a + b).contains(r) <==> a.contains(r) || b.contains(r),
{
    if a.contains(r) {
        let k = choose|k: int| 0 <= k < a.len() && a[k] == r;
        assert((a + b)[k] == r);
    }
    if b.contains(r) {
        let k = choose|k: int| 0 <= k < b.len() && b[k] == r;
        assert((a + b)[a.len() + k] == r);
    }
    if (a + b).contains(r) {
        let k = choose|k: int| 0 <= k < (a + b).len() && (a + b)[k] == r;
        if k < a.len() {
            assert(a[k] == r);
        } else {
            assert(b[k - a.len()] == r);
        }
    }
}

/// What is recorded for one pair holds the pair's result and nothing else.
proof fn lemma_recorded_contains(o: Option<Intersection>, r: Intersection)
    ensures
        recorded(o).contains(r) <==> o == Some(r),
{
    if o == Some(r) {
        assert(recorded(o)[0] == r);
    }
}

/// A record of a row is the result of one of its pairs.
pub proof fn lemma_row_member(si: Segment, others: Seq<Segment>, bounded: bool, r: Intersection)
    requires
        scan_row(si, others, bounded).contains(r),
    ensures
        exists|j: int| 0 <= j < others.len() && pair_result(si, #[trigger] others[j], bounded) == Some(r),
    decreases others.len(),
{
    if others.len() > 0 {
        let rest = others.drop_first();
        lemma_concat_contains(
            recorded(pair_result(si, others.first(), bounded)),
            scan_row(si, rest, bounded),
            r,
        );
        lemma_recorded_contains(pair_result(si, others.first(), bounded), r);
        if pair_result(si, others[0], bounded) == Some(r) {
        } else {
            lemma_row_member(si, rest, bounded, r);
            let j = choose|j: int|
                0 <= j < rest.len() && pair_result(si, #[trigger] rest[j], bounded) == Some(r);
            assert(others[j + 1] == rest[j]);
        }
    }
}

/// The result of each pair of a row is a record of the row.
pub proof fn lemma_row_holds(si: Segment, others: Seq<Segment>, bounded: bool, j: int, r: Intersection)
    requires
        0 <= j < others.len(),
        pair_result(si, others[j], bounded) == Some(r),
    ensures
        scan_row(si, others, bounded).contains(r),
    decreases others.len(),
{
    let rest = others.drop_first();
    lemma_concat_contains(
        recorded(pair_result(si, others.first(), bounded)),
        scan_row(si, rest, bounded),
        r,
    );
    lemma_recorded_contains(pair_result(si, others.first(), bounded), r);
    if j > 0 {
        assert(rest[j - 1] == others[j]);
        lemma_row_holds(si, rest, bounded, j - 1, r);
    }
}

/// A record of the scan of one list is the result of a pair `(i, j)` of it
/// with `i < j`.
pub proof fn lemma_single_member(segments: Seq<Segment>, bounded: bool, r: Intersection)
    requires
        scan_single(segments, bounded).contains(r),
    ensures
        exists|i: int, j: int|
            0 <= i < j < segments.len() && pair_result(
                #[trigger] segments[i],
                #[trigger] segments[j],
                bounded,
            ) == Some(r),
    decreases segments.len(),
{
    if segments.len() > 0 {
        let rest = segments.drop_first();
        lemma_concat_contains(
            scan_row(segments.first(), rest, bounded),
            scan_single(rest, bounded),
            r,
        );
        if scan_row(segments.first(), rest, bounded).contains(r) {
            lemma_row_member(segments.first(), rest, bounded, r);
            let j = choose|j: int|
                0 <= j < rest.len() && pair_result(segments.first(), #[trigger] rest[j], bounded)
                    == Some(r);
            assert(segments[j + 1] == rest[j]);
            assert(pair_result(segments[0], segments[j + 1], bounded) == Some(r));
        } else {
            lemma_single_member(rest, bounded, r);
            let (i, j) = choose|i: int, j: int|
                0 <= i < j < rest.len() && pair_result(
                    #[trigger] rest[i],
                    #[trigger] rest[j],
                    bounded,
                ) == Some(r);
            assert(segments[i + 1] == rest[i]);
            assert(segments[j + 1] == rest[j]);
            assert(pair_result(segments[i + 1], segments[j + 1], bounded) == Some(r));
        }
    }
}

/// The result of each pair `(i, j)` with `i < j` of one list is a record of
/// its scan.
pub proof fn lemma_single_holds(
    segments: Seq<Segment>,
    bounded: bool,
    i: int,
    j: int,
    r: Intersection,
)
    requires
        0 <= i < j < segments.len(),
        pair_result(segments[i], segments[j], bounded) == Some(r),
    ensures
        scan_single(segments, bounded).contains(r),
    decreases segments.len(),
{
    let rest = segments.drop_first();
    lemma_concat_contains(scan_row(segments.first(), rest, bounded), scan_single(rest, bounded), r);
    assert(rest[j - 1] == segments[j]);
    if i == 0 {
        lemma_row_holds(segments.first(), rest, bounded, j - 1, r);
    } else {
        assert(rest[i - 1] == segments[i]);
        lemma_single_holds(rest, bounded, i - 1, j - 1, r);
    }
}

/// A record of the scan of two lists is the result of a pair of a segment of
/// the first and one of the second.
pub proof fn lemma_double_member(
    segments1: Seq<Segment>,
    segments2: Seq<Segment>,
    bounded: bool,
    r: Intersection,
)
    requires
        scan_double(segments1, segments2, bounded).contains(r),
    ensures
        exists|i: int, j: int|
            0 <= i < segments1.len() && 0 <= j < segments2.len() && pair_result(
                #[trigger] segments1[i],
                #[trigger] segments2[j],
                bounded,
            ) == Some(r),
    decreases segments1.len(),
{
    if segments1.len() > 0 {
        let rest = segments1.drop_first();
        lemma_concat_contains(
            scan_row(segments1.first(), segments2, bounded),
            scan_double(rest, segments2, bounded),
            r,
        );
        if scan_row(segments1.first(), segments2, bounded).contains(r) {
            lemma_row_member(segments1.first(), segments2, bounded, r);
            let j = choose|j: int|
                0 <= j < segments2.len() && pair_result(
                    segments1.first(),
                    #[trigger] segments2[j],
                    bounded,
                ) == Some(r);
            assert(pair_result(segments1[0], segments2[j], bounded) == Some(r));
        } else {
            lemma_double_member(rest, segments2, bounded, r);
            let (i, j) = choose|i: int, j: int|
                0 <= i < rest.len() && 0 <= j < segments2.len() && pair_result(
                    #[trigger] rest[i],
                    #[trigger] segments2[j],
                    bounded,
                ) == Some(r);
            assert(segments1[i + 1] == rest[i]);
            assert(pair_result(segments1[i + 1], segments2[j], bounded) == Some(r));
        }
    }
}

/// The result of each pair of a segment of the first list and one of the
/// second is a record of the scan of the two lists.
pub proof fn lemma_double_holds(
    segments1: Seq<Segment>,
    segments2: Seq<Segment>,
    bounded: bool,
    i: int,
    j: int,
    r: Intersection,
)
    requires
        0 <= i < segments1.len(),
        0 <= j < segments2.len(),
        pair_result(segments1[i], segments2[j], bounded) == Some(r),
    ensures
        scan_double(segments1, segments2, bounded).contains(r),
    decreases segments1.len(),
{
    let rest = segments1.drop_first();
    lemma_concat_contains(
        scan_row(segments1.first(), segments2, bounded),
        scan_double(rest, segments2, bounded),
        r,
    );
    if i == 0 {
        lemma_row_holds(segments1.first(), segments2, bounded, j, r);
    } else {
        assert(rest[i - 1] == segments1[i]);
        lemma_double_holds(rest, segments2, bounded, i - 1, j, r);
    }
}

/// Whatever the order of the row, each record of the sweep is a record of the
/// exhaustive scan: the sweep may miss a crossing, and reports none that is
/// not there.
pub proof fn lemma_sweep_row_within_scan(si: Segment, others: Seq<Segment>, r: Intersection)
    requires
        sweep_row(si, others).contains(r),
    ensures
        scan_row(si, others, false).contains(r),
    decreases others.len(),
{
    if others.len() > 0 {
        let first = others.first();
        let rest = others.drop_first();
        lemma_concat_contains(recorded(crossing(si, first)), scan_row(si, rest, false), r);
        if first.is_nw(si) {
            lemma_sweep_row_within_scan(si, rest, r);
        } else if !first.is_se(si) {
            lemma_concat_contains(recorded(crossing(si, first)), sweep_row(si, rest), r);
            if !recorded(crossing(si, first)).contains(r) {
                lemma_sweep_row_within_scan(si, rest, r);
            }
        }
    }
}

/// Whatever the order of the list, each record of the sweep over one list is
/// a record of the exhaustive scan with the same test.
pub proof fn lemma_sweep_single_within_scan(segments: Seq<Segment>, r: Intersection)
    requires
        sweep_single(segments).contains(r),
    ensures
        scan_single(segments, false).contains(r),
    decreases segments.len(),
{
    if segments.len() > 0 {
        let rest = segments.drop_first();
        lemma_concat_contains(sweep_row(segments.first(), rest), sweep_single(rest), r);
        lemma_concat_contains(
            scan_row(segments.first(), rest, false),
            scan_single(rest, false),
            r,
        );
        if sweep_row(segments.first(), rest).contains(r) {
            lemma_sweep_row_within_scan(segments.first(), rest, r);
        } else {
            lemma_sweep_single_within_scan(rest, r);
        }
    }
}

/// Whatever the order of the lists, each record of the sweep over two lists
/// is a record of the exhaustive scan.
pub proof fn lemma_sweep_double_within_scan(
    segments1: Seq<Segment>,
    segments2: Seq<Segment>,
    r: Intersection,
)
    requires
        sweep_double(segments1, segments2).contains(r),
    ensures
        scan_double(segments1, segments2, false).contains(r),
    decreases segments1.len(),
{
    if segments1.len() > 0 {
        let rest = segments1.drop_first();
        lemma_concat_contains(
            sweep_row(segments1.first(), segments2),
            sweep_double(rest, segments2),
            r,
        );
        lemma_concat_contains(
            scan_row(segments1.first(), segments2, false),
            scan_double(rest, segments2, false),
            r,
        );
        if sweep_row(segments1.first(), segments2).contains(r) {
            lemma_sweep_row_within_scan(segments1.first(), segments2, r);
        } else {
            lemma_sweep_double_within_scan(rest, segments2, r);
        }
    }
}

/// The two lists hold the same segments, in whatever order and number.
pub open spec fn same_members(a: Seq<Segment>, b: Seq<Segment>) -> bool {
    forall|s: Segment| a.contains(s) <==> b.contains(s)
}

/// No pair of the list is accepted by the bounded solver for its tolerance
/// alone: where the solver finds a crossing, the segments do cross.
pub open spec fn tolerance_free(segments: Seq<Segment>) -> bool {
    forall|i: int, j: int|
        0 <= i < segments.len() && 0 <= j < segments.len() && segment_intersection(
            #[trigger] segments[i],
            #[trigger] segments[j],
        ).is_some() ==> intersects(segments[i], segments[j])
}

/// The two records are one crossing: one point for one pair of segments, the
/// pair taken in either order.
pub open spec fn same_crossing(r1: Intersection, r2: Intersection) -> bool {
    &&& r1.ix.same_point(r2.ix)
    &&& (r1.idx1 == r2.idx1 && r1.idx2 == r2.idx2) || (r1.idx1 == r2.idx2 && r1.idx2 == r2.idx1)
}

/// A list sorted in place holds the same segments as before.
pub proof fn lemma_permutation_same_members(
    before: Seq<OrderedSegmentI32>,
    after: Seq<OrderedSegmentI32>,
)
    requires
        after.to_multiset() == before.to_multiset(),
    ensures
        same_members(segments_view(before), segments_view(after)),
{
    before.to_multiset_ensures();
    after.to_multiset_ensures();
    let vb = segments_view(before);
    let va = segments_view(after);
    assert forall|s: Segment| vb.contains(s) <==> va.contains(s) by {
        if vb.contains(s) {
            let i = choose|i: int| 0 <= i < vb.len() && vb[i] == s;
            assert(before.contains(before[i]));
            assert(after.to_multiset().count(before[i]) > 0);
            assert(after.contains(before[i]));
            let k = choose|k: int| 0 <= k < after.len() && after[k] == before[i];
            assert(va[k] == s);
        }
        if va.contains(s) {
            let i = choose|i: int| 0 <= i < va.len() && va[i] == s;
            assert(after.contains(after[i]));
            assert(before.to_multiset().count(after[i]) > 0);
            assert(before.contains(after[i]));
            let k = choose|k: int| 0 <= k < before.len() && before[k] == after[i];
            assert(vb[k] == s);
        }
    }
}

/// The scan of two lists finds the same crossings in whatever order the
/// lists are.
pub proof fn lemma_scan_double_same_results(
    a1: Seq<Segment>,
    a2: Seq<Segment>,
    b1: Seq<Segment>,
    b2: Seq<Segment>,
    bounded: bool,
    r: Intersection,
)
    requires
        same_members(a1, b1),
        same_members(a2, b2),
        scan_double(a1, a2, bounded).contains(r),
    ensures
        scan_double(b1, b2, bounded).contains(r),
{
    lemma_double_member(a1, a2, bounded, r);
    let (i, j) = choose|i: int, j: int|
        0 <= i < a1.len() && 0 <= j < a2.len() && pair_result(
            #[trigger] a1[i],
            #[trigger] a2[j],
            bounded,
        ) == Some(r);
    assert(a1.contains(a1[i]));
    assert(a2.contains(a2[j]));
    assert(b1.contains(a1[i]));
    assert(b2.contains(a2[j]));
    let k = choose|k: int| 0 <= k < b1.len() && b1[k] == a1[i];
    let l = choose|l: int| 0 <= l < b2.len() && b2[l] == a2[j];
    lemma_double_holds(b1, b2, bounded, k, l, r);
}

/// The sweep over two lists finds the same set of crossings as the
/// exhaustive scan of the lists as they were before sorting, where every
/// segment runs from north-west to south-east.
pub proof fn lemma_sweep_double_same_results(
    before1: Seq<Segment>,
    before2: Seq<Segment>,
    after1: Seq<Segment>,
    after2: Seq<Segment>,
)
    requires
        same_members(before1, after1),
        same_members(before2, after2),
        all_canonical(after1),
        all_canonical(after2),
        sorted_by_start(after2),
    ensures
        forall|r: Intersection|
            sweep_double(after1, after2).contains(r) <==> scan_double(
                before1,
                before2,
                false,
            ).contains(r),
{
    lemma_sweep_double_is_scan(after1, after2);
    assert forall|r: Intersection|
        sweep_double(after1, after2).contains(r) <==> scan_double(
            before1,
            before2,
            false,
        ).contains(r) by {
        if scan_double(after1, after2, false).contains(r) {
            lemma_scan_double_same_results(after1, after2, before1, before2, false, r);
        }
        if scan_double(before1, before2, false).contains(r) {
            lemma_scan_double_same_results(before1, before2, after1, after2, false, r);
        }
    }
}

/// Taken in the other order, a pair of segments crosses at the same point.
pub proof fn lemma_crossing_symmetric(si: Segment, sj: Segment)
    requires
        crossing(si, sj).is_some(),
    ensures
        crossing(sj, si).is_some(),
        same_crossing(crossing(si, sj).unwrap(), crossing(sj, si).unwrap()),
{
    lemma_intersects_symmetric(si, sj);
    lemma_intersects_is_crossing_within(si, sj);
    lemma_intersects_is_crossing_within(sj, si);
    let u = si.delta().x;
    let v = si.delta().y;
    let p = sj.delta().x;
    let q = sj.delta().y;
    let d = dnm(si, sj);
    lemma_crossing_two_ways(si.start.x, si.start.y, u, v, sj.start.x, sj.start.y, p, q);
    let here = parametric_point(si, sj);
    let there = parametric_point(sj, si);
    assert(dnm(sj, si) == -d) by (nonlinear_arith)
        requires
            d == u * q - v * p,
            dnm(sj, si) == p * v - q * u,
    ;
    assert(t0_num(sj, si) == -t1_num(si, sj)) by (nonlinear_arith)
        requires
            t0_num(sj, si) == u * (sj.start.y - si.start.y) - v * (sj.start.x - si.start.x),
            t1_num(si, sj) == u * (si.start.y - sj.start.y) - v * (si.start.x - sj.start.x),
    ;
    let t1 = t1_num(si, sj);
    assert(there.x_num == -here.x_num) by (nonlinear_arith)
        requires
            there.x_num == sj.start.x * (-d) + (-t1) * p,
            here.x_num == sj.start.x * d + t1 * p,
    ;
    assert(there.y_num == -here.y_num) by (nonlinear_arith)
        requires
            there.y_num == sj.start.y * (-d) + (-t1) * q,
            here.y_num == sj.start.y * d + t1 * q,
    ;
    assert(here.x_num * (-d) == (-here.x_num) * d) by (nonlinear_arith);
    assert(here.y_num * (-d) == (-here.y_num) * d) by (nonlinear_arith);
}

/// Where no pair is accepted for the tolerance alone, the bounded solver
/// records for each pair what `intersects` and the line solver record.
pub proof fn lemma_bounded_is_crossing(si: Segment, sj: Segment)
    requires
        segment_intersection(si, sj).is_some() ==> intersects(si, sj),
    ensures
        bounded_crossing(si, sj) == crossing(si, sj),
{
    lemma_segment_solvers_agree(si, sj);
    lemma_intersects_is_crossing_within(si, sj);
    lemma_segment_intersection2_is_intersects(si, sj);
}

/// One direction of `lemma_sweep_single_same_results`, from either way of
/// scanning to the other: a crossing of a pair of one list is, as the same
/// crossing, the result of a pair of the other list.
proof fn lemma_pair_found_in(a: Seq<Segment>, b: Seq<Segment>, i: int, j: int) -> (found: (int, int))
    requires
        same_members(a, b),
        0 <= i < a.len(),
        0 <= j < a.len(),
        crossing(a[i], a[j]).is_some(),
    ensures
        0 <= found.0 < found.1 < b.len(),
        crossing(b[found.0], b[found.1]).is_some(),
        same_crossing(crossing(a[i], a[j]).unwrap(), crossing(b[found.0], b[found.1]).unwrap()),
{
    assert(a.contains(a[i]));
    assert(a.contains(a[j]));
    assert(b.contains(a[i]));
    assert(b.contains(a[j]));
    let k = choose|k: int| 0 <= k < b.len() && b[k] == a[i];
    let l = choose|l: int| 0 <= l < b.len() && b[l] == a[j];
    // a segment does not cross itself: the two are at different places
    lemma_intersects_is_crossing_within(a[i], a[j]);
    assert(dnm(a[i], a[i]) == 0) by (nonlinear_arith)
        requires
            dnm(a[i], a[i]) == a[i].delta().x * a[i].delta().y - a[i].delta().y * a[i].delta().x,
    ;
    assert(k != l);
    let r = crossing(a[i], a[j]).unwrap();
    assert(r.ix.same_point(r.ix));
    if k < l {
        (k, l)
    } else {
        lemma_crossing_symmetric(a[i], a[j]);
        (l, k)
    }
}

/// The sweep over one list finds the same crossings as the exhaustive scan
/// with the bounded solver of the list as it was before sorting: each record
/// of one is, as the same point for the same two segments, a record of the
/// other. This holds where every segment runs from north-west to south-east
/// and no pair is accepted by the bounded solver for its tolerance alone.
pub proof fn lemma_sweep_single_same_results(before: Seq<Segment>, after: Seq<Segment>)
    requires
        same_members(before, after),
        all_canonical(after),
        sorted_by_start(after),
        tolerance_free(before),
    ensures
        forall|r: Intersection| #[trigger]
            scan_single(before, true).contains(r) ==> exists|r2: Intersection| #[trigger]
                sweep_single(after).contains(r2) && same_crossing(r, r2),
        forall|r: Intersection| #[trigger]
            sweep_single(after).contains(r) ==> exists|r2: Intersection| #[trigger]
                scan_single(before, true).contains(r2) && same_crossing(r, r2),
{
    lemma_sweep_single_is_scan(after);
    assert forall|r: Intersection| #[trigger]
        scan_single(before, true).contains(r) implies exists|r2: Intersection| #[trigger]
        sweep_single(after).contains(r2) && same_crossing(r, r2) by {
        lemma_single_member(before, true, r);
        let (i, j) = choose|i: int, j: int|
            0 <= i < j < before.len() && pair_result(
                #[trigger] before[i],
                #[trigger] before[j],
                true,
            ) == Some(r);
        lemma_bounded_is_crossing(before[i], before[j]);
        let (k, l) = lemma_pair_found_in(before, after, i, j);
        let r2 = crossing(after[k], after[l]).unwrap();
        lemma_single_holds(after, false, k, l, r2);
        assert(sweep_single(after).contains(r2) && same_crossing(r, r2));
    }
    assert forall|r: Intersection| #[trigger]
        sweep_single(after).contains(r) implies exists|r2: Intersection| #[trigger]
        scan_single(before, true).contains(r2) && same_crossing(r, r2) by {
        lemma_single_member(after, false, r);
        let (i, j) = choose|i: int, j: int|
            0 <= i < j < after.len() && pair_result(
                #[trigger] after[i],
                #[trigger] after[j],
                false,
            ) == Some(r);
        assert forall|s: Segment| after.contains(s) <==> before.contains(s) by {}
        let (k, l) = lemma_pair_found_in(after, before, i, j);
        lemma_bounded_is_crossing(before[k], before[l]);
        let r2 = crossing(before[k], before[l]).unwrap();
        lemma_single_holds(before, true, k, l, r2);
        assert(scan_single(before, true).contains(r2) && same_crossing(r, r2));
    }
}

} // verus!
