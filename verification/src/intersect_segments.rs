//! The drivers: every crossing among the segments of one list, or between the
//! segments of two lists, by an exhaustive scan or by a scan in sorted order
//! that skips the pairs that cannot cross.
use crate::intersection::{intersects, line_intersection2, segment_intersection};
use crate::model::{Intersection, Segment};
use crate::ordered_coordinate::OrderedCoordinateRatio;
use crate::ordered_segment::{OrderedSegmentI128, OrderedSegmentI32};
use vstd::prelude::*;

verus! {

/// One crossing: the exact point, and the indices of the two segments.
#[derive(Debug, Copy, Clone, PartialEq, Eq, Structural)]
pub struct IxResultRatio {
    pub ix: OrderedCoordinateRatio,
    pub idx1: i128,
    pub idx2: i128,
}

impl View for IxResultRatio {
    type V = Intersection;

    open spec fn view(&self) -> Intersection {
        Intersection { ix: self.ix@, idx1: self.idx1 as int, idx2: self.idx2 as int }
    }
}

/// The models of a list of segments, in order.
pub open spec fn segments_view(segments: Seq<OrderedSegmentI32>) -> Seq<Segment> {
    Seq::new(segments.len(), |i: int| segments[i]@)
}

/// The models of a list of results, in order.
pub open spec fn results_view(results: Seq<IxResultRatio>) -> Seq<Intersection> {
    Seq::new(results.len(), |i: int| results[i]@)
}

/// What a scan records for the pair `si`, `sj` with the test `intersects` and
/// the parametric line solver: the crossing of the two lines where the
/// segments cross.
pub open spec fn crossing(si: Segment, sj: Segment) -> Option<Intersection> {
    if intersects(si, sj) {
        match line_intersection2(si, sj) {
            Some(ix) => Some(Intersection { ix, idx1: si.idx, idx2: sj.idx }),
            None => None,
        }
    } else {
        None
    }
}

/// What a scan records for the pair `si`, `sj` with the bounded solver.
pub open spec fn bounded_crossing(si: Segment, sj: Segment) -> Option<Intersection> {
    match segment_intersection(si, sj) {
        Some(ix) => Some(Intersection { ix, idx1: si.idx, idx2: sj.idx }),
        None => None,
    }
}

/// What a scan records for one pair: by the bounded solver, or by `intersects`
/// and the line solver.
pub open spec fn pair_result(si: Segment, sj: Segment, bounded: bool) -> Option<Intersection> {
    if bounded {
        bounded_crossing(si, sj)
    } else {
        crossing(si, sj)
    }
}

/// Nothing, or the one record.
pub open spec fn recorded(r: Option<Intersection>) -> Seq<Intersection> {
    match r {
        Some(ix) => seq![ix],
        None => Seq::empty(),
    }
}

/// The records of `si` against each of `others`, in order.
pub open spec fn scan_row(si: Segment, others: Seq<Segment>, bounded: bool) -> Seq<Intersection>
    decreases others.len(),
{
    if others.len() == 0 {
        Seq::empty()
    } else {
        recorded(pair_result(si, others.first(), bounded)) + scan_row(
            si,
            others.drop_first(),
            bounded,
        )
    }
}

/// The records of every pair `(i, j)` with `i < j` of one list, by rows.
pub open spec fn scan_single(segments: Seq<Segment>, bounded: bool) -> Seq<Intersection>
    decreases segments.len(),
{
    if segments.len() == 0 {
        Seq::empty()
    } else {
        scan_row(segments.first(), segments.drop_first(), bounded) + scan_single(
            segments.drop_first(),
            bounded,
        )
    }
}

/// The records of every pair of a segment of the first list and one of the
/// second, by rows.
pub open spec fn scan_double(
    segments1: Seq<Segment>,
    segments2: Seq<Segment>,
    bounded: bool,
) -> Seq<Intersection>
    decreases segments1.len(),
{
    if segments1.len() == 0 {
        Seq::empty()
    } else {
        scan_row(segments1.first(), segments2, bounded) + scan_double(
            segments1.drop_first(),
            segments2,
            bounded,
        )
    }
}

/// The records of `si` against `others` in a sweep: a segment wholly
/// north-west of `si` is skipped, and the row ends at the first one wholly
/// south-east of it.
pub open spec fn sweep_row(si: Segment, others: Seq<Segment>) -> Seq<Intersection>
    decreases others.len(),
{
    if others.len() == 0 {
        Seq::empty()
    } else if others.first().is_nw(si) {
        sweep_row(si, others.drop_first())
    } else if others.first().is_se(si) {
        Seq::empty()
    } else {
        recorded(crossing(si, others.first())) + sweep_row(si, others.drop_first())
    }
}

/// The sweep over the pairs `(i, j)` with `i < j` of one list.
pub open spec fn sweep_single(segments: Seq<Segment>) -> Seq<Intersection>
    decreases segments.len(),
{
    if segments.len() == 0 {
        Seq::empty()
    } else {
        sweep_row(segments.first(), segments.drop_first()) + sweep_single(segments.drop_first())
    }
}

/// The sweep over the pairs of a segment of the first list and one of the
/// second.
pub open spec fn sweep_double(segments1: Seq<Segment>, segments2: Seq<Segment>) -> Seq<
    Intersection,
>
    decreases segments1.len(),
{
    if segments1.len() == 0 {
        Seq::empty()
    } else {
        sweep_row(segments1.first(), segments2) + sweep_double(segments1.drop_first(), segments2)
    }
}

/// Every crossing among the segments of one list: each pair `(i, j)` with
/// `i < j` is put to the bounded solver, in that order.
pub fn ix_brute_single_i32(segments: &[OrderedSegmentI32]) -> (ixs: Vec<IxResultRatio>)
    ensures
        results_view(ixs@) == scan_single(segments_view(segments@), true),
{
    let ghost all = segments_view(segments@);
    let n = segments.len();
    let mut ixs = Vec::<IxResultRatio>::new();
    let mut i: usize = 0;
    assert(all.skip(0) =~= all);
    while i < n
        invariant
            n == segments.len(),
            i <= n,
            all == segments_view(segments@),
            results_view(ixs@) + scan_single(all.skip(i as int), true) == scan_single(all, true),
        decreases n - i,
    {
        // the segment is widened once for the whole row
        let si = OrderedSegmentI128::from(&segments[i]);
        let ghost row = all.skip(i as int + 1);
        let ghost before = results_view(ixs@);
        let mut j: usize = i + 1;
        assert(row.skip(0) =~= row);
        assert(all.skip(i as int).drop_first() =~= row);
        while j < n
            invariant
                n == segments.len(),
                i < j <= n,
                all == segments_view(segments@),
                row == all.skip(i as int + 1),
                si@ == all[i as int],
                results_view(ixs@) + scan_row(si@, row.skip(j - i - 1), true) == before + scan_row(
                    si@,
                    row,
                    true,
                ),
            decreases n - j,
        {
            let sj = OrderedSegmentI128::from(&segments[j]);
            let ghost rest = row.skip(j - i - 1);
            let ghost shown = results_view(ixs@);
            assert(rest.first() == sj@);
            assert(rest.drop_first() =~= row.skip(j - i));

            let res = si.segment_intersection(&sj);

            if let Some(ix) = res {
                ixs.push(IxResultRatio { ix, idx1: si.idx, idx2: sj.idx });
            }
            assert(results_view(ixs@) =~= shown + recorded(pair_result(si@, sj@, true)));
            assert(results_view(ixs@) + scan_row(si@, row.skip(j - i), true) =~= shown + scan_row(
                si@,
                rest,
                true,
            ));
            j += 1;
        }
        assert(results_view(ixs@) + scan_single(all.skip(i as int + 1), true) =~= before
            + scan_single(all.skip(i as int), true));
        i += 1;
    }
    ixs
}

/// Every crossing between a segment of the first list and one of the second:
/// each pair is put to `intersects` and then to the parametric line solver,
/// by rows. A list passed twice gives each crossing in both orders.
pub fn ix_brute_double_i32(segments1: &[OrderedSegmentI32], segments2: &[OrderedSegmentI32]) -> (ixs:
    Vec<IxResultRatio>)
    ensures
        results_view(ixs@) == scan_double(
            segments_view(segments1@),
            segments_view(segments2@),
            false,
        ),
{
    let ghost all1 = segments_view(segments1@);
    let ghost all2 = segments_view(segments2@);
    let n1 = segments1.len();
    let n2 = segments2.len();
    let mut ixs = Vec::<IxResultRatio>::new();
    let mut i: usize = 0;
    assert(all1.skip(0) =~= all1);
    while i < n1
        invariant
            n1 == segments1.len(),
            n2 == segments2.len(),
            i <= n1,
            all1 == segments_view(segments1@),
            all2 == segments_view(segments2@),
            results_view(ixs@) + scan_double(all1.skip(i as int), all2, false) == scan_double(
                all1,
                all2,
                false,
            ),
        decreases n1 - i,
    {
        let si = OrderedSegmentI128::from(&segments1[i]);
        let ghost before = results_view(ixs@);
        let mut j: usize = 0;
        assert(all2.skip(0) =~= all2);
        assert(all1.skip(i as int).drop_first() =~= all1.skip(i as int + 1));
        while j < n2
            invariant
                n1 == segments1.len(),
                n2 == segments2.len(),
                i < n1,
                j <= n2,
                all1 == segments_view(segments1@),
                all2 == segments_view(segments2@),
                si@ == all1[i as int],
                results_view(ixs@) + scan_row(si@, all2.skip(j as int), false) == before
                    + scan_row(si@, all2, false),
            decreases n2 - j,
        {
            let sj = OrderedSegmentI128::from(&segments2[j]);
            let ghost rest = all2.skip(j as int);
            let ghost shown = results_view(ixs@);
            assert(rest.first() == sj@);
            assert(rest.drop_first() =~= all2.skip(j as int + 1));

            if si.intersects(&sj) {
                let res = si.line_intersection2(&sj);
                if let Some(ix) = res {
                    ixs.push(IxResultRatio { ix, idx1: si.idx, idx2: sj.idx });
                }
            }
            assert(results_view(ixs@) =~= shown + recorded(pair_result(si@, sj@, false)));
            assert(results_view(ixs@) + scan_row(si@, all2.skip(j as int + 1), false) =~= shown
                + scan_row(si@, rest, false));
            j += 1;
        }
        assert(results_view(ixs@) + scan_double(all1.skip(i as int + 1), all2, false) =~= before
            + scan_double(all1.skip(i as int), all2, false));
        i += 1;
    }
    ixs
}

/// No segment starts before one that precedes it in the list.
pub open spec fn sorted_by_start(segments: Seq<Segment>) -> bool {
    forall|i: int, j: int|
        0 <= i < j < segments.len() ==> !(#[trigger] segments[j]).start.nw_before(
            (#[trigger] segments[i]).start,
        )
}

/// Sorts the segments by their start points, from north-west to south-east.
///
/// Calls `sort_unstable_by` of the standard library with `partial_nw` as the
/// comparison. Taken from its documentation, not proved: the slice holds the
/// same segments afterwards, and they are in order. Nothing is said of the
/// order in which segments with one start point come out.
#[verifier::external_body]
fn sort_nw(segments: &mut [OrderedSegmentI32])
    ensures
        final(segments)@.to_multiset() == old(segments)@.to_multiset(),
        sorted_by_start(segments_view(final(segments)@)),
{
    segments.sort_unstable_by(|a, b| a.partial_nw(b));
}

/// The sweep of `si` over `segments[from..]`, added to `ixs`.
fn sweep_row_i32(
    si: &OrderedSegmentI128,
    segments: &[OrderedSegmentI32],
    from: usize,
    ixs: &mut Vec<IxResultRatio>,
)
    requires
        from <= segments.len(),
        si@.within(0x8000_0000),
    ensures
        results_view(final(ixs)@) == results_view(old(ixs)@) + sweep_row(
            si@,
            segments_view(segments@).skip(from as int),
        ),
{
    let ghost row = segments_view(segments@).skip(from as int);
    let ghost before = results_view(ixs@);
    let n = segments.len();
    let mut j: usize = from;
    assert(row.skip(0) =~= row);
    while j < n
        invariant
            n == segments.len(),
            from <= j <= n,
            si@.within(0x8000_0000),
            row == segments_view(segments@).skip(from as int),
            results_view(ixs@) + sweep_row(si@, row.skip(j - from)) == before + sweep_row(si@, row),
        ensures
            results_view(ixs@) == before + sweep_row(si@, row),
        decreases n - j,
    {
        let sj = OrderedSegmentI128::from(&segments[j]);
        let ghost rest = row.skip(j - from);
        let ghost shown = results_view(ixs@);
        assert(rest.first() == sj@);
        assert(rest.drop_first() =~= row.skip(j - from + 1));

        // if we have not yet reached the left end, we can skip
        if sj.is_nw(si) {
            j += 1;
            continue ;
        }
        // if we reach the right end, we can skip the rest

        if sj.is_se(si) {
            assert(results_view(ixs@) + Seq::<Intersection>::empty() =~= results_view(ixs@));
            break ;
        }
        if si.intersects(&sj) {
            let res = si.line_intersection2(&sj);
            if let Some(ix) = res {
                ixs.push(IxResultRatio { ix, idx1: si.idx, idx2: sj.idx });
            }
        }
        assert(results_view(ixs@) =~= shown + recorded(crossing(si@, sj@)));
        assert(results_view(ixs@) + sweep_row(si@, row.skip(j - from + 1)) =~= shown + sweep_row(
            si@,
            rest,
        ));
        j += 1;
    }
    assert(results_view(ixs@) + Seq::<Intersection>::empty() =~= results_view(ixs@));
}

/// Every crossing among the segments of one list, found by a sweep.
///
/// Unless `sorted` says that the list is in order already, it is first sorted
/// in place by start points. Then each pair `(i, j)` with `i < j` is visited
/// by rows; within a row a segment wholly north-west of the row's segment is
/// skipped and the row ends at the first one wholly south-east of it. The
/// pairs that remain are put to `intersects` and the parametric line solver.
pub fn ix_sort_single_i32(segments: &mut [OrderedSegmentI32], sorted: bool) -> (ixs: Vec<
    IxResultRatio,
>)
    ensures
        sorted ==> final(segments)@ == old(segments)@,
        !sorted ==> final(segments)@.to_multiset() == old(segments)@.to_multiset(),
        !sorted ==> sorted_by_start(segments_view(final(segments)@)),
        results_view(ixs@) == sweep_single(segments_view(final(segments)@)),
{
    if !sorted {
        sort_nw(segments);
    }
    let ghost all = segments_view(segments@);
    let n = segments.len();
    let mut ixs = Vec::<IxResultRatio>::new();
    let mut i: usize = 0;
    assert(all.skip(0) =~= all);
    while i < n
        invariant
            n == segments.len(),
            i <= n,
            all == segments_view(segments@),
            results_view(ixs@) + sweep_single(all.skip(i as int)) == sweep_single(all),
        decreases n - i,
    {
        let si = OrderedSegmentI128::from(&segments[i]);
        let ghost before = results_view(ixs@);
        assert(all.skip(i as int).drop_first() =~= all.skip(i as int + 1));
        sweep_row_i32(&si, segments, i + 1, &mut ixs);
        assert(results_view(ixs@) + sweep_single(all.skip(i as int + 1)) =~= before
            + sweep_single(all.skip(i as int)));
        i += 1;
    }
    ixs
}

/// Every crossing between a segment of the first list and one of the second,
/// found by a sweep.
///
/// Unless `sorted` says that both lists are in order already, each is first
/// sorted in place by start points. Then every pair is visited by rows, with
/// the skipping and the early end of a row as in `ix_sort_single_i32`.
pub fn ix_sort_double_i32(
    segments1: &mut [OrderedSegmentI32],
    segments2: &mut [OrderedSegmentI32],
    sorted: bool,
) -> (ixs: Vec<IxResultRatio>)
    ensures
        sorted ==> final(segments1)@ == old(segments1)@ && final(segments2)@ == old(segments2)@,
        !sorted ==> final(segments1)@.to_multiset() == old(segments1)@.to_multiset(),
        !sorted ==> final(segments2)@.to_multiset() == old(segments2)@.to_multiset(),
        !sorted ==> sorted_by_start(segments_view(final(segments1)@)),
        !sorted ==> sorted_by_start(segments_view(final(segments2)@)),
        results_view(ixs@) == sweep_double(
            segments_view(final(segments1)@),
            segments_view(final(segments2)@),
        ),
{
    if !sorted {
        sort_nw(segments1);
        sort_nw(segments2);
    }
    let ghost all1 = segments_view(segments1@);
    let ghost all2 = segments_view(segments2@);
    let n1 = segments1.len();
    let mut ixs = Vec::<IxResultRatio>::new();
    let mut i: usize = 0;
    assert(all1.skip(0) =~= all1);
    assert(all2.skip(0) =~= all2);
    while i < n1
        invariant
            n1 == segments1.len(),
            i <= n1,
            all1 == segments_view(segments1@),
            all2 == segments_view(segments2@),
            all2.skip(0) == all2,
            results_view(ixs@) + sweep_double(all1.skip(i as int), all2) == sweep_double(
                all1,
                all2,
            ),
        decreases n1 - i,
    {
        let si = OrderedSegmentI128::from(&segments1[i]);
        let ghost before = results_view(ixs@);
        assert(all1.skip(i as int).drop_first() =~= all1.skip(i as int + 1));
        sweep_row_i32(&si, segments2, 0, &mut ixs);
        assert(results_view(ixs@) + sweep_double(all1.skip(i as int + 1), all2) =~= before
            + sweep_double(all1.skip(i as int), all2));
        i += 1;
    }
    ixs
}

} // verus!
