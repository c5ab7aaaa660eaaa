//! The exhaustive scan of two lists records the same crossings, each as often,
//! in whatever order the lists are: its records depend on the segments that
//! the lists hold, not on their places.
use crate::intersect_segments::{
    pair_result, recorded, scan_double, scan_row, segments_view, sorted_by_start, sweep_double,
};
use crate::model::{Intersection, Segment};
use crate::ordered_segment::OrderedSegmentI32;
use crate::pruning::{all_canonical, lemma_sweep_double_is_scan};
use vstd::prelude::*;
use vstd::seq_lib::{
    lemma_multiset_commutative, to_multiset_contains, to_multiset_len, to_multiset_remove,
};

verus! {

/// The records that `each` gives for the segments of the list, one after the
/// other.
pub open spec fn gather(
    segments: Seq<Segment>,
    each: spec_fn(Segment) -> Seq<Intersection>,
) -> Seq<Intersection>
    decreases segments.len(),
{
    if segments.len() == 0 {
        Seq::empty()
    } else {
        each(segments.first()) + gather(segments.drop_first(), each)
    }
}

/// What one segment of a row adds to the row of `si`.
pub open spec fn row_entry(si: Segment, bounded: bool) -> spec_fn(Segment) -> Seq<Intersection> {
    |sj: Segment| recorded(pair_result(si, sj, bounded))
}

/// The row of each segment against `others`.
pub open spec fn row_against(others: Seq<Segment>, bounded: bool) -> spec_fn(Segment) -> Seq<
    Intersection,
> {
    |si: Segment| scan_row(si, others, bounded)
}

/// A row gathers what each of its segments adds.
pub proof fn lemma_row_is_gathered(si: Segment, others: Seq<Segment>, bounded: bool)
    ensures
        scan_row(si, others, bounded) == gather(others, row_entry(si, bounded)),
    decreases others.len(),
{
    if others.len() > 0 {
        lemma_row_is_gathered(si, others.drop_first(), bounded);
    }
}

/// The scan of two lists gathers the rows of the first list.
pub proof fn lemma_double_is_gathered(
    segments1: Seq<Segment>,
    segments2: Seq<Segment>,
    bounded: bool,
)
    ensures
        scan_double(segments1, segments2, bounded) == gather(
            segments1,
            row_against(segments2, bounded),
        ),
    decreases segments1.len(),
{
    if segments1.len() > 0 {
        lemma_double_is_gathered(segments1.drop_first(), segments2, bounded);
    }
}

/// Without one segment, what is gathered lacks what that segment gave.
proof fn lemma_gather_remove(
    segments: Seq<Segment>,
    each: spec_fn(Segment) -> Seq<Intersection>,
    k: int,
)
    requires
        0 <= k < segments.len(),
    ensures
        gather(segments, each).to_multiset() == gather(segments.remove(k), each).to_multiset().add(
            each(segments[k]).to_multiset(),
        ),
    decreases segments.len(),
{
    let rest = segments.drop_first();
    let less = segments.remove(k);
    lemma_multiset_commutative(each(segments.first()), gather(rest, each));
    if k == 0 {
        assert(less =~= rest);
        assert(gather(segments, each).to_multiset() =~= gather(less, each).to_multiset().add(
            each(segments[k]).to_multiset(),
        ));
    } else {
        assert(less.first() == segments.first());
        assert(less.drop_first() =~= rest.remove(k - 1));
        assert(rest[k - 1] == segments[k]);
        lemma_gather_remove(rest, each, k - 1);
        lemma_multiset_commutative(each(less.first()), gather(less.drop_first(), each));
        assert(gather(segments, each).to_multiset() =~= gather(less, each).to_multiset().add(
            each(segments[k]).to_multiset(),
        ));
    }
}

/// Two lists with the same segments, each as often: a place in the second at
/// which the first segment of the first stands, and the rest of both.
proof fn lemma_first_found<A>(a: Seq<A>, b: Seq<A>) -> (k: int)
    requires
        a.to_multiset() == b.to_multiset(),
        a.len() > 0,
    ensures
        0 <= k < b.len(),
        b[k] == a[0],
        a.drop_first().to_multiset() == b.remove(k).to_multiset(),
{
    assert(a.contains(a[0]));
    to_multiset_contains(a, a[0]);
    to_multiset_contains(b, a[0]);
    let k = choose|k: int| 0 <= k < b.len() && b[k] == a[0];
    to_multiset_remove(a, 0);
    to_multiset_remove(b, k);
    assert(a.remove(0) =~= a.drop_first());
    k
}

/// What is gathered does not depend on the order of the list.
pub proof fn lemma_gather_permutation(
    a: Seq<Segment>,
    b: Seq<Segment>,
    each: spec_fn(Segment) -> Seq<Intersection>,
)
    requires
        a.to_multiset() == b.to_multiset(),
    ensures
        gather(a, each).to_multiset() == gather(b, each).to_multiset(),
    decreases a.len(),
{
    to_multiset_len(a);
    to_multiset_len(b);
    if a.len() > 0 {
        let k = lemma_first_found(a, b);
        lemma_gather_permutation(a.drop_first(), b.remove(k), each);
        lemma_gather_remove(b, each, k);
        lemma_multiset_commutative(each(a.first()), gather(a.drop_first(), each));
        assert(gather(a, each).to_multiset() =~= gather(b, each).to_multiset());
    }
}

/// What is gathered stays the same, each record as often, where what each
/// segment gives stays so.
proof fn lemma_gather_pointwise(
    segments: Seq<Segment>,
    each: spec_fn(Segment) -> Seq<Intersection>,
    other: spec_fn(Segment) -> Seq<Intersection>,
)
    requires
        forall|s: Segment| #[trigger] each(s).to_multiset() == other(s).to_multiset(),
    ensures
        gather(segments, each).to_multiset() == gather(segments, other).to_multiset(),
    decreases segments.len(),
{
    if segments.len() > 0 {
        let rest = segments.drop_first();
        lemma_gather_pointwise(rest, each, other);
        lemma_multiset_commutative(each(segments.first()), gather(rest, each));
        lemma_multiset_commutative(other(segments.first()), gather(rest, other));
        assert(each(segments.first()).to_multiset() == other(segments.first()).to_multiset());
        assert(gather(segments, each).to_multiset() =~= gather(segments, other).to_multiset());
    }
}

/// A row records the same crossings, each as often, in whatever order the row
/// is.
pub proof fn lemma_scan_row_permutation(
    si: Segment,
    a: Seq<Segment>,
    b: Seq<Segment>,
    bounded: bool,
)
    requires
        a.to_multiset() == b.to_multiset(),
    ensures
        scan_row(si, a, bounded).to_multiset() == scan_row(si, b, bounded).to_multiset(),
{
    lemma_row_is_gathered(si, a, bounded);
    lemma_row_is_gathered(si, b, bounded);
    lemma_gather_permutation(a, b, row_entry(si, bounded));
}

/// The exhaustive scan of two lists records the same crossings, each as
/// often, in whatever order the two lists are.
pub proof fn lemma_scan_double_permutation(
    a1: Seq<Segment>,
    a2: Seq<Segment>,
    b1: Seq<Segment>,
    b2: Seq<Segment>,
    bounded: bool,
)
    requires
        a1.to_multiset() == b1.to_multiset(),
        a2.to_multiset() == b2.to_multiset(),
    ensures
        scan_double(a1, a2, bounded).to_multiset() == scan_double(b1, b2, bounded).to_multiset(),
{
    lemma_double_is_gathered(a1, a2, bounded);
    lemma_double_is_gathered(b1, b2, bounded);
    lemma_double_is_gathered(b1, a2, bounded);
    // the first list in another order
    lemma_gather_permutation(a1, b1, row_against(a2, bounded));
    // the second list in another order, row by row
    assert forall|s: Segment| #[trigger]
        row_against(a2, bounded)(s).to_multiset() == row_against(b2, bounded)(s).to_multiset() by {
        lemma_scan_row_permutation(s, a2, b2, bounded);
    }
    lemma_gather_pointwise(b1, row_against(a2, bounded), row_against(b2, bounded));
}

/// A list in another order has its models in another order.
pub proof fn lemma_view_permutation(a: Seq<OrderedSegmentI32>, b: Seq<OrderedSegmentI32>)
    requires
        a.to_multiset() == b.to_multiset(),
    ensures
        segments_view(a).to_multiset() == segments_view(b).to_multiset(),
    decreases a.len(),
{
    let va = segments_view(a);
    let vb = segments_view(b);
    to_multiset_len(a);
    to_multiset_len(b);
    if a.len() == 0 {
        assert(va =~= vb);
    } else {
        let k = lemma_first_found(a, b);
        lemma_view_permutation(a.drop_first(), b.remove(k));
        assert(segments_view(a.drop_first()) =~= va.remove(0));
        assert(segments_view(b.remove(k)) =~= vb.remove(k));
        to_multiset_remove(va, 0);
        to_multiset_remove(vb, k);
        assert(va[0] == vb[k]);
        assert(va.contains(va[0]));
        assert(vb.contains(vb[k]));
        to_multiset_contains(va, va[0]);
        to_multiset_contains(vb, vb[k]);
        let x = va[0];
        assert(va.to_multiset() =~= va.to_multiset().remove(x).insert(x));
        assert(vb.to_multiset() =~= vb.to_multiset().remove(x).insert(x));
    }
}

/// The sweep over two lists records the same crossings, each as often, as
/// the exhaustive scan of the lists as they were before sorting, where every
/// segment runs from north-west to south-east.
pub proof fn lemma_sweep_double_same_records(
    before1: Seq<Segment>,
    before2: Seq<Segment>,
    after1: Seq<Segment>,
    after2: Seq<Segment>,
)
    requires
        after1.to_multiset() == before1.to_multiset(),
        after2.to_multiset() == before2.to_multiset(),
        all_canonical(after1),
        all_canonical(after2),
        sorted_by_start(after2),
    ensures
        sweep_double(after1, after2).to_multiset() == scan_double(
            before1,
            before2,
            false,
        ).to_multiset(),
{
    lemma_sweep_double_is_scan(after1, after2);
    lemma_scan_double_permutation(after1, after2, before1, before2, false);
}

} // verus!
