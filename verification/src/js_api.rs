//! Entry points over flat arrays, as a host passes them: four scalars for
//! each segment, `x1, y1, x2, y2`, and the position of the segment in the
//! array as its index.
use crate::arith::lemma_mul_bound;
use crate::intersect_segments::{
    ix_brute_double_i32, ix_brute_single_i32, ix_sort_double_i32, ix_sort_single_i32,
    results_view, scan_double, scan_single, segments_view, sorted_by_start, sweep_double,
    sweep_single, IxResultRatio,
};
use crate::model::{Intersection, Point};
use crate::ordered_coordinate::{c_i32, OrderedCoordinateI32};
use crate::ordered_segment::OrderedSegmentI32;
use crate::orientation::{orientation, Orientation};
use vstd::prelude::*;

verus! {

/// The flat array holds whole segments, and no more of them than an index can
/// count.
pub open spec fn well_formed(coordinates: Seq<i32>) -> bool {
    coordinates.len() % 4 == 0 && coordinates.len() / 4 <= 0x8000_0000
}

/// The segment that the scalars at `4 * k .. 4 * k + 4` describe, with index
/// `k`: as given where `ordered` says that it runs from north-west to
/// south-east already, else with its endpoints put in that order.
pub open spec fn flat_segment(coordinates: Seq<i32>, k: int, ordered: bool) -> OrderedSegmentI32 {
    let given = OrderedSegmentI32 {
        start: OrderedCoordinateI32 { x: coordinates[4 * k], y: coordinates[4 * k + 1] },
        end: OrderedCoordinateI32 { x: coordinates[4 * k + 2], y: coordinates[4 * k + 3] },
        idx: k as i32,
    };
    if ordered {
        given
    } else {
        given.reordered()
    }
}

/// The segments that a flat array describes, in order.
pub open spec fn flat_segments(coordinates: Seq<i32>, ordered: bool) -> Seq<OrderedSegmentI32> {
    Seq::new(coordinates.len() / 4, |k: int| flat_segment(coordinates, k, ordered))
}

/// The records of a bundle; none for an absent one.
pub open spec fn bundle_view(bundle: Option<Vec<IxResultRatio>>) -> Seq<Intersection> {
    match bundle {
        Some(ixs) => results_view(ixs@),
        None => Seq::empty(),
    }
}

/// Builds the segments of a flat array. Every four scalars are one segment,
/// whose index is its position.
pub fn segments_from_coordinates(coordinates: &[i32], ordered: bool) -> (segments: Vec<
    OrderedSegmentI32,
>)
    requires
        well_formed(coordinates@),
    ensures
        segments@ == flat_segments(coordinates@, ordered),
{
    let n_coords = coordinates.len();
    let mut segments = Vec::<OrderedSegmentI32>::with_capacity(n_coords / 4);
    let mut i: usize = 0;
    while i < n_coords
        invariant
            n_coords == coordinates.len(),
            well_formed(coordinates@),
            i <= n_coords,
            i % 4 == 0,
            segments.len() == i / 4,
            forall|k: int|
                0 <= k < segments.len() ==> segments[k] == flat_segment(coordinates@, k, ordered),
        decreases n_coords - i,
    {
        let start = c_i32(coordinates[i], coordinates[i + 1]);
        let end = c_i32(coordinates[i + 2], coordinates[i + 3]);
        let idx = (i / 4) as i32;
        let segment = if ordered {
            OrderedSegmentI32::new_with_idx(start, end, idx)
        } else {
            OrderedSegmentI32::new_reorder_with_index(start, end, idx)
        };
        segments.push(segment);
        i += 4;
    }
    assert(segments@ =~= flat_segments(coordinates@, ordered));
    segments
}

/// The results as a bundle: absent where there is none.
pub fn bundle_ix(ixs: Vec<IxResultRatio>) -> (bundle: Option<Vec<IxResultRatio>>)
    ensures
        bundle.is_none() <==> ixs.len() == 0,
        bundle.is_some() ==> bundle.unwrap() == ixs,
{
    if ixs.len() == 0 {
        return None;
    }
    Some(ixs)
}

/// Every crossing among the segments of a flat array, by the exhaustive scan.
/// The order of a segment's endpoints does not matter to it.
pub fn brute_i32(coordinates: &[i32]) -> (bundle: Option<Vec<IxResultRatio>>)
    requires
        well_formed(coordinates@),
    ensures
        bundle_view(bundle) == scan_single(
            segments_view(flat_segments(coordinates@, true)),
            true,
        ),
        bundle.is_none() <==> bundle_view(bundle).len() == 0,
{
    let segments = segments_from_coordinates(coordinates, true);
    let ixs = ix_brute_single_i32(segments.as_slice());
    bundle_ix(ixs)
}

/// Every crossing between the segments of two flat arrays, by the exhaustive
/// scan.
pub fn brute_double_i32(coordinates0: &[i32], coordinates1: &[i32]) -> (bundle: Option<
    Vec<IxResultRatio>,
>)
    requires
        well_formed(coordinates0@),
        well_formed(coordinates1@),
    ensures
        bundle_view(bundle) == scan_double(
            segments_view(flat_segments(coordinates0@, true)),
            segments_view(flat_segments(coordinates1@, true)),
            false,
        ),
        bundle.is_none() <==> bundle_view(bundle).len() == 0,
{
    let segments0 = segments_from_coordinates(coordinates0, true);
    let segments1 = segments_from_coordinates(coordinates1, true);
    let ixs = ix_brute_double_i32(segments0.as_slice(), segments1.as_slice());
    bundle_ix(ixs)
}

/// `swept` is what a sweep works on after the optional sort of `built`: the
/// same list where it is taken as sorted, else the same segments in the order
/// of their start points.
pub open spec fn sorted_from(
    built: Seq<OrderedSegmentI32>,
    swept: Seq<OrderedSegmentI32>,
    sorted: bool,
) -> bool {
    if sorted {
        swept == built
    } else {
        swept.to_multiset() == built.to_multiset() && sorted_by_start(segments_view(swept))
    }
}

/// Every crossing among the segments of a flat array, by the sweep.
///
/// `ordered` says that each segment runs from north-west to south-east
/// already, `sorted` that the segments are in the order of their start
/// points already: what is said to hold is not done again.
pub fn sort_i32(coordinates: &[i32], ordered: bool, sorted: bool) -> (bundle: Option<
    Vec<IxResultRatio>,
>)
    requires
        well_formed(coordinates@),
    ensures
        exists|swept: Seq<OrderedSegmentI32>|
            sorted_from(flat_segments(coordinates@, ordered), swept, sorted) && bundle_view(bundle)
                == sweep_single(segments_view(swept)),
        bundle.is_none() <==> bundle_view(bundle).len() == 0,
{
    let mut segments = segments_from_coordinates(coordinates, ordered);
    let ixs = ix_sort_single_i32(segments.as_mut_slice(), sorted);
    assert(sorted_from(flat_segments(coordinates@, ordered), segments@, sorted));
    bundle_ix(ixs)
}

/// Every crossing between the segments of two flat arrays, by the sweep, with
/// `ordered` and `sorted` as for `sort_i32`, said of both arrays.
pub fn sort_double_i32(
    coordinates0: &[i32],
    coordinates1: &[i32],
    ordered: bool,
    sorted: bool,
) -> (bundle: Option<Vec<IxResultRatio>>)
    requires
        well_formed(coordinates0@),
        well_formed(coordinates1@),
    ensures
        exists|swept0: Seq<OrderedSegmentI32>, swept1: Seq<OrderedSegmentI32>|
            sorted_from(flat_segments(coordinates0@, ordered), swept0, sorted) && sorted_from(
                flat_segments(coordinates1@, ordered),
                swept1,
                sorted,
            ) && bundle_view(bundle) == sweep_double(segments_view(swept0), segments_view(swept1)),
        bundle.is_none() <==> bundle_view(bundle).len() == 0,
{
    let mut segments0 = segments_from_coordinates(coordinates0, ordered);
    let mut segments1 = segments_from_coordinates(coordinates1, ordered);
    let ixs = ix_sort_double_i32(segments0.as_mut_slice(), segments1.as_mut_slice(), sorted);
    assert(sorted_from(flat_segments(coordinates0@, ordered), segments0@, sorted));
    assert(sorted_from(flat_segments(coordinates1@, ordered), segments1@, sorted));
    bundle_ix(ixs)
}

/// The orientation as a number: `1` clockwise, `-1` counterclockwise, `0`
/// collinear.
pub open spec fn orientation_number(o: Orientation) -> int {
    match o {
        Orientation::Clockwise => 1,
        Orientation::CounterClockwise => -1,
        Orientation::Collinear => 0,
    }
}

/// The orientation of three points given by their scalars, as a number.
pub fn orient2d_i32_js(ax: i32, ay: i32, bx: i32, by: i32, cx: i32, cy: i32) -> (r: i8)
    ensures
        r == orientation_number(
            orientation(
                Point { x: ax as int, y: ay as int },
                Point { x: bx as int, y: by as int },
                Point { x: cx as int, y: cy as int },
            ),
        ),
{
    let c1 = c_i32(ax, ay);
    let c2 = c_i32(bx, by);
    let c3 = c_i32(cx, cy);

    let res = c1.orient(&c2, &c3);
    match res {
        Orientation::Clockwise => 1,
        Orientation::CounterClockwise => -1,
        Orientation::Collinear => 0,
    }
}

/// The orientation of three points given by their scalars, as a number,
/// computed on the scalars themselves in 128 bits.
pub fn orient2d_i32_fast(ax: i32, ay: i32, bx: i32, by: i32, cx: i32, cy: i32) -> (r: i8)
    ensures
        r == orientation_number(
            orientation(
                Point { x: ax as int, y: ay as int },
                Point { x: bx as int, y: by as int },
                Point { x: cx as int, y: cy as int },
            ),
        ),
{
    let (ax, ay) = (ax as i128, ay as i128);
    let (bx, by) = (bx as i128, by as i128);
    let (cx, cy) = (cx as i128, cy as i128);
    proof {
        lemma_mul_bound(ay - cy, bx - cx, 0x1_0000_0000, 0x1_0000_0000);
        lemma_mul_bound(ax - cx, by - cy, 0x1_0000_0000, 0x1_0000_0000);
        assert((ay - cy) * (bx - cx) == (bx - cx) * (ay - cy)) by (nonlinear_arith);
    }

    let res = (ay - cy) * (bx - cx) - (ax - cx) * (by - cy);

    if res > 0 {
        -1
    } else if res < 0 {
        1
    } else {
        0
    }
}

} // verus!
