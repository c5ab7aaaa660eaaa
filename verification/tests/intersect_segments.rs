use intersections_line::intersect_segments::{
    ix_brute_double_i32, ix_brute_single_i32, ix_sort_double_i32, ix_sort_single_i32,
    IxResultRatio,
};
use intersections_line::ordered_coordinate::c_i32;
use intersections_line::ordered_segment::OrderedSegmentI32;

/// A record as four floats: the point, and the two indices.
#[derive(Debug, PartialEq, Clone, Copy)]
struct IxResultFloat {
    ix: (f64, f64),
    idx1: f64,
    idx2: f64,
}

fn to_float(ixs: &[IxResultRatio]) -> Vec<IxResultFloat> {
    ixs.iter()
        .map(|r| IxResultFloat {
            ix: (r.ix.x_num as f64 / r.ix.dnm as f64, r.ix.y_num as f64 / r.ix.dnm as f64),
            idx1: r.idx1 as f64,
            idx2: r.idx2 as f64,
        })
        .collect()
}

struct ExpectedI32 {
    segments: [OrderedSegmentI32; 3],

    expected_single: Vec<IxResultFloat>,
    expected_double: Vec<IxResultFloat>,
}

fn expected() -> ExpectedI32 {
    let mut expected_single = Vec::<IxResultFloat>::new();
    expected_single.push(IxResultFloat { ix: (2469.866666666667, 1900.), idx1: 0., idx2: 1. });
    expected_single.push(IxResultFloat { ix: (2500., 2100.), idx1: 1., idx2: 2. });

    let mut expected_double = Vec::<IxResultFloat>::new();
    expected_double.push(IxResultFloat { ix: (2469.866666666667, 1900.), idx1: 0., idx2: 1. });
    expected_double.push(IxResultFloat { ix: (2469.866666666667, 1900.), idx1: 1., idx2: 0. });
    expected_double.push(IxResultFloat { ix: (2500., 2100.), idx1: 1., idx2: 2. });
    expected_double.push(IxResultFloat { ix: (2500., 2100.), idx1: 2., idx2: 1. });

    ExpectedI32 {
        segments: [
            OrderedSegmentI32::new_with_idx(c_i32(2300, 1900), c_i32(4200, 1900), 0),
            OrderedSegmentI32::new_with_idx(c_i32(2387, 1350), c_i32(2500, 2100), 1),
            OrderedSegmentI32::new_with_idx(c_i32(2500, 2100), c_i32(2900, 2100), 2),
        ],

        expected_single,
        expected_double,
    }
}

#[test]
fn intersect_segments_brute_single_int_works() {
    let data = expected();
    let ixs = ix_brute_single_i32(&data.segments[..]);
    assert_eq!(to_float(&ixs), data.expected_single);
}

#[test]
fn intersect_segments_brute_double_int_works() {
    let data = expected();
    let ixs = ix_brute_double_i32(&data.segments[..], &data.segments[..]);
    assert_eq!(to_float(&ixs), data.expected_double);
}

#[test]
fn intersect_segments_sort_single_int_works() {
    let mut data = expected();
    let ixs = ix_sort_single_i32(&mut data.segments[..], false);
    assert_eq!(to_float(&ixs), data.expected_single);
}

#[test]
fn intersect_segments_sort_double_int_works() {
    let data = expected();
    let mut segments1 = data.segments.clone();
    let mut segments2 = data.segments.clone();

    let ixs = ix_sort_double_i32(&mut segments1, &mut segments2, false);
    assert_eq!(to_float(&ixs), data.expected_double);
}

// the same scenario, with the lists held in vectors
#[test]
fn intersections_brute_single_int_works() {
    // s0|s1 intersect
    // s0|s2 do not intersect
    // s1|s2 intersect at endpoint
    let data = expected();
    let segments = data.segments.to_vec();
    let mut res = Vec::<IxResultFloat>::new();
    res.push(IxResultFloat { ix: (2469.866666666667, 1900.), idx1: 0., idx2: 1. });
    res.push(IxResultFloat { ix: (2500., 2100.), idx1: 1., idx2: 2. });

    let ixs = ix_brute_single_i32(&segments);
    assert_eq!(to_float(&ixs), res);
}

#[test]
fn intersections_brute_double_int_works() {
    let data = expected();
    let segments = data.segments.to_vec();
    let mut res = Vec::<IxResultFloat>::new();
    res.push(IxResultFloat { ix: (2469.866666666667, 1900.), idx1: 0., idx2: 1. });
    res.push(IxResultFloat { ix: (2469.866666666667, 1900.), idx1: 1., idx2: 0. });
    res.push(IxResultFloat { ix: (2500., 2100.), idx1: 1., idx2: 2. });
    res.push(IxResultFloat { ix: (2500., 2100.), idx1: 2., idx2: 1. });

    let ixs = ix_brute_double_i32(&segments, &segments);
    assert_eq!(to_float(&ixs), res);
}

#[test]
fn intersections_sort_single_int_works() {
    let data = expected();
    let mut segments = data.segments.to_vec();
    let mut res = Vec::<IxResultFloat>::new();
    res.push(IxResultFloat { ix: (2469.866666666667, 1900.), idx1: 0., idx2: 1. });
    res.push(IxResultFloat { ix: (2500., 2100.), idx1: 1., idx2: 2. });
    let ixs = ix_sort_single_i32(&mut segments, false);
    assert_eq!(to_float(&ixs), res);
}

#[test]
fn intersections_sort_double_int_works() {
    let data = expected();
    let mut segments1 = data.segments.to_vec();
    let mut segments2 = segments1.clone();
    let mut res = Vec::<IxResultFloat>::new();
    res.push(IxResultFloat { ix: (2469.866666666667, 1900.), idx1: 0., idx2: 1. });
    res.push(IxResultFloat { ix: (2469.866666666667, 1900.), idx1: 1., idx2: 0. });
    res.push(IxResultFloat { ix: (2500., 2100.), idx1: 1., idx2: 2. });
    res.push(IxResultFloat { ix: (2500., 2100.), idx1: 2., idx2: 1. });

    let ixs = ix_sort_double_i32(&mut segments1, &mut segments2, false);
    assert_eq!(to_float(&ixs), res);
}

#[test]
fn concrete_scenario_has_exactly_two_crossings() {
    let data = expected();
    let ixs = ix_brute_single_i32(&data.segments[..]);
    assert_eq!(ixs.len(), 2);
    // (2469.8666.., 1900) as an exact quotient: 37048 / 15
    assert_eq!((ixs[0].idx1, ixs[0].idx2), (0, 1));
    assert_eq!(ixs[0].ix.x_num * 15, 37048 * ixs[0].ix.dnm);
    assert_eq!(ixs[0].ix.y_num, 1900 * ixs[0].ix.dnm);
    assert_eq!((ixs[1].idx1, ixs[1].idx2), (1, 2));
    assert_eq!(ixs[1].ix.x_num, 2500 * ixs[1].ix.dnm);
    assert_eq!(ixs[1].ix.y_num, 2100 * ixs[1].ix.dnm);
    // s0 x s2: none
    assert_eq!(data.segments[0].segment_intersection(&data.segments[2]), None);
}

#[test]
fn empty_and_single_lists_have_no_crossing() {
    let none: [OrderedSegmentI32; 0] = [];
    let one = [OrderedSegmentI32::new(c_i32(0, 0), c_i32(5, 5))];
    assert!(ix_brute_single_i32(&none).is_empty());
    assert!(ix_brute_single_i32(&one).is_empty());
    assert!(ix_brute_double_i32(&none, &one).is_empty());
    assert!(ix_brute_double_i32(&one, &none).is_empty());
    assert!(ix_brute_double_i32(&one, &one).is_empty());
    let mut a = one.clone();
    let mut b: [OrderedSegmentI32; 0] = [];
    assert!(ix_sort_single_i32(&mut a, false).is_empty());
    assert!(ix_sort_double_i32(&mut a, &mut b, false).is_empty());
    assert!(ix_sort_double_i32(&mut b, &mut a, true).is_empty());
}

fn scrambled() -> Vec<OrderedSegmentI32> {
    // a small pseudo-random set of segments that run from north-west to
    // south-east, in no particular order
    let mut segments = Vec::new();
    let mut state: u64 = 0x2545_f491_4f6c_dd1d;
    for idx in 0..40 {
        let mut next = || {
            state ^= state << 13;
            state ^= state >> 7;
            state ^= state << 17;
            (state % 201) as i32 - 100
        };
        let (ax, ay, bx, by) = (next(), next(), next(), next());
        segments.push(OrderedSegmentI32::new_reorder_with_index(c_i32(ax, ay), c_i32(bx, by), idx));
    }
    segments
}

fn keys(ixs: &[IxResultRatio], unordered: bool) -> Vec<(i128, i128, i128, i128, i128)> {
    let mut keys: Vec<_> = ixs
        .iter()
        .map(|r| {
            // the point with a positive denominator, and the pair of indices
            let s = if r.ix.dnm < 0 { -1 } else { 1 };
            let (i, j) = if unordered && r.idx2 < r.idx1 {
                (r.idx2, r.idx1)
            } else {
                (r.idx1, r.idx2)
            };
            (i, j, s * r.ix.x_num, s * r.ix.y_num, s * r.ix.dnm)
        })
        .collect();
    keys.sort();
    keys
}

#[test]
fn sweep_sorts_the_list_in_place() {
    let mut segments = scrambled();
    let before = segments.clone();
    ix_sort_single_i32(&mut segments, false);
    assert_ne!(segments, before);
    for pair in segments.windows(2) {
        let (a, b) = (pair[0].start, pair[1].start);
        assert!(a.x < b.x || (a.x == b.x && a.y <= b.y));
    }
    let mut left = before.iter().map(|s| s.idx).collect::<Vec<_>>();
    let mut right = segments.iter().map(|s| s.idx).collect::<Vec<_>>();
    left.sort();
    right.sort();
    assert_eq!(left, right);

    // with the flag set nothing is moved
    let mut untouched = before.clone();
    ix_sort_single_i32(&mut untouched, true);
    assert_eq!(untouched, before);
}

#[test]
fn sweep_single_finds_what_brute_single_finds() {
    let mut segments = scrambled();
    let brute = ix_brute_single_i32(&segments);
    let sweep = ix_sort_single_i32(&mut segments, false);
    assert!(!brute.is_empty());
    assert_eq!(keys(&brute, true), keys(&sweep, true));
}

#[test]
fn sweep_double_finds_what_brute_double_finds() {
    let all = scrambled();
    let (first, second) = all.split_at(17);
    let mut segments1 = first.to_vec();
    let mut segments2 = second.to_vec();
    let brute = ix_brute_double_i32(&segments1, &segments2);
    let sweep = ix_sort_double_i32(&mut segments1, &mut segments2, false);
    assert!(!brute.is_empty());
    assert_eq!(keys(&brute, false), keys(&sweep, false));
}

#[test]
fn sweep_on_a_sorted_list_is_the_scan_in_order() {
    let mut segments = scrambled();
    ix_sort_single_i32(&mut segments, false);
    let sweep = ix_sort_single_i32(&mut segments, true);
    // the scan of all pairs (i, j) with i < j, by intersects and the line solver
    let mut scan = Vec::new();
    for i in 0..segments.len() {
        for j in (i + 1)..segments.len() {
            if segments[i].intersects(&segments[j]) {
                let ix = segments[i].line_intersection2(&segments[j]).unwrap();
                scan.push(IxResultRatio {
                    ix,
                    idx1: segments[i].idx as i128,
                    idx2: segments[j].idx as i128,
                });
            }
        }
    }
    assert_eq!(sweep, scan);
}

#[test]
fn sweep_without_reordering_may_miss_a_crossing() {
    // the second segment runs from south-east to north-west: it looks as if
    // it lay wholly after the first
    let a = OrderedSegmentI32::new_with_idx(c_i32(0, 0), c_i32(4, 4), 0);
    let b = OrderedSegmentI32::new_with_idx(c_i32(5, 0), c_i32(0, 5), 1);
    assert_eq!(ix_brute_single_i32(&[a, b]).len(), 1);
    let mut as_given = [a, b];
    assert_eq!(ix_sort_single_i32(&mut as_given, false).len(), 0);
    let mut reordered = [a, b];
    reordered[1].reorder();
    assert_eq!(ix_sort_single_i32(&mut reordered, false).len(), 1);
}
