use intersections_line::ordered_coordinate::{c_i128, c_i32, OrderedCoordinateRatio};
use intersections_line::ordered_segment::{OrderedSegmentI128, OrderedSegmentI32};
use rand::rngs::StdRng;
use rand::SeedableRng;

fn to_f64(ix: Option<OrderedCoordinateRatio>) -> Option<(f64, f64)> {
    ix.map(|p| (p.x_num as f64 / p.dnm as f64, p.y_num as f64 / p.dnm as f64))
}

// ---------------- SEGMENT CREATION
#[test]
fn create_int_works() {
    let mut rng: StdRng = SeedableRng::seed_from_u64(42);
    for _ in 0..100 {
        let mut s = OrderedSegmentI32::random(&mut rng);
        s.reorder();
        let s = s; // no further need for mutate

        let (ax, ay, bx, by) = s.coords();
        assert!(ax < bx || ax == bx && ay <= by);

        let (a, b) = s.coordinates();
        let s_dupe = OrderedSegmentI32::new(a, b);
        assert_eq!(s, s_dupe);
    }
}

// ---------------- SEGMENT INTERSECTS
#[test]
fn ordered_segment_intersects_i32_works() {
    let s0 = OrderedSegmentI32::new(c_i32(2300, 1900), c_i32(4200, 1900));
    let s1 = OrderedSegmentI32::new(c_i32(2387, 1350), c_i32(2500, 2100));
    let s2 = OrderedSegmentI32::new(c_i32(2387, 1350), c_i32(3200, 1900));
    let s3 = OrderedSegmentI32::new(c_i32(2500, 2100), c_i32(2900, 2100));

    assert!(s0.intersects(&s1));
    assert!(s0.intersects(&s2));
    assert!(!s0.intersects(&s3));
}

#[test]
fn ordered_segment_intersects_i32_overflow_works() {
    let nw = c_i32(i32::MIN, i32::MIN);
    let sw = c_i32(i32::MIN, i32::MAX);
    let ne = c_i32(i32::MAX, i32::MIN);
    let se = c_i32(i32::MAX, i32::MAX);

    let ne_sw = OrderedSegmentI32::new(ne, sw);
    let se_nw = OrderedSegmentI32::new(se, nw);
    let ne_nw = OrderedSegmentI32::new(ne, nw);
    let se_sw = OrderedSegmentI32::new(se, sw);

    assert!(ne_sw.intersects(&se_nw));
    assert!(ne_sw.intersects(&ne_nw));
    assert!(!ne_nw.intersects(&se_sw));
}

// ---------------- SEGMENT LINE INTERSECTION
#[test]
fn line_intersection_i32_works() {
    let s0 = OrderedSegmentI32::new(c_i32(2300, 1900), c_i32(4200, 1900));
    let s1 = OrderedSegmentI32::new(c_i32(2387, 1350), c_i32(2500, 2100));
    let s2 = OrderedSegmentI32::new(c_i32(2387, 1350), c_i32(3200, 1900));
    let s3 = OrderedSegmentI32::new(c_i32(2500, 2100), c_i32(2900, 2100));

    let res01 = (2469.866666666667, 1900.); // s0 x s1
    let res02 = (3200., 1900.); // s0 x s2
                                // s0 x s3: null
    let res12 = (2387., 1350.); // s1 x s2 intersect at p2
    let res13 = (2500., 2100.); //s1 x s4 intersect
    let res23 = (3495.6363636363635, 2100.);

    assert_eq!(to_f64(s0.line_intersection1(&s1)), Some(res01));
    assert_eq!(to_f64(s0.line_intersection1(&s2)), Some(res02));
    assert_eq!(to_f64(s0.line_intersection1(&s3)), None);

    assert_eq!(to_f64(s1.line_intersection1(&s2)), Some(res12));
    assert_eq!(to_f64(s1.line_intersection1(&s3)), Some(res13));
    assert_eq!(to_f64(s2.line_intersection1(&s3)), Some(res23));
}

#[test]
fn line_intersection_i32_overflow_works() {
    let nw = c_i32(i32::MIN, i32::MIN);
    let sw = c_i32(i32::MIN, i32::MAX);
    let ne = c_i32(i32::MAX, i32::MIN);
    let se = c_i32(i32::MAX, i32::MAX);

    let ne_sw = OrderedSegmentI32::new(ne, sw);
    let se_nw = OrderedSegmentI32::new(se, nw);
    let ne_nw = OrderedSegmentI32::new(ne, nw);
    let se_sw = OrderedSegmentI32::new(se, sw);

    let res1 = (-0.5, -0.5);
    let res2 = (i32::MAX as f64, i32::MIN as f64);

    assert_eq!(to_f64(ne_sw.line_intersection1(&se_nw)), Some(res1));
    assert_eq!(to_f64(ne_sw.line_intersection1(&ne_nw)), Some(res2));
    assert_eq!(to_f64(ne_nw.line_intersection1(&se_sw)), None);
}

#[test]
fn line_intersection_i32_overflow_severe_works() {
    // s0: (MIN, MIN),(MIN, MAX)
    // s1: (MAX, MIN), (MAX - 1, MAX)
    let vert = OrderedSegmentI32::new(c_i32(i32::MIN, i32::MIN), c_i32(i32::MIN, i32::MAX));
    let near_horiz =
        OrderedSegmentI32::new(c_i32(i32::MAX, i32::MIN), c_i32(i32::MAX - 1, i32::MAX));

    let res1 = (-2147483648., 18446744062972133000.);

    assert_eq!(to_f64(vert.line_intersection1(&near_horiz)), Some(res1));
}

// ---------------- CONSTRUCTION AND ACCESS
#[test]
fn constructors_keep_or_reorder() {
    let a = c_i32(5, 1);
    let b = c_i32(2, 9);
    let s = OrderedSegmentI32::new(a, b);
    assert_eq!((s.start, s.end, s.idx), (a, b, 0));
    let s = OrderedSegmentI32::new_with_idx(a, b, 7);
    assert_eq!((s.start, s.end, s.idx), (a, b, 7));
    let s = OrderedSegmentI32::new_reorder(a, b);
    assert_eq!((s.start, s.end, s.idx), (b, a, 0));
    let s = OrderedSegmentI32::new_reorder_with_index(a, b, 7);
    assert_eq!((s.start, s.end, s.idx), (b, a, 7));
    let s = OrderedSegmentI32::new_reorder_with_index(b, a, 7);
    assert_eq!((s.start, s.end, s.idx), (b, a, 7));
    // same x: by y
    let s = OrderedSegmentI32::new_reorder(c_i32(3, 4), c_i32(3, -4));
    assert_eq!((s.start, s.end), (c_i32(3, -4), c_i32(3, 4)));
    // a point stays
    let s = OrderedSegmentI32::new_reorder(c_i32(3, 4), c_i32(3, 4));
    assert_eq!((s.start, s.end), (c_i32(3, 4), c_i32(3, 4)));

    let w = OrderedSegmentI128::new_reorder_with_index(c_i128(5, 1), c_i128(2, 9), 3);
    assert_eq!((w.start, w.end, w.idx), (c_i128(2, 9), c_i128(5, 1), 3));
}

#[test]
fn reorder_swaps_only_when_needed() {
    let mut s = OrderedSegmentI32::new_with_idx(c_i32(5, 1), c_i32(2, 9), 4);
    s.reorder();
    assert_eq!(s, OrderedSegmentI32::new_with_idx(c_i32(2, 9), c_i32(5, 1), 4));
    s.reorder();
    assert_eq!(s, OrderedSegmentI32::new_with_idx(c_i32(2, 9), c_i32(5, 1), 4));
    let mut w = OrderedSegmentI128::new(c_i128(0, 1), c_i128(0, 0));
    w.reorder();
    assert_eq!(w, OrderedSegmentI128::new(c_i128(0, 0), c_i128(0, 1)));
}

#[test]
fn delta_and_accessors() {
    let s = OrderedSegmentI32::new(c_i32(2, 9), c_i32(5, 1));
    assert_eq!(s.delta(), c_i32(3, -8));
    assert_eq!(s.dx(), 3);
    assert_eq!(s.dy(), -8);
    assert_eq!(s.coordinates(), (c_i32(2, 9), c_i32(5, 1)));
    assert_eq!(s.coords(), (2, 9, 5, 1));
    let w = OrderedSegmentI128::from(&s);
    assert_eq!(w, OrderedSegmentI128::new(c_i128(2, 9), c_i128(5, 1)));
    assert_eq!(OrderedSegmentI128::from(s), w);
    assert_eq!(w.delta(), c_i128(3, -8));
    assert_eq!((w.dx(), w.dy()), (3, -8));
    assert_eq!(w.coords(), (2, 9, 5, 1));
    let extreme = OrderedSegmentI32::new_with_idx(
        c_i32(i32::MIN, i32::MAX),
        c_i32(i32::MAX, i32::MIN),
        i32::MAX,
    );
    let wide = OrderedSegmentI128::from(extreme);
    assert_eq!(wide.delta(), c_i128(4294967295, -4294967295));
    assert_eq!(wide.idx, 2147483647);
    assert!(wide.within(1 << 31));
    assert!(!wide.within((1 << 31) - 1));
}

#[test]
fn segments_are_ordered_by_position() {
    let a = OrderedSegmentI32::new(c_i32(0, 0), c_i32(2, 2));
    let b = OrderedSegmentI32::new(c_i32(2, 3), c_i32(4, 0));
    let c = OrderedSegmentI32::new(c_i32(1, 0), c_i32(3, 0));
    assert_eq!(a.partial_nw(&b), std::cmp::Ordering::Less);
    assert_eq!(b.partial_nw(&a), std::cmp::Ordering::Greater);
    assert_eq!(a.partial_nw(&a), std::cmp::Ordering::Equal);
    // compared by start alone
    assert_eq!(
        a.partial_nw(&OrderedSegmentI32::new(c_i32(0, 0), c_i32(-5, 9))),
        std::cmp::Ordering::Equal
    );
    assert!(a.is_nw(&b));
    assert!(!b.is_nw(&a));
    assert!(b.is_se(&a));
    assert!(!a.is_se(&b));
    // overlapping in x: neither
    assert!(!a.is_nw(&c) && !a.is_se(&c) && !c.is_nw(&a) && !c.is_se(&a));
    // touching: the end of one is the start of the other
    let d = OrderedSegmentI32::new(c_i32(2, 2), c_i32(3, 3));
    assert!(!a.is_nw(&d) && !d.is_se(&a));
    let wa = OrderedSegmentI128::from(a);
    let wb = OrderedSegmentI128::from(b);
    assert!(wa.is_nw(&wb) && wb.is_se(&wa));
    assert_eq!(wa.partial_nw(&wb), std::cmp::Ordering::Less);
}
