//! The integer predicates against the same predicates computed in floating
//! point on the same segments.
use intersections_line::ordered_coordinate::OrderedCoordinateRatio;
use intersections_line::ordered_segment::OrderedSegmentI32;
use intersections_line::orientation::Orientation;
use rand::rngs::StdRng;
use rand::SeedableRng;

#[derive(Debug, Clone, Copy, PartialEq)]
struct SegmentF64 {
    start: (f64, f64),
    end: (f64, f64),
}

fn as_f64(s: &OrderedSegmentI32) -> SegmentF64 {
    SegmentF64 {
        start: (s.start.x as f64, s.start.y as f64),
        end: (s.end.x as f64, s.end.y as f64),
    }
}

fn to_f64(ix: Option<OrderedCoordinateRatio>) -> Option<(f64, f64)> {
    ix.map(|p| (p.x_num as f64 / p.dnm as f64, p.y_num as f64 / p.dnm as f64))
}

fn cross(a: (f64, f64), b: (f64, f64)) -> f64 {
    a.0 * b.1 - a.1 * b.0
}

fn sub(a: (f64, f64), b: (f64, f64)) -> (f64, f64) {
    (a.0 - b.0, a.1 - b.1)
}

fn orient_f64(a: (f64, f64), b: (f64, f64), c: (f64, f64)) -> Orientation {
    let res = cross(sub(a, c), sub(b, c));
    if res < 0. {
        Orientation::CounterClockwise
    } else if res > 0. {
        Orientation::Clockwise
    } else {
        Orientation::Collinear
    }
}

fn intersects_f64(s1: &SegmentF64, s2: &SegmentF64) -> bool {
    let xa = orient_f64(s1.start, s1.end, s2.start);
    let xb = orient_f64(s1.start, s1.end, s2.end);
    if xa == Orientation::Collinear && xb == Orientation::Collinear {
        return false;
    }
    let xc = orient_f64(s2.start, s2.end, s1.start);
    let xd = orient_f64(s2.start, s2.end, s1.end);
    xa != xb && xc != xd
}

fn line_intersection1_f64(s1: &SegmentF64, s2: &SegmentF64) -> Option<(f64, f64)> {
    let ((x1, y1), (x2, y2)) = (s1.start, s1.end);
    let ((x3, y3), (x4, y4)) = (s2.start, s2.end);

    let dnm = (x1 - x2) * (y3 - y4) - (y1 - y2) * (x3 - x4);
    if dnm == 0. {
        return None;
    }
    let x_num = (x1 * y2 - y1 * x2) * (x3 - x4) - (x1 - x2) * (x3 * y4 - y3 * x4);
    let y_num = (x1 * y2 - y1 * x2) * (y3 - y4) - (y1 - y2) * (x3 * y4 - y3 * x4);

    Some((x_num / dnm, y_num / dnm))
}

fn line_intersection2_f64(s1: &SegmentF64, s2: &SegmentF64) -> Option<(f64, f64)> {
    let d1 = sub(s1.end, s1.start);
    let d2 = sub(s2.end, s2.start);

    let dnm = cross(d1, d2);
    if dnm == 0. {
        return None;
    }
    let d_ac = sub(s1.start, s2.start);
    let t0 = cross(d2, d_ac) / dnm;

    Some((s1.start.0 + t0 * d1.0, s1.start.1 + t0 * d1.1))
}

fn segment_intersection_f64(s1: &SegmentF64, s2: &SegmentF64) -> Option<(f64, f64)> {
    let epsilon = 1e-8;

    let d1 = sub(s1.end, s1.start);
    let d2 = sub(s2.end, s2.start);

    let dnm = cross(d1, d2);
    if dnm == 0. {
        return None;
    }
    let d_ac = sub(s1.start, s2.start);

    let t0 = cross(d2, d_ac) / dnm;
    if t0 < (0. - epsilon) || t0 > (1. + epsilon) {
        return None;
    }
    let t1 = cross(d1, d_ac) / dnm;
    if t1 < (0. - epsilon) || t1 > (1. + epsilon) {
        return None;
    }
    Some((s1.start.0 + t0 * d1.0, s1.start.1 + t0 * d1.1))
}

/// Equal, up to the rounding of the floating-point path.
fn assert_close(res_i: Option<(f64, f64)>, res_f: Option<(f64, f64)>) {
    match (res_i, res_f) {
        (None, None) => {}
        (Some(i), Some(f)) => {
            for (a, b) in [(i.0, f.0), (i.1, f.1)] {
                let scale = if b.abs() > 1. { b.abs() } else { 1. };
                assert!((a - b).abs() <= 1e-9 * scale, "{} is not {}", a, b);
            }
        }
        _ => panic!("{:?} is not {:?}", res_i, res_f),
    }
}

#[test]
fn intersection_intersects_random_i32_f64_equal() {
    let max_iter = 100;
    let mut rng: StdRng = SeedableRng::seed_from_u64(42);

    for _ in 0..max_iter {
        let s0_i = OrderedSegmentI32::random_range(-10000, 10000, &mut rng);
        let s0_f = as_f64(&s0_i);

        let s1_i = OrderedSegmentI32::random_range(-10000, 10000, &mut rng);
        let s1_f = as_f64(&s1_i);

        let res_i = s0_i.intersects(&s1_i);
        let res_f = intersects_f64(&s0_f, &s1_f);

        assert_eq!(res_i, res_f);
    }
}

#[test]
fn ordered_segment_intersects_random_i32_f64_equal() {
    let max_iter = 100;
    let mut rng: StdRng = SeedableRng::seed_from_u64(1);

    for _ in 0..max_iter {
        let s0_i = OrderedSegmentI32::random_range(-10000, 10000, &mut rng);
        let s0_f = as_f64(&s0_i);

        let s1_i = OrderedSegmentI32::random_range(-10000, 10000, &mut rng);
        let s1_f = as_f64(&s1_i);

        let res_i = s0_i.intersects(&s1_i);
        let res_f = intersects_f64(&s0_f, &s1_f);

        assert_eq!(res_i, res_f);
    }
}

#[test]
fn line_intersection1_random_i32_f64_equal() {
    let max_iter = 100;
    let mut rng: StdRng = SeedableRng::seed_from_u64(42);

    for _ in 0..max_iter {
        let s0_i = OrderedSegmentI32::random_range(-10000, 10000, &mut rng);
        let s0_f = as_f64(&s0_i);

        let s1_i = OrderedSegmentI32::random_range(-10000, 10000, &mut rng);
        let s1_f = as_f64(&s1_i);

        let res_i = to_f64(s0_i.line_intersection1(&s1_i));
        let res_f = line_intersection1_f64(&s0_f, &s1_f);

        // the numerators and the denominator are whole numbers below 2^53:
        // the two divisions are the same
        assert_eq!(res_i, res_f);
    }
}

#[test]
fn line_intersection_random_i32_f64_equal() {
    let max_iter = 100;
    let mut rng: StdRng = SeedableRng::seed_from_u64(1);

    for _ in 0..max_iter {
        let s0_i = OrderedSegmentI32::random_range(-10000, 10000, &mut rng);
        let s0_f = as_f64(&s0_i);

        let s1_i = OrderedSegmentI32::random_range(-10000, 10000, &mut rng);
        let s1_f = as_f64(&s1_i);

        let res_i = to_f64(s0_i.line_intersection1(&s1_i));
        let res_f = line_intersection1_f64(&s0_f, &s1_f);

        assert_eq!(res_i, res_f);
    }
}

#[test]
fn line_intersection2_random_i32_f64_equal() {
    let max_iter = 100;
    let mut rng: StdRng = SeedableRng::seed_from_u64(42);

    for _ in 0..max_iter {
        let s0_i = OrderedSegmentI32::random_range(-10000, 10000, &mut rng);
        let s0_f = as_f64(&s0_i);

        let s1_i = OrderedSegmentI32::random_range(-10000, 10000, &mut rng);
        let s1_f = as_f64(&s1_i);

        let res_i = to_f64(s0_i.line_intersection2(&s1_i));
        let res_f = line_intersection2_f64(&s0_f, &s1_f);

        assert_close(res_i, res_f);
    }
}

#[test]
fn segment_intersection_random_i32_f64_equal() {
    let max_iter = 100;
    let mut rng: StdRng = SeedableRng::seed_from_u64(42);

    for _ in 0..max_iter {
        let s0_i = OrderedSegmentI32::random_range(-10000, 10000, &mut rng);
        let s0_f = as_f64(&s0_i);

        let s1_i = OrderedSegmentI32::random_range(-10000, 10000, &mut rng);
        let s1_f = as_f64(&s1_i);

        let res_i = to_f64(s0_i.segment_intersection(&s1_i));
        let res_f = segment_intersection_f64(&s0_f, &s1_f);

        assert_close(res_i, res_f);

        let res1 = s0_i.segment_intersection(&s1_i);
        let res2 = s0_i.segment_intersection2(&s1_i);

        assert_eq!(res1, res2);
    }
}

#[test]
fn segment_intersection2_random_i32_f64_equal() {
    let max_iter = 100;
    let mut rng: StdRng = SeedableRng::seed_from_u64(42);

    for _ in 0..max_iter {
        let s0_i = OrderedSegmentI32::random_range(-10000, 10000, &mut rng);
        let s0_f = as_f64(&s0_i);

        let s1_i = OrderedSegmentI32::random_range(-10000, 10000, &mut rng);
        let s1_f = as_f64(&s1_i);

        let res_i = to_f64(s0_i.segment_intersection2(&s1_i));
        let res_f = segment_intersection_f64(&s0_f, &s1_f);

        assert_close(res_i, res_f);
    }
}

#[test]
fn random_pairs_obey_the_laws() {
    let mut rng: StdRng = SeedableRng::seed_from_u64(99);
    let mut crossings = 0;
    for _ in 0..2000 {
        let a = OrderedSegmentI32::random_range(-50, 50, &mut rng);
        let b = OrderedSegmentI32::random_range(-50, 50, &mut rng);
        // the two line solvers give the same numbers
        assert_eq!(a.line_intersection1(&b), a.line_intersection2(&b));
        // `intersects` is the bounded solver without tolerance
        assert_eq!(a.intersects(&b), a.segment_intersection2(&b).is_some());
        assert_eq!(a.intersects(&b), b.intersects(&a));
        // with so small a denominator the tolerance admits nothing more
        assert_eq!(a.segment_intersection(&b), a.segment_intersection2(&b));
        if let Some(p) = a.line_intersection2(&b) {
            // the point lies on both lines
            for s in [a, b] {
                let (sx, sy, ex, ey) = s.coords();
                let (sx, sy, ex, ey) = (sx as i128, sy as i128, ex as i128, ey as i128);
                assert_eq!(
                    (ex - sx) * (p.y_num - sy * p.dnm),
                    (ey - sy) * (p.x_num - sx * p.dnm)
                );
            }
            // taken in the other order, the same point
            let q = b.line_intersection2(&a).unwrap();
            assert_eq!(p.x_num * q.dnm, q.x_num * p.dnm);
            assert_eq!(p.y_num * q.dnm, q.y_num * p.dnm);
        }
        if a.intersects(&b) {
            crossings += 1;
        }
        // what lies wholly before or after does not cross
        let (mut c, mut d) = (a, b);
        c.reorder();
        d.reorder();
        if c.is_nw(&d) || c.is_se(&d) {
            assert!(!c.intersects(&d));
        }
    }
    assert!(crossings > 100);
}
