use intersections_line::ordered_coordinate::{c_i128, c_i32};
use intersections_line::orientation::Orientation;

#[test]
fn orient_i32_works() {
    let p1 = c_i32(0, 0);
    let p2 = c_i32(1, 1);
    let p3 = c_i32(0, 1); // cw
    let p4 = c_i32(1, 0); // ccw
    let p5 = c_i32(2, 2); // collinear

    assert_eq!(p1.orient(&p2, &p3), Orientation::Clockwise);
    assert_eq!(p1.orient(&p2, &p4), Orientation::CounterClockwise);
    assert_eq!(p1.orient(&p2, &p5), Orientation::Collinear);
}

#[test]
fn orient_i128_works() {
    let p1 = c_i128(0, 0);
    let p2 = c_i128(1, 1);
    let p3 = c_i128(0, 1); // cw
    let p4 = c_i128(1, 0); // ccw
    let p5 = c_i128(2, 2); // collinear

    assert_eq!(p1.orient(&p2, &p3), Orientation::Clockwise);
    assert_eq!(p1.orient(&p2, &p4), Orientation::CounterClockwise);
    assert_eq!(p1.orient(&p2, &p5), Orientation::Collinear);
}

// Maximum map resolution in Foundry is 16384 x 16384 (2^14 x 2^14)
#[test]
fn orient_i32_foundry_overflow_works() {
    let min = 0;
    let max = 2e14 as i32;

    let nw = c_i32(min, min);
    let sw = c_i32(min, max);
    let ne = c_i32(max, min);
    let se = c_i32(max, max);
    let z = c_i32(0, 0);

    assert_eq!(nw.orient(&se, &ne), Orientation::CounterClockwise);
    assert_eq!(nw.orient(&se, &sw), Orientation::Clockwise);
    assert_eq!(nw.orient(&z, &se), Orientation::Collinear);
    assert_eq!(nw.orient(&sw, &se), Orientation::CounterClockwise);
    assert_eq!(nw.orient(&ne, &se), Orientation::Clockwise);
}

// What if we use the full i32 values?
#[test]
fn orient_i32_overflow_works() {
    let min = i32::MIN;
    let max = i32::MAX;

    let nw = c_i32(min, min);
    let sw = c_i32(min, max);
    let ne = c_i32(max, min);
    let se = c_i32(max, max);
    let z = c_i32(0, 0);

    assert_eq!(nw.orient(&se, &ne), Orientation::CounterClockwise);
    assert_eq!(nw.orient(&se, &sw), Orientation::Clockwise);
    assert_eq!(nw.orient(&z, &se), Orientation::Collinear);
    assert_eq!(nw.orient(&sw, &se), Orientation::CounterClockwise);
    assert_eq!(nw.orient(&ne, &se), Orientation::Clockwise);
}

#[test]
fn orient_point_int32_works() {
    let p1 = c_i32(0, 0);
    let p2 = c_i32(1, 1);
    let p3 = c_i32(0, 1); // cw
    let p4 = c_i32(1, 0); // ccw
    let p5 = c_i32(2, 2); // collinear

    assert_eq!(p1.orient(&p2, &p3), Orientation::Clockwise);
    assert_eq!(p1.orient(&p2, &p4), Orientation::CounterClockwise);
    assert_eq!(p1.orient(&p2, &p5), Orientation::Collinear);
}

#[test]
fn orient_point_int32_overflow_works() {
    let nw = c_i32(i32::MIN, i32::MIN);
    let sw = c_i32(i32::MIN, i32::MAX);
    let ne = c_i32(i32::MAX, i32::MIN);
    let se = c_i32(i32::MAX, i32::MAX);
    let z = c_i32(0, 0);

    assert_eq!(nw.orient(&se, &ne), Orientation::CounterClockwise);
    assert_eq!(nw.orient(&se, &sw), Orientation::Clockwise);
    assert_eq!(nw.orient(&z, &se), Orientation::Collinear);
    assert_eq!(nw.orient(&sw, &se), Orientation::CounterClockwise);
    assert_eq!(nw.orient(&ne, &se), Orientation::Clockwise);
}

#[test]
fn orient_i128_at_the_limit() {
    let l = intersections_line::orientation::ORIENT_LIMIT;
    assert_eq!(l, 1i128 << 61);
    let nw = c_i128(-l, -l);
    let sw = c_i128(-l, l);
    let ne = c_i128(l, -l);
    let se = c_i128(l, l);
    assert!(nw.within(l) && se.within(l));
    assert!(!c_i128(l + 1, 0).within(l));
    assert_eq!(nw.orient(&se, &ne), Orientation::CounterClockwise);
    assert_eq!(nw.orient(&se, &sw), Orientation::Clockwise);
    assert_eq!(nw.orient(&c_i128(0, 0), &se), Orientation::Collinear);
}

#[test]
fn orient_is_the_sign_of_the_cross_product() {
    // cross(a - c, b - c) = (3 - 1) * (5 - 1) - (4 - 1) * (2 - 1) = 5
    let a = c_i32(3, 4);
    let b = c_i32(2, 5);
    let c = c_i32(1, 1);
    assert_eq!(a.orient(&b, &c), Orientation::Clockwise);
    assert_eq!(b.orient(&a, &c), Orientation::CounterClockwise);
    assert_eq!(a.orient(&a, &c), Orientation::Collinear);
}
