use intersections_line::ordered_coordinate::{
    c_i128, c_i32, c_i64, OrderedCoordinateI128, OrderedCoordinateI32, OrderedCoordinateI64,
};
use std::cmp::Ordering;

#[test]
fn constructors_and_pairs() {
    assert_eq!(c_i32(3, -4), OrderedCoordinateI32 { x: 3, y: -4 });
    assert_eq!(c_i64(3, -4), OrderedCoordinateI64 { x: 3, y: -4 });
    assert_eq!(c_i128(3, -4), OrderedCoordinateI128 { x: 3, y: -4 });
    assert_eq!(c_i32(3, -4).x_y(), (3, -4));
    assert_eq!(c_i64(3, -4).x_y(), (3, -4));
    assert_eq!(c_i128(3, -4).x_y(), (3, -4));
}

#[test]
fn dot_and_cross() {
    // dot = 3 * 5 + (-4) * 7 = -13, cross = 3 * 7 - (-4) * 5 = 41
    assert_eq!(c_i32(3, -4).dot(c_i32(5, 7)), -13);
    assert_eq!(c_i32(3, -4).cross(c_i32(5, 7)), 41);
    assert_eq!(c_i64(3, -4).dot(c_i64(5, 7)), -13);
    assert_eq!(c_i64(3, -4).cross(c_i64(5, 7)), 41);
    assert_eq!(c_i128(3, -4).dot(c_i128(5, 7)), -13);
    assert_eq!(c_i128(3, -4).cross(c_i128(5, 7)), 41);
    assert_eq!(c_i32(5, 7).cross(c_i32(3, -4)), -41);
    assert_eq!(c_i32(5, 7).cross(c_i32(10, 14)), 0);
    // the largest products of 32-bit differences need 128 bits
    let d = 4294967295i128;
    assert_eq!(c_i128(d, -d).cross(c_i128(d, d)), 2 * d * d);
}

#[test]
fn sums_differences_and_negation() {
    let a = c_i32(3, -4);
    let b = c_i32(5, 7);
    assert_eq!(a + b, c_i32(8, 3));
    assert_eq!(a + &b, c_i32(8, 3));
    assert_eq!(a - b, c_i32(-2, -11));
    assert_eq!(a - &b, c_i32(-2, -11));
    assert_eq!(-a, c_i32(-3, 4));
    assert_eq!(c_i64(3, -4) + c_i64(5, 7), c_i64(8, 3));
    assert_eq!(c_i64(3, -4) - &c_i64(5, 7), c_i64(-2, -11));
    assert_eq!(-c_i64(3, -4), c_i64(-3, 4));
    assert_eq!(c_i128(3, -4) + &c_i128(5, 7), c_i128(8, 3));
    assert_eq!(c_i128(3, -4) - c_i128(5, 7), c_i128(-2, -11));
    assert_eq!(-c_i128(3, -4), c_i128(-3, 4));
    assert_eq!(c_i32(i32::MAX, i32::MIN) + c_i32(0, 0), c_i32(i32::MAX, i32::MIN));
    assert_eq!(c_i32(i32::MAX, -1) - c_i32(0, i32::MAX), c_i32(i32::MAX, i32::MIN));
}

#[test]
fn products() {
    assert_eq!(c_i32(3, -4) * c_i32(5, 7), c_i32(15, -28));
    assert_eq!(c_i32(3, -4) * 6, c_i32(18, -24));
    assert_eq!(c_i64(3, -4) * c_i64(5, 7), c_i64(15, -28));
    assert_eq!(c_i64(3, -4) * -6, c_i64(-18, 24));
    assert_eq!(c_i128(3, -4) * c_i128(5, 7), c_i128(15, -28));
    assert_eq!(c_i128(3, -4) * 6, c_i128(18, -24));
}

#[test]
fn division_rounds_to_nearest() {
    // 7 / 2 = 3.5 -> 4, -7 / 2 = -3.5 -> -3: a tie goes up
    assert_eq!(c_i32(7, -7) / 2, c_i32(4, -3));
    // 7 / 3 = 2.33 -> 2, 8 / 3 = 2.67 -> 3
    assert_eq!(c_i32(7, 8) / 3, c_i32(2, 3));
    // -7 / 3 = -2.33 -> -2, -8 / 3 = -2.67 -> -3
    assert_eq!(c_i32(-7, -8) / 3, c_i32(-2, -3));
    // exact quotients stay
    assert_eq!(c_i32(9, -9) / 3, c_i32(3, -3));
    assert_eq!(c_i32(0, 1) / 5, c_i32(0, 0));
    assert_eq!(c_i32(2, 3) / 5, c_i32(0, 1));
    // negative divisors: 7 / -2 = -3.5 -> -3, -7 / -2 = 3.5 -> 4
    assert_eq!(c_i32(7, -7) / -2, c_i32(-3, 4));
    assert_eq!(c_i32(7, 8) / -3, c_i32(-2, -3));
    assert_eq!(c_i32(-7, -8) / -3, c_i32(2, 3));
    // component by component
    assert_eq!(c_i32(7, 8) / c_i32(2, 3), c_i32(4, 3));
    assert_eq!(c_i64(7, -7) / 2, c_i64(4, -3));
    assert_eq!(c_i64(7, 8) / c_i64(2, -3), c_i64(4, -3));
    assert_eq!(c_i128(7, -7) / 2, c_i128(4, -3));
    assert_eq!(c_i128(7, 8) / c_i128(-2, 3), c_i128(-3, 3));
    // by one and by minus one
    assert_eq!(c_i32(i32::MAX, i32::MIN) / 1, c_i32(i32::MAX, i32::MIN));
    assert_eq!(c_i32(i32::MAX, i32::MIN + 1) / -1, c_i32(i32::MIN + 1, i32::MAX));
    // the extremes, halved: MAX / 2 = 1073741823.5 -> 1073741824
    assert_eq!(c_i32(i32::MAX, i32::MIN) / 2, c_i32(1073741824, -1073741824));
    assert_eq!(c_i32(i32::MAX, i32::MIN) / -2, c_i32(-1073741823, 1073741824));
    assert_eq!(c_i32(i32::MAX, i32::MIN) / i32::MIN, c_i32(-1, 1));
    assert_eq!(c_i32(i32::MAX, i32::MIN) / i32::MAX, c_i32(1, -1));
}

#[test]
fn conversions_widen() {
    let c = c_i32(i32::MIN, i32::MAX);
    assert_eq!(OrderedCoordinateI128::from(c), c_i128(-2147483648, 2147483647));
    assert_eq!(OrderedCoordinateI128::from(&c), c_i128(-2147483648, 2147483647));
    assert_eq!(OrderedCoordinateI64::from(c), c_i64(-2147483648, 2147483647));
    assert_eq!(OrderedCoordinateI64::from(&c), c_i64(-2147483648, 2147483647));
    assert_eq!(
        OrderedCoordinateI128::from(c_i64(i64::MIN, i64::MAX)),
        c_i128(i64::MIN as i128, i64::MAX as i128)
    );
    let wide: OrderedCoordinateI128 = c.into();
    assert_eq!(wide, c_i128(-2147483648, 2147483647));
}

#[test]
fn coordinates_are_ordered_by_x_then_y() {
    assert_eq!(c_i32(1, 9).partial_nw(&c_i32(2, 0)), Ordering::Less);
    assert_eq!(c_i32(2, 0).partial_nw(&c_i32(1, 9)), Ordering::Greater);
    assert_eq!(c_i32(1, 0).partial_nw(&c_i32(1, 9)), Ordering::Less);
    assert_eq!(c_i32(1, 9).partial_nw(&c_i32(1, 0)), Ordering::Greater);
    assert_eq!(c_i32(1, 9).partial_nw(&c_i32(1, 9)), Ordering::Equal);
    assert!(c_i32(1, 9).is_nw(&c_i32(2, 0)));
    assert!(!c_i32(1, 9).is_se(&c_i32(2, 0)));
    assert!(c_i32(2, 0).is_se(&c_i32(1, 9)));
    assert!(!c_i32(1, 9).is_nw(&c_i32(1, 9)));
    assert!(!c_i32(1, 9).is_se(&c_i32(1, 9)));
    assert_eq!(c_i128(1, 0).partial_nw(&c_i128(1, 9)), Ordering::Less);
    assert_eq!(c_i128(3, 0).partial_nw(&c_i128(1, 9)), Ordering::Greater);
    assert_eq!(c_i128(3, 0).partial_nw(&c_i128(3, 0)), Ordering::Equal);
    assert!(c_i128(1, 0).is_nw(&c_i128(1, 9)));
    assert!(c_i128(1, 9).is_se(&c_i128(1, 0)));
    assert_eq!(
        c_i32(i32::MIN, i32::MAX).partial_nw(&c_i32(i32::MAX, i32::MIN)),
        Ordering::Less
    );
}
