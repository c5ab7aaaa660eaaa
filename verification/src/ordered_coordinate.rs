//! Coordinates over three integer domains: 32, 64 and 128 bits.
//!
//! The arithmetic never wraps: each operation states as its precondition that
//! the exact result is a value of the domain, and returns that exact result.
use crate::arith::{
    cross_product, dot_product, fits_i128, fits_i32, fits_i64, lemma_euclid, round_div,
};
use crate::model::{Point, RationalPoint};
use vstd::prelude::*;
use vstd::std_specs::convert::FromSpecImpl;
use vstd::std_specs::ops::{AddSpecImpl, DivSpecImpl, MulSpecImpl, NegSpecImpl, SubSpecImpl};

verus! {

/// A point (or a vector) with 32-bit integer coordinates.
#[derive(Debug, Copy, Clone, PartialEq, Eq, Structural)]
pub struct OrderedCoordinateI32 {
    pub x: i32,
    pub y: i32,
}

/// A point (or a vector) with 64-bit integer coordinates.
#[derive(Debug, Copy, Clone, PartialEq, Eq, Structural)]
pub struct OrderedCoordinateI64 {
    pub x: i64,
    pub y: i64,
}

/// A point (or a vector) with 128-bit integer coordinates.
#[derive(Debug, Copy, Clone, PartialEq, Eq, Structural)]
pub struct OrderedCoordinateI128 {
    pub x: i128,
    pub y: i128,
}

/// A point with rational coordinates `x_num / dnm` and `y_num / dnm`: where two
/// lines cross, exactly.
#[derive(Debug, Copy, Clone, PartialEq, Eq, Structural)]
pub struct OrderedCoordinateRatio {
    pub x_num: i128,
    pub y_num: i128,
    pub dnm: i128,
}

impl View for OrderedCoordinateRatio {
    type V = RationalPoint;

    open spec fn view(&self) -> RationalPoint {
        RationalPoint { x_num: self.x_num as int, y_num: self.y_num as int, dnm: self.dnm as int }
    }
}

/// The coordinate `(x, y)`.
#[inline]
pub fn c_i32(x: i32, y: i32) -> (c: OrderedCoordinateI32)
    ensures
        c == (OrderedCoordinateI32 { x, y }),
{
    OrderedCoordinateI32 { x, y }
}

/// The coordinate `(x, y)`.
#[inline]
pub fn c_i64(x: i64, y: i64) -> (c: OrderedCoordinateI64)
    ensures
        c == (OrderedCoordinateI64 { x, y }),
{
    OrderedCoordinateI64 { x, y }
}

/// The coordinate `(x, y)`.
#[inline]
pub fn c_i128(x: i128, y: i128) -> (c: OrderedCoordinateI128)
    ensures
        c == (OrderedCoordinateI128 { x, y }),
{
    OrderedCoordinateI128 { x, y }
}

/// A quotient by a divisor other than `1` and `-1` is at most half the dividend
/// in size, and the rounded quotient of a value of a domain stays in the domain
/// unless the domain's least value is divided by `-1`.
proof fn lemma_quotient_small(x: int, d: int)
    requires
        d != 0,
    ensures
        (d == 1 || d == -1) ==> x % d == 0,
        d == 1 ==> x / d == x,
        d == -1 ==> x / d == -x,
        d >= 2 && x >= 0 ==> 0 <= x / d && 2 * (x / d) <= x,
        d >= 2 && x < 0 ==> x <= 2 * (x / d) + 1 && x / d < 0,
        d <= -2 && x >= 0 ==> x / d <= 0 && -x <= 2 * (x / d),
        d <= -2 && x < 0 ==> 0 < x / d && 2 * (x / d) <= -x + 1,
{
    lemma_euclid(x, d);
    let q = x / d;
    let r = x % d;
    assert(x == q * d + r);
    if d == 1 || d == -1 {
        assert(q * d == if d == 1 { q } else { -q }) by (nonlinear_arith)
            requires
                d == 1 || d == -1,
        ;
    } else if d >= 2 {
        assert(x >= 0 ==> q >= 0 && 2 * q <= q * d) by (nonlinear_arith)
            requires
                d >= 2,
                x == q * d + r,
                0 <= r < d,
        ;
        assert(x < 0 ==> q < 0 && (q + 1) * d <= 2 * (q + 1) && (q + 1) * d == q * d + d)
            by (nonlinear_arith)
            requires
                d >= 2,
                x == q * d + r,
                0 <= r < d,
        ;
    } else {
        assert(x >= 0 ==> q <= 0 && -2 * q <= q * d) by (nonlinear_arith)
            requires
                d <= -2,
                x == q * d + r,
                0 <= r < -d,
        ;
        assert(x < 0 ==> q > 0 && (q - 1) * d <= -2 * (q - 1) && (q - 1) * d == q * d - d)
            by (nonlinear_arith)
            requires
                d <= -2,
                x == q * d + r,
                0 <= r < -d,
        ;
    }
}

/// Quotient of `x` by `d`, rounded to the nearest integer.
fn round_div_i32(x: i32, d: i32) -> (q: i32)
    requires
        d != 0,
        !(x == i32::MIN && d == -1),
    ensures
        q == round_div(x as int, d as int),
{
    proof {
        lemma_euclid(x as int, d as int);
        lemma_quotient_small(x as int, d as int);
    }
    let quot = x.checked_div_euclid(d).unwrap();
    let rem = x.checked_rem_euclid(d).unwrap();
    if d > 0 {
        if rem >= d - rem {
            quot + 1
        } else {
            quot
        }
    } else {
        if d + rem > -rem {
            quot - 1
        } else {
            quot
        }
    }
}

/// Quotient of `x` by `d`, rounded to the nearest integer.
fn round_div_i64(x: i64, d: i64) -> (q: i64)
    requires
        d != 0,
        !(x == i64::MIN && d == -1),
    ensures
        q == round_div(x as int, d as int),
{
    proof {
        lemma_euclid(x as int, d as int);
        lemma_quotient_small(x as int, d as int);
    }
    let quot = x.checked_div_euclid(d).unwrap();
    let rem = x.checked_rem_euclid(d).unwrap();
    if d > 0 {
        if rem >= d - rem {
            quot + 1
        } else {
            quot
        }
    } else {
        if d + rem > -rem {
            quot - 1
        } else {
            quot
        }
    }
}

/// Quotient of `x` by `d`, rounded to the nearest integer.
fn round_div_i128(x: i128, d: i128) -> (q: i128)
    requires
        d != 0,
        !(x == i128::MIN && d == -1),
    ensures
        q == round_div(x as int, d as int),
{
    proof {
        lemma_euclid(x as int, d as int);
        lemma_quotient_small(x as int, d as int);
    }
    let quot = x.checked_div_euclid(d).unwrap();
    let rem = x.checked_rem_euclid(d).unwrap();
    if d > 0 {
        if rem >= d - rem {
            quot + 1
        } else {
            quot
        }
    } else {
        if d + rem > -rem {
            quot - 1
        } else {
            quot
        }
    }
}

impl View for OrderedCoordinateI32 {
    type V = Point;

    open spec fn view(&self) -> Point {
        Point { x: self.x as int, y: self.y as int }
    }
}

impl OrderedCoordinateI32 {
    /// Both components, as a pair.
    pub fn x_y(&self) -> (r: (i32, i32))
        ensures
            r == (self.x, self.y),
    {
        (self.x, self.y)
    }

    /// Computes `ax * bx + ay * by`.
    #[inline]
    pub fn dot(self, other: Self) -> (r: i32)
        requires
            fits_i32(self.x * other.x),
            fits_i32(self.y * other.y),
            fits_i32(dot_product(self.x as int, self.y as int, other.x as int, other.y as int)),
        ensures
            r == dot_product(self.x as int, self.y as int, other.x as int, other.y as int),
    {
        self.x * other.x + self.y * other.y
    }

    /// Computes the norm of the cross product, `ax * by - ay * bx`.
    #[inline]
    pub fn cross(self, other: Self) -> (r: i32)
        requires
            fits_i32(self.x * other.y),
            fits_i32(self.y * other.x),
            fits_i32(cross_product(self.x as int, self.y as int, other.x as int, other.y as int)),
        ensures
            r == cross_product(self.x as int, self.y as int, other.x as int, other.y as int),
    {
        self.x * other.y - self.y * other.x
    }
}

impl core::ops::Neg for OrderedCoordinateI32 {
    type Output = OrderedCoordinateI32;

    #[inline]
    fn neg(self) -> (r: Self::Output) {
        c_i32(-self.x, -self.y)
    }
}

impl NegSpecImpl for OrderedCoordinateI32 {
    open spec fn obeys_neg_spec() -> bool {
        true
    }

    open spec fn neg_req(self) -> bool {
        self.x != i32::MIN && self.y != i32::MIN
    }

    open spec fn neg_spec(self) -> Self::Output {
        OrderedCoordinateI32 { x: (-self.x) as i32, y: (-self.y) as i32 }
    }
}

impl core::ops::Add for OrderedCoordinateI32 {
    type Output = OrderedCoordinateI32;

    #[inline]
    fn add(self, other: Self) -> (r: Self::Output) {
        c_i32(self.x + other.x, self.y + other.y)
    }
}

impl AddSpecImpl for OrderedCoordinateI32 {
    open spec fn obeys_add_spec() -> bool {
        true
    }

    open spec fn add_req(self, other: Self) -> bool {
        fits_i32(self.x + other.x) && fits_i32(self.y + other.y)
    }

    open spec fn add_spec(self, other: Self) -> Self::Output {
        OrderedCoordinateI32 { x: (self.x + other.x) as i32, y: (self.y + other.y) as i32 }
    }
}

impl core::ops::Add<&OrderedCoordinateI32> for OrderedCoordinateI32 {
    type Output = OrderedCoordinateI32;

    #[inline]
    fn add(self, other: &Self) -> (r: Self::Output) {
        c_i32(self.x + other.x, self.y + other.y)
    }
}

impl AddSpecImpl<&OrderedCoordinateI32> for OrderedCoordinateI32 {
    open spec fn obeys_add_spec() -> bool {
        true
    }

    open spec fn add_req(self, other: &Self) -> bool {
        fits_i32(self.x + other.x) && fits_i32(self.y + other.y)
    }

    open spec fn add_spec(self, other: &Self) -> Self::Output {
        OrderedCoordinateI32 { x: (self.x + other.x) as i32, y: (self.y + other.y) as i32 }
    }
}

impl core::ops::Sub for OrderedCoordinateI32 {
    type Output = OrderedCoordinateI32;

    #[inline]
    fn sub(self, other: Self) -> (r: Self::Output) {
        c_i32(self.x - other.x, self.y - other.y)
    }
}

impl SubSpecImpl for OrderedCoordinateI32 {
    open spec fn obeys_sub_spec() -> bool {
        true
    }

    open spec fn sub_req(self, other: Self) -> bool {
        fits_i32(self.x - other.x) && fits_i32(self.y - other.y)
    }

    open spec fn sub_spec(self, other: Self) -> Self::Output {
        OrderedCoordinateI32 { x: (self.x - other.x) as i32, y: (self.y - other.y) as i32 }
    }
}

impl core::ops::Sub<&OrderedCoordinateI32> for OrderedCoordinateI32 {
    type Output = OrderedCoordinateI32;

    #[inline]
    fn sub(self, other: &Self) -> (r: Self::Output) {
        c_i32(self.x - other.x, self.y - other.y)
    }
}

impl SubSpecImpl<&OrderedCoordinateI32> for OrderedCoordinateI32 {
    open spec fn obeys_sub_spec() -> bool {
        true
    }

    open spec fn sub_req(self, other: &Self) -> bool {
        fits_i32(self.x - other.x) && fits_i32(self.y - other.y)
    }

    open spec fn sub_spec(self, other: &Self) -> Self::Output {
        OrderedCoordinateI32 { x: (self.x - other.x) as i32, y: (self.y - other.y) as i32 }
    }
}

/// Component by component.
impl core::ops::Mul for OrderedCoordinateI32 {
    type Output = OrderedCoordinateI32;

    #[inline]
    fn mul(self, other: Self) -> (r: Self::Output) {
        c_i32(self.x * other.x, self.y * other.y)
    }
}

impl MulSpecImpl for OrderedCoordinateI32 {
    open spec fn obeys_mul_spec() -> bool {
        true
    }

    open spec fn mul_req(self, other: Self) -> bool {
        fits_i32(self.x * other.x) && fits_i32(self.y * other.y)
    }

    open spec fn mul_spec(self, other: Self) -> Self::Output {
        OrderedCoordinateI32 { x: (self.x * other.x) as i32, y: (self.y * other.y) as i32 }
    }
}

/// By a scalar.
impl core::ops::Mul<i32> for OrderedCoordinateI32 {
    type Output = OrderedCoordinateI32;

    #[inline]
    fn mul(self, scale: i32) -> (r: Self::Output) {
        c_i32(self.x * scale, self.y * scale)
    }
}

impl MulSpecImpl<i32> for OrderedCoordinateI32 {
    open spec fn obeys_mul_spec() -> bool {
        true
    }

    open spec fn mul_req(self, scale: i32) -> bool {
        fits_i32(self.x * scale) && fits_i32(self.y * scale)
    }

    open spec fn mul_spec(self, scale: i32) -> Self::Output {
        OrderedCoordinateI32 { x: (self.x * scale) as i32, y: (self.y * scale) as i32 }
    }
}

/// Component by component, each quotient rounded to the nearest integer.
impl core::ops::Div for OrderedCoordinateI32 {
    type Output = OrderedCoordinateI32;

    #[inline]
    fn div(self, other: Self) -> (r: Self::Output) {
        c_i32(round_div_i32(self.x, other.x), round_div_i32(self.y, other.y))
    }
}

impl DivSpecImpl for OrderedCoordinateI32 {
    open spec fn obeys_div_spec() -> bool {
        true
    }

    open spec fn div_req(self, other: Self) -> bool {
        &&& other.x != 0
        &&& other.y != 0
        &&& !(self.x == i32::MIN && other.x == -1)
        &&& !(self.y == i32::MIN && other.y == -1)
    }

    open spec fn div_spec(self, other: Self) -> Self::Output {
        OrderedCoordinateI32 {
            x: round_div(self.x as int, other.x as int) as i32,
            y: round_div(self.y as int, other.y as int) as i32,
        }
    }
}

/// By a scalar, each quotient rounded to the nearest integer.
impl core::ops::Div<i32> for OrderedCoordinateI32 {
    type Output = OrderedCoordinateI32;

    #[inline]
    fn div(self, scale: i32) -> (r: Self::Output) {
        c_i32(round_div_i32(self.x, scale), round_div_i32(self.y, scale))
    }
}

impl DivSpecImpl<i32> for OrderedCoordinateI32 {
    open spec fn obeys_div_spec() -> bool {
        true
    }

    open spec fn div_req(self, scale: i32) -> bool {
        &&& scale != 0
        &&& !(self.x == i32::MIN && scale == -1)
        &&& !(self.y == i32::MIN && scale == -1)
    }

    open spec fn div_spec(self, scale: i32) -> Self::Output {
        OrderedCoordinateI32 {
            x: round_div(self.x as int, scale as int) as i32,
            y: round_div(self.y as int, scale as int) as i32,
        }
    }
}

impl View for OrderedCoordinateI64 {
    type V = Point;

    open spec fn view(&self) -> Point {
        Point { x: self.x as int, y: self.y as int }
    }
}

impl OrderedCoordinateI64 {
    /// Both components, as a pair.
    pub fn x_y(&self) -> (r: (i64, i64))
        ensures
            r == (self.x, self.y),
    {
        (self.x, self.y)
    }

    /// Computes `ax * bx + ay * by`.
    #[inline]
    pub fn dot(self, other: Self) -> (r: i64)
        requires
            fits_i64(self.x * other.x),
            fits_i64(self.y * other.y),
            fits_i64(dot_product(self.x as int, self.y as int, other.x as int, other.y as int)),
        ensures
            r == dot_product(self.x as int, self.y as int, other.x as int, other.y as int),
    {
        self.x * other.x + self.y * other.y
    }

    /// Computes the norm of the cross product, `ax * by - ay * bx`.
    #[inline]
    pub fn cross(self, other: Self) -> (r: i64)
        requires
            fits_i64(self.x * other.y),
            fits_i64(self.y * other.x),
            fits_i64(cross_product(self.x as int, self.y as int, other.x as int, other.y as int)),
        ensures
            r == cross_product(self.x as int, self.y as int, other.x as int, other.y as int),
    {
        self.x * other.y - self.y * other.x
    }
}

impl core::ops::Neg for OrderedCoordinateI64 {
    type Output = OrderedCoordinateI64;

    #[inline]
    fn neg(self) -> (r: Self::Output) {
        c_i64(-self.x, -self.y)
    }
}

impl NegSpecImpl for OrderedCoordinateI64 {
    open spec fn obeys_neg_spec() -> bool {
        true
    }

    open spec fn neg_req(self) -> bool {
        self.x != i64::MIN && self.y != i64::MIN
    }

    open spec fn neg_spec(self) -> Self::Output {
        OrderedCoordinateI64 { x: (-self.x) as i64, y: (-self.y) as i64 }
    }
}

impl core::ops::Add for OrderedCoordinateI64 {
    type Output = OrderedCoordinateI64;

    #[inline]
    fn add(self, other: Self) -> (r: Self::Output) {
        c_i64(self.x + other.x, self.y + other.y)
    }
}

impl AddSpecImpl for OrderedCoordinateI64 {
    open spec fn obeys_add_spec() -> bool {
        true
    }

    open spec fn add_req(self, other: Self) -> bool {
        fits_i64(self.x + other.x) && fits_i64(self.y + other.y)
    }

    open spec fn add_spec(self, other: Self) -> Self::Output {
        OrderedCoordinateI64 { x: (self.x + other.x) as i64, y: (self.y + other.y) as i64 }
    }
}

impl core::ops::Add<&OrderedCoordinateI64> for OrderedCoordinateI64 {
    type Output = OrderedCoordinateI64;

    #[inline]
    fn add(self, other: &Self) -> (r: Self::Output) {
        c_i64(self.x + other.x, self.y + other.y)
    }
}

impl AddSpecImpl<&OrderedCoordinateI64> for OrderedCoordinateI64 {
    open spec fn obeys_add_spec() -> bool {
        true
    }

    open spec fn add_req(self, other: &Self) -> bool {
        fits_i64(self.x + other.x) && fits_i64(self.y + other.y)
    }

    open spec fn add_spec(self, other: &Self) -> Self::Output {
        OrderedCoordinateI64 { x: (self.x + other.x) as i64, y: (self.y + other.y) as i64 }
    }
}

impl core::ops::Sub for OrderedCoordinateI64 {
    type Output = OrderedCoordinateI64;

    #[inline]
    fn sub(self, other: Self) -> (r: Self::Output) {
        c_i64(self.x - other.x, self.y - other.y)
    }
}

impl SubSpecImpl for OrderedCoordinateI64 {
    open spec fn obeys_sub_spec() -> bool {
        true
    }

    open spec fn sub_req(self, other: Self) -> bool {
        fits_i64(self.x - other.x) && fits_i64(self.y - other.y)
    }

    open spec fn sub_spec(self, other: Self) -> Self::Output {
        OrderedCoordinateI64 { x: (self.x - other.x) as i64, y: (self.y - other.y) as i64 }
    }
}

impl core::ops::Sub<&OrderedCoordinateI64> for OrderedCoordinateI64 {
    type Output = OrderedCoordinateI64;

    #[inline]
    fn sub(self, other: &Self) -> (r: Self::Output) {
        c_i64(self.x - other.x, self.y - other.y)
    }
}

impl SubSpecImpl<&OrderedCoordinateI64> for OrderedCoordinateI64 {
    open spec fn obeys_sub_spec() -> bool {
        true
    }

    open spec fn sub_req(self, other: &Self) -> bool {
        fits_i64(self.x - other.x) && fits_i64(self.y - other.y)
    }

    open spec fn sub_spec(self, other: &Self) -> Self::Output {
        OrderedCoordinateI64 { x: (self.x - other.x) as i64, y: (self.y - other.y) as i64 }
    }
}

/// Component by component.
impl core::ops::Mul for OrderedCoordinateI64 {
    type Output = OrderedCoordinateI64;

    #[inline]
    fn mul(self, other: Self) -> (r: Self::Output) {
        c_i64(self.x * other.x, self.y * other.y)
    }
}

impl MulSpecImpl for OrderedCoordinateI64 {
    open spec fn obeys_mul_spec() -> bool {
        true
    }

    open spec fn mul_req(self, other: Self) -> bool {
        fits_i64(self.x * other.x) && fits_i64(self.y * other.y)
    }

    open spec fn mul_spec(self, other: Self) -> Self::Output {
        OrderedCoordinateI64 { x: (self.x * other.x) as i64, y: (self.y * other.y) as i64 }
    }
}

/// By a scalar.
impl core::ops::Mul<i64> for OrderedCoordinateI64 {
    type Output = OrderedCoordinateI64;

    #[inline]
    fn mul(self, scale: i64) -> (r: Self::Output) {
        c_i64(self.x * scale, self.y * scale)
    }
}

impl MulSpecImpl<i64> for OrderedCoordinateI64 {
    open spec fn obeys_mul_spec() -> bool {
        true
    }

    open spec fn mul_req(self, scale: i64) -> bool {
        fits_i64(self.x * scale) && fits_i64(self.y * scale)
    }

    open spec fn mul_spec(self, scale: i64) -> Self::Output {
        OrderedCoordinateI64 { x: (self.x * scale) as i64, y: (self.y * scale) as i64 }
    }
}

/// Component by component, each quotient rounded to the nearest integer.
impl core::ops::Div for OrderedCoordinateI64 {
    type Output = OrderedCoordinateI64;

    #[inline]
    fn div(self, other: Self) -> (r: Self::Output) {
        c_i64(round_div_i64(self.x, other.x), round_div_i64(self.y, other.y))
    }
}

impl DivSpecImpl for OrderedCoordinateI64 {
    open spec fn obeys_div_spec() -> bool {
        true
    }

    open spec fn div_req(self, other: Self) -> bool {
        &&& other.x != 0
        &&& other.y != 0
        &&& !(self.x == i64::MIN && other.x == -1)
        &&& !(self.y == i64::MIN && other.y == -1)
    }

    open spec fn div_spec(self, other: Self) -> Self::Output {
        OrderedCoordinateI64 {
            x: round_div(self.x as int, other.x as int) as i64,
            y: round_div(self.y as int, other.y as int) as i64,
        }
    }
}

/// By a scalar, each quotient rounded to the nearest integer.
impl core::ops::Div<i64> for OrderedCoordinateI64 {
    type Output = OrderedCoordinateI64;

    #[inline]
    fn div(self, scale: i64) -> (r: Self::Output) {
        c_i64(round_div_i64(self.x, scale), round_div_i64(self.y, scale))
    }
}

impl DivSpecImpl<i64> for OrderedCoordinateI64 {
    open spec fn obeys_div_spec() -> bool {
        true
    }

    open spec fn div_req(self, scale: i64) -> bool {
        &&& scale != 0
        &&& !(self.x == i64::MIN && scale == -1)
        &&& !(self.y == i64::MIN && scale == -1)
    }

    open spec fn div_spec(self, scale: i64) -> Self::Output {
        OrderedCoordinateI64 {
            x: round_div(self.x as int, scale as int) as i64,
            y: round_div(self.y as int, scale as int) as i64,
        }
    }
}

impl View for OrderedCoordinateI128 {
    type V = Point;

    open spec fn view(&self) -> Point {
        Point { x: self.x as int, y: self.y as int }
    }
}

impl OrderedCoordinateI128 {
    /// Both components, as a pair.
    pub fn x_y(&self) -> (r: (i128, i128))
        ensures
            r == (self.x, self.y),
    {
        (self.x, self.y)
    }

    /// Computes `ax * bx + ay * by`.
    #[inline]
    pub fn dot(self, other: Self) -> (r: i128)
        requires
            fits_i128(self.x * other.x),
            fits_i128(self.y * other.y),
            fits_i128(dot_product(self.x as int, self.y as int, other.x as int, other.y as int)),
        ensures
            r == dot_product(self.x as int, self.y as int, other.x as int, other.y as int),
    {
        self.x * other.x + self.y * other.y
    }

    /// Computes the norm of the cross product, `ax * by - ay * bx`.
    #[inline]
    pub fn cross(self, other: Self) -> (r: i128)
        requires
            fits_i128(self.x * other.y),
            fits_i128(self.y * other.x),
            fits_i128(cross_product(self.x as int, self.y as int, other.x as int, other.y as int)),
        ensures
            r == cross_product(self.x as int, self.y as int, other.x as int, other.y as int),
    {
        self.x * other.y - self.y * other.x
    }
}

impl core::ops::Neg for OrderedCoordinateI128 {
    type Output = OrderedCoordinateI128;

    #[inline]
    fn neg(self) -> (r: Self::Output) {
        c_i128(-self.x, -self.y)
    }
}

impl NegSpecImpl for OrderedCoordinateI128 {
    open spec fn obeys_neg_spec() -> bool {
        true
    }

    open spec fn neg_req(self) -> bool {
        self.x != i128::MIN && self.y != i128::MIN
    }

    open spec fn neg_spec(self) -> Self::Output {
        OrderedCoordinateI128 { x: (-self.x) as i128, y: (-self.y) as i128 }
    }
}

impl core::ops::Add for OrderedCoordinateI128 {
    type Output = OrderedCoordinateI128;

    #[inline]
    fn add(self, other: Self) -> (r: Self::Output) {
        c_i128(self.x + other.x, self.y + other.y)
    }
}

impl AddSpecImpl for OrderedCoordinateI128 {
    open spec fn obeys_add_spec() -> bool {
        true
    }

    open spec fn add_req(self, other: Self) -> bool {
        fits_i128(self.x + other.x) && fits_i128(self.y + other.y)
    }

    open spec fn add_spec(self, other: Self) -> Self::Output {
        OrderedCoordinateI128 { x: (self.x + other.x) as i128, y: (self.y + other.y) as i128 }
    }
}

impl core::ops::Add<&OrderedCoordinateI128> for OrderedCoordinateI128 {
    type Output = OrderedCoordinateI128;

    #[inline]
    fn add(self, other: &Self) -> (r: Self::Output) {
        c_i128(self.x + other.x, self.y + other.y)
    }
}

impl AddSpecImpl<&OrderedCoordinateI128> for OrderedCoordinateI128 {
    open spec fn obeys_add_spec() -> bool {
        true
    }

    open spec fn add_req(self, other: &Self) -> bool {
        fits_i128(self.x + other.x) && fits_i128(self.y + other.y)
    }

    open spec fn add_spec(self, other: &Self) -> Self::Output {
        OrderedCoordinateI128 { x: (self.x + other.x) as i128, y: (self.y + other.y) as i128 }
    }
}

impl core::ops::Sub for OrderedCoordinateI128 {
    type Output = OrderedCoordinateI128;

    #[inline]
    fn sub(self, other: Self) -> (r: Self::Output) {
        c_i128(self.x - other.x, self.y - other.y)
    }
}

impl SubSpecImpl for OrderedCoordinateI128 {
    open spec fn obeys_sub_spec() -> bool {
        true
    }

    open spec fn sub_req(self, other: Self) -> bool {
        fits_i128(self.x - other.x) && fits_i128(self.y - other.y)
    }

    open spec fn sub_spec(self, other: Self) -> Self::Output {
        OrderedCoordinateI128 { x: (self.x - other.x) as i128, y: (self.y - other.y) as i128 }
    }
}

impl core::ops::Sub<&OrderedCoordinateI128> for OrderedCoordinateI128 {
    type Output = OrderedCoordinateI128;

    #[inline]
    fn sub(self, other: &Self) -> (r: Self::Output) {
        c_i128(self.x - other.x, self.y - other.y)
    }
}

impl SubSpecImpl<&OrderedCoordinateI128> for OrderedCoordinateI128 {
    open spec fn obeys_sub_spec() -> bool {
        true
    }

    open spec fn sub_req(self, other: &Self) -> bool {
        fits_i128(self.x - other.x) && fits_i128(self.y - other.y)
    }

    open spec fn sub_spec(self, other: &Self) -> Self::Output {
        OrderedCoordinateI128 { x: (self.x - other.x) as i128, y: (self.y - other.y) as i128 }
    }
}

/// Component by component.
impl core::ops::Mul for OrderedCoordinateI128 {
    type Output = OrderedCoordinateI128;

    #[inline]
    fn mul(self, other: Self) -> (r: Self::Output) {
        c_i128(self.x * other.x, self.y * other.y)
    }
}

impl MulSpecImpl for OrderedCoordinateI128 {
    open spec fn obeys_mul_spec() -> bool {
        true
    }

    open spec fn mul_req(self, other: Self) -> bool {
        fits_i128(self.x * other.x) && fits_i128(self.y * other.y)
    }

    open spec fn mul_spec(self, other: Self) -> Self::Output {
        OrderedCoordinateI128 { x: (self.x * other.x) as i128, y: (self.y * other.y) as i128 }
    }
}

/// By a scalar.
impl core::ops::Mul<i128> for OrderedCoordinateI128 {
    type Output = OrderedCoordinateI128;

    #[inline]
    fn mul(self, scale: i128) -> (r: Self::Output) {
        c_i128(self.x * scale, self.y * scale)
    }
}

impl MulSpecImpl<i128> for OrderedCoordinateI128 {
    open spec fn obeys_mul_spec() -> bool {
        true
    }

    open spec fn mul_req(self, scale: i128) -> bool {
        fits_i128(self.x * scale) && fits_i128(self.y * scale)
    }

    open spec fn mul_spec(self, scale: i128) -> Self::Output {
        OrderedCoordinateI128 { x: (self.x * scale) as i128, y: (self.y * scale) as i128 }
    }
}

/// Component by component, each quotient rounded to the nearest integer.
impl core::ops::Div for OrderedCoordinateI128 {
    type Output = OrderedCoordinateI128;

    #[inline]
    fn div(self, other: Self) -> (r: Self::Output) {
        c_i128(round_div_i128(self.x, other.x), round_div_i128(self.y, other.y))
    }
}

impl DivSpecImpl for OrderedCoordinateI128 {
    open spec fn obeys_div_spec() -> bool {
        true
    }

    open spec fn div_req(self, other: Self) -> bool {
        &&& other.x != 0
        &&& other.y != 0
        &&& !(self.x == i128::MIN && other.x == -1)
        &&& !(self.y == i128::MIN && other.y == -1)
    }

    open spec fn div_spec(self, other: Self) -> Self::Output {
        OrderedCoordinateI128 {
            x: round_div(self.x as int, other.x as int) as i128,
            y: round_div(self.y as int, other.y as int) as i128,
        }
    }
}

/// By a scalar, each quotient rounded to the nearest integer.
impl core::ops::Div<i128> for OrderedCoordinateI128 {
    type Output = OrderedCoordinateI128;

    #[inline]
    fn div(self, scale: i128) -> (r: Self::Output) {
        c_i128(round_div_i128(self.x, scale), round_div_i128(self.y, scale))
    }
}

impl DivSpecImpl<i128> for OrderedCoordinateI128 {
    open spec fn obeys_div_spec() -> bool {
        true
    }

    open spec fn div_req(self, scale: i128) -> bool {
        &&& scale != 0
        &&& !(self.x == i128::MIN && scale == -1)
        &&& !(self.y == i128::MIN && scale == -1)
    }

    open spec fn div_spec(self, scale: i128) -> Self::Output {
        OrderedCoordinateI128 {
            x: round_div(self.x as int, scale as int) as i128,
            y: round_div(self.y as int, scale as int) as i128,
        }
    }
}

impl From<OrderedCoordinateI32> for OrderedCoordinateI128 {
    fn from(c: OrderedCoordinateI32) -> (r: Self) {
        c_i128(c.x as i128, c.y as i128)
    }
}

impl FromSpecImpl<OrderedCoordinateI32> for OrderedCoordinateI128 {
    open spec fn obeys_from_spec() -> bool {
        true
    }

    open spec fn from_spec(c: OrderedCoordinateI32) -> Self {
        OrderedCoordinateI128 { x: c.x as i128, y: c.y as i128 }
    }
}

impl From<OrderedCoordinateI32> for OrderedCoordinateI64 {
    fn from(c: OrderedCoordinateI32) -> (r: Self) {
        c_i64(c.x as i64, c.y as i64)
    }
}

impl FromSpecImpl<OrderedCoordinateI32> for OrderedCoordinateI64 {
    open spec fn obeys_from_spec() -> bool {
        true
    }

    open spec fn from_spec(c: OrderedCoordinateI32) -> Self {
        OrderedCoordinateI64 { x: c.x as i64, y: c.y as i64 }
    }
}

impl From<OrderedCoordinateI64> for OrderedCoordinateI128 {
    fn from(c: OrderedCoordinateI64) -> (r: Self) {
        c_i128(c.x as i128, c.y as i128)
    }
}

impl FromSpecImpl<OrderedCoordinateI64> for OrderedCoordinateI128 {
    open spec fn obeys_from_spec() -> bool {
        true
    }

    open spec fn from_spec(c: OrderedCoordinateI64) -> Self {
        OrderedCoordinateI128 { x: c.x as i128, y: c.y as i128 }
    }
}

impl From<&OrderedCoordinateI32> for OrderedCoordinateI128 {
    fn from(c: &OrderedCoordinateI32) -> (r: Self) {
        c_i128(c.x as i128, c.y as i128)
    }
}

impl FromSpecImpl<&OrderedCoordinateI32> for OrderedCoordinateI128 {
    open spec fn obeys_from_spec() -> bool {
        true
    }

    open spec fn from_spec(c: &OrderedCoordinateI32) -> Self {
        OrderedCoordinateI128 { x: c.x as i128, y: c.y as i128 }
    }
}

impl From<&OrderedCoordinateI32> for OrderedCoordinateI64 {
    fn from(c: &OrderedCoordinateI32) -> (r: Self) {
        c_i64(c.x as i64, c.y as i64)
    }
}

impl FromSpecImpl<&OrderedCoordinateI32> for OrderedCoordinateI64 {
    open spec fn obeys_from_spec() -> bool {
        true
    }

    open spec fn from_spec(c: &OrderedCoordinateI32) -> Self {
        OrderedCoordinateI64 { x: c.x as i64, y: c.y as i64 }
    }
}

impl OrderedCoordinateI128 {
    /// Whether both components lie between `-limit` and `limit`.
    pub fn within(&self, limit: i128) -> (r: bool)
        requires
            limit >= 0,
        ensures
            r == self@.within(limit as int),
    {
        -limit <= self.x && self.x <= limit && -limit <= self.y && self.y <= limit
    }
}

} // verus!
