//! Random coordinates and segments, for trials and measurements.
use crate::ordered_coordinate::OrderedCoordinateI32;
use crate::ordered_segment::OrderedSegmentI32;
use rand::rngs::StdRng;
use rand::Rng;
use vstd::prelude::*;

verus! {

/// The standard generator of the `rand` crate. Nothing is known of its state.
#[verifier::external_type_specification]
#[verifier::external_body]
pub struct ExStdRng(StdRng);

/// Any `i32`.
///
/// Calls `Rng::gen` of the `rand` crate, of whose result nothing is claimed.
#[verifier::external_body]
fn gen_i32(rng: &mut StdRng) -> i32 {
    rng.gen()
}

/// An `i32` between `min` and `max`, both included.
///
/// Calls `Rng::gen_range` of the `rand` crate on the inclusive range. Taken
/// from its source, not proved: it panics on an empty range, which the
/// precondition leaves out, and returns a value of the range.
#[verifier::external_body]
fn gen_range_i32(rng: &mut StdRng, min: i32, max: i32) -> (r: i32)
    requires
        min <= max,
    ensures
        min <= r <= max,
{
    rng.gen_range(min..=max)
}

impl OrderedCoordinateI32 {
    /// A coordinate anywhere in the domain.
    pub fn random(rng: &mut StdRng) -> Self {
        let x = gen_i32(rng);
        let y = gen_i32(rng);
        Self { x, y }
    }

    /// A coordinate with both components between `min` and `max`.
    pub fn random_range(min: i32, max: i32, rng: &mut StdRng) -> (c: Self)
        requires
            min <= max,
        ensures
            min <= c.x <= max,
            min <= c.y <= max,
    {
        let x = gen_range_i32(rng, min, max);
        let y = gen_range_i32(rng, min, max);
        Self { x, y }
    }

    /// A coordinate with both components between `0` and `max`.
    pub fn random_pos(max: i32, rng: &mut StdRng) -> (c: Self)
        requires
            0 <= max,
        ensures
            0 <= c.x <= max,
            0 <= c.y <= max,
    {
        let min: i32 = 0;
        let x = gen_range_i32(rng, min, max);
        let y = gen_range_i32(rng, min, max);
        Self { x, y }
    }
}

impl OrderedSegmentI32 {
    /// A segment between two coordinates anywhere in the domain, with index 0.
    pub fn random(rng: &mut StdRng) -> (s: Self)
        ensures
            s.idx == 0,
    {
        let start = OrderedCoordinateI32::random(rng);
        let end = OrderedCoordinateI32::random(rng);
        Self::new(start, end)
    }

    /// A segment between two coordinates with every component between `min`
    /// and `max`, with index 0.
    pub fn random_range(min: i32, max: i32, rng: &mut StdRng) -> (s: Self)
        requires
            min <= max,
        ensures
            s.idx == 0,
            min <= s.start.x <= max && min <= s.start.y <= max,
            min <= s.end.x <= max && min <= s.end.y <= max,
    {
        let start = OrderedCoordinateI32::random_range(min, max, rng);
        let end = OrderedCoordinateI32::random_range(min, max, rng);
        Self::new(start, end)
    }

    /// A segment between two coordinates with every component between `0` and
    /// `max`, with index 0.
    pub fn random_pos(max: i32, rng: &mut StdRng) -> (s: Self)
        requires
            0 <= max,
        ensures
            s.idx == 0,
            0 <= s.start.x <= max && 0 <= s.start.y <= max,
            0 <= s.end.x <= max && 0 <= s.end.y <= max,
    {
        let start = OrderedCoordinateI32::random_pos(max, rng);
        let end = OrderedCoordinateI32::random_pos(max, rng);
        Self::new(start, end)
    }
}

} // verus!
