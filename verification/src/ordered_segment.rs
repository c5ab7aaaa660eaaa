//! Segments: an ordered pair of coordinates and an index.
//!
//! Construction does not put the endpoints in order; `reorder` does, on demand.
use crate::arith::{fits_i128, fits_i32};
use crate::model::Segment;
use crate::ordered_coordinate::{OrderedCoordinateI128, OrderedCoordinateI32};
use std::cmp::Ordering;
use vstd::prelude::*;
use vstd::std_specs::convert::{FromSpec, FromSpecImpl};

verus! {

/// A segment with 32-bit integer coordinates.
#[derive(Debug, Copy, Clone, PartialEq, Eq, Structural)]
pub struct OrderedSegmentI32 {
    pub start: OrderedCoordinateI32,
    pub end: OrderedCoordinateI32,
    /// Ties a result back to the caller's input.
    pub idx: i32,
}

impl View for OrderedSegmentI32 {
    type V = Segment;

    open spec fn view(&self) -> Segment {
        Segment { start: self.start@, end: self.end@, idx: self.idx as int }
    }
}

impl OrderedSegmentI32 {
    /// The segment from `start` to `end`, as given, with index 0.
    pub fn new(start: OrderedCoordinateI32, end: OrderedCoordinateI32) -> (s: Self)
        ensures
            s == (OrderedSegmentI32 { start, end, idx: 0 }),
    {
        Self { start, end, idx: 0 }
    }

    /// The segment from `start` to `end`, as given, with index `idx`.
    pub fn new_with_idx(start: OrderedCoordinateI32, end: OrderedCoordinateI32, idx: i32) -> (s: Self)
        ensures
            s == (OrderedSegmentI32 { start, end, idx }),
    {
        Self { start, end, idx }
    }

    /// Endpoints exchanged where `start` comes after `end`.
    pub open spec fn reordered(self) -> Self {
        if self.end@.nw_before(self.start@) {
            OrderedSegmentI32 { start: self.end, end: self.start, idx: self.idx }
        } else {
            self
        }
    }

    /// The segment between the two coordinates, starting at the one that
    /// comes first from north-west to south-east, with index 0.
    pub fn new_reorder(start: OrderedCoordinateI32, end: OrderedCoordinateI32) -> (s: Self)
        ensures
            s == (OrderedSegmentI32 { start, end, idx: 0 }).reordered(),
            s@ == (OrderedSegmentI32 { start, end, idx: 0 })@.reordered(),
            s@.is_canonical(),
    {
        let order = start.partial_nw(&end);
        let (start, end) = match order {
            Ordering::Greater => (end, start),
            Ordering::Less => (start, end),
            Ordering::Equal => (start, end),
        };

        Self { start, end, idx: 0 }
    }

    /// The segment between the two coordinates, starting at the one that
    /// comes first from north-west to south-east, with index `idx`.
    pub fn new_reorder_with_index(start: OrderedCoordinateI32, end: OrderedCoordinateI32, idx: i32) -> (s: Self)
        ensures
            s == (OrderedSegmentI32 { start, end, idx }).reordered(),
            s@ == (OrderedSegmentI32 { start, end, idx })@.reordered(),
            s@.is_canonical(),
    {
        let order = start.partial_nw(&end);
        let (start, end) = match order {
            Ordering::Greater => (end, start),
            Ordering::Less => (start, end),
            Ordering::Equal => (start, end),
        };

        Self { start, end, idx }
    }

    /// Exchanges the endpoints where `start` comes after `end`.
    pub fn reorder(&mut self)
        ensures
            *final(self) == old(self).reordered(),
            final(self)@ == old(self)@.reordered(),
            final(self)@.is_canonical(),
    {
        let order = self.start.partial_nw(&self.end);
        if matches!(order, Ordering::Greater) {
            let old_start = self.start;
            self.start = self.end;
            self.end = old_start;
        }
    }

    /// Difference in coordinates (∆x, ∆y).
    pub fn delta(&self) -> (d: OrderedCoordinateI32)
        requires
            fits_i32(self@.delta().x),
            fits_i32(self@.delta().y),
        ensures
            d@ == self@.delta(),
    {
        self.end - self.start
    }

    /// Change in the `x` component.
    pub fn dx(&self) -> (d: i32)
        requires
            fits_i32(self@.delta().x),
        ensures
            d == self@.delta().x,
    {
        self.end.x - self.start.x
    }

    /// Change in the `y` component.
    pub fn dy(&self) -> (d: i32)
        requires
            fits_i32(self@.delta().y),
        ensures
            d == self@.delta().y,
    {
        self.end.y - self.start.y
    }

    /// Both endpoints.
    pub fn coordinates(&self) -> (r: (OrderedCoordinateI32, OrderedCoordinateI32))
        ensures
            r == (self.start, self.end),
    {
        (self.start, self.end)
    }

    /// The four components: start `x`, start `y`, end `x`, end `y`.
    pub fn coords(&self) -> (r: (i32, i32, i32, i32))
        ensures
            r == (self.start.x, self.start.y, self.end.x, self.end.y),
    {
        (self.start.x, self.start.y, self.end.x, self.end.y)
    }
}

/// A segment with 128-bit integer coordinates.
#[derive(Debug, Copy, Clone, PartialEq, Eq, Structural)]
pub struct OrderedSegmentI128 {
    pub start: OrderedCoordinateI128,
    pub end: OrderedCoordinateI128,
    /// Ties a result back to the caller's input.
    pub idx: i128,
}

impl View for OrderedSegmentI128 {
    type V = Segment;

    open spec fn view(&self) -> Segment {
        Segment { start: self.start@, end: self.end@, idx: self.idx as int }
    }
}

impl OrderedSegmentI128 {
    /// The segment from `start` to `end`, as given, with index 0.
    pub fn new(start: OrderedCoordinateI128, end: OrderedCoordinateI128) -> (s: Self)
        ensures
            s == (OrderedSegmentI128 { start, end, idx: 0 }),
    {
        Self { start, end, idx: 0 }
    }

    /// The segment from `start` to `end`, as given, with index `idx`.
    pub fn new_with_idx(start: OrderedCoordinateI128, end: OrderedCoordinateI128, idx: i128) -> (s: Self)
        ensures
            s == (OrderedSegmentI128 { start, end, idx }),
    {
        Self { start, end, idx }
    }

    /// Endpoints exchanged where `start` comes after `end`.
    pub open spec fn reordered(self) -> Self {
        if self.end@.nw_before(self.start@) {
            OrderedSegmentI128 { start: self.end, end: self.start, idx: self.idx }
        } else {
            self
        }
    }

    /// The segment between the two coordinates, starting at the one that
    /// comes first from north-west to south-east, with index 0.
    pub fn new_reorder(start: OrderedCoordinateI128, end: OrderedCoordinateI128) -> (s: Self)
        ensures
            s == (OrderedSegmentI128 { start, end, idx: 0 }).reordered(),
            s@ == (OrderedSegmentI128 { start, end, idx: 0 })@.reordered(),
            s@.is_canonical(),
    {
        let order = start.partial_nw(&end);
        let (start, end) = match order {
            Ordering::Greater => (end, start),
            Ordering::Less => (start, end),
            Ordering::Equal => (start, end),
        };

        Self { start, end, idx: 0 }
    }

    /// The segment between the two coordinates, starting at the one that
    /// comes first from north-west to south-east, with index `idx`.
    pub fn new_reorder_with_index(start: OrderedCoordinateI128, end: OrderedCoordinateI128, idx: i128) -> (s: Self)
        ensures
            s == (OrderedSegmentI128 { start, end, idx }).reordered(),
            s@ == (OrderedSegmentI128 { start, end, idx })@.reordered(),
            s@.is_canonical(),
    {
        let order = start.partial_nw(&end);
        let (start, end) = match order {
            Ordering::Greater => (end, start),
            Ordering::Less => (start, end),
            Ordering::Equal => (start, end),
        };

        Self { start, end, idx }
    }

    /// Exchanges the endpoints where `start` comes after `end`.
    pub fn reorder(&mut self)
        ensures
            *final(self) == old(self).reordered(),
            final(self)@ == old(self)@.reordered(),
            final(self)@.is_canonical(),
    {
        let order = self.start.partial_nw(&self.end);
        if matches!(order, Ordering::Greater) {
            let old_start = self.start;
            self.start = self.end;
            self.end = old_start;
        }
    }

    /// Difference in coordinates (∆x, ∆y).
    pub fn delta(&self) -> (d: OrderedCoordinateI128)
        requires
            fits_i128(self@.delta().x),
            fits_i128(self@.delta().y),
        ensures
            d@ == self@.delta(),
    {
        self.end - self.start
    }

    /// Change in the `x` component.
    pub fn dx(&self) -> (d: i128)
        requires
            fits_i128(self@.delta().x),
        ensures
            d == self@.delta().x,
    {
        self.end.x - self.start.x
    }

    /// Change in the `y` component.
    pub fn dy(&self) -> (d: i128)
        requires
            fits_i128(self@.delta().y),
        ensures
            d == self@.delta().y,
    {
        self.end.y - self.start.y
    }

    /// Both endpoints.
    pub fn coordinates(&self) -> (r: (OrderedCoordinateI128, OrderedCoordinateI128))
        ensures
            r == (self.start, self.end),
    {
        (self.start, self.end)
    }

    /// The four components: start `x`, start `y`, end `x`, end `y`.
    pub fn coords(&self) -> (r: (i128, i128, i128, i128))
        ensures
            r == (self.start.x, self.start.y, self.end.x, self.end.y),
    {
        (self.start.x, self.start.y, self.end.x, self.end.y)
    }
}

impl OrderedSegmentI128 {
    /// Whether every component of both endpoints lies between `-limit` and
    /// `limit`.
    pub fn within(&self, limit: i128) -> (r: bool)
        requires
            limit >= 0,
        ensures
            r == self@.within(limit as int),
    {
        self.start.within(limit) && self.end.within(limit)
    }
}

impl From<OrderedSegmentI32> for OrderedSegmentI128 {
    fn from(s: OrderedSegmentI32) -> (r: Self) {
        OrderedSegmentI128 {
            start: OrderedCoordinateI128::from(s.start),
            end: OrderedCoordinateI128::from(s.end),
            idx: s.idx as i128,
        }
    }
}

impl FromSpecImpl<OrderedSegmentI32> for OrderedSegmentI128 {
    open spec fn obeys_from_spec() -> bool {
        true
    }

    open spec fn from_spec(s: OrderedSegmentI32) -> Self {
        OrderedSegmentI128 {
            start: OrderedCoordinateI128 { x: s.start.x as i128, y: s.start.y as i128 },
            end: OrderedCoordinateI128 { x: s.end.x as i128, y: s.end.y as i128 },
            idx: s.idx as i128,
        }
    }
}

impl From<&OrderedSegmentI32> for OrderedSegmentI128 {
    fn from(s: &OrderedSegmentI32) -> (r: Self) {
        OrderedSegmentI128 {
            start: OrderedCoordinateI128::from(s.start),
            end: OrderedCoordinateI128::from(s.end),
            idx: s.idx as i128,
        }
    }
}

impl FromSpecImpl<&OrderedSegmentI32> for OrderedSegmentI128 {
    open spec fn obeys_from_spec() -> bool {
        true
    }

    open spec fn from_spec(s: &OrderedSegmentI32) -> Self {
        OrderedSegmentI128 {
            start: OrderedCoordinateI128 { x: s.start.x as i128, y: s.start.y as i128 },
            end: OrderedCoordinateI128 { x: s.end.x as i128, y: s.end.y as i128 },
            idx: s.idx as i128,
        }
    }
}

/// Widening keeps the segment: the 128-bit copy of a 32-bit segment has the
/// same model, so every predicate gives the same answer on both.
pub proof fn lemma_widening_keeps_segment(s: OrderedSegmentI32)
    ensures
        <OrderedSegmentI128 as FromSpec<OrderedSegmentI32>>::from_spec(s)@ == s@,
        <OrderedSegmentI128 as FromSpec<&OrderedSegmentI32>>::from_spec(&s)@ == s@,
        s@.within(0x8000_0000),
{
}

} // verus!
