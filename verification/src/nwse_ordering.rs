//! The order from north-west to south-east: by `x`, then by `y`.
//!
//! On coordinates it is a total order. On segments it serves a sweep: a
//! segment that is wholly north-west of another can be skipped, and a scan in
//! ascending order can stop at the first one that is wholly south-east.
use crate::ordered_coordinate::{OrderedCoordinateI128, OrderedCoordinateI32};
use crate::ordered_segment::{OrderedSegmentI128, OrderedSegmentI32};
use std::cmp::Ordering;
use vstd::prelude::*;

verus! {

impl OrderedCoordinateI32 {
    /// Compares by `x`, then by `y`.
    pub fn partial_nw(&self, other: &Self) -> (o: Ordering)
        ensures
            o == Ordering::Less <==> self@.nw_before(other@),
            o == Ordering::Greater <==> other@.nw_before(self@),
            o == Ordering::Equal <==> self@ == other@,
    {
        let (ax, ay) = self.x_y();
        let (bx, by) = other.x_y();

        if ax == bx {
            if ay == by {
                Ordering::Equal
            } else if ay < by {
                Ordering::Less
            } else {
                Ordering::Greater
            }
        } else if ax < bx {
            Ordering::Less
        } else {
            Ordering::Greater
        }
    }

    /// Whether `self` comes before `other`. A coordinate is either completely
    /// to the north-west of another or not at all.
    pub fn is_nw(&self, other: &Self) -> (r: bool)
        ensures
            r == self@.nw_before(other@),
    {
        matches!(self.partial_nw(other), Ordering::Less)
    }

    /// Whether `self` comes after `other`.
    pub fn is_se(&self, other: &Self) -> (r: bool)
        ensures
            r == other@.nw_before(self@),
    {
        matches!(self.partial_nw(other), Ordering::Greater)
    }
}

impl OrderedCoordinateI128 {
    /// Compares by `x`, then by `y`.
    pub fn partial_nw(&self, other: &Self) -> (o: Ordering)
        ensures
            o == Ordering::Less <==> self@.nw_before(other@),
            o == Ordering::Greater <==> other@.nw_before(self@),
            o == Ordering::Equal <==> self@ == other@,
    {
        let (ax, ay) = self.x_y();
        let (bx, by) = other.x_y();

        if ax == bx {
            if ay == by {
                Ordering::Equal
            } else if ay < by {
                Ordering::Less
            } else {
                Ordering::Greater
            }
        } else if ax < bx {
            Ordering::Less
        } else {
            Ordering::Greater
        }
    }

    /// Whether `self` comes before `other`. A coordinate is either completely
    /// to the north-west of another or not at all.
    pub fn is_nw(&self, other: &Self) -> (r: bool)
        ensures
            r == self@.nw_before(other@),
    {
        matches!(self.partial_nw(other), Ordering::Less)
    }

    /// Whether `self` comes after `other`.
    pub fn is_se(&self, other: &Self) -> (r: bool)
        ensures
            r == other@.nw_before(self@),
    {
        matches!(self.partial_nw(other), Ordering::Greater)
    }
}

impl OrderedSegmentI32 {
    /// Compares the two start points.
    pub fn partial_nw(&self, other: &Self) -> (o: Ordering)
        ensures
            o == Ordering::Less <==> self@.start.nw_before(other@.start),
            o == Ordering::Greater <==> other@.start.nw_before(self@.start),
            o == Ordering::Equal <==> self@.start == other@.start,
    {
        self.start.partial_nw(&other.start)
    }

    /// Whether `self` is wholly north-west of `other`: its end point comes
    /// before the other's start point.
    pub fn is_nw(&self, other: &Self) -> (r: bool)
        ensures
            r == self@.is_nw(other@),
    {
        matches!(self.end.partial_nw(&other.start), Ordering::Less)
    }

    /// Whether `self` is wholly south-east of `other`: its start point comes
    /// after the other's end point.
    pub fn is_se(&self, other: &Self) -> (r: bool)
        ensures
            r == self@.is_se(other@),
    {
        matches!(self.start.partial_nw(&other.end), Ordering::Greater)
    }
}

impl OrderedSegmentI128 {
    /// Compares the two start points.
    pub fn partial_nw(&self, other: &Self) -> (o: Ordering)
        ensures
            o == Ordering::Less <==> self@.start.nw_before(other@.start),
            o == Ordering::Greater <==> other@.start.nw_before(self@.start),
            o == Ordering::Equal <==> self@.start == other@.start,
    {
        self.start.partial_nw(&other.start)
    }

    /// Whether `self` is wholly north-west of `other`: its end point comes
    /// before the other's start point.
    pub fn is_nw(&self, other: &Self) -> (r: bool)
        ensures
            r == self@.is_nw(other@),
    {
        matches!(self.end.partial_nw(&other.start), Ordering::Less)
    }

    /// Whether `self` is wholly south-east of `other`: its start point comes
    /// after the other's end point.
    pub fn is_se(&self, other: &Self) -> (r: bool)
        ensures
            r == self@.is_se(other@),
    {
        matches!(self.start.partial_nw(&other.end), Ordering::Greater)
    }
}

} // verus!
