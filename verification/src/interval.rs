//! An interval as its two edges, and the relations between two intervals.
//!
//! Every relation is a comparison of the four markers of the two intervals
//! and of nothing else. Each of the six relations with a reciprocal is
//! defined once; its reciprocal is the same relation with the intervals
//! exchanged.

use crate::boundary::Boundary;
use vstd::prelude::*;
use vstd::std_specs::cmp::{PartialEqIs, PartialOrdIs};

verus! {

/// An interval over `T`, given by the markers of its two edges. This is what
/// every interval-shaped value stands for, and what the contracts speak of.
pub struct Interval<T> {
    pub start: Boundary<T>,
    pub end: Boundary<T>,
}

impl<T: PartialOrd> Interval<T> {
    /// The start does not rank above the end. The relations are defined for
    /// every pair of markers, well-formed or not.
    pub open spec fn well_formed(self) -> bool {
        self.start.is_le(&self.end)
    }

    /// `start <= other.end` and `end <= other.start`.
    pub open spec fn intersects(self, other: Self) -> bool {
        self.start.is_le(&other.end) && self.end.is_le(&other.start)
    }

    /// `start < other.end`, `other.start < end` and `end < other.end`.
    pub open spec fn overlaps(self, other: Self) -> bool {
        self.start.is_lt(&other.end) && other.start.is_lt(&self.end) && self.end.is_lt(&other.end)
    }

    /// `end < other.start`.
    pub open spec fn before(self, other: Self) -> bool {
        self.end.is_lt(&other.start)
    }

    /// `end == other.start`.
    pub open spec fn meets(self, other: Self) -> bool {
        self.end.is_eq(&other.start)
    }

    /// `start == other.start` and `end < other.end`.
    pub open spec fn starts(self, other: Self) -> bool {
        self.start.is_eq(&other.start) && self.end.is_lt(&other.end)
    }

    /// `start > other.start` and `end < other.end`.
    pub open spec fn during(self, other: Self) -> bool {
        self.start.is_gt(&other.start) && self.end.is_lt(&other.end)
    }

    /// `start > other.start` and `end == other.end`.
    pub open spec fn finishes(self, other: Self) -> bool {
        self.start.is_gt(&other.start) && self.end.is_eq(&other.end)
    }

    /// `start == other.start` and `end == other.end`.
    pub open spec fn equals(self, other: Self) -> bool {
        self.start.is_eq(&other.start) && self.end.is_eq(&other.end)
    }

    /// Not `intersects`.
    pub open spec fn disjoint(self, other: Self) -> bool {
        !self.intersects(other)
    }

    /// `other` is before `self`.
    pub open spec fn after(self, other: Self) -> bool {
        other.before(self)
    }

    /// `other` overlaps `self`.
    pub open spec fn overlappedby(self, other: Self) -> bool {
        other.overlaps(self)
    }

    /// `other` meets `self`.
    pub open spec fn metby(self, other: Self) -> bool {
        other.meets(self)
    }

    /// `other` starts `self`.
    pub open spec fn startedby(self, other: Self) -> bool {
        other.starts(self)
    }

    /// `other` is during `self`: `self` contains `other`.
    pub open spec fn rcontains(self, other: Self) -> bool {
        other.during(self)
    }

    /// `other` finishes `self`.
    pub open spec fn finishedby(self, other: Self) -> bool {
        other.finishes(self)
    }
}

} // verus!
