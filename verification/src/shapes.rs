//! The range shapes of the standard library, and a pair of markers, as
//! intervals.

use crate::boundary::Boundary;
use crate::interval::Interval;
use crate::range_comp::RangeComp;
use core::ops::{Range, RangeFrom, RangeFull, RangeInclusive, RangeTo, RangeToInclusive};
use vstd::prelude::*;

verus! {

/// `core::ops::RangeTo`, a struct with the one public field `end`.
#[verifier::external_type_specification]
#[verifier::reject_recursive_types(Idx)]
pub struct ExRangeTo<Idx>(RangeTo<Idx>);

/// `core::ops::RangeFrom`, a struct with the one public field `start`.
#[verifier::external_type_specification]
#[verifier::reject_recursive_types(Idx)]
pub struct ExRangeFrom<Idx>(RangeFrom<Idx>);

/// `core::ops::RangeToInclusive`, a struct with the one public field `end`.
#[verifier::external_type_specification]
#[verifier::reject_recursive_types(Idx)]
pub struct ExRangeToInclusive<Idx>(RangeToInclusive<Idx>);

/// `core::ops::RangeFull`, a struct without fields.
#[verifier::external_type_specification]
pub struct ExRangeFull(RangeFull);

/// `RangeInclusive::start` hands out the lower bound that the range holds.
pub assume_specification<Idx>[ RangeInclusive::<Idx>::start ](r: &RangeInclusive<Idx>) -> (s: &Idx)
    ensures
        *s == r@.start,
;

/// `RangeInclusive::end` hands out the upper bound that the range holds.
pub assume_specification<Idx>[ RangeInclusive::<Idx>::end ](r: &RangeInclusive<Idx>) -> (e: &Idx)
    ensures
        *e == r@.end,
;

/// `a..b` is `[a, b)`.
impl<T: PartialOrd + Copy> RangeComp<T> for Range<T> {
    open spec fn interval(&self) -> Interval<T> {
        Interval { start: Boundary::EQ(self.start), end: Boundary::LT(self.end) }
    }

    fn start_boundary(&self) -> Boundary<T> {
        Boundary::EQ(self.start)
    }

    fn end_boundary(&self) -> Boundary<T> {
        Boundary::LT(self.end)
    }
}

/// `a..=b` is `[a, b]`.
impl<T: PartialOrd + Copy> RangeComp<T> for RangeInclusive<T> {
    open spec fn interval(&self) -> Interval<T> {
        Interval { start: Boundary::EQ(self@.start), end: Boundary::EQ(self@.end) }
    }

    fn start_boundary(&self) -> Boundary<T> {
        Boundary::EQ(*self.start())
    }

    fn end_boundary(&self) -> Boundary<T> {
        Boundary::EQ(*self.end())
    }
}

/// `..b` is `(-inf, b)`.
impl<T: PartialOrd + Copy> RangeComp<T> for RangeTo<T> {
    open spec fn interval(&self) -> Interval<T> {
        Interval { start: Boundary::NegativeInfinity, end: Boundary::LT(self.end) }
    }

    fn start_boundary(&self) -> Boundary<T> {
        Boundary::NegativeInfinity
    }

    fn end_boundary(&self) -> Boundary<T> {
        Boundary::LT(self.end)
    }
}

/// `a..` is `[a, +inf)`.
impl<T: PartialOrd + Copy> RangeComp<T> for RangeFrom<T> {
    open spec fn interval(&self) -> Interval<T> {
        Interval { start: Boundary::EQ(self.start), end: Boundary::Infinity }
    }

    fn start_boundary(&self) -> Boundary<T> {
        Boundary::EQ(self.start)
    }

    fn end_boundary(&self) -> Boundary<T> {
        Boundary::Infinity
    }
}

/// `..=b` is `(-inf, b]`.
impl<T: PartialOrd + Copy> RangeComp<T> for RangeToInclusive<T> {
    open spec fn interval(&self) -> Interval<T> {
        Interval { start: Boundary::NegativeInfinity, end: Boundary::EQ(self.end) }
    }

    fn start_boundary(&self) -> Boundary<T> {
        Boundary::NegativeInfinity
    }

    fn end_boundary(&self) -> Boundary<T> {
        Boundary::EQ(self.end)
    }
}

/// `..` is `(-inf, +inf)`.
impl<T: PartialOrd + Copy> RangeComp<T> for RangeFull {
    open spec fn interval(&self) -> Interval<T> {
        Interval { start: Boundary::NegativeInfinity, end: Boundary::Infinity }
    }

    fn start_boundary(&self) -> Boundary<T> {
        Boundary::NegativeInfinity
    }

    fn end_boundary(&self) -> Boundary<T> {
        Boundary::Infinity
    }
}

/// A pair of markers is the interval from the first to the second.
impl<T: PartialOrd + Copy> RangeComp<T> for (Boundary<T>, Boundary<T>) {
    open spec fn interval(&self) -> Interval<T> {
        Interval { start: self.0, end: self.1 }
    }

    fn start_boundary(&self) -> Boundary<T> {
        self.0
    }

    fn end_boundary(&self) -> Boundary<T> {
        self.1
    }
}

} // verus!
