//! The markers that say where an edge of an interval falls, and their order.
//!
//! Two finite markers compare first by the values they sit at and then, at
//! one value, by their kind: `LT(v) < EQ(v) < GT(v)`. `NegativeInfinity`
//! ranks below every other marker and `Infinity` above.

use core::cmp::Ordering;
use vstd::prelude::*;
use vstd::std_specs::cmp::{
    PartialEqIs, PartialEqSpec, PartialEqSpecImpl, PartialOrdIs, PartialOrdSpec,
    PartialOrdSpecImpl,
};

verus! {

/// Where one edge of an interval over `T` falls.
#[derive(Debug)]
pub enum Boundary<T> {
    /// Below every value of `T`: the interval has no lower end.
    NegativeInfinity,
    /// Just below `v`: the interval reaches up to `v` and leaves it out.
    LT(T),
    /// At `v` itself: `v` belongs to the interval.
    EQ(T),
    /// Just above `v`: the interval begins behind `v` and leaves it out.
    GT(T),
    /// Above every value of `T`: the interval has no upper end.
    Infinity,
}

impl<T> Boundary<T> {
    /// Whether the marker sits at a value of `T`.
    pub open spec fn is_finite(self) -> bool {
        self is LT || self is EQ || self is GT
    }

    /// The value that a finite marker sits at.
    pub open spec fn value(self) -> T
        recommends
            self.is_finite(),
    {
        match self {
            Boundary::LT(v) => v,
            Boundary::EQ(v) => v,
            Boundary::GT(v) => v,
            _ => arbitrary(),
        }
    }

    /// The place of a marker among the markers at one value, with the two
    /// infinities beyond them.
    pub open spec fn rank(self) -> int {
        match self {
            Boundary::NegativeInfinity => -2,
            Boundary::LT(_) => -1,
            Boundary::EQ(_) => 0,
            Boundary::GT(_) => 1,
            Boundary::Infinity => 2,
        }
    }
}

impl<T: Copy> Clone for Boundary<T> {
    fn clone(&self) -> (r: Self)
        ensures
            r == *self,
    {
        *self
    }
}

impl<T: Copy> Copy for Boundary<T> {

}

/// Two markers are equal when they are of the same kind and, where they are
/// finite, sit at equal values.
impl<T: PartialEq> PartialEqSpecImpl for Boundary<T> {
    open spec fn obeys_eq_spec() -> bool {
        T::obeys_eq_spec()
    }

    open spec fn eq_spec(&self, other: &Boundary<T>) -> bool {
        &&& self.rank() == other.rank()
        &&& self.is_finite() ==> self.value().eq_spec(&other.value())
    }
}

impl<T: PartialEq> PartialEq for Boundary<T> {
    fn eq(&self, other: &Boundary<T>) -> (r: bool) {
        match (self, other) {
            (Boundary::NegativeInfinity, Boundary::NegativeInfinity) => true,
            (Boundary::LT(a), Boundary::LT(b)) => *a == *b,
            (Boundary::EQ(a), Boundary::EQ(b)) => *a == *b,
            (Boundary::GT(a), Boundary::GT(b)) => *a == *b,
            (Boundary::Infinity, Boundary::Infinity) => true,
            _ => false,
        }
    }
}

/// How two integers compare.
pub open spec fn order_of(a: int, b: int) -> Ordering {
    if a < b {
        Ordering::Less
    } else if a == b {
        Ordering::Equal
    } else {
        Ordering::Greater
    }
}

/// Two finite markers compare as their values do and, at equal values, as
/// their ranks do. With an infinity on either side the ranks alone decide.
/// Finite markers at values that do not compare do not compare either.
impl<T: PartialOrd> PartialOrdSpecImpl for Boundary<T> {
    open spec fn obeys_partial_cmp_spec() -> bool {
        T::obeys_partial_cmp_spec()
    }

    open spec fn partial_cmp_spec(&self, other: &Boundary<T>) -> Option<Ordering> {
        if self.is_finite() && other.is_finite() {
            match self.value().partial_cmp_spec(&other.value()) {
                Some(Ordering::Equal) => Some(order_of(self.rank(), other.rank())),
                by_value => by_value,
            }
        } else {
            Some(order_of(self.rank(), other.rank()))
        }
    }
}

impl<T: PartialOrd> PartialOrd for Boundary<T> {
    fn partial_cmp(&self, other: &Boundary<T>) -> (r: Option<Ordering>) {
        match (self, other) {
            (Boundary::NegativeInfinity, Boundary::NegativeInfinity) => Some(Ordering::Equal),
            (Boundary::NegativeInfinity, _) => Some(Ordering::Less),
            (_, Boundary::NegativeInfinity) => Some(Ordering::Greater),
            (Boundary::Infinity, Boundary::Infinity) => Some(Ordering::Equal),
            (Boundary::Infinity, _) => Some(Ordering::Greater),
            (_, Boundary::Infinity) => Some(Ordering::Less),
            (Boundary::LT(a), Boundary::LT(b)) => a.partial_cmp(b),
            (Boundary::EQ(a), Boundary::EQ(b)) => a.partial_cmp(b),
            (Boundary::GT(a), Boundary::GT(b)) => a.partial_cmp(b),
            (Boundary::LT(a), Boundary::EQ(b)) => below_if_equal(a.partial_cmp(b)),
            (Boundary::LT(a), Boundary::GT(b)) => below_if_equal(a.partial_cmp(b)),
            (Boundary::EQ(a), Boundary::GT(b)) => below_if_equal(a.partial_cmp(b)),
            (Boundary::EQ(a), Boundary::LT(b)) => above_if_equal(a.partial_cmp(b)),
            (Boundary::GT(a), Boundary::LT(b)) => above_if_equal(a.partial_cmp(b)),
            (Boundary::GT(a), Boundary::EQ(b)) => above_if_equal(a.partial_cmp(b)),
        }
    }
}

/// The order of two markers whose values compare as `by_value` says, the
/// first being of the lower kind.
fn below_if_equal(by_value: Option<Ordering>) -> (r: Option<Ordering>)
    ensures
        r == (match by_value {
            Some(Ordering::Equal) => Some(Ordering::Less),
            decided => decided,
        }),
{
    match by_value {
        Some(Ordering::Equal) => Some(Ordering::Less),
        decided => decided,
    }
}

/// The order of two markers whose values compare as `by_value` says, the
/// first being of the higher kind.
fn above_if_equal(by_value: Option<Ordering>) -> (r: Option<Ordering>)
    ensures
        r == (match by_value {
            Some(Ordering::Equal) => Some(Ordering::Greater),
            decided => decided,
        }),
{
    match by_value {
        Some(Ordering::Equal) => Some(Ordering::Greater),
        decided => decided,
    }
}

/// Whether the comparison operators of `T` compute what `T` specifies for
/// them. Where they do not, as for floating-point numbers, nothing is known
/// of what a comparison returns.
pub open spec fn obeys_comparison<T: PartialOrd>() -> bool {
    T::obeys_eq_spec() && T::obeys_partial_cmp_spec()
}

/// Whether what `T` specifies for its comparisons is a total order, with
/// `==` as the equality of that order.
pub open spec fn total_order<T: PartialOrd>() -> bool {
    &&& forall|a: T, b: T| #[trigger] a.partial_cmp_spec(&b) is Some
    &&& forall|a: T, b: T| #[trigger]
        a.eq_spec(&b) <==> a.partial_cmp_spec(&b) == Some(Ordering::Equal)
    &&& forall|a: T| #[trigger] a.partial_cmp_spec(&a) == Some(Ordering::Equal)
    &&& forall|a: T, b: T| #[trigger]
        a.partial_cmp_spec(&b) == Some(Ordering::Less) <==> b.partial_cmp_spec(&a) == Some(
            Ordering::Greater,
        )
    &&& forall|a: T, b: T, c: T|
        #![trigger a.partial_cmp_spec(&b), b.partial_cmp_spec(&c)]
        a.is_le(&b) && b.is_le(&c) ==> a.is_le(&c)
}

/// Over a totally ordered `T` the markers are totally ordered too.
pub proof fn lemma_boundaries_totally_ordered<T: PartialOrd>()
    requires
        total_order::<T>(),
    ensures
        total_order::<Boundary<T>>(),
{
}

/// How the markers rank over a totally ordered `T`: the infinities lie
/// beyond every finite marker, the three markers at one value lie in the
/// order `LT`, `EQ`, `GT` between the markers at lower and at higher
/// values, and only markers of the same kind are equal.
pub proof fn lemma_boundary_ranking<T: PartialOrd>(low: T, high: T)
    requires
        total_order::<T>(),
        low.is_lt(&high),
    ensures
        Boundary::<T>::NegativeInfinity.is_lt(&Boundary::LT(low)),
        Boundary::GT(high).is_lt(&Boundary::Infinity),
        Boundary::LT(low).is_lt(&Boundary::EQ(low)),
        Boundary::EQ(low).is_lt(&Boundary::GT(low)),
        Boundary::GT(low).is_lt(&Boundary::LT(high)),
        Boundary::EQ(low).is_eq(&Boundary::EQ(low)),
        !Boundary::EQ(low).is_eq(&Boundary::LT(low)),
        !Boundary::EQ(low).is_eq(&Boundary::GT(low)),
{
}

} // verus!
