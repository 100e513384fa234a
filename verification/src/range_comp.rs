//! The relation queries that every interval-shaped value answers.

use crate::boundary::{obeys_comparison, Boundary};
use crate::interval::Interval;
use crate::relation::{Relation, UnknownRelation};
use vstd::prelude::*;

verus! {

/// Comparing two ranges of one shape. A type tells where it starts and where
/// it ends; the relations follow from that.
///
/// Each query returns what the relation of that name says of the two
/// intervals, wherever `T` compares as it specifies.
pub trait RangeComp<T: PartialOrd + PartialEq> {
    /// The interval that `self` stands for. An implementation states it.
    /// The default is no interval in particular: an implementation that
    /// keeps it cannot be verified, and one that is compiled without being
    /// verified need not write it.
    open spec fn interval(&self) -> Interval<T> {
        arbitrary()
    }

    /// The marker of the lower edge.
    fn start_boundary(&self) -> (b: Boundary<T>)
        ensures
            b == self.interval().start,
    ;

    /// The marker of the upper edge.
    fn end_boundary(&self) -> (b: Boundary<T>)
        ensures
            b == self.interval().end,
    ;

    /// `self` starts no later than `other` ends and ends no later than
    /// `other` starts.
    fn intersects(&self, other: &Self) -> (r: bool)
        ensures
            obeys_comparison::<T>() ==> r == self.interval().intersects(other.interval()),
    {
        let ls = self.start_boundary();
        let le = self.end_boundary();
        let rs = other.start_boundary();
        let re = other.end_boundary();
        ls <= re && le <= rs
    }

    /// `self` starts before `other` ends and ends inside `other`: behind
    /// its start and before its end.
    fn overlaps(&self, other: &Self) -> (r: bool)
        ensures
            obeys_comparison::<T>() ==> r == self.interval().overlaps(other.interval()),
    {
        let ls = self.start_boundary();
        let le = self.end_boundary();
        let rs = other.start_boundary();
        let re = other.end_boundary();
        ls < re && rs < le && le < re
    }

    /// `self` ends before `other` starts.
    fn before(&self, other: &Self) -> (r: bool)
        ensures
            obeys_comparison::<T>() ==> r == self.interval().before(other.interval()),
    {
        let le = self.end_boundary();
        let rs = other.start_boundary();
        le < rs
    }

    /// `self` ends at the marker at which `other` starts.
    fn meets(&self, other: &Self) -> (r: bool)
        ensures
            obeys_comparison::<T>() ==> r == self.interval().meets(other.interval()),
    {
        let le = self.end_boundary();
        let rs = other.start_boundary();
        le == rs
    }

    /// `self` starts with `other` and ends before it.
    fn starts(&self, other: &Self) -> (r: bool)
        ensures
            obeys_comparison::<T>() ==> r == self.interval().starts(other.interval()),
    {
        let ls = self.start_boundary();
        let le = self.end_boundary();
        let rs = other.start_boundary();
        let re = other.end_boundary();
        ls == rs && le < re
    }

    /// `self` starts behind the start of `other` and ends before its end.
    fn during(&self, other: &Self) -> (r: bool)
        ensures
            obeys_comparison::<T>() ==> r == self.interval().during(other.interval()),
    {
        let ls = self.start_boundary();
        let le = self.end_boundary();
        let rs = other.start_boundary();
        let re = other.end_boundary();
        ls > rs && le < re
    }

    /// `self` starts behind the start of `other` and ends with it.
    fn finishes(&self, other: &Self) -> (r: bool)
        ensures
            obeys_comparison::<T>() ==> r == self.interval().finishes(other.interval()),
    {
        let ls = self.start_boundary();
        let le = self.end_boundary();
        let rs = other.start_boundary();
        let re = other.end_boundary();
        ls > rs && le == re
    }

    /// `self` starts with `other` and ends with it.
    fn equals(&self, other: &Self) -> (r: bool)
        ensures
            obeys_comparison::<T>() ==> r == self.interval().equals(other.interval()),
    {
        let ls = self.start_boundary();
        let le = self.end_boundary();
        let rs = other.start_boundary();
        let re = other.end_boundary();
        ls == rs && le == re
    }

    /// Whether the relation that `op` names holds from `self` to `other`.
    ///
    /// The name must select a relation. `query` takes any name.
    fn op(&self, other: &Self, op: &str) -> (r: bool)
        requires
            Relation::of_name(op@) is Some,
        ensures
            obeys_comparison::<T>() ==> r == Relation::of_name(op@).unwrap().holds(
                self.interval(),
                other.interval(),
            ),
    {
        match Relation::from_name(op) {
            Ok(relation) => self.relate(other, relation),
            Err(_) => unreached(),
        }
    }

    /// Whether `relation` holds from `self` to `other`.
    fn relate(&self, other: &Self, relation: Relation) -> (r: bool)
        ensures
            obeys_comparison::<T>() ==> r == relation.holds(self.interval(), other.interval()),
    {
        match relation {
            Relation::Before => self.before(other),
            Relation::After => self.after(other),
            Relation::Meets => self.meets(other),
            Relation::MetBy => self.metby(other),
            Relation::Overlaps => self.overlaps(other),
            Relation::OverlappedBy => self.overlappedby(other),
            Relation::Starts => self.starts(other),
            Relation::StartedBy => self.startedby(other),
            Relation::During => self.during(other),
            Relation::Contains => self.rcontains(other),
            Relation::Finishes => self.finishes(other),
            Relation::FinishedBy => self.finishedby(other),
            Relation::Equals => self.equals(other),
            Relation::Intersects => self.intersects(other),
            Relation::Disjoint => self.disjoint(other),
        }
    }

    /// `other` overlaps `self`.
    fn overlappedby(&self, other: &Self) -> (r: bool)
        ensures
            obeys_comparison::<T>() ==> r == self.interval().overlappedby(other.interval()),
    {
        other.overlaps(self)
    }

    /// `self` does not intersect `other`.
    fn disjoint(&self, other: &Self) -> (r: bool)
        ensures
            obeys_comparison::<T>() ==> r == self.interval().disjoint(other.interval()),
    {
        !self.intersects(other)
    }

    /// `other` is before `self`.
    fn after(&self, other: &Self) -> (r: bool)
        ensures
            obeys_comparison::<T>() ==> r == self.interval().after(other.interval()),
    {
        other.before(self)
    }

    /// `other` meets `self`.
    fn metby(&self, other: &Self) -> (r: bool)
        ensures
            obeys_comparison::<T>() ==> r == self.interval().metby(other.interval()),
    {
        other.meets(self)
    }

    /// `other` starts `self`.
    fn startedby(&self, other: &Self) -> (r: bool)
        ensures
            obeys_comparison::<T>() ==> r == self.interval().startedby(other.interval()),
    {
        other.starts(self)
    }

    /// `self` contains `other`: `other` is during `self`.
    fn rcontains(&self, other: &Self) -> (r: bool)
        ensures
            obeys_comparison::<T>() ==> r == self.interval().rcontains(other.interval()),
    {
        other.during(self)
    }

    /// `other` finishes `self`.
    fn finishedby(&self, other: &Self) -> (r: bool)
        ensures
            obeys_comparison::<T>() ==> r == self.interval().finishedby(other.interval()),
    {
        other.finishes(self)
    }
}

/// Whether the relation that `relation_name` names holds from `left` to
/// `right`. A name that selects no relation gives `UnknownRelation`.
pub fn query<T: PartialOrd + PartialEq, R: RangeComp<T>>(
    left: &R,
    right: &R,
    relation_name: &str,
) -> (r: Result<bool, UnknownRelation>)
    ensures
        r is Ok <==> Relation::of_name(relation_name@) is Some,
        r matches Ok(holds) ==> (obeys_comparison::<T>() ==> holds == Relation::of_name(
            relation_name@,
        ).unwrap().holds(left.interval(), right.interval())),
{
    match Relation::from_name(relation_name) {
        Ok(_) => Ok(left.op(right, relation_name)),
        Err(unknown) => Err(unknown),
    }
}

} // verus!
