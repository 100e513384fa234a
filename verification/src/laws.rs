//! What holds of the relations for every pair of intervals, and of the
//! keywords for every name.

use crate::boundary::{lemma_boundaries_totally_ordered, total_order};
use crate::interval::Interval;
use crate::keyword::{lemma_last_token_after_prefix, lowercase_of};
use crate::relation::Relation;
use vstd::prelude::*;
use vstd::std_specs::cmp::{PartialEqIs, PartialEqSpec, PartialOrdIs};

verus! {

/// 1 where `holds`, else 0.
pub open spec fn one_if(holds: bool) -> nat {
    if holds {
        1
    } else {
        0
    }
}

/// How many of the thirteen relations of Allen hold from `l` to `r`.
pub open spec fn relations_holding<T: PartialOrd>(l: Interval<T>, r: Interval<T>) -> nat {
    one_if(l.before(r)) + one_if(l.after(r)) + one_if(l.meets(r)) + one_if(l.metby(r)) + one_if(
        l.starts(r),
    ) + one_if(l.startedby(r)) + one_if(l.during(r)) + one_if(l.rcontains(r)) + one_if(
        l.finishes(r),
    ) + one_if(l.finishedby(r)) + one_if(l.overlaps(r)) + one_if(l.overlappedby(r)) + one_if(
        l.equals(r),
    )
}

/// The pairs of which more than one of the thirteen relations holds.
///
/// `overlaps` does not ask that `l` start first: it holds wherever `during`
/// does, and wherever `starts` does unless `l` is a single marker, which
/// then meets `r`. The same goes for `overlappedby` with `rcontains` and
/// `startedby`. And where one interval is a single marker that is the end of
/// the other, the two meet and one also finishes the other or equals it.
pub open spec fn ambiguous<T: PartialOrd>(l: Interval<T>, r: Interval<T>) -> bool {
    ||| l.starts(r)
    ||| l.startedby(r)
    ||| l.during(r)
    ||| l.rcontains(r)
    ||| l.end.is_eq(&r.start) && r.start.is_eq(&r.end)
    ||| r.end.is_eq(&l.start) && l.start.is_eq(&l.end)
}

/// Between two well-formed intervals over a totally ordered domain exactly
/// one of the thirteen relations holds, unless the pair is ambiguous.
pub proof fn lemma_partition<T: PartialOrd>(l: Interval<T>, r: Interval<T>)
    requires
        total_order::<T>(),
        l.well_formed(),
        r.well_formed(),
        !ambiguous(l, r),
    ensures
        relations_holding(l, r) == 1,
{
    lemma_boundaries_totally_ordered::<T>();
}

/// Between two well-formed intervals over a totally ordered domain more than
/// one of the thirteen relations holds where the pair is ambiguous.
pub proof fn lemma_ambiguous_pairs_relate_twice<T: PartialOrd>(l: Interval<T>, r: Interval<T>)
    requires
        total_order::<T>(),
        l.well_formed(),
        r.well_formed(),
        ambiguous(l, r),
    ensures
        relations_holding(l, r) >= 2,
{
    lemma_boundaries_totally_ordered::<T>();
}

/// Between any two intervals over a totally ordered domain at least one of
/// the thirteen relations holds.
pub proof fn lemma_some_relation_holds<T: PartialOrd>(l: Interval<T>, r: Interval<T>)
    requires
        total_order::<T>(),
    ensures
        relations_holding(l, r) >= 1,
{
    lemma_boundaries_totally_ordered::<T>();
}

/// Each relation is its reciprocal with the intervals exchanged.
pub proof fn lemma_reciprocal<T: PartialOrd>(l: Interval<T>, r: Interval<T>)
    ensures
        l.starts(r) == r.startedby(l),
        l.meets(r) == r.metby(l),
        l.finishes(r) == r.finishedby(l),
        l.after(r) == r.before(l),
        l.rcontains(r) == r.during(l),
        l.overlaps(r) == r.overlappedby(l),
{
}

/// Two intervals are disjoint exactly where they do not intersect.
pub proof fn lemma_disjoint_is_not_intersects<T: PartialOrd>(l: Interval<T>, r: Interval<T>)
    ensures
        l.disjoint(r) == !l.intersects(r),
{
}

/// Where every value of the domain equals itself, every interval equals
/// itself.
pub proof fn lemma_equals_reflexive<T: PartialOrd>(l: Interval<T>)
    requires
        forall|v: T| #[trigger] v.eq_spec(&v),
    ensures
        l.equals(l),
{
}

/// What `intersects` and `overlaps` amount to between two well-formed
/// intervals over a totally ordered domain: `l` intersects `r` where it ends
/// no later than `r` starts, and overlaps `r` where it ends inside `r`.
pub proof fn lemma_intersects_and_overlaps<T: PartialOrd>(l: Interval<T>, r: Interval<T>)
    requires
        total_order::<T>(),
        l.well_formed(),
        r.well_formed(),
    ensures
        l.intersects(r) <==> l.before(r) || l.meets(r),
        l.overlaps(r) <==> r.start.is_lt(&l.end) && l.end.is_lt(&r.end),
{
    lemma_boundaries_totally_ordered::<T>();
}

/// A prefix that ends in an underscore does not change which relation a name
/// in lower case selects.
pub proof fn lemma_prefix_ignored(prefix: Seq<char>, keyword: Seq<char>)
    requires
        !keyword.contains('_'),
    ensures
        Relation::of_lowered(prefix + seq!['_'] + keyword) == Relation::of_keyword(keyword),
        Relation::of_lowered(keyword) == Relation::of_keyword(keyword),
{
    lemma_last_token_after_prefix(prefix, keyword);
}

/// No keyword holds an underscore, so each selects its relation behind any
/// prefix that ends in one.
pub proof fn lemma_keyword_behind_prefix(prefix: Seq<char>, keyword: Seq<char>)
    requires
        Relation::of_keyword(keyword) is Some,
    ensures
        !keyword.contains('_'),
        Relation::of_lowered(prefix + seq!['_'] + keyword) == Relation::of_keyword(keyword),
        Relation::of_lowered(keyword) == Relation::of_keyword(keyword),
{
    reveal_strlit("intersects");
    reveal_strlit("overlaps");
    reveal_strlit("anyinteracts");
    reveal_strlit("disjoint");
    reveal_strlit("before");
    reveal_strlit("after");
    reveal_strlit("meets");
    reveal_strlit("meeets");
    reveal_strlit("metby");
    reveal_strlit("starts");
    reveal_strlit("startedby");
    reveal_strlit("during");
    reveal_strlit("contains");
    reveal_strlit("finishes");
    reveal_strlit("finishedby");
    reveal_strlit("equals");
    lemma_prefix_ignored(prefix, keyword);
}

/// Names with one lower-case form select the same relation.
pub proof fn lemma_case_ignored(a: Seq<char>, b: Seq<char>)
    requires
        lowercase_of(a) == lowercase_of(b),
    ensures
        Relation::of_name(a) == Relation::of_name(b),
{
}

} // verus!
