//! The relations by name: the closed list of them, and the keywords that
//! select one.

use crate::interval::Interval;
use crate::keyword::{last_token, last_token_of, lowercase_of, spells};
use vstd::prelude::*;

verus! {

/// A relation that can be asked of two intervals: one of the thirteen of
/// Allen, or one of the two derived from them.
#[derive(Clone, Copy, Debug, PartialEq, Eq, Structural)]
pub enum Relation {
    Before,
    After,
    Meets,
    MetBy,
    Overlaps,
    OverlappedBy,
    Starts,
    StartedBy,
    During,
    Contains,
    Finishes,
    FinishedBy,
    Equals,
    Intersects,
    Disjoint,
}

/// The name that was given selects no relation.
#[derive(Clone, Copy, Debug, PartialEq, Eq, Structural)]
pub struct UnknownRelation;

impl Relation {
    /// Whether the relation holds from `l` to `r`.
    pub open spec fn holds<T: PartialOrd>(self, l: Interval<T>, r: Interval<T>) -> bool {
        match self {
            Relation::Before => l.before(r),
            Relation::After => l.after(r),
            Relation::Meets => l.meets(r),
            Relation::MetBy => l.metby(r),
            Relation::Overlaps => l.overlaps(r),
            Relation::OverlappedBy => l.overlappedby(r),
            Relation::Starts => l.starts(r),
            Relation::StartedBy => l.startedby(r),
            Relation::During => l.during(r),
            Relation::Contains => l.rcontains(r),
            Relation::Finishes => l.finishes(r),
            Relation::FinishedBy => l.finishedby(r),
            Relation::Equals => l.equals(r),
            Relation::Intersects => l.intersects(r),
            Relation::Disjoint => l.disjoint(r),
        }
    }

    /// The relation that a keyword selects. `anyinteracts` is a second
    /// keyword for `Intersects`, and `Meets` answers to two spellings,
    /// `meets` and `meeets`. No keyword selects `OverlappedBy`.
    pub open spec fn of_keyword(keyword: Seq<char>) -> Option<Relation> {
        if keyword == "intersects"@ {
            Some(Relation::Intersects)
        } else if keyword == "overlaps"@ {
            Some(Relation::Overlaps)
        } else if keyword == "anyinteracts"@ {
            Some(Relation::Intersects)
        } else if keyword == "disjoint"@ {
            Some(Relation::Disjoint)
        } else if keyword == "before"@ {
            Some(Relation::Before)
        } else if keyword == "after"@ {
            Some(Relation::After)
        } else if keyword == "meets"@ || keyword == "meeets"@ {
            Some(Relation::Meets)
        } else if keyword == "metby"@ {
            Some(Relation::MetBy)
        } else if keyword == "starts"@ {
            Some(Relation::Starts)
        } else if keyword == "startedby"@ {
            Some(Relation::StartedBy)
        } else if keyword == "during"@ {
            Some(Relation::During)
        } else if keyword == "contains"@ {
            Some(Relation::Contains)
        } else if keyword == "finishes"@ {
            Some(Relation::Finishes)
        } else if keyword == "finishedby"@ {
            Some(Relation::FinishedBy)
        } else if keyword == "equals"@ {
            Some(Relation::Equals)
        } else {
            None
        }
    }

    /// The relation that a name in lower case selects: the one of its last
    /// token, so that a prefix that ends in an underscore is ignored.
    pub open spec fn of_lowered(lowered: Seq<char>) -> Option<Relation> {
        Relation::of_keyword(last_token(lowered))
    }

    /// The relation that a name selects, whatever the case of its letters.
    pub open spec fn of_name(name: Seq<char>) -> Option<Relation> {
        Relation::of_lowered(lowercase_of(name))
    }

    /// Finds the relation that a name in lower case selects.
    pub fn from_lowered(lowered: &str) -> (r: Result<Relation, UnknownRelation>)
        ensures
            r == (match Relation::of_lowered(lowered@) {
                Some(relation) => Ok(relation),
                None => Err(UnknownRelation),
            }),
    {
        let token = last_token_of(lowered);
        if spells(&token, "intersects") {
            Ok(Relation::Intersects)
        } else if spells(&token, "overlaps") {
            Ok(Relation::Overlaps)
        } else if spells(&token, "anyinteracts") {
            Ok(Relation::Intersects)
        } else if spells(&token, "disjoint") {
            Ok(Relation::Disjoint)
        } else if spells(&token, "before") {
            Ok(Relation::Before)
        } else if spells(&token, "after") {
            Ok(Relation::After)
        } else if spells(&token, "meets") || spells(&token, "meeets") {
            Ok(Relation::Meets)
        } else if spells(&token, "metby") {
            Ok(Relation::MetBy)
        } else if spells(&token, "starts") {
            Ok(Relation::Starts)
        } else if spells(&token, "startedby") {
            Ok(Relation::StartedBy)
        } else if spells(&token, "during") {
            Ok(Relation::During)
        } else if spells(&token, "contains") {
            Ok(Relation::Contains)
        } else if spells(&token, "finishes") {
            Ok(Relation::Finishes)
        } else if spells(&token, "finishedby") {
            Ok(Relation::FinishedBy)
        } else if spells(&token, "equals") {
            Ok(Relation::Equals)
        } else {
            Err(UnknownRelation)
        }
    }

    /// Finds the relation that a name selects.
    pub fn from_name(name: &str) -> (r: Result<Relation, UnknownRelation>)
        ensures
            r == (match Relation::of_name(name@) {
                Some(relation) => Ok(relation),
                None => Err(UnknownRelation),
            }),
    {
        let lowered = name.to_lowercase();
        Relation::from_lowered(lowered.as_str())
    }
}

} // verus!
