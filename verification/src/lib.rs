//! Allen's interval relations between ranges of an ordered domain.
//!
//! A range tells where it starts and where it ends, as two [`Boundary`]
//! markers. From the four markers of two ranges the [`RangeComp`] trait
//! answers the thirteen relations (before, after, meets, met-by, overlaps,
//! overlapped-by, starts, started-by, during, contains, finishes,
//! finished-by, equals) and the two derived ones (intersects, disjoint).
//! A relation can be chosen by value, as a [`Relation`], or by name.

pub mod boundary;
pub mod interval;
pub mod keyword;
pub mod laws;
pub mod range_comp;
pub mod relation;
pub mod shapes;

pub use boundary::Boundary;
pub use interval::Interval;
pub use range_comp::{query, RangeComp};
pub use relation::{Relation, UnknownRelation};
