use range_comp::keyword::{last_token_of, spells};
use range_comp::{query, Boundary, RangeComp, Relation, UnknownRelation};

fn chars(text: &str) -> Vec<char> {
    text.chars().collect()
}

fn bounds(r: std::ops::RangeInclusive<i32>) -> (Boundary<i32>, Boundary<i32>) {
    (r.start_boundary(), r.end_boundary())
}

#[test]
fn every_keyword_selects_its_relation() {
    assert_eq!(Relation::from_name("intersects"), Ok(Relation::Intersects));
    assert_eq!(Relation::from_name("overlaps"), Ok(Relation::Overlaps));
    assert_eq!(Relation::from_name("anyinteracts"), Ok(Relation::Intersects));
    assert_eq!(Relation::from_name("disjoint"), Ok(Relation::Disjoint));
    assert_eq!(Relation::from_name("before"), Ok(Relation::Before));
    assert_eq!(Relation::from_name("after"), Ok(Relation::After));
    assert_eq!(Relation::from_name("meets"), Ok(Relation::Meets));
    assert_eq!(Relation::from_name("metby"), Ok(Relation::MetBy));
    assert_eq!(Relation::from_name("starts"), Ok(Relation::Starts));
    assert_eq!(Relation::from_name("startedby"), Ok(Relation::StartedBy));
    assert_eq!(Relation::from_name("during"), Ok(Relation::During));
    assert_eq!(Relation::from_name("contains"), Ok(Relation::Contains));
    assert_eq!(Relation::from_name("finishes"), Ok(Relation::Finishes));
    assert_eq!(Relation::from_name("finishedby"), Ok(Relation::FinishedBy));
    assert_eq!(Relation::from_name("equals"), Ok(Relation::Equals));
}

#[test]
fn both_spellings_select_meets() {
    assert_eq!(Relation::from_name("meets"), Ok(Relation::Meets));
    assert_eq!(Relation::from_name("meeets"), Ok(Relation::Meets));
    assert_eq!(Relation::from_lowered("t_meeets"), Ok(Relation::Meets));
    assert_eq!(Relation::from_name("meeeets"), Err(UnknownRelation));
}

#[test]
fn upper_case_is_lowered_before_the_lookup() {
    assert_eq!(Relation::from_name("INTERSECTS"), Ok(Relation::Intersects));
    assert_eq!(Relation::from_name("Intersects"), Ok(Relation::Intersects));
    assert_eq!(Relation::from_name("StartedBy"), Ok(Relation::StartedBy));
    assert_eq!(Relation::from_name("T_FINISHEDBY"), Ok(Relation::FinishedBy));
}

#[test]
fn a_lowered_name_is_looked_up_as_it_is() {
    assert_eq!(Relation::from_lowered("intersects"), Ok(Relation::Intersects));
    assert_eq!(Relation::from_lowered("Intersects"), Err(UnknownRelation));
    assert_eq!(Relation::from_lowered("INTERSECTS"), Err(UnknownRelation));
}

#[test]
fn a_prefix_up_to_the_last_underscore_is_ignored() {
    assert_eq!(Relation::from_name("range_intersects"), Ok(Relation::Intersects));
    assert_eq!(Relation::from_name("t_before"), Ok(Relation::Before));
    assert_eq!(Relation::from_name("a_b_c_during"), Ok(Relation::During));
    assert_eq!(Relation::from_name("_equals"), Ok(Relation::Equals));
    assert_eq!(Relation::from_name("before_after"), Ok(Relation::After));
    assert_eq!(Relation::from_name("bogus_contains"), Ok(Relation::Contains));
}

#[test]
fn names_without_a_keyword_at_the_end_are_unknown() {
    assert_eq!(Relation::from_name("bogus"), Err(UnknownRelation));
    assert_eq!(Relation::from_name(""), Err(UnknownRelation));
    assert_eq!(Relation::from_name("_"), Err(UnknownRelation));
    assert_eq!(Relation::from_name("intersects_"), Err(UnknownRelation));
    assert_eq!(Relation::from_name("intersects_bogus"), Err(UnknownRelation));
    assert_eq!(Relation::from_name("rangeintersects"), Err(UnknownRelation));
    assert_eq!(Relation::from_name("intersect"), Err(UnknownRelation));
    assert_eq!(Relation::from_name("intersects "), Err(UnknownRelation));
    assert_eq!(Relation::from_name("rcontains"), Err(UnknownRelation));
}

#[test]
fn no_keyword_selects_overlapped_by() {
    assert_eq!(Relation::from_name("overlappedby"), Err(UnknownRelation));
    let l = 5..15;
    let r = 1..10;
    assert_eq!(query(&l, &r, "overlappedby"), Err(UnknownRelation));
    assert!(l.relate(&r, Relation::OverlappedBy));
}

#[test]
fn last_token_follows_the_last_underscore() {
    assert_eq!(last_token_of("range_intersects"), chars("intersects"));
    assert_eq!(last_token_of("intersects"), chars("intersects"));
    assert_eq!(last_token_of("a_b_c"), chars("c"));
    assert_eq!(last_token_of("a__b"), chars("b"));
    assert_eq!(last_token_of("trailing_"), chars(""));
    assert_eq!(last_token_of("_"), chars(""));
    assert_eq!(last_token_of(""), chars(""));
    assert_eq!(last_token_of("_leading"), chars("leading"));
    assert_eq!(last_token_of("dash-is_no-separator"), chars("no-separator"));
}

#[test]
fn last_token_counts_characters_not_bytes() {
    assert_eq!(last_token_of("pr\u{e9}fixe_\u{e9}t\u{e9}"), chars("\u{e9}t\u{e9}"));
    assert_eq!(last_token_of("\u{4e2d}\u{6587}"), chars("\u{4e2d}\u{6587}"));
}

#[test]
fn spells_compares_whole_tokens() {
    assert!(spells(&chars("before"), "before"));
    assert!(spells(&chars(""), ""));
    assert!(!spells(&chars("before"), "befor"));
    assert!(!spells(&chars("befor"), "before"));
    assert!(!spells(&chars("before"), "beforE"));
    assert!(!spells(&chars("aefore"), "before"));
    assert!(!spells(&chars(""), "before"));
    assert!(spells(&chars("\u{e9}t\u{e9}"), "\u{e9}t\u{e9}"));
}

#[test]
fn a_name_that_lowers_to_other_letters_is_unknown() {
    // A capital I with a dot lowers to an i and a combining dot.
    assert_eq!(Relation::from_name("\u{130}ntersects"), Err(UnknownRelation));
}

#[test]
fn query_answers_each_keyword_as_the_named_method_does() {
    let l = 1..10;
    let r = 5..15;
    assert_eq!(query(&l, &r, "intersects"), Ok(l.intersects(&r)));
    assert_eq!(query(&l, &r, "overlaps"), Ok(l.overlaps(&r)));
    assert_eq!(query(&l, &r, "anyinteracts"), Ok(l.intersects(&r)));
    assert_eq!(query(&l, &r, "disjoint"), Ok(l.disjoint(&r)));
    assert_eq!(query(&l, &r, "before"), Ok(l.before(&r)));
    assert_eq!(query(&l, &r, "after"), Ok(l.after(&r)));
    assert_eq!(query(&l, &r, "meets"), Ok(l.meets(&r)));
    assert_eq!(query(&l, &r, "metby"), Ok(l.metby(&r)));
    assert_eq!(query(&l, &r, "starts"), Ok(l.starts(&r)));
    assert_eq!(query(&l, &r, "startedby"), Ok(l.startedby(&r)));
    assert_eq!(query(&l, &r, "during"), Ok(l.during(&r)));
    assert_eq!(query(&l, &r, "contains"), Ok(l.rcontains(&r)));
    assert_eq!(query(&l, &r, "finishes"), Ok(l.finishes(&r)));
    assert_eq!(query(&l, &r, "finishedby"), Ok(l.finishedby(&r)));
    assert_eq!(query(&l, &r, "equals"), Ok(l.equals(&r)));
}

#[test]
fn query_gives_the_exact_answers() {
    let l = 1..10;
    let r = 5..15;
    assert_eq!(query(&l, &r, "overlaps"), Ok(true));
    assert_eq!(query(&r, &l, "overlaps"), Ok(false));
    assert_eq!(query(&l, &r, "disjoint"), Ok(true));
    assert_eq!(query(&l, &r, "intersects"), Ok(false));
    assert_eq!(query(&(3..5), &(1..10), "during"), Ok(true));
    assert_eq!(query(&(1..10), &(3..5), "contains"), Ok(true));
    assert_eq!(query(&(1..10), &(3..5), "during"), Ok(false));
    assert_eq!(query(&(1..=5), &(5..=9), "meets"), Ok(true));
    assert_eq!(query(&(5..=9), &(1..=5), "metby"), Ok(true));
    assert_eq!(query(&(1..3), &(7..9), "before"), Ok(true));
    assert_eq!(query(&(7..9), &(1..3), "after"), Ok(true));
    assert_eq!(query(&(4..9), &(1..9), "finishes"), Ok(true));
    assert_eq!(query(&(1..9), &(4..9), "finishedby"), Ok(true));
    assert_eq!(query(&(1..3), &(1..9), "starts"), Ok(true));
    assert_eq!(query(&(1..9), &(1..3), "startedby"), Ok(true));
    assert_eq!(query(&(1..9), &(1..9), "equals"), Ok(true));
    assert_eq!(query(&(1..9), &(1..8), "equals"), Ok(false));
}

#[test]
fn op_answers_a_known_keyword() {
    let l = 1..10;
    let r = 5..15;
    assert!(l.op(&r, "overlaps"));
    assert!(l.op(&r, "T_OVERLAPS"));
    assert!(!l.op(&r, "before"));
    assert!(r.op(&l, "OverlappedBy_After") == r.after(&l));
    assert!((1.5..2.5).op(&(1.5..9.0), "starts"));
}

#[test]
fn relate_answers_each_relation_as_the_named_method_does() {
    let pairs = [
        (bounds(1..=4), bounds(2..=6)),
        (bounds(3..=5), bounds(1..=9)),
        (bounds(1..=5), bounds(5..=9)),
        (bounds(1..=9), bounds(1..=9)),
        (bounds(7..=9), bounds(1..=3)),
    ];
    for (a, b) in pairs.iter() {
        assert_eq!(a.relate(b, Relation::Intersects), a.intersects(b));
        assert_eq!(a.relate(b, Relation::Overlaps), a.overlaps(b));
        assert_eq!(a.relate(b, Relation::Disjoint), a.disjoint(b));
        assert_eq!(a.relate(b, Relation::Before), a.before(b));
        assert_eq!(a.relate(b, Relation::After), a.after(b));
        assert_eq!(a.relate(b, Relation::Meets), a.meets(b));
        assert_eq!(a.relate(b, Relation::MetBy), a.metby(b));
        assert_eq!(a.relate(b, Relation::Starts), a.starts(b));
        assert_eq!(a.relate(b, Relation::StartedBy), a.startedby(b));
        assert_eq!(a.relate(b, Relation::During), a.during(b));
        assert_eq!(a.relate(b, Relation::Contains), a.rcontains(b));
        assert_eq!(a.relate(b, Relation::Finishes), a.finishes(b));
        assert_eq!(a.relate(b, Relation::FinishedBy), a.finishedby(b));
        assert_eq!(a.relate(b, Relation::Equals), a.equals(b));
        assert_eq!(a.relate(b, Relation::OverlappedBy), a.overlappedby(b));
    }
}

#[test]
fn relate_gives_the_exact_answers() {
    let l = 1..10;
    let r = 5..15;
    assert!(l.relate(&r, Relation::Overlaps));
    assert!(r.relate(&l, Relation::OverlappedBy));
    assert!(!l.relate(&r, Relation::OverlappedBy));
    assert!(l.relate(&r, Relation::Disjoint));
    assert!(!l.relate(&r, Relation::Intersects));
    assert!((1..3).relate(&(7..9), Relation::Before));
    assert!((7..9).relate(&(1..3), Relation::After));
    assert!((1..=5).relate(&(5..=9), Relation::Meets));
    assert!((5..=9).relate(&(1..=5), Relation::MetBy));
    assert!((1..3).relate(&(1..9), Relation::Starts));
    assert!((1..9).relate(&(1..3), Relation::StartedBy));
    assert!((3..5).relate(&(1..9), Relation::During));
    assert!((1..9).relate(&(3..5), Relation::Contains));
    assert!((4..9).relate(&(1..9), Relation::Finishes));
    assert!((1..9).relate(&(4..9), Relation::FinishedBy));
    assert!((1..9).relate(&(1..9), Relation::Equals));
    assert!(!(1..9).relate(&(1..9), Relation::Before));
}
