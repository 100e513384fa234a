use jiff::Timestamp;
use range_comp::RangeComp;

#[test]
fn test_int_recipricols() {
    let ref l = 1..10;
    let ref r = 5..15;
    assert_eq!(l.starts(r), r.startedby(l));
    assert_eq!(l.meets(r), r.metby(l));
    assert_eq!(l.finishes(r), r.finishes(l));
    assert_eq!(l.after(r), r.before(l));
    assert_eq!(l.rcontains(r), r.during(l));
    assert_eq!(l.overlaps(r), r.overlappedby(l));
}

#[test]
fn test_float_recipricols() {
    let ref l = 1.0..10.0;
    let ref r = 5.0..15.0;
    assert_eq!(l.starts(r), r.startedby(l));
    assert_eq!(l.meets(r), r.metby(l));
    assert_eq!(l.finishes(r), r.finishes(l));
    assert_eq!(l.after(r), r.before(l));
    assert_eq!(l.rcontains(r), r.during(l));
    assert_eq!(l.overlaps(r), r.overlappedby(l));
}

#[test]
fn int_startedby() {
    let ref left = 1..4;
    let ref right = 1..3;
    assert!(left.startedby(right));
}

#[test]
fn float_startedby() {
    let ref left = 1.0..4.7;
    let ref right = 1.0..3.8;
    assert!(left.startedby(right));
}

#[test]
fn jiff_startedby() {
    let s: Timestamp = "2020-01-01 00:00:00Z".parse().unwrap();
    let e1: Timestamp = "2020-03-01 00:00:00Z".parse().unwrap();
    let e2: Timestamp = "2020-02-01 00:00:00Z".parse().unwrap();
    let ref left = s..e1;
    let ref right = s..e2;
    assert!(left.startedby(right));
}
