use std::cmp::Ordering;
use string_wrapped::StringWrapped;

#[test]
fn test_compare() {
    let _ = StringWrapped(23) == StringWrapped(23);
}

#[test]
fn test_ord() {
    let _ = StringWrapped(23) < StringWrapped(23);
}

#[test]
fn eq_forwards_to_inner() {
    assert!(StringWrapped(1) == StringWrapped(1));
    assert!(StringWrapped(1) != StringWrapped(2));
    let pairs = [(0, 0), (0, 1), (-3, -3), (i32::MIN, i32::MAX)];
    for (a, b) in pairs {
        assert_eq!(StringWrapped(a) == StringWrapped(b), a == b);
    }
}

#[test]
fn ord_forwards_to_inner() {
    assert!(StringWrapped(1) < StringWrapped(2));
    assert!(!(StringWrapped(2) < StringWrapped(2)));
    let pairs = [(0, 0), (0, 1), (5, -7), (i32::MIN, i32::MAX)];
    for (a, b) in pairs {
        assert_eq!(StringWrapped(a) < StringWrapped(b), a < b);
        assert_eq!(
            StringWrapped(a).partial_cmp(&StringWrapped(b)),
            a.partial_cmp(&b)
        );
    }
}

#[test]
fn total_order_forwards_to_inner() {
    assert_eq!(StringWrapped(1).compare(&StringWrapped(2)), Ordering::Less);
    assert_eq!(StringWrapped(2).compare(&StringWrapped(2)), Ordering::Equal);
    assert_eq!(StringWrapped(3).compare(&StringWrapped(2)), 3.cmp(&2));
}

#[test]
fn incomparable_stays_incomparable() {
    let nan = f32::NAN;
    assert_eq!(nan.partial_cmp(&1.0f32), None);
    assert_eq!(
        StringWrapped(nan).partial_cmp(&StringWrapped(1.0f32)),
        None
    );
    assert!(!(StringWrapped(nan) < StringWrapped(1.0f32)));
    assert!(!(StringWrapped(nan) == StringWrapped(nan)));
}

#[test]
fn clone_duplicates_inner() {
    let a = StringWrapped(vec![1, 2, 3]);
    let b = a.clone();
    assert_eq!(a, b);
    assert_eq!(b.as_ref(), &vec![1, 2, 3]);
}

#[test]
fn read_access() {
    let w = StringWrapped(5u64);
    assert_eq!(*w.as_ref(), 5);
    assert_eq!(*w, 5);
    assert_eq!(w.into_inner(), 5);
}

#[test]
fn new_wraps_value() {
    assert_eq!(StringWrapped::new(23), StringWrapped(23));
    assert_eq!(StringWrapped::new(23).0, 23);
}

#[test]
fn formatting_embeds_inner() {
    let w = StringWrapped(23);
    assert_eq!(w.display_string(), "StringWrapped(23)");
    assert_eq!(w.debug_string(), "StringWrapped(23)");
    assert_eq!(format!("{:?}", w), "StringWrapped(23)");
    let s = StringWrapped(String::from("ab"));
    assert_eq!(s.display_string(), "StringWrapped(ab)");
    assert_eq!(s.debug_string(), "StringWrapped(\"ab\")");
}
