use gcollections::ops::{
    Cardinality, Contains, Difference, Disjoint, Empty, Intersection, IsEmpty, IsSingleton,
    Overlap, ProperSubset, Singleton, Subset,
};
use gcollections::Optional;

#[allow(non_upper_case_globals)]
const empty: Optional<i32> = Optional { value: None };
#[allow(non_upper_case_globals)]
const zero: Optional<i32> = Optional { value: Some(0) };
#[allow(non_upper_case_globals)]
const ten: Optional<i32> = Optional { value: Some(10) };

#[test]
fn cardinality_test() {
    assert_eq!(empty.size(), 0);
    assert_eq!(zero.size(), 1);
    assert_eq!(ten.size(), 1);
    assert!(empty.is_empty());
    assert!(!empty.is_singleton());
    assert!(!zero.is_empty());
    assert!(zero.is_singleton());
}

#[test]
fn constructors_test() {
    assert_eq!(empty, Empty::empty());
    assert_eq!(zero, Singleton::singleton(0));
}

#[test]
fn intersection_test() {
    let sym_cases = vec![
        (empty, empty, empty),
        (empty, zero, empty),
        (zero, zero, zero),
        (zero, ten, empty),
        (ten, ten, ten),
    ];

    for (x, y, r) in sym_cases.into_iter() {
        assert!(x.intersection(&y) == r, "{:?} intersection {:?} is not equal to {:?}", x, y, r);
        assert!(y.intersection(&x) == r, "{:?} intersection {:?} is not equal to {:?}", y, x, r);
    }
}

#[test]
fn difference_test() {
    let cases = vec![
        (empty, empty, empty, empty),
        (empty, zero, empty, zero),
        (zero, zero, empty, empty),
        (zero, ten, zero, ten),
        (ten, ten, empty, empty),
    ];

    for (x, y, r1, r2) in cases.into_iter() {
        assert!(x.difference(&y) == r1, "{:?} difference {:?} is not equal to {:?}", x, y, r1);
        assert!(y.difference(&x) == r2, "{:?} difference {:?} is not equal to {:?}", y, x, r2);
    }
}

#[test]
fn intersection_value_test() {
    let sym_cases = vec![
        (empty, 0, empty),
        (empty, 1, empty),
        (zero, 0, zero),
        (zero, 1, empty),
        (ten, 10, ten),
    ];

    for (x, y, r) in sym_cases.into_iter() {
        assert!(x.intersection(&y) == r, "{:?} intersection {:?} is not equal to {:?}", x, y, r);
        assert!(y.intersection(&x) == r, "{:?} intersection {:?} is not equal to {:?}", y, x, r);
    }
}

#[test]
fn difference_value_test() {
    let cases = vec![
        (empty, 0, empty, zero),
        (zero, 0, empty, empty),
        (zero, 10, zero, ten),
        (ten, 10, empty, empty),
    ];

    for (x, y, r1, r2) in cases.into_iter() {
        assert!(x.difference(&y) == r1, "{:?} difference {:?} is not equal to {:?}", x, y, r1);
        assert!(y.difference(&x) == r2, "{:?} difference {:?} is not equal to {:?}", y, x, r2);
    }
}

#[test]
fn is_disjoint_and_overlap_test() {
    let sym_cases = vec![
        (empty, empty, true),
        (empty, zero, true),
        (zero, zero, false),
        (zero, ten, true),
        (ten, ten, false),
    ];

    for (x, y, r) in sym_cases.into_iter() {
        assert!(x.is_disjoint(&y) == r, "{:?} disjoint {:?} is not equal to {:?}", x, y, r);
        assert!(y.is_disjoint(&x) == r, "{:?} disjoint {:?} is not equal to {:?}", y, x, r);
        assert!(x.overlap(&y) == !r, "{:?} overlap {:?} is not equal to {:?}", x, y, !r);
        assert!(y.overlap(&x) == !r, "{:?} overlap {:?} is not equal to {:?}", y, x, !r);
    }
}

#[test]
fn contains_test() {
    let cases = vec![
        (empty, 0, false),
        (empty, 1, false),
        (zero, 0, true),
        (zero, 1, false),
        (ten, 9, false),
        (ten, 10, true),
    ];

    for (x, y, r) in cases.into_iter() {
        assert!(x.contains(&y) == r, "{:?} contains {:?} is not equal to {:?}", x, y, r);
    }
}

#[test]
fn subset_test() {
    let cases = vec![
        (empty, empty, true, true),
        (empty, zero, true, false),
        (zero, zero, true, true),
        (zero, ten, false, false),
        (ten, ten, true, true),
    ];

    for (x, y, r1, r2) in cases.into_iter() {
        assert!(x.is_subset(&y) == r1, "{:?} subset {:?} is not equal to {:?}", x, y, r1);
        assert!(y.is_subset(&x) == r2, "{:?} subset {:?} is not equal to {:?}", y, x, r2);
    }
}

#[test]
fn proper_subset_test() {
    let cases = vec![
        (empty, empty, false, false),
        (empty, zero, true, false),
        (zero, zero, false, false),
        (zero, ten, false, false),
        (ten, ten, false, false),
    ];

    for (x, y, r1, r2) in cases.into_iter() {
        assert!(
            x.is_proper_subset(&y) == r1,
            "{:?} proper_subset {:?} is not equal to {:?}",
            x,
            y,
            r1
        );
        assert!(
            y.is_proper_subset(&x) == r2,
            "{:?} proper_subset {:?} is not equal to {:?}",
            y,
            x,
            r2
        );
    }
}

#[test]
fn arithmetics_tests() {
    let twenty = Optional::singleton(20);
    let one_hundred = Optional::singleton(100);
    let cases = vec![
        // x,     y,    x+y,   x-y,   x*y
        (empty, empty, empty, empty, empty),
        (empty, ten, empty, empty, empty),
        (ten, empty, empty, empty, empty),
        (ten, zero, ten, ten, zero),
        (ten, ten, twenty, zero, one_hundred),
    ];
    for (x, y, add, sub, mul) in cases.into_iter() {
        assert!(x + y == add, "{:?} + {:?} is not equal to {:?}", x, y, add);
        assert!(x - y == sub, "{:?} - {:?} is not equal to {:?}", x, y, sub);
        assert!(x * y == mul, "{:?} * {:?} is not equal to {:?}", x, y, mul);
    }
}
