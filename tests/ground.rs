use gcollections::ops::{Contains, Difference, Disjoint, Intersection, Overlap, Subset};
use gcollections::Optional;

fn some<T>(x: T) -> Optional<T> {
    Optional::wrap(Some(x))
}

fn none<T>() -> Optional<T> {
    Optional::wrap(None)
}

#[test]
fn ground_add_and_mul_commute() {
    for x in [-3i32, 0, 7] {
        for o in [none(), some(0i32), some(5), some(-2)] {
            assert_eq!(x + o, o + x);
            assert_eq!(x * o, o * x);
            assert_eq!(x + o, some(x) + o);
        }
    }
    assert_eq!(10u8 + some(5u8), some(15u8));
    assert_eq!(6i64 * some(7i64), some(42i64));
    assert_eq!(4usize + none::<usize>(), none());
}

#[test]
fn ground_sub_takes_the_held_value_away() {
    assert_eq!(3i32 - some(1i32), some(2));
    assert_eq!(some(1i32) - 3i32, some(-2));
    assert_eq!(3i32 - none::<i32>(), none());
    assert_eq!(10u32 - some(10u32), some(0));
}

#[test]
fn optional_with_ground_arithmetic() {
    assert_eq!(some(10i32) + 5, some(15));
    assert_eq!(some(10i32) * 5, some(50));
    assert_eq!(none::<i32>() + 5, none());
}

#[test]
fn optional_commutes_through_wrapping() {
    let values = [none(), some(0i32), some(10), some(-4)];
    for a in values {
        for b in values {
            assert_eq!(a + b, b + a);
            assert_eq!(a * b, b * a);
        }
    }
}

#[test]
fn ground_set_operations() {
    assert_eq!(true.intersection(&some(true)), some(true));
    assert_eq!(true.intersection(&some(false)), none());
    assert_eq!('a'.intersection(&some('a')), some('a'));
    assert_eq!('a'.difference(&some('a')), none());
    assert_eq!('a'.difference(&some('b')), some('a'));
    assert_eq!(5u16.difference(&none()), some(5u16));
    assert!(5i8.is_disjoint(&some(4i8)));
    assert!(!5i8.is_disjoint(&some(5i8)));
    assert!(5i8.is_disjoint(&none::<i8>()));
    assert!(5i8.overlap(&some(5i8)));
    assert!(!5i8.overlap(&none::<i8>()));
    assert!(some(5i8).is_disjoint(&4i8));
    assert!(some(5i8).overlap(&5i8));
}

#[test]
fn primitives_as_singleton_sets() {
    assert!(3u64.is_subset(&3));
    assert!(!3u64.is_subset(&4));
    assert!(3u64.is_disjoint(&4));
    assert!(3u64.overlap(&3));
}

#[test]
fn round_trip_laws() {
    let e: Optional<i32> = none();
    assert_eq!(e.intersection(&e), e);
    for x in [0i32, 1, -7] {
        assert_eq!(some(x).difference(&some(x)), none());
        assert_eq!(some(x).intersection(&some(x)), some(x));
    }
}

#[test]
fn scenario_intersection_difference() {
    let empty: Optional<i32> = none();
    let zero = some(0i32);
    let ten = some(10i32);
    assert_eq!(empty.intersection(&zero), empty);
    assert_eq!(zero.intersection(&zero), zero);
    assert_eq!(zero.intersection(&ten), empty);
    assert_eq!(zero.difference(&ten), zero);
    assert_eq!(ten.difference(&zero), ten);
    assert_eq!(ten.difference(&ten), empty);
    assert!(empty.is_disjoint(&zero));
    assert!(!zero.is_disjoint(&zero));
}

#[test]
fn scenario_arithmetic_and_contains() {
    let empty: Optional<i32> = none();
    let zero = some(0i32);
    let ten = some(10i32);
    assert_eq!(ten + zero, some(10));
    assert_eq!(ten - zero, some(10));
    assert_eq!(ten * zero, some(0));
    assert_eq!(empty + ten, empty);
    assert!(zero.contains(&0));
    assert!(!ten.contains(&9));
}

#[test]
fn wrap_and_unwrap() {
    assert_eq!(some(3i32).unwrap(), Some(3));
    assert_eq!(none::<i32>().unwrap(), None);
    assert!(none::<i32>() < some(i32::MIN));
}
