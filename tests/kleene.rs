use gcollections::Kleene;

const ALL: [Kleene; 3] = [Kleene::True, Kleene::False, Kleene::Unknown];

#[test]
fn kleene_not_table() {
    assert_eq!(Kleene::True.not(), Kleene::False);
    assert_eq!(Kleene::False.not(), Kleene::True);
    assert_eq!(Kleene::Unknown.not(), Kleene::Unknown);
}

#[test]
fn kleene_double_negation() {
    for x in ALL {
        assert_eq!(x.not().not(), x);
    }
}

#[test]
fn kleene_and_table() {
    assert_eq!(Kleene::True.and(Kleene::True), Kleene::True);
    assert_eq!(Kleene::True.and(Kleene::Unknown), Kleene::Unknown);
    assert_eq!(Kleene::Unknown.and(Kleene::Unknown), Kleene::Unknown);
    assert_eq!(Kleene::Unknown.and(Kleene::False), Kleene::False);
    for x in ALL {
        assert_eq!(Kleene::False.and(x), Kleene::False);
        assert_eq!(x.and(Kleene::False), Kleene::False);
        assert_eq!(Kleene::True.and(x), x);
    }
}

#[test]
fn kleene_and_commutative_associative() {
    for x in ALL {
        for y in ALL {
            assert_eq!(x.and(y), y.and(x));
            for z in ALL {
                assert_eq!(x.and(y).and(z), x.and(y.and(z)));
            }
        }
    }
}

#[test]
fn kleene_from_bool_and_tests() {
    assert_eq!(Kleene::from_bool(true), Kleene::True);
    assert_eq!(Kleene::from_bool(false), Kleene::False);
    assert!(Kleene::True.is_true());
    assert!(Kleene::False.is_false());
    assert!(Kleene::Unknown.is_unknown());
    assert!(!Kleene::Unknown.is_true());
}
