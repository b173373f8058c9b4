use gcollections::ops::conformance::{LatticeTester, Law, Phase};
use gcollections::ops::{Bot, Entailment, Join, Meet, StrictEntailment, Top};
use gcollections::{Kleene, Optional};

fn some(x: bool) -> Optional<bool> {
    Optional::wrap(Some(x))
}

fn none() -> Optional<bool> {
    Optional::wrap(None)
}

#[test]
fn bool_lattice_passes() {
    let a = vec![false, false, true, true];
    let b = vec![false, true, false, true];
    let ent = vec![Kleene::True, Kleene::False, Kleene::True, Kleene::True];
    let join = vec![false, true, true, true];
    let meet = vec![false, false, false, true];
    let tester = LatticeTester::new(1, a, b, ent, join, meet);
    assert!(tester.test_all().is_ok());
}

#[test]
fn optional_lattice_passes() {
    let values = [none(), some(false), some(true)];
    let mut a = vec![];
    let mut b = vec![];
    let mut ent = vec![];
    let mut join = vec![];
    let mut meet = vec![];
    for x in values {
        for y in values {
            a.push(x);
            b.push(y);
            ent.push(x.entail(&y));
            join.push(x.join(y));
            meet.push(x.meet(y));
        }
    }
    let tester = LatticeTester::new(2, a, b, ent, join, meet);
    assert!(tester.test_all().is_ok());
}

#[test]
fn optional_lattice_values() {
    assert_eq!(none().join(some(false)), some(false));
    assert_eq!(some(false).join(some(true)), some(true));
    assert_eq!(none().meet(some(true)), none());
    assert_eq!(some(true).meet(some(false)), some(false));
    assert_eq!(<Optional<bool> as Top>::top(), some(true));
    assert_eq!(<Optional<bool> as Bot>::bot(), none());
    assert_eq!(some(false).entail(&none()), Kleene::True);
    assert_eq!(none().entail(&some(false)), Kleene::False);
    assert_eq!(some(true).strict_entail(&some(false)), Kleene::True);
    assert_eq!(some(true).strict_entail(&some(true)), Kleene::False);
}

#[test]
fn optional_join_meet_laws() {
    let values = [none(), some(false), some(true)];
    let top = <Optional<bool> as Top>::top();
    let bot = <Optional<bool> as Bot>::bot();
    for a in values {
        assert_eq!(a.join(a), a);
        assert_eq!(a.meet(a), a);
        assert_eq!(a.join(top), top);
        assert_eq!(a.meet(bot), bot);
        assert_eq!(a.join(bot), a);
        assert_eq!(a.meet(top), a);
        for b in values {
            assert_eq!(a.join(b), b.join(a));
            assert_eq!(a.meet(b), b.meet(a));
            if a.entail(&b) == Kleene::True {
                assert_ne!(b.entail(&a), Kleene::Unknown);
            }
        }
    }
}

#[test]
fn wrong_join_is_reported() {
    let tester = LatticeTester::new(
        7,
        vec![false, true],
        vec![true, true],
        vec![Kleene::False, Kleene::True],
        vec![true, false],
        vec![false, true],
    );
    let failure = tester.test_all().err().unwrap();
    assert_eq!(failure.test_id, 7);
    assert_eq!(failure.phase, Phase::Join);
    assert_eq!(failure.index, 1);
    assert_eq!(failure.law, Law::JoinExpected);
    assert_eq!(failure.a, true);
    assert_eq!(failure.b, true);
}

#[test]
fn wrong_entailment_is_reported() {
    let tester = LatticeTester::new(
        3,
        vec![true],
        vec![false],
        vec![Kleene::False],
        vec![true],
        vec![false],
    );
    let failure = tester.test_all().err().unwrap();
    assert_eq!(failure.phase, Phase::Entail);
    assert_eq!(failure.index, 0);
    assert_eq!(failure.law, Law::EntailExpected);
}

#[test]
fn wrong_meet_is_reported() {
    let tester = LatticeTester::new(
        4,
        vec![false, true],
        vec![false, false],
        vec![Kleene::True, Kleene::True],
        vec![false, true],
        vec![false, true],
    );
    let failure = tester.test_all().err().unwrap();
    assert_eq!(failure.phase, Phase::Meet);
    assert_eq!(failure.index, 1);
    assert_eq!(failure.law, Law::MeetExpected);
    assert_eq!(failure.a, true);
    assert_eq!(failure.b, false);
}

#[test]
fn single_checks() {
    let tester = LatticeTester::new(5, vec![true], vec![false], vec![Kleene::True], vec![true], vec![false]);
    assert_eq!(tester.test_entailment(true, false, Kleene::True), Ok(()));
    assert_eq!(tester.test_entailment(false, true, Kleene::False), Ok(()));
    assert_eq!(tester.test_entailment(false, true, Kleene::Unknown), Err(Law::EntailExpected));
    assert_eq!(tester.test_join(false, true, true), Ok(()));
    assert_eq!(tester.test_join(false, true, false), Err(Law::JoinExpected));
    assert_eq!(tester.test_meet(false, true, false), Ok(()));
    assert_eq!(tester.test_meet(true, true, false), Err(Law::MeetExpected));
}

#[test]
fn empty_fixture_passes() {
    let tester: LatticeTester<bool> = LatticeTester::new(0, vec![], vec![], vec![], vec![], vec![]);
    assert!(tester.test_all().is_ok());
}
