//! A conformance checker for bounded lattices.
//!
//! Given sample pairs `(a, b)` with the expected entailment, join and meet of
//! each pair, it checks the laws that a bounded lattice must satisfy: first
//! entailment on every sample, then join on every sample, then meet on every
//! sample. A broken law is reported with the test identifier, the group of
//! laws, the sample index, the law and the two values.
use vstd::prelude::*;
use vstd::laws_eq::obeys_concrete_eq;

use crate::kleene::Kleene;
use crate::ops::lattice::{BoundedLattice, Entailment, StrictEntailment};
use crate::wrappers::optional::Optional;

verus! {

/// A law of bounded lattices that a sample can break.
#[derive(Clone, Copy, PartialEq, Eq, Structural, Debug)]
pub enum Law {
    /// `a.entail(b)` differs from the expected value.
    EntailExpected,
    /// `a.entail(b)` is `True` and `b.entail(a)` is `Unknown`: two elements
    /// ordered one way cannot be unordered the other way.
    EntailChain,
    /// `a.entail(b)` and `b.entail(a)` are `True` but `a != b`.
    EntailAntisymmetric,
    /// `a.entail(b)` is `False` or `Unknown` but `b.entail(a)` is not its
    /// negation.
    EntailConverse,
    /// `a.entail(b)` is `False` or `Unknown` but `a == b`.
    EntailDistinct,
    /// `a.strict_entail(b)` differs from the value entailment implies.
    StrictExpected,
    /// `b.strict_entail(a)` is not the negation of `a.strict_entail(b)`.
    StrictConverse,
    /// `a.strict_entail(b)` is `True` or `Unknown` but `a == b`.
    StrictDistinct,
    /// `a.join(top)` or `top.join(a)` is not `top`.
    JoinTop,
    /// `a.join(bot)` or `bot.join(a)` is not `a`.
    JoinBot,
    /// `a.join(b)` differs from the expected join.
    JoinExpected,
    /// `b.join(a)` differs from `a.join(b)`.
    JoinCommutative,
    /// Joining a value with itself does not give it back.
    JoinIdempotent,
    /// `a.meet(top)` or `top.meet(a)` is not `a`.
    MeetTop,
    /// `a.meet(bot)` or `bot.meet(a)` is not `bot`.
    MeetBot,
    /// `a.meet(b)` differs from the expected meet.
    MeetExpected,
    /// `b.meet(a)` differs from `a.meet(b)`.
    MeetCommutative,
    /// Meeting a value with itself does not give it back.
    MeetIdempotent,
}

/// The group of checks a failure was found in.
#[derive(Clone, Copy, PartialEq, Eq, Structural, Debug)]
pub enum Phase {
    Entail,
    Join,
    Meet,
}

/// A law broken by one sample: the test identifier, the group of checks, the
/// sample index, the law, and the sample's two values.
#[derive(Debug)]
pub struct LawFailure<T> {
    pub test_id: usize,
    pub phase: Phase,
    pub index: usize,
    pub law: Law,
    pub a: T,
    pub b: T,
}

/// Equality on `T` is spec equality and cloning a `T` gives an equal value:
/// what the checker needs of a type to say exactly what it finds.
pub open spec fn well_behaved<T: PartialEq + Clone>() -> bool {
    &&& obeys_concrete_eq::<T>()
    &&& forall|a: T, b: T| #[trigger] cloned::<T>(a, b) ==> a == b
}

/// Strict entailment: entailment with equality left out.
pub open spec fn spec_strict_entail<T: BoundedLattice>(a: T, b: T) -> Kleene {
    a.spec_entail(&b).spec_and(Kleene::spec_from_bool(a != b))
}

/// The first law broken by the strict-entailment checks of `(a, b)`, where
/// `a.strict_entail(b)` should be `expected`.
pub open spec fn strict_check<T: BoundedLattice>(a: T, b: T, expected: Kleene) -> Option<Law> {
    if spec_strict_entail(a, b) != expected {
        Some(Law::StrictExpected)
    } else if spec_strict_entail(b, a) != expected.spec_not() {
        Some(Law::StrictConverse)
    } else if expected != Kleene::False && a == b {
        Some(Law::StrictDistinct)
    } else {
        None
    }
}

/// The first law broken by the entailment checks of `(a, b)`, where
/// `a.entail(b)` should be `expected`.
pub open spec fn entail_check<T: BoundedLattice>(a: T, b: T, expected: Kleene) -> Option<Law> {
    let ab = a.spec_entail(&b);
    let ba = b.spec_entail(&a);
    if ab != expected {
        Some(Law::EntailExpected)
    } else if ab == Kleene::True {
        match ba {
            Kleene::Unknown => Some(Law::EntailChain),
            Kleene::True => if a != b {
                Some(Law::EntailAntisymmetric)
            } else {
                None
            },
            Kleene::False => strict_check(a, b, Kleene::True),
        }
    } else if ba != ab.spec_not() {
        Some(Law::EntailConverse)
    } else if a == b {
        Some(Law::EntailDistinct)
    } else {
        None
    }
}

/// The first law broken by the absorption and unit checks of join with top
/// and bottom, on `a`.
pub open spec fn top_bot_join_check<T: BoundedLattice>(a: T) -> Option<Law> {
    let top = T::spec_top();
    let bot = T::spec_bot();
    if a.spec_join(top) != top || top.spec_join(a) != top {
        Some(Law::JoinTop)
    } else if a.spec_join(bot) != a || bot.spec_join(a) != a {
        Some(Law::JoinBot)
    } else {
        None
    }
}

/// The first law broken by the join checks of `(a, b)`, where `a.join(b)`
/// should be `expected`.
pub open spec fn join_check<T: BoundedLattice>(a: T, b: T, expected: T) -> Option<Law> {
    let c = a.spec_join(b);
    if top_bot_join_check(a) is Some {
        top_bot_join_check(a)
    } else if c != expected {
        Some(Law::JoinExpected)
    } else if b.spec_join(a) != c {
        Some(Law::JoinCommutative)
    } else if c.spec_join(c) != c || a.spec_join(a) != a || b.spec_join(b) != b {
        Some(Law::JoinIdempotent)
    } else if entail_check(c, a, Kleene::True) is Some {
        entail_check(c, a, Kleene::True)
    } else if entail_check(c, b, Kleene::True) is Some {
        entail_check(c, b, Kleene::True)
    } else if a == c && entail_check(a, b, Kleene::True) is Some {
        entail_check(a, b, Kleene::True)
    } else if b == c {
        entail_check(b, a, Kleene::True)
    } else {
        None
    }
}

/// The first law broken by the unit and absorption checks of meet with top
/// and bottom, on `a`.
pub open spec fn top_bot_meet_check<T: BoundedLattice>(a: T) -> Option<Law> {
    let top = T::spec_top();
    let bot = T::spec_bot();
    if a.spec_meet(top) != a || top.spec_meet(a) != a {
        Some(Law::MeetTop)
    } else if a.spec_meet(bot) != bot || bot.spec_meet(a) != bot {
        Some(Law::MeetBot)
    } else {
        None
    }
}

/// The first law broken by the meet checks of `(a, b)`, where `a.meet(b)`
/// should be `expected`.
pub open spec fn meet_check<T: BoundedLattice>(a: T, b: T, expected: T) -> Option<Law> {
    let c = a.spec_meet(b);
    if top_bot_meet_check(a) is Some {
        top_bot_meet_check(a)
    } else if c != expected {
        Some(Law::MeetExpected)
    } else if b.spec_meet(a) != c {
        Some(Law::MeetCommutative)
    } else if c.spec_meet(c) != c || a.spec_meet(a) != a || b.spec_meet(b) != b {
        Some(Law::MeetIdempotent)
    } else if entail_check(a, c, Kleene::True) is Some {
        entail_check(a, c, Kleene::True)
    } else if entail_check(b, c, Kleene::True) is Some {
        entail_check(b, c, Kleene::True)
    } else if a == c && entail_check(b, a, Kleene::True) is Some {
        entail_check(b, a, Kleene::True)
    } else if b == c {
        entail_check(a, b, Kleene::True)
    } else {
        None
    }
}

/// `Ok` where no law is broken, else the law.
pub open spec fn as_result(found: Option<Law>) -> Result<(), Law> {
    match found {
        Some(law) => Err(law),
        None => Ok(()),
    }
}

/// Checks the laws of a bounded lattice on sample pairs of `T`.
pub struct LatticeTester<T> {
    test_id: usize,
    data_a: Vec<T>,
    data_b: Vec<T>,
    expected_entailment: Vec<Kleene>,
    expected_join: Vec<T>,
    expected_meet: Vec<T>,
}

impl<T: BoundedLattice + Clone + Eq> LatticeTester<T> {
    /// Whether the five sample sequences have one length.
    pub closed spec fn well_formed(self) -> bool {
        &&& self.data_b.len() == self.data_a.len()
        &&& self.expected_entailment.len() == self.data_a.len()
        &&& self.expected_join.len() == self.data_a.len()
        &&& self.expected_meet.len() == self.data_a.len()
    }

    pub closed spec fn spec_test_id(self) -> usize {
        self.test_id
    }

    /// The number of samples.
    pub closed spec fn len(self) -> int {
        self.data_a.len() as int
    }

    /// The first law broken by sample `i` in the group `phase`.
    pub closed spec fn check(self, phase: Phase, i: int) -> Option<Law> {
        match phase {
            Phase::Entail => entail_check(self.data_a[i], self.data_b[i], self.expected_entailment[i]),
            Phase::Join => join_check(self.data_a[i], self.data_b[i], self.expected_join[i]),
            Phase::Meet => meet_check(self.data_a[i], self.data_b[i], self.expected_meet[i]),
        }
    }

    /// Sample `i`, its left value.
    pub closed spec fn sample_a(self, i: int) -> T {
        self.data_a[i]
    }

    /// Sample `i`, its right value.
    pub closed spec fn sample_b(self, i: int) -> T {
        self.data_b[i]
    }

    /// Whether `law`, broken by sample `i` in the group `phase`, is the first
    /// failure met when the groups run in the order entailment, join, meet,
    /// each over the samples in order.
    pub open spec fn is_first_failure(self, phase: Phase, i: int, law: Law) -> bool {
        &&& 0 <= i < self.len()
        &&& self.check(phase, i) == Some(law)
        &&& forall|j: int| 0 <= j < i ==> (#[trigger] self.check(phase, j)) is None
        &&& phase != Phase::Entail ==> forall|j: int|
            0 <= j < self.len() ==> (#[trigger] self.check(Phase::Entail, j)) is None
        &&& phase == Phase::Meet ==> forall|j: int|
            0 <= j < self.len() ==> (#[trigger] self.check(Phase::Join, j)) is None
    }

    /// A tester of the samples `(data_a[i], data_b[i])`, each with its
    /// expected entailment, join and meet. The five sequences must have one
    /// length: samples that do not line up are a broken fixture.
    pub fn new(
        test_id: usize,
        data_a: Vec<T>,
        data_b: Vec<T>,
        expected_entailment: Vec<Kleene>,
        expected_join: Vec<T>,
        expected_meet: Vec<T>,
    ) -> (r: Self)
        requires
            data_b.len() == data_a.len(),
            expected_entailment.len() == data_a.len(),
            expected_join.len() == data_a.len(),
            expected_meet.len() == data_a.len(),
        ensures
            r.well_formed(),
            r.spec_test_id() == test_id,
            r.len() == data_a.len(),
            forall|i: int|
                0 <= i < data_a.len() ==> {
                    &&& #[trigger] r.check(Phase::Entail, i) == entail_check(
                        data_a[i],
                        data_b[i],
                        expected_entailment[i],
                    )
                    &&& r.check(Phase::Join, i) == join_check(data_a[i], data_b[i], expected_join[i])
                    &&& r.check(Phase::Meet, i) == meet_check(data_a[i], data_b[i], expected_meet[i])
                },
    {
        LatticeTester {
            test_id,
            data_a,
            data_b,
            expected_entailment,
            expected_join,
            expected_meet,
        }
    }

    /// Checks `a == b` and `b == a` against `expected`.
    fn test_equality(&self, a: &T, b: &T, expected: bool) -> (r: bool)
        ensures
            well_behaved::<T>() ==> r == ((*a == *b) == expected),
    {
        proof {
            reveal(obeys_concrete_eq);
        }
        (*a == *b) == expected && (*b == *a) == expected
    }

    /// An equal copy of `a`.
    fn copy(a: &T) -> (r: T)
        ensures
            well_behaved::<T>() ==> r == *a,
    {
        let r = a.clone();
        assert(cloned::<T>(*a, r));
        r
    }

    /// The entailment checks of `(a, b)`, where `a.entail(b)` should be
    /// `expected`: the first law they find broken, if any.
    pub fn test_entailment(&self, a: T, b: T, expected: Kleene) -> (r: Result<(), Law>)
        ensures
            well_behaved::<T>() ==> r == as_result(entail_check(a, b, expected)),
    {
        let ab = a.entail(&b);
        if ab != expected {
            return Err(Law::EntailExpected);
        }
        let ba = b.entail(&a);
        match ab {
            Kleene::True => {
                if ba == Kleene::Unknown {
                    return Err(Law::EntailChain);
                }
                match ba {
                    Kleene::True => {
                        if !self.test_equality(&a, &b, true) {
                            return Err(Law::EntailAntisymmetric);
                        }
                        Ok(())
                    },
                    Kleene::False => self.test_strict_entail(&a, &b, Kleene::True),
                    Kleene::Unknown => self.test_strict_entail(&a, &b, Kleene::Unknown),
                }
            },
            Kleene::False | Kleene::Unknown => {
                if ba != ab.not() {
                    return Err(Law::EntailConverse);
                }
                if !self.test_equality(&a, &b, false) {
                    return Err(Law::EntailDistinct);
                }
                Ok(())
            },
        }
    }

    /// The absorption and unit laws of join with top and bottom, on `a`.
    fn test_top_bot_join(&self, a: &T) -> (r: Result<(), Law>)
        ensures
            well_behaved::<T>() ==> r == as_result(top_bot_join_check(*a)),
    {
        proof {
            reveal(obeys_concrete_eq);
        }
        let top = T::top();
        let bot = T::bot();
        if !(Self::copy(a).join(Self::copy(&top)) == top) || !(Self::copy(&top).join(Self::copy(a)) == top) {
            return Err(Law::JoinTop);
        }
        if !(Self::copy(a).join(Self::copy(&bot)) == *a) || !(Self::copy(&bot).join(Self::copy(a)) == *a) {
            return Err(Law::JoinBot);
        }
        Ok(())
    }

    /// The join checks of `(a, b)`, where `a.join(b)` should be `expected`:
    /// absorption by top and bottom, the expected result, commutativity,
    /// idempotence, and agreement with entailment. The first law they find
    /// broken, if any.
    pub fn test_join(&self, a: T, b: T, expected: T) -> (r: Result<(), Law>)
        ensures
            well_behaved::<T>() ==> r == as_result(join_check(a, b, expected)),
    {
        proof {
            reveal(obeys_concrete_eq);
        }
        let top_bot = self.test_top_bot_join(&a);
        if top_bot.is_err() {
            return top_bot;
        }
        let c = Self::copy(&a).join(Self::copy(&b));
        if !self.test_equality(&c, &expected, true) {
            return Err(Law::JoinExpected);
        }
        // Commutativity.
        let d = Self::copy(&b).join(Self::copy(&a));
        if !self.test_equality(&d, &c, true) {
            return Err(Law::JoinCommutative);
        }
        // Idempotence.
        let e = Self::copy(&a).join(Self::copy(&b)).join(Self::copy(&c));
        if !self.test_equality(&c, &e, true) {
            return Err(Law::JoinIdempotent);
        }
        let f = Self::copy(&d).join(Self::copy(&c));
        if !self.test_equality(&c, &f, true) {
            return Err(Law::JoinIdempotent);
        }
        let g = Self::copy(&a).join(Self::copy(&a));
        let h = Self::copy(&b).join(Self::copy(&b));
        if !self.test_equality(&a, &g, true) || !self.test_equality(&b, &h, true) {
            return Err(Law::JoinIdempotent);
        }
        // Agreement with entailment.
        let ca = self.test_entailment(Self::copy(&c), Self::copy(&a), Kleene::True);
        if ca.is_err() {
            return ca;
        }
        let cb = self.test_entailment(Self::copy(&c), Self::copy(&b), Kleene::True);
        if cb.is_err() {
            return cb;
        }
        if a == c {
            let ab = self.test_entailment(Self::copy(&a), Self::copy(&b), Kleene::True);
            if ab.is_err() {
                return ab;
            }
        }
        if b == c {
            return self.test_entailment(b, a, Kleene::True);
        }
        Ok(())
    }

    /// The unit and absorption laws of meet with top and bottom, on `a`.
    fn test_top_bot_meet(&self, a: &T) -> (r: Result<(), Law>)
        ensures
            well_behaved::<T>() ==> r == as_result(top_bot_meet_check(*a)),
    {
        proof {
            reveal(obeys_concrete_eq);
        }
        let top = T::top();
        let bot = T::bot();
        if !(Self::copy(a).meet(Self::copy(&top)) == *a) || !(Self::copy(&top).meet(Self::copy(a)) == *a) {
            return Err(Law::MeetTop);
        }
        if !(Self::copy(a).meet(Self::copy(&bot)) == bot) || !(Self::copy(&bot).meet(Self::copy(a)) == bot) {
            return Err(Law::MeetBot);
        }
        Ok(())
    }

    /// The meet checks of `(a, b)`, where `a.meet(b)` should be `expected`:
    /// the duals of the join checks. The first law they find broken, if any.
    pub fn test_meet(&self, a: T, b: T, expected: T) -> (r: Result<(), Law>)
        ensures
            well_behaved::<T>() ==> r == as_result(meet_check(a, b, expected)),
    {
        proof {
            reveal(obeys_concrete_eq);
        }
        let top_bot = self.test_top_bot_meet(&a);
        if top_bot.is_err() {
            return top_bot;
        }
        let c = Self::copy(&a).meet(Self::copy(&b));
        if !self.test_equality(&c, &expected, true) {
            return Err(Law::MeetExpected);
        }
        // Commutativity.
        let d = Self::copy(&b).meet(Self::copy(&a));
        if !self.test_equality(&d, &c, true) {
            return Err(Law::MeetCommutative);
        }
        // Idempotence.
        let e = Self::copy(&a).meet(Self::copy(&b)).meet(Self::copy(&c));
        if !self.test_equality(&c, &e, true) {
            return Err(Law::MeetIdempotent);
        }
        let f = Self::copy(&d).meet(Self::copy(&c));
        if !self.test_equality(&c, &f, true) {
            return Err(Law::MeetIdempotent);
        }
        let g = Self::copy(&a).meet(Self::copy(&a));
        let h = Self::copy(&b).meet(Self::copy(&b));
        if !self.test_equality(&a, &g, true) || !self.test_equality(&b, &h, true) {
            return Err(Law::MeetIdempotent);
        }
        // Agreement with entailment.
        let ac = self.test_entailment(Self::copy(&a), Self::copy(&c), Kleene::True);
        if ac.is_err() {
            return ac;
        }
        let bc = self.test_entailment(Self::copy(&b), Self::copy(&c), Kleene::True);
        if bc.is_err() {
            return bc;
        }
        if a == c {
            let ba = self.test_entailment(Self::copy(&b), Self::copy(&a), Kleene::True);
            if ba.is_err() {
                return ba;
            }
        }
        if b == c {
            return self.test_entailment(a, b, Kleene::True);
        }
        Ok(())
    }

    /// The failure record of sample `i` in the group `phase`.
    fn failure(&self, phase: Phase, i: usize, law: Law) -> (r: LawFailure<T>)
        requires
            self.well_formed(),
            i < self.len(),
        ensures
            r.test_id == self.test_id,
            r.phase == phase,
            r.index == i,
            r.law == law,
            well_behaved::<T>() ==> r.a == self.data_a[i as int],
            well_behaved::<T>() ==> r.b == self.data_b[i as int],
    {
        LawFailure {
            test_id: self.test_id,
            phase,
            index: i,
            law,
            a: Self::copy(&self.data_a[i]),
            b: Self::copy(&self.data_b[i]),
        }
    }

    /// Runs the entailment checks on every sample, then the join checks on
    /// every sample, then the meet checks on every sample, and stops at the
    /// first broken law.
    pub fn test_all(self) -> (r: Result<(), LawFailure<T>>)
        requires
            self.well_formed(),
        ensures
            well_behaved::<T>() ==> (r is Ok <==> forall|i: int|
                0 <= i < self.len() ==> {
                    &&& (#[trigger] self.check(Phase::Entail, i)) is None
                    &&& self.check(Phase::Join, i) is None
                    &&& self.check(Phase::Meet, i) is None
                }),
            r matches Err(f) ==> f.test_id == self.spec_test_id() && 0 <= f.index < self.len(),
            well_behaved::<T>() ==> (r matches Err(f) ==> {
                &&& self.is_first_failure(f.phase, f.index as int, f.law)
                &&& f.a == self.sample_a(f.index as int)
                &&& f.b == self.sample_b(f.index as int)
            }),
    {
        let n = self.data_a.len();
        let mut i: usize = 0;
        while i < n
            invariant
                self.well_formed(),
                n == self.len(),
                0 <= i <= n,
                well_behaved::<T>() ==> forall|j: int|
                    0 <= j < i ==> (#[trigger] self.check(Phase::Entail, j)) is None,
            decreases n - i,
        {
            let found = self.test_entailment(
                Self::copy(&self.data_a[i]),
                Self::copy(&self.data_b[i]),
                self.expected_entailment[i],
            );
            if let Err(law) = found {
                assert(well_behaved::<T>() ==> self.check(Phase::Entail, i as int) is Some);
                return Err(self.failure(Phase::Entail, i, law));
            }
            i += 1;
        }
        let mut i: usize = 0;
        while i < n
            invariant
                self.well_formed(),
                n == self.len(),
                0 <= i <= n,
                well_behaved::<T>() ==> forall|j: int|
                    0 <= j < n ==> (#[trigger] self.check(Phase::Entail, j)) is None,
                well_behaved::<T>() ==> forall|j: int|
                    0 <= j < i ==> (#[trigger] self.check(Phase::Join, j)) is None,
            decreases n - i,
        {
            let found = self.test_join(
                Self::copy(&self.data_a[i]),
                Self::copy(&self.data_b[i]),
                Self::copy(&self.expected_join[i]),
            );
            if let Err(law) = found {
                assert(well_behaved::<T>() ==> self.check(Phase::Entail, i as int) is None);
                assert(well_behaved::<T>() ==> self.check(Phase::Join, i as int) is Some);
                return Err(self.failure(Phase::Join, i, law));
            }
            i += 1;
        }
        let mut i: usize = 0;
        while i < n
            invariant
                self.well_formed(),
                n == self.len(),
                0 <= i <= n,
                well_behaved::<T>() ==> forall|j: int|
                    0 <= j < n ==> (#[trigger] self.check(Phase::Entail, j)) is None,
                well_behaved::<T>() ==> forall|j: int|
                    0 <= j < n ==> (#[trigger] self.check(Phase::Join, j)) is None,
                well_behaved::<T>() ==> forall|j: int|
                    0 <= j < i ==> (#[trigger] self.check(Phase::Meet, j)) is None,
            decreases n - i,
        {
            let found = self.test_meet(
                Self::copy(&self.data_a[i]),
                Self::copy(&self.data_b[i]),
                Self::copy(&self.expected_meet[i]),
            );
            if let Err(law) = found {
                assert(well_behaved::<T>() ==> self.check(Phase::Entail, i as int) is None);
                assert(well_behaved::<T>() ==> self.check(Phase::Join, i as int) is None);
                assert(well_behaved::<T>() ==> self.check(Phase::Meet, i as int) is Some);
                return Err(self.failure(Phase::Meet, i, law));
            }
            i += 1;
        }
        Ok(())
    }

    /// The strict-entailment checks of `(a, b)`.
    fn test_strict_entail(&self, a: &T, b: &T, expected: Kleene) -> (r: Result<(), Law>)
        ensures
            well_behaved::<T>() ==> r == as_result(strict_check(*a, *b, expected)),
    {
        proof {
            reveal(obeys_concrete_eq);
        }
        let ab = a.strict_entail(b);
        let ba = b.strict_entail(a);
        if ab != expected {
            return Err(Law::StrictExpected);
        }
        if ba != expected.not() {
            return Err(Law::StrictConverse);
        }
        match expected {
            Kleene::True | Kleene::Unknown => {
                if !self.test_equality(a, b, false) {
                    return Err(Law::StrictDistinct);
                }
            },
            Kleene::False => {},
        }
        Ok(())
    }
}

/// The two-element lattice `bool` passes every check on every sample whose
/// expected values are its own entailment, join and meet: in particular,
/// where `a` entails `b`, `b` entails `a` or is strictly below it.
pub proof fn lemma_bool_conforms(a: bool, b: bool)
    ensures
        entail_check(a, b, a.spec_entail(&b)) is None,
        a.spec_entail(&b) == Kleene::True ==> b.spec_entail(&a) != Kleene::Unknown,
        join_check(a, b, a || b) is None,
        meet_check(a, b, a && b) is None,
{
}

/// Entailment trichotomy carries over from the values held to optional
/// values: where every pair of `T` passes the entailment checks, every pair
/// of optional values does.
pub proof fn lemma_optional_entailment_trichotomy<T: BoundedLattice>(a: Optional<T>, b: Optional<T>)
    requires
        forall|x: T, y: T| (#[trigger] entail_check(x, y, x.spec_entail(&y))) is None,
    ensures
        entail_check(a, b, a.spec_entail(&b)) is None,
        a.spec_entail(&b) == Kleene::True ==> b.spec_entail(&a) != Kleene::Unknown,
{
    if a@ is Some && b@ is Some {
        let x = a@->0;
        let y = b@->0;
        assert(entail_check(x, y, x.spec_entail(&y)) is None);
        assert(x.spec_entail(&y) == a.spec_entail(&b));
        assert(y.spec_entail(&x) == b.spec_entail(&a));
        assert((a == b) == (x == y));
    }
}

/// `bool` has the equality and cloning the checker needs.
pub proof fn lemma_bool_well_behaved()
    ensures
        well_behaved::<bool>(),
{
    broadcast use vstd::laws_eq::group_laws_eq;

}

/// Optional values have the equality and cloning the checker needs where the
/// values they hold have them.
pub proof fn lemma_optional_well_behaved<T: PartialEq + Clone>()
    requires
        well_behaved::<T>(),
    ensures
        well_behaved::<Optional<T>>(),
{
    reveal(obeys_concrete_eq);
    assert forall|a: Optional<T>, b: Optional<T>| #[trigger] cloned::<Optional<T>>(a, b) implies a
        == b by {
        if a@ is Some && b@ is Some {
            assert(cloned::<T>(a@->0, b@->0));
        }
    }
}

} // verus!
