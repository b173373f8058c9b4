//! Kleene's strong three-valued logic, the result type of entailment.
use vstd::prelude::*;

verus! {

/// A truth value of Kleene's strong three-valued logic.
#[derive(Clone, Copy, PartialEq, Eq, Structural, Debug)]
pub enum Kleene {
    True,
    False,
    Unknown,
}

impl Kleene {
    pub open spec fn spec_not(self) -> Kleene {
        match self {
            Kleene::True => Kleene::False,
            Kleene::False => Kleene::True,
            Kleene::Unknown => Kleene::Unknown,
        }
    }

    pub open spec fn spec_and(self, other: Kleene) -> Kleene {
        match (self, other) {
            (Kleene::False, _) => Kleene::False,
            (_, Kleene::False) => Kleene::False,
            (Kleene::True, Kleene::True) => Kleene::True,
            _ => Kleene::Unknown,
        }
    }

    pub open spec fn spec_from_bool(b: bool) -> Kleene {
        if b {
            Kleene::True
        } else {
            Kleene::False
        }
    }

    /// Negation: swaps `True` and `False`, keeps `Unknown`.
    pub fn not(self) -> (r: Kleene)
        ensures
            r == self.spec_not(),
    {
        match self {
            Kleene::True => Kleene::False,
            Kleene::False => Kleene::True,
            Kleene::Unknown => Kleene::Unknown,
        }
    }

    /// Conjunction: `False` if either side is `False`, `True` if both are
    /// `True`, `Unknown` otherwise.
    pub fn and(self, other: Kleene) -> (r: Kleene)
        ensures
            r == self.spec_and(other),
    {
        match (self, other) {
            (Kleene::False, _) => Kleene::False,
            (_, Kleene::False) => Kleene::False,
            (Kleene::True, Kleene::True) => Kleene::True,
            _ => Kleene::Unknown,
        }
    }

    /// The two-valued truth `b` as a Kleene value.
    pub fn from_bool(b: bool) -> (r: Kleene)
        ensures
            r == Kleene::spec_from_bool(b),
    {
        if b {
            Kleene::True
        } else {
            Kleene::False
        }
    }

    /// Whether this is `True`.
    pub fn is_true(self) -> (r: bool)
        ensures
            r == (self == Kleene::True),
    {
        match self {
            Kleene::True => true,
            _ => false,
        }
    }

    /// Whether this is `False`.
    pub fn is_false(self) -> (r: bool)
        ensures
            r == (self == Kleene::False),
    {
        match self {
            Kleene::False => true,
            _ => false,
        }
    }

    /// Whether this is `Unknown`.
    pub fn is_unknown(self) -> (r: bool)
        ensures
            r == (self == Kleene::Unknown),
    {
        match self {
            Kleene::Unknown => true,
            _ => false,
        }
    }
}

/// Negating twice gives back the value.
pub proof fn lemma_not_involutive(x: Kleene)
    ensures
        x.spec_not().spec_not() == x,
{
}

/// Conjunction is commutative.
pub proof fn lemma_and_commutative(x: Kleene, y: Kleene)
    ensures
        x.spec_and(y) == y.spec_and(x),
{
}

/// Conjunction is associative.
pub proof fn lemma_and_associative(x: Kleene, y: Kleene, z: Kleene)
    ensures
        x.spec_and(y).spec_and(z) == x.spec_and(y.spec_and(z)),
{
}

/// `False` absorbs every value under conjunction, `True` is its unit, and
/// `Unknown` absorbs everything but `False`.
pub proof fn lemma_and_units(x: Kleene)
    ensures
        Kleene::False.spec_and(x) == Kleene::False,
        Kleene::True.spec_and(x) == x,
        x != Kleene::False ==> Kleene::Unknown.spec_and(x) == Kleene::Unknown,
{
}

} // verus!
