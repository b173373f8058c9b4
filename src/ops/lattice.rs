//! Elements of a lattice: join, meet, three-valued entailment and, for a
//! bounded lattice, a top and a bottom element.
//!
//! These traits speak of one element of a lattice, not of the lattice as a
//! set of elements, which is why they do not ask for `Collection`.
use vstd::prelude::*;

use vstd::std_specs::cmp::PartialEqSpec;

use crate::kleene::Kleene;

verus! {

/// The least upper bound of two elements.
pub trait Join: Sized {
    spec fn spec_join(self, other: Self) -> Self;

    fn join(self, other: Self) -> (r: Self)
        ensures
            r == self.spec_join(other),
    ;
}

/// The greatest lower bound of two elements.
pub trait Meet: Sized {
    spec fn spec_meet(self, other: Self) -> Self;

    fn meet(self, other: Self) -> (r: Self)
        ensures
            r == self.spec_meet(other),
    ;
}

/// Whether an element entails (is at least as informative as) another:
/// `True`, `False`, or `Unknown` where the two are not ordered.
pub trait Entailment {
    spec fn spec_entail(&self, other: &Self) -> Kleene;

    fn entail(&self, other: &Self) -> (r: Kleene)
        ensures
            r == self.spec_entail(other),
    ;
}

/// Entailment with equality left out: `a.entail(b) and a != b`.
pub trait StrictEntailment {
    fn strict_entail(&self, other: &Self) -> Kleene;
}

impl<R: Entailment + Eq> StrictEntailment for R {
    fn strict_entail(&self, other: &R) -> (r: Kleene)
        ensures
            R::obeys_eq_spec() ==> r == self.spec_entail(other).spec_and(
                Kleene::spec_from_bool(!self.eq_spec(other)),
            ),
    {
        self.entail(other).and(Kleene::from_bool(self != other))
    }
}

/// The greatest element of a bounded lattice.
pub trait Top: Sized {
    spec fn spec_top() -> Self;

    fn top() -> (r: Self)
        ensures
            r == Self::spec_top(),
    ;
}

/// The least element of a bounded lattice.
pub trait Bot: Sized {
    spec fn spec_bot() -> Self;

    fn bot() -> (r: Self)
        ensures
            r == Self::spec_bot(),
    ;
}

/// An element of a lattice.
pub trait Lattice: Join + Meet + Entailment {}

impl<R> Lattice for R where R: Join + Meet + Entailment {}

/// An element of a lattice with a top and a bottom element.
pub trait BoundedLattice: Lattice + Top + Bot {}

impl<R> BoundedLattice for R where R: Lattice + Top + Bot {}

} // verus!
