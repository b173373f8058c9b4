//! Set operations and membership tests.
use vstd::prelude::*;

use crate::kind::Collection;

verus! {

/// The items found in both operands.
pub trait Intersection<RHS = Self> {
    type Output;

    fn intersection(&self, rhs: &RHS) -> Self::Output;
}

/// The items found in either operand.
pub trait Union<RHS = Self> {
    type Output;

    fn union(&self, rhs: &RHS) -> Self::Output;
}

/// The items of the left operand that are not in the right one.
pub trait Difference<RHS = Self> {
    type Output;

    fn difference(&self, rhs: &RHS) -> Self::Output;
}

/// The items found in exactly one of the operands.
pub trait SymmetricDifference<RHS = Self> {
    type Output;

    fn symmetric_difference(&self, rhs: &RHS) -> Self::Output;
}

/// The items of the universe that are not in the value.
pub trait Complement: Sized {
    fn complement(&self) -> Self;
}

/// Membership of a single item.
pub trait Contains: Collection {
    fn contains(&self, value: &Self::Item) -> bool;
}

/// Whether two values share no item.
pub trait Disjoint<RHS = Self> {
    spec fn spec_disjoint(&self, rhs: &RHS) -> bool;

    fn is_disjoint(&self, rhs: &RHS) -> (r: bool)
        ensures
            r == self.spec_disjoint(rhs),
    ;
}

/// Whether every item of the left operand is in the right one.
pub trait Subset<RHS = Self> {
    spec fn spec_subset(&self, rhs: &RHS) -> bool;

    fn is_subset(&self, rhs: &RHS) -> (r: bool)
        ensures
            r == self.spec_subset(rhs),
    ;
}

/// Whether the left operand is a subset of the right one and differs from it.
pub trait ProperSubset<RHS = Self> {
    fn is_proper_subset(&self, rhs: &RHS) -> bool;
}

/// Whether two values share at least one item.
pub trait Overlap<RHS = Self> {
    spec fn spec_overlap(&self, rhs: &RHS) -> bool;

    fn overlap(&self, rhs: &RHS) -> (r: bool)
        ensures
            r == self.spec_overlap(rhs),
    ;
}

} // verus!
