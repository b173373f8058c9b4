//! Collections bounded by a least and a greatest item, such as intervals.
use vstd::prelude::*;

use crate::kind::Collection;

verus! {

/// A collection with a least item `lower` and a greatest item `upper`.
pub trait Bounded: Collection {
    fn lower(&self) -> Self::Item;

    fn upper(&self) -> Self::Item;
}

/// Raises the lower bound of a bounded collection to `lb`.
pub trait ShrinkLeft: Bounded + Sized {
    fn shrink_left(&self, lb: Self::Item) -> Self;
}

/// Lowers the upper bound of a bounded collection to `ub`.
pub trait ShrinkRight: Bounded + Sized {
    fn shrink_right(&self, ub: Self::Item) -> Self;
}

/// Keeps the items of a bounded collection that are strictly greater than
/// `lb`.
pub trait StrictShrinkLeft: Bounded + Sized {
    fn strict_shrink_left(&self, lb: Self::Item) -> Self;
}

/// Keeps the items of a bounded collection that are strictly less than `ub`.
pub trait StrictShrinkRight: Bounded + Sized {
    fn strict_shrink_right(&self, ub: Self::Item) -> Self;
}

} // verus!
