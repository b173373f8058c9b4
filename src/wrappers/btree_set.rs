//! A `BTreeSet` of std behind the operation traits.
use vstd::prelude::*;

use std::collections::BTreeSet as StdBTreeSet;
use std::ops::Deref;

verus! {

/// A `BTreeSet` of std behind the operation traits.
#[verifier::reject_recursive_types(T)]
pub struct BTreeSet<T> {
    ts: StdBTreeSet<T>,
}

impl<T> View for BTreeSet<T> {
    type V = Set<T>;

    closed spec fn view(&self) -> Set<T> {
        self.ts@
    }
}

impl<T: Ord> BTreeSet<T> {
    /// The set holding the items of `ts`.
    pub fn wrap(ts: StdBTreeSet<T>) -> (r: BTreeSet<T>)
        ensures
            r@ == ts@,
    {
        BTreeSet { ts }
    }
}

impl<T> Deref for BTreeSet<T> {
    type Target = StdBTreeSet<T>;

    fn deref(&self) -> (r: &StdBTreeSet<T>)
        ensures
            r@ == self@,
    {
        &self.ts
    }
}

} // verus!
