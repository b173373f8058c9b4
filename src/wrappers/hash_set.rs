//! A `HashSet` of std behind the operation traits.
use vstd::prelude::*;
use vstd::std_specs::hash::{builds_valid_hashers, obeys_key_model};

use std::collections::hash_map::RandomState;
use std::collections::HashSet as StdHashSet;
use std::hash::{BuildHasher, Hash};
use std::ops::Deref;

use crate::kind::Collection;
use crate::ops::set::Contains;

verus! {

/// A `HashSet` of std, hashed by `S`, behind the operation traits.
#[verifier::reject_recursive_types(T)]
#[verifier::reject_recursive_types(S)]
pub struct HashSet<T, S = RandomState> {
    hs: StdHashSet<T, S>,
}

impl<T, S> View for HashSet<T, S> {
    type V = Set<T>;

    closed spec fn view(&self) -> Set<T> {
        self.hs@
    }
}

impl<T: Eq + Hash, S: BuildHasher> HashSet<T, S> {
    /// The set holding the items of `hs`.
    pub fn wrap(hs: StdHashSet<T, S>) -> (r: HashSet<T, S>)
        ensures
            r@ == hs@,
    {
        HashSet { hs }
    }
}

impl<T, S> Collection for HashSet<T, S> {
    type Item = T;
}

impl<T, S> Deref for HashSet<T, S> {
    type Target = StdHashSet<T, S>;

    fn deref(&self) -> (r: &StdHashSet<T, S>)
        ensures
            r@ == self@,
    {
        &self.hs
    }
}

impl<T: Eq + Hash, S: BuildHasher> Contains for HashSet<T, S> {
    fn contains(&self, value: &T) -> (r: bool)
        ensures
            obeys_key_model::<T>() && builds_valid_hashers::<S>() ==> r == self@.contains(*value),
    {
        proof {
            broadcast use vstd::std_specs::hash::group_hash_axioms;
        }
        self.hs.contains(value)
    }
}

} // verus!
