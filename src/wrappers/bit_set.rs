//! A set of small integers stored as bits, from the `bit_set` crate, behind
//! the operation traits.
use vstd::prelude::*;

use std::ops::Deref;

use crate::kind::{Collection, GroundType};
use crate::ops::set::{Contains, Difference, Intersection, SymmetricDifference, Union};

verus! {

#[verifier::external_type_specification]
#[verifier::external_body]
#[verifier::reject_recursive_types(B)]
pub struct ExBitSet<B>(bit_set::BitSet<B>);

/// The integers that a `bit_set::BitSet` holds.
pub uninterp spec fn bit_set_items(s: bit_set::BitSet) -> Set<usize>;

/// Relies on `bit_set::BitSet::clone`: the copy holds the same integers.
#[verifier::external_body]
fn bits_clone(s: &bit_set::BitSet) -> (r: bit_set::BitSet)
    ensures
        bit_set_items(r) == bit_set_items(*s),
{
    s.clone()
}

/// Relies on `bit_set::BitSet::contains`: whether `value` is held.
#[verifier::external_body]
fn bits_contains(s: &bit_set::BitSet, value: usize) -> (r: bool)
    ensures
        r == bit_set_items(*s).contains(value),
{
    s.contains(value)
}

/// Relies on `bit_set::BitSet::intersect_with`: keeps the integers also held
/// by `other`.
#[verifier::external_body]
fn bits_intersect_with(s: &mut bit_set::BitSet, other: &bit_set::BitSet)
    ensures
        bit_set_items(*final(s)) == bit_set_items(*old(s)).intersect(bit_set_items(*other)),
{
    s.intersect_with(other)
}

/// Relies on `bit_set::BitSet::union_with`: adds the integers held by
/// `other`.
#[verifier::external_body]
fn bits_union_with(s: &mut bit_set::BitSet, other: &bit_set::BitSet)
    ensures
        bit_set_items(*final(s)) == bit_set_items(*old(s)).union(bit_set_items(*other)),
{
    s.union_with(other)
}

/// Relies on `bit_set::BitSet::difference_with`: removes the integers held
/// by `other`.
#[verifier::external_body]
fn bits_difference_with(s: &mut bit_set::BitSet, other: &bit_set::BitSet)
    ensures
        bit_set_items(*final(s)) == bit_set_items(*old(s)).difference(bit_set_items(*other)),
{
    s.difference_with(other)
}

/// Relies on `bit_set::BitSet::symmetric_difference_with`: keeps the integers
/// held by exactly one of the two sets.
#[verifier::external_body]
fn bits_symmetric_difference_with(s: &mut bit_set::BitSet, other: &bit_set::BitSet)
    ensures
        bit_set_items(*final(s)) == bit_set_items(*old(s)).difference(bit_set_items(*other)).union(
            bit_set_items(*other).difference(bit_set_items(*old(s))),
        ),
{
    s.symmetric_difference_with(other)
}

/// A `bit_set::BitSet` behind the operation traits.
pub struct BitSetWrapper {
    bs: bit_set::BitSet,
}

impl View for BitSetWrapper {
    type V = Set<usize>;

    closed spec fn view(&self) -> Set<usize> {
        bit_set_items(self.bs)
    }
}

impl GroundType for BitSetWrapper {}

impl BitSetWrapper {
    /// The set holding the integers of `bs`.
    pub fn wrap(bs: bit_set::BitSet) -> (r: BitSetWrapper)
        ensures
            r@ == bit_set_items(bs),
    {
        BitSetWrapper { bs }
    }
}

impl Collection for BitSetWrapper {
    type Item = usize;
}

impl Deref for BitSetWrapper {
    type Target = bit_set::BitSet;

    fn deref(&self) -> (r: &bit_set::BitSet)
        ensures
            bit_set_items(*r) == self@,
    {
        &self.bs
    }
}

impl Contains for BitSetWrapper {
    fn contains(&self, value: &usize) -> (r: bool)
        ensures
            r == self@.contains(*value),
    {
        bits_contains(&self.bs, *value)
    }
}

impl Intersection for BitSetWrapper {
    type Output = BitSetWrapper;

    fn intersection(&self, other: &BitSetWrapper) -> (r: BitSetWrapper)
        ensures
            r@ == self@.intersect(other@),
    {
        let mut new = bits_clone(&self.bs);
        bits_intersect_with(&mut new, &other.bs);
        BitSetWrapper::wrap(new)
    }
}

impl Union for BitSetWrapper {
    type Output = BitSetWrapper;

    fn union(&self, other: &BitSetWrapper) -> (r: BitSetWrapper)
        ensures
            r@ == self@.union(other@),
    {
        let mut new = bits_clone(&self.bs);
        bits_union_with(&mut new, &other.bs);
        BitSetWrapper::wrap(new)
    }
}

impl Difference for BitSetWrapper {
    type Output = BitSetWrapper;

    fn difference(&self, other: &BitSetWrapper) -> (r: BitSetWrapper)
        ensures
            r@ == self@.difference(other@),
    {
        let mut new = bits_clone(&self.bs);
        bits_difference_with(&mut new, &other.bs);
        BitSetWrapper::wrap(new)
    }
}

impl SymmetricDifference for BitSetWrapper {
    type Output = BitSetWrapper;

    fn symmetric_difference(&self, other: &BitSetWrapper) -> (r: BitSetWrapper)
        ensures
            r@ == self@.difference(other@).union(other@.difference(self@)),
    {
        let mut new = bits_clone(&self.bs);
        bits_symmetric_difference_with(&mut new, &other.bs);
        BitSetWrapper::wrap(new)
    }
}

} // verus!
