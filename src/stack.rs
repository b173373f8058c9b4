//! A stack on a sequence, pushed and popped at the end `Ordering`.
use vstd::prelude::*;

use std::marker::PhantomData;
use std::ops::Deref;

use crate::kind::Collection;
use crate::ops::cardinality::Cardinality;
use crate::ops::constructor::Empty;
use crate::ops::multiset::{Extract, Insert};
use crate::ops::sequence::{Pop, Push};

verus! {

/// A stack on the sequence `S`: items are inserted and extracted at the end
/// `Ordering`.
pub struct Stack<S, Ordering> {
    seq: S,
    phantom_ordering: PhantomData<Ordering>,
}

impl<S, Ordering> Stack<S, Ordering> {
    /// The sequence under the stack.
    pub closed spec fn inner(self) -> S {
        self.seq
    }

    /// The stack on `seq`.
    pub fn wrap(seq: S) -> (r: Self)
        ensures
            r.inner() == seq,
    {
        Stack { seq, phantom_ordering: PhantomData }
    }
}

impl<S: Collection, Ordering> Collection for Stack<S, Ordering> {
    type Item = S::Item;
}

impl<S, Ordering> Deref for Stack<S, Ordering> {
    type Target = S;

    fn deref(&self) -> (r: &S)
        ensures
            *r == self.inner(),
    {
        &self.seq
    }
}

impl<S: Empty, Ordering> Empty for Stack<S, Ordering> {
    fn empty() -> (r: Self) {
        Stack::wrap(S::empty())
    }
}

impl<S: Cardinality, Ordering> Cardinality for Stack<S, Ordering> {
    closed spec fn spec_size(&self) -> nat {
        self.seq.spec_size()
    }

    fn size(&self) -> (r: usize)
        ensures
            r == self.inner().spec_size(),
    {
        self.seq.size()
    }
}

impl<S: Push<Ordering>, Ordering> Insert for Stack<S, Ordering> {
    fn insert(&mut self, value: S::Item) {
        self.seq.push(value);
    }
}

impl<S: Pop<Ordering>, Ordering> Extract for Stack<S, Ordering> {
    fn extract(&mut self) -> (r: Option<S::Item>) {
        self.seq.pop()
    }
}

} // verus!
