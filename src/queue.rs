//! A queue on a sequence, pushed at the end `OrdPush` and popped at the end
//! `OrdPop`.
use vstd::prelude::*;

use std::marker::PhantomData;
use std::ops::Deref;

use crate::kind::Collection;
use crate::ops::cardinality::Cardinality;
use crate::ops::constructor::Empty;
use crate::ops::multiset::{Extract, Insert};
use crate::ops::sequence::{Pop, Push};

verus! {

/// A queue on the sequence `S`: items are inserted at the end `OrdPush` and
/// extracted at the end `OrdPop`.
pub struct Queue<S, OrdPush, OrdPop> {
    seq: S,
    phantom_ord_push: PhantomData<OrdPush>,
    phantom_ord_pop: PhantomData<OrdPop>,
}

impl<S, OrdPush, OrdPop> Queue<S, OrdPush, OrdPop> {
    /// The sequence under the queue.
    pub closed spec fn inner(self) -> S {
        self.seq
    }

    /// The queue on `seq`.
    pub fn wrap(seq: S) -> (r: Self)
        ensures
            r.inner() == seq,
    {
        Queue { seq, phantom_ord_push: PhantomData, phantom_ord_pop: PhantomData }
    }
}

impl<S: Collection, OrdPush, OrdPop> Collection for Queue<S, OrdPush, OrdPop> {
    type Item = S::Item;
}

impl<S, OrdPush, OrdPop> Deref for Queue<S, OrdPush, OrdPop> {
    type Target = S;

    fn deref(&self) -> (r: &S)
        ensures
            *r == self.inner(),
    {
        &self.seq
    }
}

impl<S: Empty, OrdPush, OrdPop> Empty for Queue<S, OrdPush, OrdPop> {
    fn empty() -> (r: Self) {
        Queue::wrap(S::empty())
    }
}

impl<S: Cardinality, OrdPush, OrdPop> Cardinality for Queue<S, OrdPush, OrdPop> {
    closed spec fn spec_size(&self) -> nat {
        self.seq.spec_size()
    }

    fn size(&self) -> (r: usize)
        ensures
            r == self.inner().spec_size(),
    {
        self.seq.size()
    }
}

impl<S: Push<OrdPush>, OrdPush, OrdPop> Insert for Queue<S, OrdPush, OrdPop> {
    fn insert(&mut self, value: S::Item) {
        self.seq.push(value);
    }
}

impl<S: Pop<OrdPop>, OrdPush, OrdPop> Extract for Queue<S, OrdPush, OrdPop> {
    fn extract(&mut self) -> (r: Option<S::Item>) {
        self.seq.pop()
    }
}

} // verus!
