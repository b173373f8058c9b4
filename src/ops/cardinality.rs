//! The number of items held by a collection.
use vstd::prelude::*;

verus! {

/// A collection that can count its items.
pub trait Cardinality {
    spec fn spec_size(&self) -> nat;

    fn size(&self) -> (r: usize)
        ensures
            r as nat == self.spec_size(),
    ;
}

/// Whether a collection holds exactly one item.
pub trait IsSingleton {
    fn is_singleton(&self) -> bool;
}

/// Whether a collection holds no item.
pub trait IsEmpty {
    fn is_empty(&self) -> bool;
}

impl<R: Cardinality> IsSingleton for R {
    fn is_singleton(&self) -> (r: bool)
        ensures
            r == (self.spec_size() == 1),
    {
        self.size() == 1
    }
}

impl<R: Cardinality> IsEmpty for R {
    fn is_empty(&self) -> (r: bool)
        ensures
            r == (self.spec_size() == 0),
    {
        self.size() == 0
    }
}

} // verus!
