//! Collections that items can be put into and taken out of, in no stated
//! order.
use vstd::prelude::*;

use crate::kind::Collection;
use crate::ops::cardinality::IsEmpty;
use crate::ops::constructor::Empty;

verus! {

/// A collection that an item can be added to.
pub trait Insert: Collection {
    fn insert(&mut self, value: Self::Item);
}

/// A collection that an item can be taken out of, if it holds one.
pub trait Extract: Collection {
    fn extract(&mut self) -> Option<Self::Item>;
}

/// A collection with insertion, extraction, an emptiness test and an empty
/// constructor.
pub trait MultiSet: Insert + Extract + IsEmpty + Empty {}

impl<R> MultiSet for R where R: Insert + Extract + IsEmpty + Empty {}

} // verus!
