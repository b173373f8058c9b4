//! Constructors of collections.
use vstd::prelude::*;

use crate::kind::Collection;

verus! {

/// A collection that can be created with no item.
pub trait Empty: Sized {
    fn empty() -> Self;
}

/// A collection that can be created with exactly one item.
pub trait Singleton: Collection + Sized {
    fn singleton(value: Self::Item) -> Self;
}

} // verus!
