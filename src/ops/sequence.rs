//! Sequences, which add and remove items at either end.
use vstd::prelude::*;

use crate::kind::Collection;
use crate::ops::cardinality::Cardinality;
use crate::ops::constructor::Empty;

verus! {

/// The back end of a sequence.
pub struct Back;

/// The front end of a sequence.
pub struct Front;

/// A sequence that an item can be added to at the end `Order`.
pub trait Push<Order>: Collection {
    fn push(&mut self, value: Self::Item);
}

/// A sequence that an item can be taken from at the end `Order`.
pub trait Pop<Order>: Collection {
    fn pop(&mut self) -> Option<Self::Item>;
}

/// A counted sequence with an empty constructor, pushed at one end and popped
/// at one end.
pub trait Sequence<OrderPush, OrderPop>: Push<OrderPush> + Pop<OrderPop> + Cardinality + Empty {}

impl<R, OrderPush, OrderPop> Sequence<OrderPush, OrderPop> for R where
    R: Push<OrderPush> + Pop<OrderPop> + Cardinality + Empty,
 {}

} // verus!
