//! Stacks: sequences pushed and popped at the same end.
use vstd::prelude::*;

use crate::ops::sequence::{Pop, Push};

verus! {

/// A sequence pushed and popped at the same end `Order`.
pub trait Stack<Order>: Push<Order> + Pop<Order> {}

impl<R, Order> Stack<Order> for R where R: Push<Order> + Pop<Order> {}

} // verus!
