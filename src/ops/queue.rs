//! Queues: sequences pushed at one end and popped at the other.
use vstd::prelude::*;

use crate::ops::sequence::{Back, Front, Pop, Push};

verus! {

/// A sequence pushed at the end `OrderPush` and popped at the opposite end
/// `OrderPop`.
pub trait Queue<OrderPush, OrderPop>: Push<OrderPush> + Pop<OrderPop> {}

impl<R> Queue<Back, Front> for R where R: Push<Back> + Pop<Front> {}

impl<R> Queue<Front, Back> for R where R: Push<Front> + Pop<Back> {}

} // verus!
