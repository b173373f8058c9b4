//! A `VecDeque` as a sequence pushed and popped at either end, and the stacks
//! and queues on it.
use vstd::prelude::*;

use std::collections::VecDeque;
use std::ops::Deref;

use crate::kind::{Collection, SequenceKind};
use crate::ops::cardinality::Cardinality;
use crate::ops::constructor::Empty;
use crate::ops::sequence::{Back, Front, Pop, Push};
use crate::queue::Queue;
use crate::stack::Stack;

verus! {

/// A stack on a `VecDeque`, pushed and popped at its front.
pub type DequeFrontStack<T> = Stack<VectorDeque<T>, Front>;

/// A stack on a `VecDeque`, pushed and popped at its back.
pub type DequeBackStack<T> = Stack<VectorDeque<T>, Back>;

/// A queue on a `VecDeque`, pushed at its front and popped at its back.
pub type DequeFrontBackQueue<T> = Queue<VectorDeque<T>, Front, Back>;

/// A queue on a `VecDeque`, pushed at its back and popped at its front.
pub type DequeBackFrontQueue<T> = Queue<VectorDeque<T>, Back, Front>;

/// A `VecDeque` behind the operation traits.
pub struct VectorDeque<T> {
    deque: VecDeque<T>,
}

impl<T> View for VectorDeque<T> {
    type V = Seq<T>;

    closed spec fn view(&self) -> Seq<T> {
        self.deque@
    }
}

impl<T> SequenceKind for VectorDeque<T> {}

impl<T> VectorDeque<T> {
    /// The deque holding the items of `deque`, in order.
    pub fn wrap(deque: VecDeque<T>) -> (r: VectorDeque<T>)
        ensures
            r@ == deque@,
    {
        VectorDeque { deque }
    }
}

impl<T> Collection for VectorDeque<T> {
    type Item = T;
}

impl<T> Deref for VectorDeque<T> {
    type Target = VecDeque<T>;

    fn deref(&self) -> (r: &VecDeque<T>)
        ensures
            r@ == self@,
    {
        &self.deque
    }
}

impl<T> Empty for VectorDeque<T> {
    fn empty() -> (r: VectorDeque<T>)
        ensures
            r@ == Seq::<T>::empty(),
    {
        VectorDeque::wrap(VecDeque::new())
    }
}

impl<T> Push<Front> for VectorDeque<T> {
    fn push(&mut self, value: T)
        ensures
            final(self)@ == seq![value] + old(self)@,
    {
        self.deque.push_front(value);
    }
}

impl<T> Push<Back> for VectorDeque<T> {
    fn push(&mut self, value: T)
        ensures
            final(self)@ == old(self)@.push(value),
    {
        self.deque.push_back(value);
    }
}

impl<T> VectorDeque<T> {
    /// Takes the first item out, if there is one.
    pub fn pop_front(&mut self) -> (r: Option<T>)
        ensures
            old(self)@.len() > 0 ==> r == Some(old(self)@[0]) && final(self)@ == old(self)@.subrange(
                1,
                old(self)@.len() as int,
            ),
            old(self)@.len() == 0 ==> r is None && final(self)@ == old(self)@,
    {
        self.deque.pop_front()
    }

    /// Takes the last item out, if there is one.
    pub fn pop_back(&mut self) -> (r: Option<T>)
        ensures
            old(self)@.len() > 0 ==> r == Some(old(self)@.last()) && final(self)@ == old(self)@.drop_last(),
            old(self)@.len() == 0 ==> r is None && final(self)@ == old(self)@,
    {
        self.deque.pop_back()
    }
}

impl<T> Pop<Front> for VectorDeque<T> {
    fn pop(&mut self) -> Option<T> {
        self.pop_front()
    }
}

impl<T> Pop<Back> for VectorDeque<T> {
    fn pop(&mut self) -> Option<T> {
        self.pop_back()
    }
}

impl<T> Cardinality for VectorDeque<T> {
    closed spec fn spec_size(&self) -> nat {
        self.deque@.len()
    }

    fn size(&self) -> (r: usize)
        ensures
            r == self@.len(),
    {
        self.deque.len()
    }
}

} // verus!
