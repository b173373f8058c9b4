//! A `Vec` as a sequence and a stack, pushed and popped at its back.
use vstd::prelude::*;

use std::ops::Deref;

use crate::kind::{Collection, SequenceKind};
use crate::ops::cardinality::Cardinality;
use crate::ops::constructor::Empty;
use crate::ops::sequence::{Back, Pop, Push};
use crate::stack::Stack;

verus! {

/// A stack on a `Vec`, pushed and popped at its back.
pub type VectorStack<T> = Stack<Vector<T>, Back>;

/// A `Vec` behind the operation traits.
pub struct Vector<T> {
    vec: Vec<T>,
}

impl<T> View for Vector<T> {
    type V = Seq<T>;

    closed spec fn view(&self) -> Seq<T> {
        self.vec@
    }
}

impl<T> SequenceKind for Vector<T> {}

impl<T> Vector<T> {
    /// The vector holding the items of `vec`, in order.
    pub fn wrap(vec: Vec<T>) -> (r: Vector<T>)
        ensures
            r@ == vec@,
    {
        Vector { vec }
    }
}

impl<T> Collection for Vector<T> {
    type Item = T;
}

impl<T> Deref for Vector<T> {
    type Target = Vec<T>;

    fn deref(&self) -> (r: &Vec<T>)
        ensures
            r@ == self@,
    {
        &self.vec
    }
}

impl<T> Empty for Vector<T> {
    fn empty() -> (r: Vector<T>)
        ensures
            r@ == Seq::<T>::empty(),
    {
        Vector::wrap(Vec::new())
    }
}

impl<T> Push<Back> for Vector<T> {
    fn push(&mut self, value: T)
        ensures
            final(self)@ == old(self)@.push(value),
    {
        self.vec.push(value);
    }
}

impl<T> Pop<Back> for Vector<T> {
    fn pop(&mut self) -> (r: Option<T>)
        ensures
            old(self)@.len() > 0 ==> r == Some(old(self)@.last()) && final(self)@ == old(self)@.drop_last(),
            old(self)@.len() == 0 ==> r is None && final(self)@ == old(self)@,
    {
        self.vec.pop()
    }
}

impl<T> Cardinality for Vector<T> {
    closed spec fn spec_size(&self) -> nat {
        self.vec@.len()
    }

    fn size(&self) -> (r: usize)
        ensures
            r == self@.len(),
    {
        self.vec.len()
    }
}

} // verus!
