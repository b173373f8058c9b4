//! Kinds of types: collections and ground values.
//!
//! A ground type is a value type that is never itself a wrapper or a
//! collection. Binary operators between an `Optional` and a bare value are
//! only offered where the bare value is of a ground type, so that the shape of
//! each operand pair selects exactly one rule. The set of ground types is
//! closed: each one is tagged below, one by one, and a new one must be added
//! here deliberately.
use vstd::prelude::*;

verus! {

/// A type that holds items of type `Item`.
pub trait Collection {
    type Item;
}

/// A collection whose items are kept in a sequence.
pub trait SequenceKind {}

/// A value type that is not a wrapper or a collection.
pub trait GroundType {}

impl GroundType for i8 {}

impl GroundType for u8 {}

impl GroundType for i16 {}

impl GroundType for u16 {}

impl GroundType for i32 {}

impl GroundType for u32 {}

impl GroundType for i64 {}

impl GroundType for u64 {}

impl GroundType for isize {}

impl GroundType for usize {}

impl GroundType for bool {}

impl GroundType for char {}

} // verus!
