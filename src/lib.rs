//! Generic operations on collections.
//!
//! Each capability of a collection (cardinality, construction, set algebra,
//! membership, sequences, lattice operations) is a trait of `ops`; the
//! wrappers of `wrappers` put std's collections, a bit set and an optional
//! value behind them. The optional value resolves each binary operator by the
//! shape of its operands, and `ops::conformance` checks the laws of a
//! bounded lattice on sample data.
use vstd::prelude::*;

pub mod kind;
pub mod kleene;
pub mod ops;
pub mod queue;
pub mod stack;
pub mod wrappers;

pub use kind::{Collection, GroundType, SequenceKind};
pub use kleene::Kleene;
pub use queue::Queue;
pub use stack::Stack;
pub use wrappers::bit_set::BitSetWrapper;
pub use wrappers::btree_set::BTreeSet;
pub use wrappers::hash_set::HashSet;
pub use wrappers::optional::Optional;
pub use wrappers::vector::{Vector, VectorStack};
pub use wrappers::vector_deque::{
    DequeBackFrontQueue, DequeBackStack, DequeFrontBackQueue, DequeFrontStack, VectorDeque,
};

verus! {

} // verus!
