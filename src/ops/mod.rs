//! Operations on collections, one trait per capability.
pub mod bounded;
pub mod cardinality;
pub mod conformance;
pub mod constructor;
pub mod lattice;
pub mod multiset;
pub mod queue;
pub mod sequence;
pub mod set;
pub mod stack;

pub use self::bounded::{Bounded, ShrinkLeft, ShrinkRight, StrictShrinkLeft, StrictShrinkRight};
pub use self::cardinality::{Cardinality, IsEmpty, IsSingleton};
pub use self::constructor::{Empty, Singleton};
pub use self::lattice::{
    Bot, BoundedLattice, Entailment, Join, Lattice, Meet, StrictEntailment, Top,
};
pub use self::multiset::{Extract, Insert, MultiSet};
pub use self::queue::Queue;
pub use self::sequence::{Back, Front, Pop, Push, Sequence};
pub use self::set::{
    Complement, Contains, Difference, Disjoint, Intersection, Overlap, ProperSubset, Subset,
    SymmetricDifference, Union,
};
pub use self::stack::Stack;
