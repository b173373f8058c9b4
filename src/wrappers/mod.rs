//! Collections of std and of other crates, and the optional value, behind
//! the operation traits of this library.
pub mod bit_set;
pub mod btree_set;
pub mod ground;
pub mod hash_set;
pub mod optional;
pub mod primitives;
pub mod vector;
pub mod vector_deque;

pub use self::bit_set::BitSetWrapper;
pub use self::btree_set::BTreeSet;
pub use self::hash_set::HashSet;
pub use self::optional::Optional;
pub use self::vector::{Vector, VectorStack};
pub use self::vector_deque::{
    DequeBackFrontQueue, DequeBackStack, DequeFrontBackQueue, DequeFrontStack, VectorDeque,
};
