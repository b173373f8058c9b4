//! Ground values seen as sets of one item: two of them are disjoint when
//! they differ, overlap when they are equal, and one is a subset of the other
//! when they are equal.
//!
//! `bool` is also the two-element lattice, `false` below `true`.
use vstd::prelude::*;

use crate::kleene::Kleene;
use crate::ops::lattice::{Bot, Entailment, Join, Meet, Top};
use crate::ops::set::{Disjoint, Overlap, Subset};

verus! {

impl Disjoint for i8 {
    open spec fn spec_disjoint(&self, rhs: &i8) -> bool {
        *self != *rhs
    }

    fn is_disjoint(&self, other: &i8) -> (r: bool) {
        *self != *other
    }
}

impl Overlap for i8 {
    open spec fn spec_overlap(&self, rhs: &i8) -> bool {
        *self == *rhs
    }

    fn overlap(&self, other: &i8) -> (r: bool) {
        *self == *other
    }
}

impl Subset for i8 {
    open spec fn spec_subset(&self, rhs: &i8) -> bool {
        *self == *rhs
    }

    fn is_subset(&self, other: &i8) -> (r: bool) {
        *self == *other
    }
}

impl Disjoint for u8 {
    open spec fn spec_disjoint(&self, rhs: &u8) -> bool {
        *self != *rhs
    }

    fn is_disjoint(&self, other: &u8) -> (r: bool) {
        *self != *other
    }
}

impl Overlap for u8 {
    open spec fn spec_overlap(&self, rhs: &u8) -> bool {
        *self == *rhs
    }

    fn overlap(&self, other: &u8) -> (r: bool) {
        *self == *other
    }
}

impl Subset for u8 {
    open spec fn spec_subset(&self, rhs: &u8) -> bool {
        *self == *rhs
    }

    fn is_subset(&self, other: &u8) -> (r: bool) {
        *self == *other
    }
}

impl Disjoint for i16 {
    open spec fn spec_disjoint(&self, rhs: &i16) -> bool {
        *self != *rhs
    }

    fn is_disjoint(&self, other: &i16) -> (r: bool) {
        *self != *other
    }
}

impl Overlap for i16 {
    open spec fn spec_overlap(&self, rhs: &i16) -> bool {
        *self == *rhs
    }

    fn overlap(&self, other: &i16) -> (r: bool) {
        *self == *other
    }
}

impl Subset for i16 {
    open spec fn spec_subset(&self, rhs: &i16) -> bool {
        *self == *rhs
    }

    fn is_subset(&self, other: &i16) -> (r: bool) {
        *self == *other
    }
}

impl Disjoint for u16 {
    open spec fn spec_disjoint(&self, rhs: &u16) -> bool {
        *self != *rhs
    }

    fn is_disjoint(&self, other: &u16) -> (r: bool) {
        *self != *other
    }
}

impl Overlap for u16 {
    open spec fn spec_overlap(&self, rhs: &u16) -> bool {
        *self == *rhs
    }

    fn overlap(&self, other: &u16) -> (r: bool) {
        *self == *other
    }
}

impl Subset for u16 {
    open spec fn spec_subset(&self, rhs: &u16) -> bool {
        *self == *rhs
    }

    fn is_subset(&self, other: &u16) -> (r: bool) {
        *self == *other
    }
}

impl Disjoint for i32 {
    open spec fn spec_disjoint(&self, rhs: &i32) -> bool {
        *self != *rhs
    }

    fn is_disjoint(&self, other: &i32) -> (r: bool) {
        *self != *other
    }
}

impl Overlap for i32 {
    open spec fn spec_overlap(&self, rhs: &i32) -> bool {
        *self == *rhs
    }

    fn overlap(&self, other: &i32) -> (r: bool) {
        *self == *other
    }
}

impl Subset for i32 {
    open spec fn spec_subset(&self, rhs: &i32) -> bool {
        *self == *rhs
    }

    fn is_subset(&self, other: &i32) -> (r: bool) {
        *self == *other
    }
}

impl Disjoint for u32 {
    open spec fn spec_disjoint(&self, rhs: &u32) -> bool {
        *self != *rhs
    }

    fn is_disjoint(&self, other: &u32) -> (r: bool) {
        *self != *other
    }
}

impl Overlap for u32 {
    open spec fn spec_overlap(&self, rhs: &u32) -> bool {
        *self == *rhs
    }

    fn overlap(&self, other: &u32) -> (r: bool) {
        *self == *other
    }
}

impl Subset for u32 {
    open spec fn spec_subset(&self, rhs: &u32) -> bool {
        *self == *rhs
    }

    fn is_subset(&self, other: &u32) -> (r: bool) {
        *self == *other
    }
}

impl Disjoint for i64 {
    open spec fn spec_disjoint(&self, rhs: &i64) -> bool {
        *self != *rhs
    }

    fn is_disjoint(&self, other: &i64) -> (r: bool) {
        *self != *other
    }
}

impl Overlap for i64 {
    open spec fn spec_overlap(&self, rhs: &i64) -> bool {
        *self == *rhs
    }

    fn overlap(&self, other: &i64) -> (r: bool) {
        *self == *other
    }
}

impl Subset for i64 {
    open spec fn spec_subset(&self, rhs: &i64) -> bool {
        *self == *rhs
    }

    fn is_subset(&self, other: &i64) -> (r: bool) {
        *self == *other
    }
}

impl Disjoint for u64 {
    open spec fn spec_disjoint(&self, rhs: &u64) -> bool {
        *self != *rhs
    }

    fn is_disjoint(&self, other: &u64) -> (r: bool) {
        *self != *other
    }
}

impl Overlap for u64 {
    open spec fn spec_overlap(&self, rhs: &u64) -> bool {
        *self == *rhs
    }

    fn overlap(&self, other: &u64) -> (r: bool) {
        *self == *other
    }
}

impl Subset for u64 {
    open spec fn spec_subset(&self, rhs: &u64) -> bool {
        *self == *rhs
    }

    fn is_subset(&self, other: &u64) -> (r: bool) {
        *self == *other
    }
}

impl Disjoint for isize {
    open spec fn spec_disjoint(&self, rhs: &isize) -> bool {
        *self != *rhs
    }

    fn is_disjoint(&self, other: &isize) -> (r: bool) {
        *self != *other
    }
}

impl Overlap for isize {
    open spec fn spec_overlap(&self, rhs: &isize) -> bool {
        *self == *rhs
    }

    fn overlap(&self, other: &isize) -> (r: bool) {
        *self == *other
    }
}

impl Subset for isize {
    open spec fn spec_subset(&self, rhs: &isize) -> bool {
        *self == *rhs
    }

    fn is_subset(&self, other: &isize) -> (r: bool) {
        *self == *other
    }
}

impl Disjoint for usize {
    open spec fn spec_disjoint(&self, rhs: &usize) -> bool {
        *self != *rhs
    }

    fn is_disjoint(&self, other: &usize) -> (r: bool) {
        *self != *other
    }
}

impl Overlap for usize {
    open spec fn spec_overlap(&self, rhs: &usize) -> bool {
        *self == *rhs
    }

    fn overlap(&self, other: &usize) -> (r: bool) {
        *self == *other
    }
}

impl Subset for usize {
    open spec fn spec_subset(&self, rhs: &usize) -> bool {
        *self == *rhs
    }

    fn is_subset(&self, other: &usize) -> (r: bool) {
        *self == *other
    }
}

impl Disjoint for bool {
    open spec fn spec_disjoint(&self, rhs: &bool) -> bool {
        *self != *rhs
    }

    fn is_disjoint(&self, other: &bool) -> (r: bool) {
        *self != *other
    }
}

impl Overlap for bool {
    open spec fn spec_overlap(&self, rhs: &bool) -> bool {
        *self == *rhs
    }

    fn overlap(&self, other: &bool) -> (r: bool) {
        *self == *other
    }
}

impl Subset for bool {
    open spec fn spec_subset(&self, rhs: &bool) -> bool {
        *self == *rhs
    }

    fn is_subset(&self, other: &bool) -> (r: bool) {
        *self == *other
    }
}

impl Disjoint for char {
    open spec fn spec_disjoint(&self, rhs: &char) -> bool {
        *self != *rhs
    }

    fn is_disjoint(&self, other: &char) -> (r: bool) {
        *self != *other
    }
}

impl Overlap for char {
    open spec fn spec_overlap(&self, rhs: &char) -> bool {
        *self == *rhs
    }

    fn overlap(&self, other: &char) -> (r: bool) {
        *self == *other
    }
}

impl Subset for char {
    open spec fn spec_subset(&self, rhs: &char) -> bool {
        *self == *rhs
    }

    fn is_subset(&self, other: &char) -> (r: bool) {
        *self == *other
    }
}

impl Join for bool {
    open spec fn spec_join(self, other: bool) -> bool {
        self || other
    }

    fn join(self, other: bool) -> (r: bool) {
        self || other
    }
}

impl Meet for bool {
    open spec fn spec_meet(self, other: bool) -> bool {
        self && other
    }

    fn meet(self, other: bool) -> (r: bool) {
        self && other
    }
}

impl Entailment for bool {
    /// `true` entails everything, `false` entails only `false`.
    open spec fn spec_entail(&self, other: &bool) -> Kleene {
        Kleene::spec_from_bool(*self || !*other)
    }

    fn entail(&self, other: &bool) -> (r: Kleene) {
        Kleene::from_bool(*self || !*other)
    }
}

impl Top for bool {
    open spec fn spec_top() -> bool {
        true
    }

    fn top() -> (r: bool) {
        true
    }
}

impl Bot for bool {
    open spec fn spec_bot() -> bool {
        false
    }

    fn bot() -> (r: bool) {
        false
    }
}

} // verus!
