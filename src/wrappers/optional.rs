//! A container of at most one value, with binary operators dispatched on the
//! shape of their operands.
//!
//! Each binary operator has two generic rules: one between two optional
//! values, and one between an optional value and a bare value of a ground
//! type. The third shape, a ground value on the left of an optional value,
//! is written for each ground type in `ground`.
use vstd::prelude::*;
use vstd::laws_eq::obeys_concrete_eq;
use vstd::std_specs::cmp::PartialEqSpec;
use vstd::std_specs::ops::{AddSpec, MulSpec, SubSpec};

use std::ops::{Add, Mul, Sub};

use crate::kind::{Collection, GroundType};
use crate::kleene::Kleene;
use crate::ops::lattice::{Bot, Entailment, Join, Meet, Top};
use crate::ops::cardinality::Cardinality;
use crate::ops::constructor::{Empty, Singleton};
use crate::ops::set::{
    Contains, Difference, Disjoint, Intersection, Overlap, ProperSubset, Subset,
};

verus! {

/// A container holding zero or one value of type `T`.
///
/// Its content is open to read and to replace, as an `Option` would be.
#[derive(Copy, PartialOrd, Ord, Debug)]
pub struct Optional<T> {
    pub value: Option<T>,
}

impl<T> View for Optional<T> {
    type V = Option<T>;

    open spec fn view(&self) -> Option<T> {
        self.value
    }
}

/// The value that applying `f` to the contents of `x` and `y` gives when both
/// hold one, and none otherwise.
pub open spec fn lift2<T, U, R>(x: Option<T>, y: Option<U>, f: spec_fn(T, U) -> R) -> Option<R> {
    match (x, y) {
        (Some(a), Some(b)) => Some(f(a, b)),
        _ => None,
    }
}

/// Applies `f` to the contents of `x` and `y` when both hold one; `default`
/// otherwise.
fn binary_map_unwrap_or<T, U, R, F>(x: &Optional<T>, y: &Optional<U>, default: R, f: F) -> (r: R) where
    F: FnOnce(&T, &U) -> R,

    requires
        x@ is Some && y@ is Some ==> f.requires((&x@->0, &y@->0)),
    ensures
        x@ is Some && y@ is Some ==> f.ensures((&x@->0, &y@->0), r),
        !(x@ is Some && y@ is Some) ==> r == default,
{
    match (&x.value, &y.value) {
        (Some(a), Some(b)) => f(a, b),
        _ => default,
    }
}

/// Applies `f` to the content of `x` and to `y` when `x` holds a value;
/// `default` otherwise.
fn binary_value_map_unwrap_or<T, U, R, F>(x: &Optional<T>, y: &U, default: R, f: F) -> (r: R) where
    F: FnOnce(&T, &U) -> R,

    requires
        x@ is Some ==> f.requires((&x@->0, y)),
    ensures
        x@ is Some ==> f.ensures((&x@->0, y), r),
        x@ is None ==> r == default,
{
    match &x.value {
        Some(a) => f(a, y),
        None => default,
    }
}

/// Wraps `f` of the content of `x` and of `y` when `x` holds a value; the
/// empty value otherwise.
fn binary_value_map<T, U, R, F>(x: Optional<T>, y: U, f: F) -> (r: Optional<R>) where
    F: FnOnce(T, U) -> R,

    requires
        x@ is Some ==> f.requires((x@->0, y)),
    ensures
        x@ is Some ==> r@ is Some && f.ensures((x@->0, y), r@->0),
        x@ is None ==> r@ is None,
{
    match x.value {
        Some(a) => Optional::singleton(f(a, y)),
        None => Optional::empty(),
    }
}

/// Wraps `f` of the contents of `x` and `y` when both hold a value; the empty
/// value otherwise.
fn binary_map<T, U, R, F>(x: Optional<T>, y: Optional<U>, f: F) -> (r: Optional<R>) where
    F: FnOnce(T, U) -> R,

    requires
        x@ is Some && y@ is Some ==> f.requires((x@->0, y@->0)),
    ensures
        x@ is Some && y@ is Some ==> r@ is Some && f.ensures((x@->0, y@->0), r@->0),
        !(x@ is Some && y@ is Some) ==> r@ is None,
{
    match (x.value, y.value) {
        (Some(a), Some(b)) => Optional::singleton(f(a, b)),
        _ => Optional::empty(),
    }
}

/// What the intersection of `a` and `b` holds: the value of `a` where both
/// hold equal values, nothing otherwise.
pub open spec fn intersection_of<T: PartialEq>(a: Option<T>, b: Option<T>) -> Option<T> {
    match (a, b) {
        (Some(x), Some(y)) => if x.eq_spec(&y) {
            Some(x)
        } else {
            None
        },
        _ => None,
    }
}

/// What `a` without `b` holds: the value of `a` unless `b` holds an equal
/// one.
pub open spec fn difference_of<T: PartialEq>(a: Option<T>, b: Option<T>) -> Option<T> {
    match (a, b) {
        (Some(x), Some(y)) => if x.eq_spec(&y) {
            None
        } else {
            Some(x)
        },
        (Some(x), None) => Some(x),
        _ => None,
    }
}

impl<T> Optional<T> {
    /// The optional value holding what `value` holds.
    pub fn wrap(value: Option<T>) -> (r: Optional<T>)
        ensures
            r@ == value,
    {
        Optional { value }
    }

    /// What this optional value holds, as an `Option`.
    pub fn unwrap(self) -> (r: Option<T>)
        ensures
            r == self@,
    {
        self.value
    }
}

impl<T: Clone> Clone for Optional<T> {
    fn clone(&self) -> (r: Self)
        ensures
            r@ is None <==> self@ is None,
            self@ is Some ==> cloned::<T>(self@->0, r@->0),
    {
        match &self.value {
            Some(x) => Optional { value: Some(x.clone()) },
            None => Optional { value: None },
        }
    }
}

impl<T: PartialEq> PartialEq for Optional<T> {
    fn eq(&self, other: &Self) -> (r: bool) {
        match (&self.value, &other.value) {
            (Some(x), Some(y)) => *x == *y,
            (None, None) => true,
            _ => false,
        }
    }
}

impl<T: PartialEq> vstd::std_specs::cmp::PartialEqSpecImpl for Optional<T> {
    open spec fn obeys_eq_spec() -> bool {
        T::obeys_eq_spec()
    }

    open spec fn eq_spec(&self, other: &Self) -> bool {
        match (self@, other@) {
            (Some(x), Some(y)) => x.eq_spec(&y),
            (None, None) => true,
            _ => false,
        }
    }
}

impl<T: Eq> Eq for Optional<T> {

}

impl<T> Collection for Optional<T> {
    type Item = T;
}

impl<T> Cardinality for Optional<T> {
    open spec fn spec_size(&self) -> nat {
        if self@ is Some {
            1
        } else {
            0
        }
    }

    fn size(&self) -> (r: usize) {
        match &self.value {
            Some(_) => 1,
            None => 0,
        }
    }
}

impl<T> Singleton for Optional<T> {
    fn singleton(value: T) -> (r: Optional<T>)
        ensures
            r@ == Some(value),
    {
        Optional::wrap(Some(value))
    }
}

impl<T> Empty for Optional<T> {
    fn empty() -> (r: Optional<T>)
        ensures
            r@ is None,
    {
        Optional::wrap(None)
    }
}

impl<T> Intersection<Optional<T>> for Optional<T> where T: Clone + PartialEq {
    type Output = Optional<T>;

    /// A copy of `self` where both hold equal values; empty otherwise.
    fn intersection(&self, other: &Optional<T>) -> (r: Optional<T>)
        ensures
            T::obeys_eq_spec() ==> (r@ is Some <==> intersection_of(self@, other@) is Some),
            r@ is Some ==> self@ is Some && cloned::<T>(self@->0, r@->0),
    {
        match (&self.value, &other.value) {
            (Some(x), Some(y)) => {
                if *x == *y {
                    Optional::singleton(x.clone())
                } else {
                    Optional::empty()
                }
            },
            _ => Optional::empty(),
        }
    }
}

impl<T> Intersection<T> for Optional<T> where T: Clone + PartialEq + GroundType {
    type Output = Optional<T>;

    /// A copy of `self` where it holds a value equal to `other`; empty
    /// otherwise.
    fn intersection(&self, other: &T) -> (r: Optional<T>)
        ensures
            T::obeys_eq_spec() ==> (r@ is Some <==> intersection_of(self@, Some(*other)) is Some),
            r@ is Some ==> self@ is Some && cloned::<T>(self@->0, r@->0),
    {
        match &self.value {
            Some(x) => {
                if *x == *other {
                    Optional::singleton(x.clone())
                } else {
                    Optional::empty()
                }
            },
            None => Optional::empty(),
        }
    }
}

impl<T> Difference<Optional<T>> for Optional<T> where T: Clone + PartialEq {
    type Output = Optional<T>;

    /// Empty where `self` is empty or both hold equal values; a copy of
    /// `self` otherwise.
    fn difference(&self, other: &Optional<T>) -> (r: Optional<T>)
        ensures
            T::obeys_eq_spec() ==> (r@ is Some <==> difference_of(self@, other@) is Some),
            r@ is Some ==> self@ is Some && cloned::<T>(self@->0, r@->0),
    {
        match (&self.value, &other.value) {
            (Some(x), Some(y)) => {
                if *x == *y {
                    Optional::empty()
                } else {
                    Optional::singleton(x.clone())
                }
            },
            (Some(x), None) => Optional::singleton(x.clone()),
            _ => Optional::empty(),
        }
    }
}

impl<T> Difference<T> for Optional<T> where T: Clone + PartialEq + GroundType {
    type Output = Optional<T>;

    /// Empty where `self` is empty or holds a value equal to `other`; a copy
    /// of `self` otherwise.
    fn difference(&self, other: &T) -> (r: Optional<T>)
        ensures
            T::obeys_eq_spec() ==> (r@ is Some <==> difference_of(self@, Some(*other)) is Some),
            r@ is Some ==> self@ is Some && cloned::<T>(self@->0, r@->0),
    {
        match &self.value {
            Some(x) => {
                if *x == *other {
                    Optional::empty()
                } else {
                    Optional::singleton(x.clone())
                }
            },
            None => Optional::empty(),
        }
    }
}

impl<T, U> Disjoint<Optional<U>> for Optional<T> where T: Disjoint<U> {
    /// True where either side is empty; the disjointness of the two values
    /// otherwise.
    open spec fn spec_disjoint(&self, rhs: &Optional<U>) -> bool {
        match (self@, rhs@) {
            (Some(x), Some(y)) => x.spec_disjoint(&y),
            _ => true,
        }
    }

    fn is_disjoint(&self, other: &Optional<U>) -> (r: bool) {
        match (&self.value, &other.value) {
            (Some(x), Some(y)) => x.is_disjoint(y),
            _ => true,
        }
    }
}

impl<T, U> Disjoint<U> for Optional<T> where T: Disjoint<U>, U: GroundType {
    /// True where `self` is empty; the disjointness of its value and `rhs`
    /// otherwise.
    open spec fn spec_disjoint(&self, rhs: &U) -> bool {
        match self@ {
            Some(x) => x.spec_disjoint(rhs),
            None => true,
        }
    }

    fn is_disjoint(&self, other: &U) -> (r: bool) {
        match &self.value {
            Some(x) => x.is_disjoint(other),
            None => true,
        }
    }
}

impl<T> Contains for Optional<T> where T: Eq {
    /// Whether `self` holds a value equal to `value`.
    fn contains(&self, value: &T) -> (r: bool)
        ensures
            T::obeys_eq_spec() ==> r == (self@ is Some && self@->0.eq_spec(value)),
    {
        match &self.value {
            Some(x) => *x == *value,
            None => false,
        }
    }
}

impl<T> Subset<Optional<T>> for Optional<T> where T: Subset {
    /// The empty value is a subset of every value, and no value but the
    /// empty one is a subset of the empty value.
    open spec fn spec_subset(&self, rhs: &Optional<T>) -> bool {
        match (self@, rhs@) {
            (None, _) => true,
            (Some(_), None) => false,
            (Some(x), Some(y)) => x.spec_subset(&y),
        }
    }

    fn is_subset(&self, other: &Optional<T>) -> (r: bool) {
        match (&self.value, &other.value) {
            (None, _) => true,
            (Some(_), None) => false,
            (Some(x), Some(y)) => x.is_subset(y),
        }
    }
}

impl<T> ProperSubset<Optional<T>> for Optional<T> where T: Subset + PartialEq {
    /// A subset that differs from `other`.
    fn is_proper_subset(&self, other: &Optional<T>) -> (r: bool)
        ensures
            T::obeys_eq_spec() ==> r == (self.spec_subset(other) && !self.eq_spec(other)),
    {
        self.is_subset(other) && *self != *other
    }
}

impl<T, U> Overlap<Optional<U>> for Optional<T> where T: Overlap<U> {
    /// False where either side is empty; the overlap of the two values
    /// otherwise.
    open spec fn spec_overlap(&self, rhs: &Optional<U>) -> bool {
        match (self@, rhs@) {
            (Some(x), Some(y)) => x.spec_overlap(&y),
            _ => false,
        }
    }

    fn overlap(&self, other: &Optional<U>) -> (r: bool) {
        binary_map_unwrap_or(self, other, false, T::overlap)
    }
}

impl<T, U> Overlap<U> for Optional<T> where T: Overlap<U>, U: GroundType {
    /// False where `self` is empty; the overlap of its value and `rhs`
    /// otherwise.
    open spec fn spec_overlap(&self, rhs: &U) -> bool {
        match self@ {
            Some(x) => x.spec_overlap(rhs),
            None => false,
        }
    }

    fn overlap(&self, other: &U) -> (r: bool) {
        binary_value_map_unwrap_or(self, other, false, T::overlap)
    }
}

impl<T, U, R> Add<Optional<U>> for Optional<T> where T: Add<U, Output = R> {
    type Output = Optional<R>;

    /// The sum of the two values where both hold one; empty otherwise.
    fn add(self, other: Optional<U>) -> (r: Optional<R>)
        ensures
            T::obeys_add_spec() ==> r@ == lift2(self@, other@, |x: T, y: U| x.add_spec(y)),
    {
        binary_map(self, other, T::add)
    }
}

impl<T, U, R> vstd::std_specs::ops::AddSpecImpl<Optional<U>> for Optional<T> where T: Add<U, Output = R> {
    open spec fn obeys_add_spec() -> bool {
        T::obeys_add_spec()
    }

    open spec fn add_req(self, rhs: Optional<U>) -> bool {
        self@ is Some && rhs@ is Some ==> self@->0.add_req(rhs@->0)
    }

    open spec fn add_spec(self, rhs: Optional<U>) -> Optional<R> {
        Optional { value: lift2(self@, rhs@, |x: T, y: U| x.add_spec(y)) }
    }
}

impl<T, U, R> Add<U> for Optional<T> where T: Add<U, Output = R>, U: GroundType {
    type Output = Optional<R>;

    /// The sum of the value of `self` and `other` where `self` holds one;
    /// empty otherwise.
    fn add(self, other: U) -> (r: Optional<R>)
        ensures
            T::obeys_add_spec() ==> r@ == lift2(self@, Some(other), |x: T, y: U| x.add_spec(y)),
    {
        let f = |x: T, y: U| -> (z: R)
            requires
                x.add_req(y),
            ensures
                T::obeys_add_spec() ==> z == x.add_spec(y),
            { x.add(y) };
        binary_value_map(self, other, f)
    }
}

impl<T, U, R> vstd::std_specs::ops::AddSpecImpl<U> for Optional<T> where T: Add<U, Output = R>, U: GroundType {
    open spec fn obeys_add_spec() -> bool {
        T::obeys_add_spec()
    }

    open spec fn add_req(self, rhs: U) -> bool {
        self@ is Some ==> self@->0.add_req(rhs)
    }

    open spec fn add_spec(self, rhs: U) -> Optional<R> {
        Optional { value: lift2(self@, Some(rhs), |x: T, y: U| x.add_spec(y)) }
    }
}

impl<T, U, R> Sub<Optional<U>> for Optional<T> where T: Sub<U, Output = R> {
    type Output = Optional<R>;

    /// The difference of the two values where both hold one; empty otherwise.
    fn sub(self, other: Optional<U>) -> (r: Optional<R>)
        ensures
            T::obeys_sub_spec() ==> r@ == lift2(self@, other@, |x: T, y: U| x.sub_spec(y)),
    {
        binary_map(self, other, T::sub)
    }
}

impl<T, U, R> vstd::std_specs::ops::SubSpecImpl<Optional<U>> for Optional<T> where T: Sub<U, Output = R> {
    open spec fn obeys_sub_spec() -> bool {
        T::obeys_sub_spec()
    }

    open spec fn sub_req(self, rhs: Optional<U>) -> bool {
        self@ is Some && rhs@ is Some ==> self@->0.sub_req(rhs@->0)
    }

    open spec fn sub_spec(self, rhs: Optional<U>) -> Optional<R> {
        Optional { value: lift2(self@, rhs@, |x: T, y: U| x.sub_spec(y)) }
    }
}

impl<T, U, R> Sub<U> for Optional<T> where T: Sub<U, Output = R>, U: GroundType {
    type Output = Optional<R>;

    /// The difference of the value of `self` and `other` where `self` holds one;
    /// empty otherwise.
    fn sub(self, other: U) -> (r: Optional<R>)
        ensures
            T::obeys_sub_spec() ==> r@ == lift2(self@, Some(other), |x: T, y: U| x.sub_spec(y)),
    {
        let f = |x: T, y: U| -> (z: R)
            requires
                x.sub_req(y),
            ensures
                T::obeys_sub_spec() ==> z == x.sub_spec(y),
            { x.sub(y) };
        binary_value_map(self, other, f)
    }
}

impl<T, U, R> vstd::std_specs::ops::SubSpecImpl<U> for Optional<T> where T: Sub<U, Output = R>, U: GroundType {
    open spec fn obeys_sub_spec() -> bool {
        T::obeys_sub_spec()
    }

    open spec fn sub_req(self, rhs: U) -> bool {
        self@ is Some ==> self@->0.sub_req(rhs)
    }

    open spec fn sub_spec(self, rhs: U) -> Optional<R> {
        Optional { value: lift2(self@, Some(rhs), |x: T, y: U| x.sub_spec(y)) }
    }
}

impl<T, U, R> Mul<Optional<U>> for Optional<T> where T: Mul<U, Output = R> {
    type Output = Optional<R>;

    /// The product of the two values where both hold one; empty otherwise.
    fn mul(self, other: Optional<U>) -> (r: Optional<R>)
        ensures
            T::obeys_mul_spec() ==> r@ == lift2(self@, other@, |x: T, y: U| x.mul_spec(y)),
    {
        binary_map(self, other, T::mul)
    }
}

impl<T, U, R> vstd::std_specs::ops::MulSpecImpl<Optional<U>> for Optional<T> where T: Mul<U, Output = R> {
    open spec fn obeys_mul_spec() -> bool {
        T::obeys_mul_spec()
    }

    open spec fn mul_req(self, rhs: Optional<U>) -> bool {
        self@ is Some && rhs@ is Some ==> self@->0.mul_req(rhs@->0)
    }

    open spec fn mul_spec(self, rhs: Optional<U>) -> Optional<R> {
        Optional { value: lift2(self@, rhs@, |x: T, y: U| x.mul_spec(y)) }
    }
}

impl<T, U, R> Mul<U> for Optional<T> where T: Mul<U, Output = R>, U: GroundType {
    type Output = Optional<R>;

    /// The product of the value of `self` and `other` where `self` holds one;
    /// empty otherwise.
    fn mul(self, other: U) -> (r: Optional<R>)
        ensures
            T::obeys_mul_spec() ==> r@ == lift2(self@, Some(other), |x: T, y: U| x.mul_spec(y)),
    {
        let f = |x: T, y: U| -> (z: R)
            requires
                x.mul_req(y),
            ensures
                T::obeys_mul_spec() ==> z == x.mul_spec(y),
            { x.mul(y) };
        binary_value_map(self, other, f)
    }
}

impl<T, U, R> vstd::std_specs::ops::MulSpecImpl<U> for Optional<T> where T: Mul<U, Output = R>, U: GroundType {
    open spec fn obeys_mul_spec() -> bool {
        T::obeys_mul_spec()
    }

    open spec fn mul_req(self, rhs: U) -> bool {
        self@ is Some ==> self@->0.mul_req(rhs)
    }

    open spec fn mul_spec(self, rhs: U) -> Optional<R> {
        Optional { value: lift2(self@, Some(rhs), |x: T, y: U| x.mul_spec(y)) }
    }
}

// An optional value over a lattice is that lattice with a new least element,
// the empty value, below every other.

impl<T: Join> Join for Optional<T> {
    open spec fn spec_join(self, other: Self) -> Self {
        match (self@, other@) {
            (None, _) => other,
            (_, None) => self,
            (Some(x), Some(y)) => Optional { value: Some(x.spec_join(y)) },
        }
    }

    fn join(self, other: Self) -> (r: Self) {
        match (self.value, other.value) {
            (None, y) => Optional { value: y },
            (Some(x), None) => Optional { value: Some(x) },
            (Some(x), Some(y)) => Optional { value: Some(x.join(y)) },
        }
    }
}

impl<T: Meet> Meet for Optional<T> {
    open spec fn spec_meet(self, other: Self) -> Self {
        match (self@, other@) {
            (Some(x), Some(y)) => Optional { value: Some(x.spec_meet(y)) },
            _ => Optional { value: None },
        }
    }

    fn meet(self, other: Self) -> (r: Self) {
        match (self.value, other.value) {
            (Some(x), Some(y)) => Optional { value: Some(x.meet(y)) },
            _ => Optional { value: None },
        }
    }
}

impl<T: Entailment> Entailment for Optional<T> {
    /// Every value entails the empty one, the empty value entails no other,
    /// and two held values are compared by their own entailment.
    open spec fn spec_entail(&self, other: &Self) -> Kleene {
        match (self@, other@) {
            (_, None) => Kleene::True,
            (None, Some(_)) => Kleene::False,
            (Some(x), Some(y)) => x.spec_entail(&y),
        }
    }

    fn entail(&self, other: &Self) -> (r: Kleene) {
        match (&self.value, &other.value) {
            (_, None) => Kleene::True,
            (None, Some(_)) => Kleene::False,
            (Some(x), Some(y)) => x.entail(y),
        }
    }
}

impl<T: Top> Top for Optional<T> {
    open spec fn spec_top() -> Self {
        Optional { value: Some(T::spec_top()) }
    }

    fn top() -> (r: Self) {
        Optional { value: Some(T::top()) }
    }
}

impl<T> Bot for Optional<T> {
    open spec fn spec_bot() -> Self {
        Optional { value: None }
    }

    fn bot() -> (r: Self) {
        Optional { value: None }
    }
}

/// Join and meet of optional values are commutative where they are so on the
/// values held.
pub proof fn lemma_join_meet_commutative<T: Join + Meet>(a: Optional<T>, b: Optional<T>)
    requires
        forall|x: T, y: T| #[trigger] x.spec_join(y) == y.spec_join(x),
        forall|x: T, y: T| #[trigger] x.spec_meet(y) == y.spec_meet(x),
    ensures
        a.spec_join(b) == b.spec_join(a),
        a.spec_meet(b) == b.spec_meet(a),
{
    if a@ is Some && b@ is Some {
        assert(a@->0.spec_join(b@->0) == b@->0.spec_join(a@->0));
        assert(a@->0.spec_meet(b@->0) == b@->0.spec_meet(a@->0));
    }
}

/// Join and meet of optional values are idempotent where they are so on the
/// values held.
pub proof fn lemma_join_meet_idempotent<T: Join + Meet>(a: Optional<T>)
    requires
        forall|x: T| #[trigger] x.spec_join(x) == x,
        forall|x: T| #[trigger] x.spec_meet(x) == x,
    ensures
        a.spec_join(a) == a,
        a.spec_meet(a) == a,
{
    if a@ is Some {
        assert(a@->0.spec_join(a@->0) == a@->0);
        assert(a@->0.spec_meet(a@->0) == a@->0);
    }
}

/// Top absorbs every optional value under join and is the unit of meet;
/// bottom, the empty value, absorbs every one under meet and is the unit of
/// join; where the same holds of the top and bottom of the values held.
pub proof fn lemma_top_bot<T: Join + Meet + Top + Bot>(a: Optional<T>)
    requires
        forall|x: T| #[trigger] x.spec_join(T::spec_top()) == T::spec_top(),
        forall|x: T| #[trigger] x.spec_meet(T::spec_top()) == x,
    ensures
        a.spec_join(Optional::<T>::spec_top()) == Optional::<T>::spec_top(),
        a.spec_meet(Optional::<T>::spec_bot()) == Optional::<T>::spec_bot(),
        a.spec_join(Optional::<T>::spec_bot()) == a,
        a.spec_meet(Optional::<T>::spec_top()) == a,
{
    if a@ is Some {
        assert(a@->0.spec_join(T::spec_top()) == T::spec_top());
        assert(a@->0.spec_meet(T::spec_top()) == a@->0);
    }
}

/// Optional booleans, the chain empty < `false` < `true`, are commutative,
/// idempotent, and absorbed by or united with top and bottom as a bounded
/// lattice must be.
pub proof fn lemma_optional_bool_lattice(a: Optional<bool>, b: Optional<bool>)
    ensures
        a.spec_join(b) == b.spec_join(a),
        a.spec_meet(b) == b.spec_meet(a),
        a.spec_join(a) == a,
        a.spec_meet(a) == a,
        a.spec_join(Optional::<bool>::spec_top()) == Optional::<bool>::spec_top(),
        a.spec_meet(Optional::<bool>::spec_bot()) == Optional::<bool>::spec_bot(),
        a.spec_join(Optional::<bool>::spec_bot()) == a,
        a.spec_meet(Optional::<bool>::spec_top()) == a,
{
    lemma_join_meet_commutative(a, b);
    lemma_join_meet_idempotent(a);
    lemma_top_bot(a);
}

/// Intersecting the empty value with itself leaves it empty, and taking a
/// held value away from itself leaves nothing.
pub proof fn lemma_round_trip<T: PartialEq>(x: T)
    requires
        obeys_concrete_eq::<T>(),
    ensures
        intersection_of::<T>(None, None) is None,
        difference_of(Some(x), Some(x)) is None,
        intersection_of(Some(x), Some(x)) == Some(x),
{
    reveal(obeys_concrete_eq);
}

/// Addition and multiplication of optional values commute where they commute
/// on the values held.
pub proof fn lemma_add_mul_commutative<T: Add<T, Output = T> + Mul<T, Output = T>>(
    a: Optional<T>,
    b: Optional<T>,
)
    requires
        forall|x: T, y: T| #[trigger] x.add_spec(y) == y.add_spec(x),
        forall|x: T, y: T| #[trigger] x.mul_spec(y) == y.mul_spec(x),
    ensures
        AddSpec::add_spec(a, b) == AddSpec::add_spec(b, a),
        MulSpec::mul_spec(a, b) == MulSpec::mul_spec(b, a),
{
    if a@ is Some && b@ is Some {
        assert(a@->0.add_spec(b@->0) == b@->0.add_spec(a@->0));
        assert(a@->0.mul_spec(b@->0) == b@->0.mul_spec(a@->0));
    }
}

} // verus!
