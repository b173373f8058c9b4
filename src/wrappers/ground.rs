//! The operators with a ground value on the left and an optional value on
//! the right, written once for each ground type. Each one hands the work to
//! the rule with the operands swapped, so that a commutative operator gives
//! the same result in both orders by construction. The results of
//! intersection and difference are stated through the rule between two
//! optional values, the ground value standing as if it were held.
use vstd::prelude::*;
use vstd::std_specs::ops::{AddSpec, MulSpec, SubSpec};

use std::ops::{Add, Mul, Sub};

use crate::ops::set::{Difference, Disjoint, Intersection, Overlap};
use crate::wrappers::optional::{difference_of, intersection_of, Optional};

verus! {

// Ground type `i8`.

impl Intersection<Optional<i8>> for i8 {
    type Output = Optional<i8>;

    fn intersection(&self, other: &Optional<i8>) -> (r: Optional<i8>)
        ensures
            r@ == intersection_of(Some(*self), other@),
    {
        other.intersection(self)
    }
}

impl Difference<Optional<i8>> for i8 {
    type Output = Optional<i8>;

    fn difference(&self, other: &Optional<i8>) -> (r: Optional<i8>)
        ensures
            r@ == difference_of(Some(*self), other@),
    {
        match &other.value {
            Some(x) => {
                if *self != *x {
                    Optional::wrap(Some(*self))
                } else {
                    Optional::wrap(None)
                }
            },
            None => Optional::wrap(Some(*self)),
        }
    }
}

impl<T> Disjoint<Optional<T>> for i8 where T: Disjoint<i8> {
    open spec fn spec_disjoint(&self, rhs: &Optional<T>) -> bool {
        rhs.spec_disjoint(self)
    }

    fn is_disjoint(&self, other: &Optional<T>) -> (r: bool) {
        other.is_disjoint(self)
    }
}

impl<T> Overlap<Optional<T>> for i8 where T: Overlap<i8> {
    open spec fn spec_overlap(&self, rhs: &Optional<T>) -> bool {
        rhs.spec_overlap(self)
    }

    fn overlap(&self, other: &Optional<T>) -> (r: bool) {
        other.overlap(self)
    }
}

impl Add<Optional<i8>> for i8 {
    type Output = Optional<i8>;

    fn add(self, rhs: Optional<i8>) -> (r: Optional<i8>) {
        rhs + self
    }
}

impl vstd::std_specs::ops::AddSpecImpl<Optional<i8>> for i8 {
    open spec fn obeys_add_spec() -> bool {
        true
    }

    open spec fn add_req(self, rhs: Optional<i8>) -> bool {
        rhs@ is Some ==> i8::MIN <= rhs@->0 + self <= i8::MAX
    }

    open spec fn add_spec(self, rhs: Optional<i8>) -> Optional<i8> {
        Optional {
            value: match rhs@ {
                Some(x) => Some((x + self) as i8),
                None => None,
            },
        }
    }
}

impl Mul<Optional<i8>> for i8 {
    type Output = Optional<i8>;

    fn mul(self, rhs: Optional<i8>) -> (r: Optional<i8>) {
        rhs * self
    }
}

impl vstd::std_specs::ops::MulSpecImpl<Optional<i8>> for i8 {
    open spec fn obeys_mul_spec() -> bool {
        true
    }

    open spec fn mul_req(self, rhs: Optional<i8>) -> bool {
        rhs@ is Some ==> i8::MIN <= rhs@->0 * self <= i8::MAX
    }

    open spec fn mul_spec(self, rhs: Optional<i8>) -> Optional<i8> {
        Optional {
            value: match rhs@ {
                Some(x) => Some((x * self) as i8),
                None => None,
            },
        }
    }
}

impl Sub<Optional<i8>> for i8 {
    type Output = Optional<i8>;

    fn sub(self, other: Optional<i8>) -> (r: Optional<i8>) {
        match other.value {
            Some(x) => Optional::wrap(Some(self - x)),
            None => Optional::wrap(None),
        }
    }
}

impl vstd::std_specs::ops::SubSpecImpl<Optional<i8>> for i8 {
    open spec fn obeys_sub_spec() -> bool {
        true
    }

    open spec fn sub_req(self, rhs: Optional<i8>) -> bool {
        rhs@ is Some ==> i8::MIN <= self - rhs@->0 <= i8::MAX
    }

    open spec fn sub_spec(self, rhs: Optional<i8>) -> Optional<i8> {
        Optional {
            value: match rhs@ {
                Some(x) => Some((self - x) as i8),
                None => None,
            },
        }
    }
}

/// A ground value added to, or multiplied by, an optional value gives what
/// the optional value added to, or multiplied by, the ground value gives.
pub proof fn lemma_i8_commutes(x: i8, o: Optional<i8>)
    ensures
        AddSpec::add_spec(x, o) == AddSpec::add_spec(o, x),
        MulSpec::mul_spec(x, o) == MulSpec::mul_spec(o, x),
        AddSpec::add_spec(x, o) == AddSpec::add_spec(Optional { value: Some(x) }, o),
        MulSpec::mul_spec(x, o) == MulSpec::mul_spec(Optional { value: Some(x) }, o),
{
    if let Some(y) = o.value {
        assert(x * y == y * x) by (nonlinear_arith);
    }
}

// Ground type `u8`.

impl Intersection<Optional<u8>> for u8 {
    type Output = Optional<u8>;

    fn intersection(&self, other: &Optional<u8>) -> (r: Optional<u8>)
        ensures
            r@ == intersection_of(Some(*self), other@),
    {
        other.intersection(self)
    }
}

impl Difference<Optional<u8>> for u8 {
    type Output = Optional<u8>;

    fn difference(&self, other: &Optional<u8>) -> (r: Optional<u8>)
        ensures
            r@ == difference_of(Some(*self), other@),
    {
        match &other.value {
            Some(x) => {
                if *self != *x {
                    Optional::wrap(Some(*self))
                } else {
                    Optional::wrap(None)
                }
            },
            None => Optional::wrap(Some(*self)),
        }
    }
}

impl<T> Disjoint<Optional<T>> for u8 where T: Disjoint<u8> {
    open spec fn spec_disjoint(&self, rhs: &Optional<T>) -> bool {
        rhs.spec_disjoint(self)
    }

    fn is_disjoint(&self, other: &Optional<T>) -> (r: bool) {
        other.is_disjoint(self)
    }
}

impl<T> Overlap<Optional<T>> for u8 where T: Overlap<u8> {
    open spec fn spec_overlap(&self, rhs: &Optional<T>) -> bool {
        rhs.spec_overlap(self)
    }

    fn overlap(&self, other: &Optional<T>) -> (r: bool) {
        other.overlap(self)
    }
}

impl Add<Optional<u8>> for u8 {
    type Output = Optional<u8>;

    fn add(self, rhs: Optional<u8>) -> (r: Optional<u8>) {
        rhs + self
    }
}

impl vstd::std_specs::ops::AddSpecImpl<Optional<u8>> for u8 {
    open spec fn obeys_add_spec() -> bool {
        true
    }

    open spec fn add_req(self, rhs: Optional<u8>) -> bool {
        rhs@ is Some ==> u8::MIN <= rhs@->0 + self <= u8::MAX
    }

    open spec fn add_spec(self, rhs: Optional<u8>) -> Optional<u8> {
        Optional {
            value: match rhs@ {
                Some(x) => Some((x + self) as u8),
                None => None,
            },
        }
    }
}

impl Mul<Optional<u8>> for u8 {
    type Output = Optional<u8>;

    fn mul(self, rhs: Optional<u8>) -> (r: Optional<u8>) {
        rhs * self
    }
}

impl vstd::std_specs::ops::MulSpecImpl<Optional<u8>> for u8 {
    open spec fn obeys_mul_spec() -> bool {
        true
    }

    open spec fn mul_req(self, rhs: Optional<u8>) -> bool {
        rhs@ is Some ==> u8::MIN <= rhs@->0 * self <= u8::MAX
    }

    open spec fn mul_spec(self, rhs: Optional<u8>) -> Optional<u8> {
        Optional {
            value: match rhs@ {
                Some(x) => Some((x * self) as u8),
                None => None,
            },
        }
    }
}

impl Sub<Optional<u8>> for u8 {
    type Output = Optional<u8>;

    fn sub(self, other: Optional<u8>) -> (r: Optional<u8>) {
        match other.value {
            Some(x) => Optional::wrap(Some(self - x)),
            None => Optional::wrap(None),
        }
    }
}

impl vstd::std_specs::ops::SubSpecImpl<Optional<u8>> for u8 {
    open spec fn obeys_sub_spec() -> bool {
        true
    }

    open spec fn sub_req(self, rhs: Optional<u8>) -> bool {
        rhs@ is Some ==> u8::MIN <= self - rhs@->0 <= u8::MAX
    }

    open spec fn sub_spec(self, rhs: Optional<u8>) -> Optional<u8> {
        Optional {
            value: match rhs@ {
                Some(x) => Some((self - x) as u8),
                None => None,
            },
        }
    }
}

/// A ground value added to, or multiplied by, an optional value gives what
/// the optional value added to, or multiplied by, the ground value gives.
pub proof fn lemma_u8_commutes(x: u8, o: Optional<u8>)
    ensures
        AddSpec::add_spec(x, o) == AddSpec::add_spec(o, x),
        MulSpec::mul_spec(x, o) == MulSpec::mul_spec(o, x),
        AddSpec::add_spec(x, o) == AddSpec::add_spec(Optional { value: Some(x) }, o),
        MulSpec::mul_spec(x, o) == MulSpec::mul_spec(Optional { value: Some(x) }, o),
{
    if let Some(y) = o.value {
        assert(x * y == y * x) by (nonlinear_arith);
    }
}

// Ground type `i16`.

impl Intersection<Optional<i16>> for i16 {
    type Output = Optional<i16>;

    fn intersection(&self, other: &Optional<i16>) -> (r: Optional<i16>)
        ensures
            r@ == intersection_of(Some(*self), other@),
    {
        other.intersection(self)
    }
}

impl Difference<Optional<i16>> for i16 {
    type Output = Optional<i16>;

    fn difference(&self, other: &Optional<i16>) -> (r: Optional<i16>)
        ensures
            r@ == difference_of(Some(*self), other@),
    {
        match &other.value {
            Some(x) => {
                if *self != *x {
                    Optional::wrap(Some(*self))
                } else {
                    Optional::wrap(None)
                }
            },
            None => Optional::wrap(Some(*self)),
        }
    }
}

impl<T> Disjoint<Optional<T>> for i16 where T: Disjoint<i16> {
    open spec fn spec_disjoint(&self, rhs: &Optional<T>) -> bool {
        rhs.spec_disjoint(self)
    }

    fn is_disjoint(&self, other: &Optional<T>) -> (r: bool) {
        other.is_disjoint(self)
    }
}

impl<T> Overlap<Optional<T>> for i16 where T: Overlap<i16> {
    open spec fn spec_overlap(&self, rhs: &Optional<T>) -> bool {
        rhs.spec_overlap(self)
    }

    fn overlap(&self, other: &Optional<T>) -> (r: bool) {
        other.overlap(self)
    }
}

impl Add<Optional<i16>> for i16 {
    type Output = Optional<i16>;

    fn add(self, rhs: Optional<i16>) -> (r: Optional<i16>) {
        rhs + self
    }
}

impl vstd::std_specs::ops::AddSpecImpl<Optional<i16>> for i16 {
    open spec fn obeys_add_spec() -> bool {
        true
    }

    open spec fn add_req(self, rhs: Optional<i16>) -> bool {
        rhs@ is Some ==> i16::MIN <= rhs@->0 + self <= i16::MAX
    }

    open spec fn add_spec(self, rhs: Optional<i16>) -> Optional<i16> {
        Optional {
            value: match rhs@ {
                Some(x) => Some((x + self) as i16),
                None => None,
            },
        }
    }
}

impl Mul<Optional<i16>> for i16 {
    type Output = Optional<i16>;

    fn mul(self, rhs: Optional<i16>) -> (r: Optional<i16>) {
        rhs * self
    }
}

impl vstd::std_specs::ops::MulSpecImpl<Optional<i16>> for i16 {
    open spec fn obeys_mul_spec() -> bool {
        true
    }

    open spec fn mul_req(self, rhs: Optional<i16>) -> bool {
        rhs@ is Some ==> i16::MIN <= rhs@->0 * self <= i16::MAX
    }

    open spec fn mul_spec(self, rhs: Optional<i16>) -> Optional<i16> {
        Optional {
            value: match rhs@ {
                Some(x) => Some((x * self) as i16),
                None => None,
            },
        }
    }
}

impl Sub<Optional<i16>> for i16 {
    type Output = Optional<i16>;

    fn sub(self, other: Optional<i16>) -> (r: Optional<i16>) {
        match other.value {
            Some(x) => Optional::wrap(Some(self - x)),
            None => Optional::wrap(None),
        }
    }
}

impl vstd::std_specs::ops::SubSpecImpl<Optional<i16>> for i16 {
    open spec fn obeys_sub_spec() -> bool {
        true
    }

    open spec fn sub_req(self, rhs: Optional<i16>) -> bool {
        rhs@ is Some ==> i16::MIN <= self - rhs@->0 <= i16::MAX
    }

    open spec fn sub_spec(self, rhs: Optional<i16>) -> Optional<i16> {
        Optional {
            value: match rhs@ {
                Some(x) => Some((self - x) as i16),
                None => None,
            },
        }
    }
}

/// A ground value added to, or multiplied by, an optional value gives what
/// the optional value added to, or multiplied by, the ground value gives.
pub proof fn lemma_i16_commutes(x: i16, o: Optional<i16>)
    ensures
        AddSpec::add_spec(x, o) == AddSpec::add_spec(o, x),
        MulSpec::mul_spec(x, o) == MulSpec::mul_spec(o, x),
        AddSpec::add_spec(x, o) == AddSpec::add_spec(Optional { value: Some(x) }, o),
        MulSpec::mul_spec(x, o) == MulSpec::mul_spec(Optional { value: Some(x) }, o),
{
    if let Some(y) = o.value {
        assert(x * y == y * x) by (nonlinear_arith);
    }
}

// Ground type `u16`.

impl Intersection<Optional<u16>> for u16 {
    type Output = Optional<u16>;

    fn intersection(&self, other: &Optional<u16>) -> (r: Optional<u16>)
        ensures
            r@ == intersection_of(Some(*self), other@),
    {
        other.intersection(self)
    }
}

impl Difference<Optional<u16>> for u16 {
    type Output = Optional<u16>;

    fn difference(&self, other: &Optional<u16>) -> (r: Optional<u16>)
        ensures
            r@ == difference_of(Some(*self), other@),
    {
        match &other.value {
            Some(x) => {
                if *self != *x {
                    Optional::wrap(Some(*self))
                } else {
                    Optional::wrap(None)
                }
            },
            None => Optional::wrap(Some(*self)),
        }
    }
}

impl<T> Disjoint<Optional<T>> for u16 where T: Disjoint<u16> {
    open spec fn spec_disjoint(&self, rhs: &Optional<T>) -> bool {
        rhs.spec_disjoint(self)
    }

    fn is_disjoint(&self, other: &Optional<T>) -> (r: bool) {
        other.is_disjoint(self)
    }
}

impl<T> Overlap<Optional<T>> for u16 where T: Overlap<u16> {
    open spec fn spec_overlap(&self, rhs: &Optional<T>) -> bool {
        rhs.spec_overlap(self)
    }

    fn overlap(&self, other: &Optional<T>) -> (r: bool) {
        other.overlap(self)
    }
}

impl Add<Optional<u16>> for u16 {
    type Output = Optional<u16>;

    fn add(self, rhs: Optional<u16>) -> (r: Optional<u16>) {
        rhs + self
    }
}

impl vstd::std_specs::ops::AddSpecImpl<Optional<u16>> for u16 {
    open spec fn obeys_add_spec() -> bool {
        true
    }

    open spec fn add_req(self, rhs: Optional<u16>) -> bool {
        rhs@ is Some ==> u16::MIN <= rhs@->0 + self <= u16::MAX
    }

    open spec fn add_spec(self, rhs: Optional<u16>) -> Optional<u16> {
        Optional {
            value: match rhs@ {
                Some(x) => Some((x + self) as u16),
                None => None,
            },
        }
    }
}

impl Mul<Optional<u16>> for u16 {
    type Output = Optional<u16>;

    fn mul(self, rhs: Optional<u16>) -> (r: Optional<u16>) {
        rhs * self
    }
}

impl vstd::std_specs::ops::MulSpecImpl<Optional<u16>> for u16 {
    open spec fn obeys_mul_spec() -> bool {
        true
    }

    open spec fn mul_req(self, rhs: Optional<u16>) -> bool {
        rhs@ is Some ==> u16::MIN <= rhs@->0 * self <= u16::MAX
    }

    open spec fn mul_spec(self, rhs: Optional<u16>) -> Optional<u16> {
        Optional {
            value: match rhs@ {
                Some(x) => Some((x * self) as u16),
                None => None,
            },
        }
    }
}

impl Sub<Optional<u16>> for u16 {
    type Output = Optional<u16>;

    fn sub(self, other: Optional<u16>) -> (r: Optional<u16>) {
        match other.value {
            Some(x) => Optional::wrap(Some(self - x)),
            None => Optional::wrap(None),
        }
    }
}

impl vstd::std_specs::ops::SubSpecImpl<Optional<u16>> for u16 {
    open spec fn obeys_sub_spec() -> bool {
        true
    }

    open spec fn sub_req(self, rhs: Optional<u16>) -> bool {
        rhs@ is Some ==> u16::MIN <= self - rhs@->0 <= u16::MAX
    }

    open spec fn sub_spec(self, rhs: Optional<u16>) -> Optional<u16> {
        Optional {
            value: match rhs@ {
                Some(x) => Some((self - x) as u16),
                None => None,
            },
        }
    }
}

/// A ground value added to, or multiplied by, an optional value gives what
/// the optional value added to, or multiplied by, the ground value gives.
pub proof fn lemma_u16_commutes(x: u16, o: Optional<u16>)
    ensures
        AddSpec::add_spec(x, o) == AddSpec::add_spec(o, x),
        MulSpec::mul_spec(x, o) == MulSpec::mul_spec(o, x),
        AddSpec::add_spec(x, o) == AddSpec::add_spec(Optional { value: Some(x) }, o),
        MulSpec::mul_spec(x, o) == MulSpec::mul_spec(Optional { value: Some(x) }, o),
{
    if let Some(y) = o.value {
        assert(x * y == y * x) by (nonlinear_arith);
    }
}

// Ground type `i32`.

impl Intersection<Optional<i32>> for i32 {
    type Output = Optional<i32>;

    fn intersection(&self, other: &Optional<i32>) -> (r: Optional<i32>)
        ensures
            r@ == intersection_of(Some(*self), other@),
    {
        other.intersection(self)
    }
}

impl Difference<Optional<i32>> for i32 {
    type Output = Optional<i32>;

    fn difference(&self, other: &Optional<i32>) -> (r: Optional<i32>)
        ensures
            r@ == difference_of(Some(*self), other@),
    {
        match &other.value {
            Some(x) => {
                if *self != *x {
                    Optional::wrap(Some(*self))
                } else {
                    Optional::wrap(None)
                }
            },
            None => Optional::wrap(Some(*self)),
        }
    }
}

impl<T> Disjoint<Optional<T>> for i32 where T: Disjoint<i32> {
    open spec fn spec_disjoint(&self, rhs: &Optional<T>) -> bool {
        rhs.spec_disjoint(self)
    }

    fn is_disjoint(&self, other: &Optional<T>) -> (r: bool) {
        other.is_disjoint(self)
    }
}

impl<T> Overlap<Optional<T>> for i32 where T: Overlap<i32> {
    open spec fn spec_overlap(&self, rhs: &Optional<T>) -> bool {
        rhs.spec_overlap(self)
    }

    fn overlap(&self, other: &Optional<T>) -> (r: bool) {
        other.overlap(self)
    }
}

impl Add<Optional<i32>> for i32 {
    type Output = Optional<i32>;

    fn add(self, rhs: Optional<i32>) -> (r: Optional<i32>) {
        rhs + self
    }
}

impl vstd::std_specs::ops::AddSpecImpl<Optional<i32>> for i32 {
    open spec fn obeys_add_spec() -> bool {
        true
    }

    open spec fn add_req(self, rhs: Optional<i32>) -> bool {
        rhs@ is Some ==> i32::MIN <= rhs@->0 + self <= i32::MAX
    }

    open spec fn add_spec(self, rhs: Optional<i32>) -> Optional<i32> {
        Optional {
            value: match rhs@ {
                Some(x) => Some((x + self) as i32),
                None => None,
            },
        }
    }
}

impl Mul<Optional<i32>> for i32 {
    type Output = Optional<i32>;

    fn mul(self, rhs: Optional<i32>) -> (r: Optional<i32>) {
        rhs * self
    }
}

impl vstd::std_specs::ops::MulSpecImpl<Optional<i32>> for i32 {
    open spec fn obeys_mul_spec() -> bool {
        true
    }

    open spec fn mul_req(self, rhs: Optional<i32>) -> bool {
        rhs@ is Some ==> i32::MIN <= rhs@->0 * self <= i32::MAX
    }

    open spec fn mul_spec(self, rhs: Optional<i32>) -> Optional<i32> {
        Optional {
            value: match rhs@ {
                Some(x) => Some((x * self) as i32),
                None => None,
            },
        }
    }
}

impl Sub<Optional<i32>> for i32 {
    type Output = Optional<i32>;

    fn sub(self, other: Optional<i32>) -> (r: Optional<i32>) {
        match other.value {
            Some(x) => Optional::wrap(Some(self - x)),
            None => Optional::wrap(None),
        }
    }
}

impl vstd::std_specs::ops::SubSpecImpl<Optional<i32>> for i32 {
    open spec fn obeys_sub_spec() -> bool {
        true
    }

    open spec fn sub_req(self, rhs: Optional<i32>) -> bool {
        rhs@ is Some ==> i32::MIN <= self - rhs@->0 <= i32::MAX
    }

    open spec fn sub_spec(self, rhs: Optional<i32>) -> Optional<i32> {
        Optional {
            value: match rhs@ {
                Some(x) => Some((self - x) as i32),
                None => None,
            },
        }
    }
}

/// A ground value added to, or multiplied by, an optional value gives what
/// the optional value added to, or multiplied by, the ground value gives.
pub proof fn lemma_i32_commutes(x: i32, o: Optional<i32>)
    ensures
        AddSpec::add_spec(x, o) == AddSpec::add_spec(o, x),
        MulSpec::mul_spec(x, o) == MulSpec::mul_spec(o, x),
        AddSpec::add_spec(x, o) == AddSpec::add_spec(Optional { value: Some(x) }, o),
        MulSpec::mul_spec(x, o) == MulSpec::mul_spec(Optional { value: Some(x) }, o),
{
    if let Some(y) = o.value {
        assert(x * y == y * x) by (nonlinear_arith);
    }
}

// Ground type `u32`.

impl Intersection<Optional<u32>> for u32 {
    type Output = Optional<u32>;

    fn intersection(&self, other: &Optional<u32>) -> (r: Optional<u32>)
        ensures
            r@ == intersection_of(Some(*self), other@),
    {
        other.intersection(self)
    }
}

impl Difference<Optional<u32>> for u32 {
    type Output = Optional<u32>;

    fn difference(&self, other: &Optional<u32>) -> (r: Optional<u32>)
        ensures
            r@ == difference_of(Some(*self), other@),
    {
        match &other.value {
            Some(x) => {
                if *self != *x {
                    Optional::wrap(Some(*self))
                } else {
                    Optional::wrap(None)
                }
            },
            None => Optional::wrap(Some(*self)),
        }
    }
}

impl<T> Disjoint<Optional<T>> for u32 where T: Disjoint<u32> {
    open spec fn spec_disjoint(&self, rhs: &Optional<T>) -> bool {
        rhs.spec_disjoint(self)
    }

    fn is_disjoint(&self, other: &Optional<T>) -> (r: bool) {
        other.is_disjoint(self)
    }
}

impl<T> Overlap<Optional<T>> for u32 where T: Overlap<u32> {
    open spec fn spec_overlap(&self, rhs: &Optional<T>) -> bool {
        rhs.spec_overlap(self)
    }

    fn overlap(&self, other: &Optional<T>) -> (r: bool) {
        other.overlap(self)
    }
}

impl Add<Optional<u32>> for u32 {
    type Output = Optional<u32>;

    fn add(self, rhs: Optional<u32>) -> (r: Optional<u32>) {
        rhs + self
    }
}

impl vstd::std_specs::ops::AddSpecImpl<Optional<u32>> for u32 {
    open spec fn obeys_add_spec() -> bool {
        true
    }

    open spec fn add_req(self, rhs: Optional<u32>) -> bool {
        rhs@ is Some ==> u32::MIN <= rhs@->0 + self <= u32::MAX
    }

    open spec fn add_spec(self, rhs: Optional<u32>) -> Optional<u32> {
        Optional {
            value: match rhs@ {
                Some(x) => Some((x + self) as u32),
                None => None,
            },
        }
    }
}

impl Mul<Optional<u32>> for u32 {
    type Output = Optional<u32>;

    fn mul(self, rhs: Optional<u32>) -> (r: Optional<u32>) {
        rhs * self
    }
}

impl vstd::std_specs::ops::MulSpecImpl<Optional<u32>> for u32 {
    open spec fn obeys_mul_spec() -> bool {
        true
    }

    open spec fn mul_req(self, rhs: Optional<u32>) -> bool {
        rhs@ is Some ==> u32::MIN <= rhs@->0 * self <= u32::MAX
    }

    open spec fn mul_spec(self, rhs: Optional<u32>) -> Optional<u32> {
        Optional {
            value: match rhs@ {
                Some(x) => Some((x * self) as u32),
                None => None,
            },
        }
    }
}

impl Sub<Optional<u32>> for u32 {
    type Output = Optional<u32>;

    fn sub(self, other: Optional<u32>) -> (r: Optional<u32>) {
        match other.value {
            Some(x) => Optional::wrap(Some(self - x)),
            None => Optional::wrap(None),
        }
    }
}

impl vstd::std_specs::ops::SubSpecImpl<Optional<u32>> for u32 {
    open spec fn obeys_sub_spec() -> bool {
        true
    }

    open spec fn sub_req(self, rhs: Optional<u32>) -> bool {
        rhs@ is Some ==> u32::MIN <= self - rhs@->0 <= u32::MAX
    }

    open spec fn sub_spec(self, rhs: Optional<u32>) -> Optional<u32> {
        Optional {
            value: match rhs@ {
                Some(x) => Some((self - x) as u32),
                None => None,
            },
        }
    }
}

/// A ground value added to, or multiplied by, an optional value gives what
/// the optional value added to, or multiplied by, the ground value gives.
pub proof fn lemma_u32_commutes(x: u32, o: Optional<u32>)
    ensures
        AddSpec::add_spec(x, o) == AddSpec::add_spec(o, x),
        MulSpec::mul_spec(x, o) == MulSpec::mul_spec(o, x),
        AddSpec::add_spec(x, o) == AddSpec::add_spec(Optional { value: Some(x) }, o),
        MulSpec::mul_spec(x, o) == MulSpec::mul_spec(Optional { value: Some(x) }, o),
{
    if let Some(y) = o.value {
        assert(x * y == y * x) by (nonlinear_arith);
    }
}

// Ground type `i64`.

impl Intersection<Optional<i64>> for i64 {
    type Output = Optional<i64>;

    fn intersection(&self, other: &Optional<i64>) -> (r: Optional<i64>)
        ensures
            r@ == intersection_of(Some(*self), other@),
    {
        other.intersection(self)
    }
}

impl Difference<Optional<i64>> for i64 {
    type Output = Optional<i64>;

    fn difference(&self, other: &Optional<i64>) -> (r: Optional<i64>)
        ensures
            r@ == difference_of(Some(*self), other@),
    {
        match &other.value {
            Some(x) => {
                if *self != *x {
                    Optional::wrap(Some(*self))
                } else {
                    Optional::wrap(None)
                }
            },
            None => Optional::wrap(Some(*self)),
        }
    }
}

impl<T> Disjoint<Optional<T>> for i64 where T: Disjoint<i64> {
    open spec fn spec_disjoint(&self, rhs: &Optional<T>) -> bool {
        rhs.spec_disjoint(self)
    }

    fn is_disjoint(&self, other: &Optional<T>) -> (r: bool) {
        other.is_disjoint(self)
    }
}

impl<T> Overlap<Optional<T>> for i64 where T: Overlap<i64> {
    open spec fn spec_overlap(&self, rhs: &Optional<T>) -> bool {
        rhs.spec_overlap(self)
    }

    fn overlap(&self, other: &Optional<T>) -> (r: bool) {
        other.overlap(self)
    }
}

impl Add<Optional<i64>> for i64 {
    type Output = Optional<i64>;

    fn add(self, rhs: Optional<i64>) -> (r: Optional<i64>) {
        rhs + self
    }
}

impl vstd::std_specs::ops::AddSpecImpl<Optional<i64>> for i64 {
    open spec fn obeys_add_spec() -> bool {
        true
    }

    open spec fn add_req(self, rhs: Optional<i64>) -> bool {
        rhs@ is Some ==> i64::MIN <= rhs@->0 + self <= i64::MAX
    }

    open spec fn add_spec(self, rhs: Optional<i64>) -> Optional<i64> {
        Optional {
            value: match rhs@ {
                Some(x) => Some((x + self) as i64),
                None => None,
            },
        }
    }
}

impl Mul<Optional<i64>> for i64 {
    type Output = Optional<i64>;

    fn mul(self, rhs: Optional<i64>) -> (r: Optional<i64>) {
        rhs * self
    }
}

impl vstd::std_specs::ops::MulSpecImpl<Optional<i64>> for i64 {
    open spec fn obeys_mul_spec() -> bool {
        true
    }

    open spec fn mul_req(self, rhs: Optional<i64>) -> bool {
        rhs@ is Some ==> i64::MIN <= rhs@->0 * self <= i64::MAX
    }

    open spec fn mul_spec(self, rhs: Optional<i64>) -> Optional<i64> {
        Optional {
            value: match rhs@ {
                Some(x) => Some((x * self) as i64),
                None => None,
            },
        }
    }
}

impl Sub<Optional<i64>> for i64 {
    type Output = Optional<i64>;

    fn sub(self, other: Optional<i64>) -> (r: Optional<i64>) {
        match other.value {
            Some(x) => Optional::wrap(Some(self - x)),
            None => Optional::wrap(None),
        }
    }
}

impl vstd::std_specs::ops::SubSpecImpl<Optional<i64>> for i64 {
    open spec fn obeys_sub_spec() -> bool {
        true
    }

    open spec fn sub_req(self, rhs: Optional<i64>) -> bool {
        rhs@ is Some ==> i64::MIN <= self - rhs@->0 <= i64::MAX
    }

    open spec fn sub_spec(self, rhs: Optional<i64>) -> Optional<i64> {
        Optional {
            value: match rhs@ {
                Some(x) => Some((self - x) as i64),
                None => None,
            },
        }
    }
}

/// A ground value added to, or multiplied by, an optional value gives what
/// the optional value added to, or multiplied by, the ground value gives.
pub proof fn lemma_i64_commutes(x: i64, o: Optional<i64>)
    ensures
        AddSpec::add_spec(x, o) == AddSpec::add_spec(o, x),
        MulSpec::mul_spec(x, o) == MulSpec::mul_spec(o, x),
        AddSpec::add_spec(x, o) == AddSpec::add_spec(Optional { value: Some(x) }, o),
        MulSpec::mul_spec(x, o) == MulSpec::mul_spec(Optional { value: Some(x) }, o),
{
    if let Some(y) = o.value {
        assert(x * y == y * x) by (nonlinear_arith);
    }
}

// Ground type `u64`.

impl Intersection<Optional<u64>> for u64 {
    type Output = Optional<u64>;

    fn intersection(&self, other: &Optional<u64>) -> (r: Optional<u64>)
        ensures
            r@ == intersection_of(Some(*self), other@),
    {
        other.intersection(self)
    }
}

impl Difference<Optional<u64>> for u64 {
    type Output = Optional<u64>;

    fn difference(&self, other: &Optional<u64>) -> (r: Optional<u64>)
        ensures
            r@ == difference_of(Some(*self), other@),
    {
        match &other.value {
            Some(x) => {
                if *self != *x {
                    Optional::wrap(Some(*self))
                } else {
                    Optional::wrap(None)
                }
            },
            None => Optional::wrap(Some(*self)),
        }
    }
}

impl<T> Disjoint<Optional<T>> for u64 where T: Disjoint<u64> {
    open spec fn spec_disjoint(&self, rhs: &Optional<T>) -> bool {
        rhs.spec_disjoint(self)
    }

    fn is_disjoint(&self, other: &Optional<T>) -> (r: bool) {
        other.is_disjoint(self)
    }
}

impl<T> Overlap<Optional<T>> for u64 where T: Overlap<u64> {
    open spec fn spec_overlap(&self, rhs: &Optional<T>) -> bool {
        rhs.spec_overlap(self)
    }

    fn overlap(&self, other: &Optional<T>) -> (r: bool) {
        other.overlap(self)
    }
}

impl Add<Optional<u64>> for u64 {
    type Output = Optional<u64>;

    fn add(self, rhs: Optional<u64>) -> (r: Optional<u64>) {
        rhs + self
    }
}

impl vstd::std_specs::ops::AddSpecImpl<Optional<u64>> for u64 {
    open spec fn obeys_add_spec() -> bool {
        true
    }

    open spec fn add_req(self, rhs: Optional<u64>) -> bool {
        rhs@ is Some ==> u64::MIN <= rhs@->0 + self <= u64::MAX
    }

    open spec fn add_spec(self, rhs: Optional<u64>) -> Optional<u64> {
        Optional {
            value: match rhs@ {
                Some(x) => Some((x + self) as u64),
                None => None,
            },
        }
    }
}

impl Mul<Optional<u64>> for u64 {
    type Output = Optional<u64>;

    fn mul(self, rhs: Optional<u64>) -> (r: Optional<u64>) {
        rhs * self
    }
}

impl vstd::std_specs::ops::MulSpecImpl<Optional<u64>> for u64 {
    open spec fn obeys_mul_spec() -> bool {
        true
    }

    open spec fn mul_req(self, rhs: Optional<u64>) -> bool {
        rhs@ is Some ==> u64::MIN <= rhs@->0 * self <= u64::MAX
    }

    open spec fn mul_spec(self, rhs: Optional<u64>) -> Optional<u64> {
        Optional {
            value: match rhs@ {
                Some(x) => Some((x * self) as u64),
                None => None,
            },
        }
    }
}

impl Sub<Optional<u64>> for u64 {
    type Output = Optional<u64>;

    fn sub(self, other: Optional<u64>) -> (r: Optional<u64>) {
        match other.value {
            Some(x) => Optional::wrap(Some(self - x)),
            None => Optional::wrap(None),
        }
    }
}

impl vstd::std_specs::ops::SubSpecImpl<Optional<u64>> for u64 {
    open spec fn obeys_sub_spec() -> bool {
        true
    }

    open spec fn sub_req(self, rhs: Optional<u64>) -> bool {
        rhs@ is Some ==> u64::MIN <= self - rhs@->0 <= u64::MAX
    }

    open spec fn sub_spec(self, rhs: Optional<u64>) -> Optional<u64> {
        Optional {
            value: match rhs@ {
                Some(x) => Some((self - x) as u64),
                None => None,
            },
        }
    }
}

/// A ground value added to, or multiplied by, an optional value gives what
/// the optional value added to, or multiplied by, the ground value gives.
pub proof fn lemma_u64_commutes(x: u64, o: Optional<u64>)
    ensures
        AddSpec::add_spec(x, o) == AddSpec::add_spec(o, x),
        MulSpec::mul_spec(x, o) == MulSpec::mul_spec(o, x),
        AddSpec::add_spec(x, o) == AddSpec::add_spec(Optional { value: Some(x) }, o),
        MulSpec::mul_spec(x, o) == MulSpec::mul_spec(Optional { value: Some(x) }, o),
{
    if let Some(y) = o.value {
        assert(x * y == y * x) by (nonlinear_arith);
    }
}

// Ground type `isize`.

impl Intersection<Optional<isize>> for isize {
    type Output = Optional<isize>;

    fn intersection(&self, other: &Optional<isize>) -> (r: Optional<isize>)
        ensures
            r@ == intersection_of(Some(*self), other@),
    {
        other.intersection(self)
    }
}

impl Difference<Optional<isize>> for isize {
    type Output = Optional<isize>;

    fn difference(&self, other: &Optional<isize>) -> (r: Optional<isize>)
        ensures
            r@ == difference_of(Some(*self), other@),
    {
        match &other.value {
            Some(x) => {
                if *self != *x {
                    Optional::wrap(Some(*self))
                } else {
                    Optional::wrap(None)
                }
            },
            None => Optional::wrap(Some(*self)),
        }
    }
}

impl<T> Disjoint<Optional<T>> for isize where T: Disjoint<isize> {
    open spec fn spec_disjoint(&self, rhs: &Optional<T>) -> bool {
        rhs.spec_disjoint(self)
    }

    fn is_disjoint(&self, other: &Optional<T>) -> (r: bool) {
        other.is_disjoint(self)
    }
}

impl<T> Overlap<Optional<T>> for isize where T: Overlap<isize> {
    open spec fn spec_overlap(&self, rhs: &Optional<T>) -> bool {
        rhs.spec_overlap(self)
    }

    fn overlap(&self, other: &Optional<T>) -> (r: bool) {
        other.overlap(self)
    }
}

impl Add<Optional<isize>> for isize {
    type Output = Optional<isize>;

    fn add(self, rhs: Optional<isize>) -> (r: Optional<isize>) {
        rhs + self
    }
}

impl vstd::std_specs::ops::AddSpecImpl<Optional<isize>> for isize {
    open spec fn obeys_add_spec() -> bool {
        true
    }

    open spec fn add_req(self, rhs: Optional<isize>) -> bool {
        rhs@ is Some ==> isize::MIN <= rhs@->0 + self <= isize::MAX
    }

    open spec fn add_spec(self, rhs: Optional<isize>) -> Optional<isize> {
        Optional {
            value: match rhs@ {
                Some(x) => Some((x + self) as isize),
                None => None,
            },
        }
    }
}

impl Mul<Optional<isize>> for isize {
    type Output = Optional<isize>;

    fn mul(self, rhs: Optional<isize>) -> (r: Optional<isize>) {
        rhs * self
    }
}

impl vstd::std_specs::ops::MulSpecImpl<Optional<isize>> for isize {
    open spec fn obeys_mul_spec() -> bool {
        true
    }

    open spec fn mul_req(self, rhs: Optional<isize>) -> bool {
        rhs@ is Some ==> isize::MIN <= rhs@->0 * self <= isize::MAX
    }

    open spec fn mul_spec(self, rhs: Optional<isize>) -> Optional<isize> {
        Optional {
            value: match rhs@ {
                Some(x) => Some((x * self) as isize),
                None => None,
            },
        }
    }
}

impl Sub<Optional<isize>> for isize {
    type Output = Optional<isize>;

    fn sub(self, other: Optional<isize>) -> (r: Optional<isize>) {
        match other.value {
            Some(x) => Optional::wrap(Some(self - x)),
            None => Optional::wrap(None),
        }
    }
}

impl vstd::std_specs::ops::SubSpecImpl<Optional<isize>> for isize {
    open spec fn obeys_sub_spec() -> bool {
        true
    }

    open spec fn sub_req(self, rhs: Optional<isize>) -> bool {
        rhs@ is Some ==> isize::MIN <= self - rhs@->0 <= isize::MAX
    }

    open spec fn sub_spec(self, rhs: Optional<isize>) -> Optional<isize> {
        Optional {
            value: match rhs@ {
                Some(x) => Some((self - x) as isize),
                None => None,
            },
        }
    }
}

/// A ground value added to, or multiplied by, an optional value gives what
/// the optional value added to, or multiplied by, the ground value gives.
pub proof fn lemma_isize_commutes(x: isize, o: Optional<isize>)
    ensures
        AddSpec::add_spec(x, o) == AddSpec::add_spec(o, x),
        MulSpec::mul_spec(x, o) == MulSpec::mul_spec(o, x),
        AddSpec::add_spec(x, o) == AddSpec::add_spec(Optional { value: Some(x) }, o),
        MulSpec::mul_spec(x, o) == MulSpec::mul_spec(Optional { value: Some(x) }, o),
{
    if let Some(y) = o.value {
        assert(x * y == y * x) by (nonlinear_arith);
    }
}

// Ground type `usize`.

impl Intersection<Optional<usize>> for usize {
    type Output = Optional<usize>;

    fn intersection(&self, other: &Optional<usize>) -> (r: Optional<usize>)
        ensures
            r@ == intersection_of(Some(*self), other@),
    {
        other.intersection(self)
    }
}

impl Difference<Optional<usize>> for usize {
    type Output = Optional<usize>;

    fn difference(&self, other: &Optional<usize>) -> (r: Optional<usize>)
        ensures
            r@ == difference_of(Some(*self), other@),
    {
        match &other.value {
            Some(x) => {
                if *self != *x {
                    Optional::wrap(Some(*self))
                } else {
                    Optional::wrap(None)
                }
            },
            None => Optional::wrap(Some(*self)),
        }
    }
}

impl<T> Disjoint<Optional<T>> for usize where T: Disjoint<usize> {
    open spec fn spec_disjoint(&self, rhs: &Optional<T>) -> bool {
        rhs.spec_disjoint(self)
    }

    fn is_disjoint(&self, other: &Optional<T>) -> (r: bool) {
        other.is_disjoint(self)
    }
}

impl<T> Overlap<Optional<T>> for usize where T: Overlap<usize> {
    open spec fn spec_overlap(&self, rhs: &Optional<T>) -> bool {
        rhs.spec_overlap(self)
    }

    fn overlap(&self, other: &Optional<T>) -> (r: bool) {
        other.overlap(self)
    }
}

impl Add<Optional<usize>> for usize {
    type Output = Optional<usize>;

    fn add(self, rhs: Optional<usize>) -> (r: Optional<usize>) {
        rhs + self
    }
}

impl vstd::std_specs::ops::AddSpecImpl<Optional<usize>> for usize {
    open spec fn obeys_add_spec() -> bool {
        true
    }

    open spec fn add_req(self, rhs: Optional<usize>) -> bool {
        rhs@ is Some ==> usize::MIN <= rhs@->0 + self <= usize::MAX
    }

    open spec fn add_spec(self, rhs: Optional<usize>) -> Optional<usize> {
        Optional {
            value: match rhs@ {
                Some(x) => Some((x + self) as usize),
                None => None,
            },
        }
    }
}

impl Mul<Optional<usize>> for usize {
    type Output = Optional<usize>;

    fn mul(self, rhs: Optional<usize>) -> (r: Optional<usize>) {
        rhs * self
    }
}

impl vstd::std_specs::ops::MulSpecImpl<Optional<usize>> for usize {
    open spec fn obeys_mul_spec() -> bool {
        true
    }

    open spec fn mul_req(self, rhs: Optional<usize>) -> bool {
        rhs@ is Some ==> usize::MIN <= rhs@->0 * self <= usize::MAX
    }

    open spec fn mul_spec(self, rhs: Optional<usize>) -> Optional<usize> {
        Optional {
            value: match rhs@ {
                Some(x) => Some((x * self) as usize),
                None => None,
            },
        }
    }
}

impl Sub<Optional<usize>> for usize {
    type Output = Optional<usize>;

    fn sub(self, other: Optional<usize>) -> (r: Optional<usize>) {
        match other.value {
            Some(x) => Optional::wrap(Some(self - x)),
            None => Optional::wrap(None),
        }
    }
}

impl vstd::std_specs::ops::SubSpecImpl<Optional<usize>> for usize {
    open spec fn obeys_sub_spec() -> bool {
        true
    }

    open spec fn sub_req(self, rhs: Optional<usize>) -> bool {
        rhs@ is Some ==> usize::MIN <= self - rhs@->0 <= usize::MAX
    }

    open spec fn sub_spec(self, rhs: Optional<usize>) -> Optional<usize> {
        Optional {
            value: match rhs@ {
                Some(x) => Some((self - x) as usize),
                None => None,
            },
        }
    }
}

/// A ground value added to, or multiplied by, an optional value gives what
/// the optional value added to, or multiplied by, the ground value gives.
pub proof fn lemma_usize_commutes(x: usize, o: Optional<usize>)
    ensures
        AddSpec::add_spec(x, o) == AddSpec::add_spec(o, x),
        MulSpec::mul_spec(x, o) == MulSpec::mul_spec(o, x),
        AddSpec::add_spec(x, o) == AddSpec::add_spec(Optional { value: Some(x) }, o),
        MulSpec::mul_spec(x, o) == MulSpec::mul_spec(Optional { value: Some(x) }, o),
{
    if let Some(y) = o.value {
        assert(x * y == y * x) by (nonlinear_arith);
    }
}

// Ground type `bool`.

impl Intersection<Optional<bool>> for bool {
    type Output = Optional<bool>;

    fn intersection(&self, other: &Optional<bool>) -> (r: Optional<bool>)
        ensures
            r@ == intersection_of(Some(*self), other@),
    {
        other.intersection(self)
    }
}

impl Difference<Optional<bool>> for bool {
    type Output = Optional<bool>;

    fn difference(&self, other: &Optional<bool>) -> (r: Optional<bool>)
        ensures
            r@ == difference_of(Some(*self), other@),
    {
        match &other.value {
            Some(x) => {
                if *self != *x {
                    Optional::wrap(Some(*self))
                } else {
                    Optional::wrap(None)
                }
            },
            None => Optional::wrap(Some(*self)),
        }
    }
}

impl<T> Disjoint<Optional<T>> for bool where T: Disjoint<bool> {
    open spec fn spec_disjoint(&self, rhs: &Optional<T>) -> bool {
        rhs.spec_disjoint(self)
    }

    fn is_disjoint(&self, other: &Optional<T>) -> (r: bool) {
        other.is_disjoint(self)
    }
}

impl<T> Overlap<Optional<T>> for bool where T: Overlap<bool> {
    open spec fn spec_overlap(&self, rhs: &Optional<T>) -> bool {
        rhs.spec_overlap(self)
    }

    fn overlap(&self, other: &Optional<T>) -> (r: bool) {
        other.overlap(self)
    }
}

// Ground type `char`.

impl Intersection<Optional<char>> for char {
    type Output = Optional<char>;

    fn intersection(&self, other: &Optional<char>) -> (r: Optional<char>)
        ensures
            r@ == (if other@ == Some(*self) { Some(*self) } else { None }),
    {
        match &other.value {
            Some(x) => {
                if *self == *x {
                    Optional::wrap(Some(*self))
                } else {
                    Optional::wrap(None)
                }
            },
            None => Optional::wrap(None),
        }
    }
}

impl Difference<Optional<char>> for char {
    type Output = Optional<char>;

    fn difference(&self, other: &Optional<char>) -> (r: Optional<char>)
        ensures
            r@ == (if other@ == Some(*self) { None } else { Some(*self) }),
    {
        match &other.value {
            Some(x) => {
                if *self != *x {
                    Optional::wrap(Some(*self))
                } else {
                    Optional::wrap(None)
                }
            },
            None => Optional::wrap(Some(*self)),
        }
    }
}

impl<T> Disjoint<Optional<T>> for char where T: Disjoint<char> {
    open spec fn spec_disjoint(&self, rhs: &Optional<T>) -> bool {
        rhs.spec_disjoint(self)
    }

    fn is_disjoint(&self, other: &Optional<T>) -> (r: bool) {
        other.is_disjoint(self)
    }
}

impl<T> Overlap<Optional<T>> for char where T: Overlap<char> {
    open spec fn spec_overlap(&self, rhs: &Optional<T>) -> bool {
        rhs.spec_overlap(self)
    }

    fn overlap(&self, other: &Optional<T>) -> (r: bool) {
        other.overlap(self)
    }
}

} // verus!
