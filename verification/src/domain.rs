//! The capability interface that an underlying finite numeric domain must
//! supply so that it can be extended with infinities: a total order, the four
//! arithmetic operators closed over the domain, and an additive identity.

use vstd::prelude::*;

verus! {

/// The capabilities an ordered numeric type must supply to serve as the
/// finite domain of an extended number.
///
/// The order is given as the specification relation `le`, which the four law
/// obligations require to be a total order, and which the executable
/// comparisons are held to. Each arithmetic operator comes as a pair: a
/// specification function giving the mathematical result, guarded by a
/// precondition predicate that carves out the inputs on which the domain's
/// operator is defined (no overflow, no division by zero); the executable
/// operator must meet the specification on exactly those inputs.
pub trait FiniteDomain: Sized + Copy {
    /// The domain's order relation: `self` is less than or equal to `other`.
    spec fn le(self, other: Self) -> bool;

    /// The domain's additive identity.
    spec fn zero_spec() -> Self;

    /// The inputs on which the domain's addition is defined.
    spec fn add_req(self, other: Self) -> bool;

    /// The mathematical result of the domain's addition.
    spec fn add_spec(self, other: Self) -> Self;

    /// The inputs on which the domain's subtraction is defined.
    spec fn sub_req(self, other: Self) -> bool;

    /// The mathematical result of the domain's subtraction.
    spec fn sub_spec(self, other: Self) -> Self;

    /// The inputs on which the domain's multiplication is defined.
    spec fn mul_req(self, other: Self) -> bool;

    /// The mathematical result of the domain's multiplication.
    spec fn mul_spec(self, other: Self) -> Self;

    /// The inputs on which the domain's division is defined.
    spec fn div_req(self, other: Self) -> bool;

    /// The mathematical result of the domain's division.
    spec fn div_spec(self, other: Self) -> Self;

    /// The order relates every value to itself.
    proof fn le_reflexive(x: Self)
        ensures
            x.le(x),
    ;

    /// The order is transitive.
    proof fn le_transitive(x: Self, y: Self, z: Self)
        requires
            x.le(y),
            y.le(z),
        ensures
            x.le(z),
    ;

    /// Values related in both directions are equal.
    proof fn le_antisymmetric(x: Self, y: Self)
        requires
            x.le(y),
            y.le(x),
        ensures
            x == y,
    ;

    /// Any two values are related one way or the other.
    proof fn le_total(x: Self, y: Self)
        ensures
            x.le(y) || y.le(x),
    ;

    /// Materialize the additive identity.
    fn zero() -> (r: Self)
        ensures
            r == Self::zero_spec(),
    ;

    /// Strict comparison under the domain's order.
    fn lt(&self, other: &Self) -> (r: bool)
        ensures
            r == (self.le(*other) && *self != *other),
    ;

    /// Equality of domain values.
    fn eq_value(&self, other: &Self) -> (r: bool)
        ensures
            r == (*self == *other),
    ;

    /// The domain's addition; defined exactly on `add_req`.
    fn add(self, other: Self) -> (r: Self)
        requires
            self.add_req(other),
        ensures
            r == self.add_spec(other),
    ;

    /// The domain's subtraction; defined exactly on `sub_req`.
    fn sub(self, other: Self) -> (r: Self)
        requires
            self.sub_req(other),
        ensures
            r == self.sub_spec(other),
    ;

    /// The domain's multiplication; defined exactly on `mul_req`.
    fn mul(self, other: Self) -> (r: Self)
        requires
            self.mul_req(other),
        ensures
            r == self.mul_spec(other),
    ;

    /// The domain's division; defined exactly on `div_req`.
    fn div(self, other: Self) -> (r: Self)
        requires
            self.div_req(other),
        ensures
            r == self.div_spec(other),
    ;
}

impl FiniteDomain for i64 {
    open spec fn le(self, other: Self) -> bool {
        self <= other
    }

    open spec fn zero_spec() -> Self {
        0
    }

    open spec fn add_req(self, other: Self) -> bool {
        i64::MIN <= self + other <= i64::MAX
    }

    open spec fn add_spec(self, other: Self) -> Self {
        (self + other) as i64
    }

    open spec fn sub_req(self, other: Self) -> bool {
        i64::MIN <= self - other <= i64::MAX
    }

    open spec fn sub_spec(self, other: Self) -> Self {
        (self - other) as i64
    }

    open spec fn mul_req(self, other: Self) -> bool {
        i64::MIN <= self * other <= i64::MAX
    }

    open spec fn mul_spec(self, other: Self) -> Self {
        (self * other) as i64
    }

    open spec fn div_req(self, other: Self) -> bool {
        other != 0 && !(self == i64::MIN && other == -1)
    }

    open spec fn div_spec(self, other: Self) -> Self {
        trunc_div(self as int, other as int) as i64
    }

    proof fn le_reflexive(x: Self) {
    }

    proof fn le_transitive(x: Self, y: Self, z: Self) {
    }

    proof fn le_antisymmetric(x: Self, y: Self) {
    }

    proof fn le_total(x: Self, y: Self) {
    }

    fn zero() -> (r: Self) {
        0
    }

    fn lt(&self, other: &Self) -> (r: bool) {
        *self < *other
    }

    fn eq_value(&self, other: &Self) -> (r: bool) {
        *self == *other
    }

    fn add(self, other: Self) -> (r: Self) {
        self + other
    }

    fn sub(self, other: Self) -> (r: Self) {
        self - other
    }

    fn mul(self, other: Self) -> (r: Self) {
        self * other
    }

    fn div(self, other: Self) -> (r: Self) {
        self / other
    }
}

/// Division truncated toward zero, the convention of Rust's integer `/`,
/// written over the Euclidean `/` of specifications: for a nonnegative
/// dividend the two conventions agree whatever the divisor's sign, and a
/// negative dividend is reduced to that case by negating it and the quotient.
pub open spec fn trunc_div(x: int, d: int) -> int {
    if x >= 0 {
        x / d
    } else {
        -((-x) / d)
    }
}

} // verus!
