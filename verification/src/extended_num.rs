//! The extended number type: a finite domain value, or one of the two
//! infinities, with the total order and the four arithmetic operators of the
//! extended number line. Operand combinations that the extended-real
//! convention leaves undefined (indeterminate forms) fail with an error
//! rather than returning a value.

use vstd::prelude::*;

use core::cmp::Ordering;

use crate::domain::FiniteDomain;

verus! {

use vstd::std_specs::cmp::PartialOrdSpec;

use crate::extended_num::ExtendedNum::{Finite, NegInf, PosInf};

/// The domain's strict order: `a` below `b`.
pub open spec fn below<T: FiniteDomain>(a: T, b: T) -> bool {
    a.le(b) && a != b
}

/// Whether a domain value lies strictly above the additive identity.
pub open spec fn is_positive<T: FiniteDomain>(x: T) -> bool {
    below(T::zero_spec(), x)
}

/// Whether a domain value lies strictly below the additive identity.
pub open spec fn is_negative<T: FiniteDomain>(x: T) -> bool {
    below(x, T::zero_spec())
}

/// The sign of a finite operand, used to orient an infinite result.
enum Sign {
    Positive,
    Negative,
    Zero,
}

/// Decide on which side of the additive identity a domain value lies.
fn classify_sign<T: FiniteDomain>(x: &T) -> (r: Sign)
    ensures
        r is Positive <==> is_positive(*x),
        r is Negative <==> is_negative(*x),
        r is Zero <==> *x == T::zero_spec(),
{
    proof {
        T::le_total(T::zero_spec(), *x);
        if T::zero_spec().le(*x) && (*x).le(T::zero_spec()) {
            T::le_antisymmetric(T::zero_spec(), *x);
        }
    }
    let z = T::zero();
    if z.lt(x) {
        Sign::Positive
    } else if x.lt(&z) {
        Sign::Negative
    } else {
        Sign::Zero
    }
}

/// A value of the finite domain `T`, or one of the two infinities that
/// extend it. Exactly one variant is active; the type is immutable and every
/// operation yields a new value.
#[derive(Clone, Copy, Debug)]
pub enum ExtendedNum<T> {
    /// The domain's unbounded maximum.
    PosInf,
    /// A value of the finite domain itself.
    Finite(T),
    /// The domain's unbounded minimum.
    NegInf,
}

/// The two failure kinds of the extended operations.
#[derive(Clone, Copy, Debug, PartialEq, Eq, Structural)]
pub enum ExtendedNumError {
    /// The wrapped finite value was requested of an infinite value.
    InvalidState,
    /// An arithmetic call on an operand combination that is an indeterminate
    /// form under the extended-real convention.
    InvalidOperation,
}

impl<T: FiniteDomain> ExtendedNum<T> {
    /// Materialize the finite domain's additive identity, used to classify
    /// finite operands as positive, negative, or zero.
    pub fn zero() -> (r: T)
        ensures
            r == T::zero_spec(),
    {
        T::zero()
    }

    /// Whether this value is of the `Finite` variant.
    pub fn is_finite(&self) -> (r: bool)
        ensures
            r == (self is Finite),
    {
        match self {
            Finite(_) => true,
            _ => false,
        }
    }

    /// Whether this value is one of the two infinite variants.
    pub fn is_infinity(&self) -> (r: bool)
        ensures
            r == !(self is Finite),
    {
        match self {
            Finite(_) => false,
            _ => true,
        }
    }

    /// Whether this value is the positive infinity.
    pub fn is_pos_inf(&self) -> (r: bool)
        ensures
            r == (self is PosInf),
    {
        match self {
            PosInf => true,
            _ => false,
        }
    }

    /// Whether this value is the negative infinity.
    pub fn is_neg_inf(&self) -> (r: bool)
        ensures
            r == (self is NegInf),
    {
        match self {
            NegInf => true,
            _ => false,
        }
    }

    /// The wrapped finite value; fails with `InvalidState` on either
    /// infinite variant. Callers guard with `is_finite`, or take the failure
    /// as a programming-error signal.
    pub fn get_finite_value(&self) -> (r: Result<&T, ExtendedNumError>)
        ensures
            self matches Finite(v) ==> (r matches Ok(w) && *w == v),
            !(self is Finite) ==> r == Err::<&T, ExtendedNumError>(ExtendedNumError::InvalidState),
    {
        match self {
            Finite(v) => Ok(v),
            _ => Err(ExtendedNumError::InvalidState),
        }
    }

    /// The strict total order of the extended domain: `NegInf` lies below
    /// everything else, `PosInf` above everything else, and two finite values
    /// compare by the domain's own order.
    pub open spec fn ext_lt(self, rhs: Self) -> bool {
        match (self, rhs) {
            (NegInf, Finite(_)) => true,
            (NegInf, PosInf) => true,
            (Finite(_), PosInf) => true,
            (Finite(a), Finite(b)) => below(a, b),
            _ => false,
        }
    }

    /// What extended addition asks of its operands: nothing, unless both are
    /// finite and the domain's own addition has a precondition on them.
    pub open spec fn add_req(self, rhs: Self) -> bool {
        match (self, rhs) {
            (Finite(a), Finite(b)) => a.add_req(b),
            _ => true,
        }
    }

    /// What extended subtraction asks of its operands; as for addition.
    pub open spec fn sub_req(self, rhs: Self) -> bool {
        match (self, rhs) {
            (Finite(a), Finite(b)) => a.sub_req(b),
            _ => true,
        }
    }

    /// What extended multiplication asks of its operands; as for addition.
    pub open spec fn mul_req(self, rhs: Self) -> bool {
        match (self, rhs) {
            (Finite(a), Finite(b)) => a.mul_req(b),
            _ => true,
        }
    }

    /// What extended division asks of its operands: nothing, unless both are
    /// finite, where the domain's own division decides — a finite zero
    /// divisor is not given extended treatment, so inputs the domain's
    /// division rejects are rejected here too.
    pub open spec fn div_req(self, rhs: Self) -> bool {
        match (self, rhs) {
            (Finite(a), Finite(b)) => a.div_req(b),
            _ => true,
        }
    }

    /// The extended addition table; `None` marks the indeterminate forms,
    /// the two opposite-infinity sums.
    pub open spec fn add_result(self, rhs: Self) -> Option<Self> {
        match (self, rhs) {
            (Finite(a), Finite(b)) => Some(Finite(a.add_spec(b))),
            (PosInf, NegInf) => None,
            (NegInf, PosInf) => None,
            (PosInf, _) => Some(PosInf),
            (_, PosInf) => Some(PosInf),
            _ => Some(NegInf),
        }
    }

    /// The extended subtraction table; `None` marks the indeterminate forms,
    /// the two same-signed infinity differences.
    pub open spec fn sub_result(self, rhs: Self) -> Option<Self> {
        match (self, rhs) {
            (Finite(a), Finite(b)) => Some(Finite(a.sub_spec(b))),
            (PosInf, PosInf) => None,
            (NegInf, NegInf) => None,
            (PosInf, _) => Some(PosInf),
            (NegInf, _) => Some(NegInf),
            (_, PosInf) => Some(NegInf),
            _ => Some(PosInf),
        }
    }

    /// The extended multiplication table. An infinity times a finite operand
    /// takes the finite operand's sign; two infinities follow the sign of
    /// the product; `None` marks the indeterminate forms, a finite zero
    /// paired with either infinity.
    pub open spec fn mul_result(self, rhs: Self) -> Option<Self> {
        match (self, rhs) {
            (Finite(a), Finite(b)) => Some(Finite(a.mul_spec(b))),
            (PosInf, PosInf) => Some(PosInf),
            (NegInf, NegInf) => Some(PosInf),
            (PosInf, NegInf) => Some(NegInf),
            (NegInf, PosInf) => Some(NegInf),
            (PosInf, Finite(x)) => Self::signed_infinity(true, x),
            (Finite(x), PosInf) => Self::signed_infinity(true, x),
            (NegInf, Finite(x)) => Self::signed_infinity(false, x),
            (Finite(x), NegInf) => Self::signed_infinity(false, x),
        }
    }

    /// The extended division table. An infinite dividend over a nonzero
    /// finite divisor takes the divisor's sign; a finite dividend over an
    /// infinite divisor collapses to the finite zero; `None` marks the
    /// indeterminate forms, two infinities or an infinite dividend over a
    /// finite zero. A finite dividend over a finite zero is not special: it
    /// is passed through to the domain's own division.
    pub open spec fn div_result(self, rhs: Self) -> Option<Self> {
        match (self, rhs) {
            (Finite(a), Finite(b)) => Some(Finite(a.div_spec(b))),
            (Finite(_), _) => Some(Finite(T::zero_spec())),
            (PosInf, Finite(x)) => Self::signed_infinity(true, x),
            (NegInf, Finite(x)) => Self::signed_infinity(false, x),
            _ => None,
        }
    }

    /// The infinity whose sign is the product of `positive` and the sign of
    /// the finite operand `x`; `None` when `x` is the additive identity.
    pub open spec fn signed_infinity(positive: bool, x: T) -> Option<Self> {
        if is_positive(x) {
            Some(if positive { PosInf } else { NegInf })
        } else if is_negative(x) {
            Some(if positive { NegInf } else { PosInf })
        } else {
            None
        }
    }

    /// Extended addition; fails with `InvalidOperation` exactly on the
    /// indeterminate forms of the addition table.
    pub fn add(self, rhs: Self) -> (r: Result<Self, ExtendedNumError>)
        requires
            self.add_req(rhs),
        ensures
            self.add_result(rhs) matches Some(v) ==> r == Ok::<Self, ExtendedNumError>(v),
            self.add_result(rhs) is None ==> r == Err::<Self, ExtendedNumError>(
                ExtendedNumError::InvalidOperation,
            ),
    {
        match (self, rhs) {
            (PosInf, PosInf) => Ok(PosInf),
            (PosInf, Finite(_)) => Ok(PosInf),
            (NegInf, NegInf) => Ok(NegInf),
            (NegInf, Finite(_)) => Ok(NegInf),
            (Finite(a), Finite(b)) => Ok(Finite(a.add(b))),
            (Finite(_), PosInf) => Ok(PosInf),
            (Finite(_), NegInf) => Ok(NegInf),
            _ => Err(ExtendedNumError::InvalidOperation),
        }
    }

    /// Extended subtraction; fails with `InvalidOperation` exactly on the
    /// indeterminate forms of the subtraction table.
    pub fn sub(self, rhs: Self) -> (r: Result<Self, ExtendedNumError>)
        requires
            self.sub_req(rhs),
        ensures
            self.sub_result(rhs) matches Some(v) ==> r == Ok::<Self, ExtendedNumError>(v),
            self.sub_result(rhs) is None ==> r == Err::<Self, ExtendedNumError>(
                ExtendedNumError::InvalidOperation,
            ),
    {
        match (self, rhs) {
            (PosInf, NegInf) => Ok(PosInf),
            (PosInf, Finite(_)) => Ok(PosInf),
            (NegInf, PosInf) => Ok(NegInf),
            (NegInf, Finite(_)) => Ok(NegInf),
            (Finite(a), Finite(b)) => Ok(Finite(a.sub(b))),
            (Finite(_), PosInf) => Ok(NegInf),
            (Finite(_), NegInf) => Ok(PosInf),
            _ => Err(ExtendedNumError::InvalidOperation),
        }
    }

    /// Extended multiplication; fails with `InvalidOperation` exactly on the
    /// indeterminate forms of the multiplication table.
    pub fn mul(self, rhs: Self) -> (r: Result<Self, ExtendedNumError>)
        requires
            self.mul_req(rhs),
        ensures
            self.mul_result(rhs) matches Some(v) ==> r == Ok::<Self, ExtendedNumError>(v),
            self.mul_result(rhs) is None ==> r == Err::<Self, ExtendedNumError>(
                ExtendedNumError::InvalidOperation,
            ),
    {
        match (self, rhs) {
            (PosInf, PosInf) => Ok(PosInf),
            (PosInf, NegInf) => Ok(NegInf),
            (NegInf, PosInf) => Ok(NegInf),
            (NegInf, NegInf) => Ok(PosInf),
            (Finite(a), Finite(b)) => Ok(Finite(a.mul(b))),
            (PosInf, Finite(x)) => Self::oriented_infinity(true, &x),
            (Finite(x), PosInf) => Self::oriented_infinity(true, &x),
            (NegInf, Finite(x)) => Self::oriented_infinity(false, &x),
            (Finite(x), NegInf) => Self::oriented_infinity(false, &x),
        }
    }

    /// Extended division; fails with `InvalidOperation` exactly on the
    /// indeterminate forms of the division table.
    pub fn div(self, rhs: Self) -> (r: Result<Self, ExtendedNumError>)
        requires
            self.div_req(rhs),
        ensures
            self.div_result(rhs) matches Some(v) ==> r == Ok::<Self, ExtendedNumError>(v),
            self.div_result(rhs) is None ==> r == Err::<Self, ExtendedNumError>(
                ExtendedNumError::InvalidOperation,
            ),
    {
        match (self, rhs) {
            (PosInf, Finite(x)) => Self::oriented_infinity(true, &x),
            (NegInf, Finite(x)) => Self::oriented_infinity(false, &x),
            (Finite(_), PosInf) => Ok(Finite(T::zero())),
            (Finite(_), NegInf) => Ok(Finite(T::zero())),
            (Finite(a), Finite(b)) => Ok(Finite(a.div(b))),
            _ => Err(ExtendedNumError::InvalidOperation),
        }
    }

    /// Realize `signed_infinity`: orient an infinite result by the sign of
    /// the finite operand `x`, failing on the domain's additive identity.
    fn oriented_infinity(positive: bool, x: &T) -> (r: Result<Self, ExtendedNumError>)
        ensures
            Self::signed_infinity(positive, *x) matches Some(v) ==> r == Ok::<
                Self,
                ExtendedNumError,
            >(v),
            Self::signed_infinity(positive, *x) is None ==> r == Err::<Self, ExtendedNumError>(
                ExtendedNumError::InvalidOperation,
            ),
    {
        match classify_sign(x) {
            Sign::Positive => Ok(if positive { PosInf } else { NegInf }),
            Sign::Negative => Ok(if positive { NegInf } else { PosInf }),
            Sign::Zero => Err(ExtendedNumError::InvalidOperation),
        }
    }
}

/// The extended order is a total order: of any two extended values, exactly
/// one of `a` below `b`, `a` equal to `b`, `b` below `a` holds.
pub proof fn lemma_order_trichotomy<T: FiniteDomain>(a: ExtendedNum<T>, b: ExtendedNum<T>)
    ensures
        a.ext_lt(b) || a == b || b.ext_lt(a),
        !(a.ext_lt(b) && a == b),
        !(b.ext_lt(a) && a == b),
        !(a.ext_lt(b) && b.ext_lt(a)),
        (a == b) <==> (!a.ext_lt(b) && !b.ext_lt(a)),
{
    match (a, b) {
        (Finite(x), Finite(y)) => {
            T::le_total(x, y);
            if x.le(y) && y.le(x) {
                T::le_antisymmetric(x, y);
            }
        },
        _ => {},
    }
}

/// The three-way comparison realizes the extended order: it answers `Less`
/// exactly below, `Equal` exactly at equality, `Greater` exactly above.
pub proof fn lemma_comparison_characterization<T: FiniteDomain>(
    a: ExtendedNum<T>,
    b: ExtendedNum<T>,
)
    ensures
        a.partial_cmp_spec(&b) == Some(Ordering::Less) <==> a.ext_lt(b),
        a.partial_cmp_spec(&b) == Some(Ordering::Equal) <==> a == b,
        a.partial_cmp_spec(&b) == Some(Ordering::Greater) <==> b.ext_lt(a),
{
    lemma_order_trichotomy(a, b);
}

/// The extended order is transitive, as long as the domain's own order is.
pub proof fn lemma_order_transitivity<T: FiniteDomain>(
    a: ExtendedNum<T>,
    b: ExtendedNum<T>,
    c: ExtendedNum<T>,
)
    requires
        a.ext_lt(b),
        b.ext_lt(c),
    ensures
        a.ext_lt(c),
{
    match (a, b, c) {
        (Finite(x), Finite(y), Finite(z)) => {
            T::le_transitive(x, y, z);
            if x == z {
                T::le_antisymmetric(x, y);
            }
        },
        _ => {},
    }
}

/// The infinities bound the finite domain: every finite value lies strictly
/// above `NegInf` and strictly below `PosInf`.
pub proof fn lemma_ordering_boundary<T: FiniteDomain>(x: T)
    ensures
        NegInf.ext_lt(Finite(x)),
        Finite(x).ext_lt(PosInf),
        ExtendedNum::<T>::NegInf.ext_lt(PosInf),
{
}

/// An infinity absorbs any finite addend: `PosInf + Finite(x)` is `PosInf`
/// and `NegInf + Finite(x)` is `NegInf`, for every finite `x`.
pub proof fn lemma_additive_absorption<T: FiniteDomain>(x: T)
    ensures
        PosInf.add_result(Finite(x)) == Some(ExtendedNum::<T>::PosInf),
        NegInf.add_result(Finite(x)) == Some(ExtendedNum::<T>::NegInf),
{
}

/// Multiplying `PosInf` by a finite operand propagates the operand's sign:
/// the product is `PosInf` for a positive operand and `NegInf` for a
/// negative one.
pub proof fn lemma_sign_propagation<T: FiniteDomain>(x: T)
    ensures
        is_positive(x) ==> PosInf.mul_result(Finite(x)) == Some(ExtendedNum::<T>::PosInf),
        is_negative(x) ==> PosInf.mul_result(Finite(x)) == Some(ExtendedNum::<T>::NegInf),
{
    if is_positive(x) && is_negative(x) {
        T::le_antisymmetric(T::zero_spec(), x);
    }
}

/// A finite dividend over an infinite divisor of either sign collapses to
/// the finite additive identity.
pub proof fn lemma_division_collapse<T: FiniteDomain>(x: T)
    ensures
        Finite(x).div_result(PosInf) == Some(Finite(T::zero_spec())),
        Finite(x).div_result(NegInf) == Some(Finite(T::zero_spec())),
{
}

/// On two finite operands each extended operator delegates to the domain's
/// own operator: `Finite(a) op Finite(b)` is `Finite(a op b)`.
pub proof fn lemma_finite_delegation<T: FiniteDomain>(a: T, b: T)
    ensures
        Finite(a).add_result(Finite(b)) == Some(Finite(a.add_spec(b))),
        Finite(a).sub_result(Finite(b)) == Some(Finite(a.sub_spec(b))),
        Finite(a).mul_result(Finite(b)) == Some(Finite(a.mul_spec(b))),
        Finite(a).div_result(Finite(b)) == Some(Finite(a.div_spec(b))),
{
}

/// The indeterminate forms yield no value: opposite infinities added,
/// same-signed infinities subtracted, an infinity multiplied by a finite
/// zero, an infinity divided by an infinity or by a finite zero.
pub proof fn lemma_indeterminate_forms<T: FiniteDomain>()
    ensures
        ExtendedNum::<T>::PosInf.add_result(NegInf) is None,
        ExtendedNum::<T>::NegInf.add_result(PosInf) is None,
        ExtendedNum::<T>::PosInf.sub_result(PosInf) is None,
        ExtendedNum::<T>::NegInf.sub_result(NegInf) is None,
        PosInf.mul_result(Finite(T::zero_spec())) is None,
        Finite(T::zero_spec()).mul_result(NegInf) is None,
        ExtendedNum::<T>::PosInf.div_result(PosInf) is None,
        ExtendedNum::<T>::PosInf.div_result(NegInf) is None,
        ExtendedNum::<T>::NegInf.div_result(PosInf) is None,
        ExtendedNum::<T>::NegInf.div_result(NegInf) is None,
        PosInf.div_result(Finite(T::zero_spec())) is None,
        NegInf.div_result(Finite(T::zero_spec())) is None,
{
}

impl<T: FiniteDomain> PartialEq for ExtendedNum<T> {
    /// Two extended values are equal iff both are `NegInf`, both are
    /// `PosInf`, or both are `Finite` wrapping equal domain values.
    fn eq(&self, other: &Self) -> (r: bool) {
        match (self, other) {
            (PosInf, PosInf) => true,
            (NegInf, NegInf) => true,
            (Finite(a), Finite(b)) => a.eq_value(b),
            _ => false,
        }
    }
}

impl<T: FiniteDomain> Eq for ExtendedNum<T> {
}

impl<T: FiniteDomain> vstd::std_specs::cmp::PartialEqSpecImpl for ExtendedNum<T> {
    open spec fn obeys_eq_spec() -> bool {
        true
    }

    open spec fn eq_spec(&self, other: &Self) -> bool {
        *self == *other
    }
}

impl<T: FiniteDomain> PartialOrd for ExtendedNum<T> {
    /// The three-way comparison realizing `ext_lt`: every pair of extended
    /// values is ordered, so the result is always `Some`.
    fn partial_cmp(&self, other: &Self) -> (r: Option<Ordering>) {
        let c = match (self, other) {
            (PosInf, PosInf) => Ordering::Equal,
            (PosInf, _) => Ordering::Greater,
            (NegInf, NegInf) => Ordering::Equal,
            (NegInf, _) => Ordering::Less,
            (Finite(_), PosInf) => Ordering::Less,
            (Finite(_), NegInf) => Ordering::Greater,
            (Finite(a), Finite(b)) => if a.lt(b) {
                Ordering::Less
            } else if a.eq_value(b) {
                Ordering::Equal
            } else {
                Ordering::Greater
            },
        };
        Some(c)
    }
}

impl<T: FiniteDomain> vstd::std_specs::cmp::PartialOrdSpecImpl for ExtendedNum<T> {
    open spec fn obeys_partial_cmp_spec() -> bool {
        true
    }

    open spec fn partial_cmp_spec(&self, other: &Self) -> Option<Ordering> {
        if self.ext_lt(*other) {
            Some(Ordering::Less)
        } else if *self == *other {
            Some(Ordering::Equal)
        } else {
            Some(Ordering::Greater)
        }
    }
}

} // verus!
