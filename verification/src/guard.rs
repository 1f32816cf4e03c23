use vstd::prelude::*;

use core::cmp::Ordering;
use core::marker::PhantomData;

use crate::error::Error;
use crate::float::{Float, FloatBits, WithKind};
use crate::marker::{Finite, FpMarker};

verus! {

/// `FloatGuard` is a newtype around the bit pattern of one floating-point
/// value (such as a 32-bit or a 64-bit one), tagged by a marker type `M` that
/// declares which validity predicate the wrapped pattern satisfies.
///
/// The core guarantee is a type invariant: any instance that exists was
/// either constructed through the validating path, or through an explicit
/// escape hatch whose caller proved the predicate. For the `Finite` tag the
/// wrapped pattern is therefore never NaN nor an infinity.
#[derive(Copy, Debug)]
pub struct FloatGuard<I, M>(I, PhantomData<M>) where I: Float<M>, M: FpMarker;

impl<I, M> Clone for FloatGuard<I, M> where I: Float<M>, M: FpMarker {
    fn clone(&self) -> (r: Self)
        ensures
            r == *self,
    {
        *self
    }
}

impl<I, M> FloatGuard<I, M> where I: Float<M>, M: FpMarker {
    /// The wrapped bit-pattern value.
    pub closed spec fn value(self) -> I {
        self.0
    }

    /// The ordering key of the wrapped pattern.
    pub open spec fn key(self) -> int {
        self.value().key()
    }

    /// The wrapped pattern is neither NaN nor an infinity.
    pub open spec fn is_finite(self) -> bool {
        self.value().is_finite_spec()
    }

    #[verifier::type_invariant]
    spec fn inv(self) -> bool {
        M::checks_finite() ==> self.0.is_finite_spec()
    }

    /// Returns the largest integer less than or equal to the number. A finite
    /// value's floor is finite, so no re-validation is needed.
    pub fn floor(self) -> (r: Self)
        ensures
            r.value() == self.value().floor_spec(),
            self.is_finite() ==> r.is_finite(),
    {
        proof {
            use_type_invariant(&self);
        }
        FloatGuard(self.0.floor_prim(), PhantomData)
    }

    /// Unwrap to the bare bit-pattern value (lossless).
    pub fn into_inner(self) -> (r: I)
        ensures
            r == self.value(),
    {
        self.0
    }
}

impl<V> FloatGuard<V, Finite> where V: WithKind<Finite> {
    /// What validation returns: the wrapped input when it satisfies the
    /// `Finite` predicate, and `NotFinite` otherwise.
    pub closed spec fn try_from_spec(value: V) -> Result<Self, Error> {
        if value.is_finite_spec() {
            Ok(FloatGuard(value, PhantomData))
        } else {
            Err(Error::NotFinite)
        }
    }

    /// Try to construct `FloatGuard` from `value`. This is the single
    /// validation gate for untrusted input: a finite value is wrapped
    /// unchanged, bit for bit, and anything else is rejected.
    pub fn try_from(value: V) -> (r: Result<Self, Error>)
        ensures
            r == Self::try_from_spec(value),
            value.is_finite_spec() ==> (r matches Ok(g) && g.value() == value),
            !value.is_finite_spec() ==> r == Err::<Self, Error>(Error::NotFinite),
    {
        if value.is_finite() {
            Ok(FloatGuard(value, PhantomData))
        } else {
            Err(Error::NotFinite)
        }
    }

    /// Construct a finite `FloatGuard` from an unchecked value. The caller
    /// must guarantee that the value satisfies the `Finite` predicate; the
    /// precondition makes that guarantee machine-checked at every verified
    /// call site, while an unverified caller gets no runtime check.
    pub fn from_unchecked(value: V) -> (r: Self)
        requires
            value.is_finite_spec(),
        ensures
            r.value() == value,
    {
        FloatGuard(value, PhantomData)
    }

    /// Infallible convenience construction: `try_from` followed by an
    /// unconditional unwrap. Verified callers must prove the value finite;
    /// an unverified caller handing in anything else hits the unwrap's
    /// panic.
    pub fn from(value: V) -> (r: Self)
        requires
            value.is_finite_spec(),
        ensures
            r.value() == value,
    {
        FloatGuard::try_from(value).unwrap()
    }

    /// The additive identity, wrapped through the unchecked path: the zero
    /// pattern is trivially finite.
    pub fn zero() -> (r: Self)
        ensures
            r.value() == V::zero_spec(),
            r.key() == 0,
    {
        Self::from_unchecked(V::zero())
    }

    /// The multiplicative identity, wrapped through the unchecked path: the
    /// one pattern is trivially finite.
    pub fn one() -> (r: Self)
        ensures
            r.value() == V::one_spec(),
            r.key() > 0,
    {
        Self::from_unchecked(V::one())
    }

    /// Whether the wrapped value is a zero (of either sign).
    pub fn is_zero(&self) -> (r: bool)
        ensures
            r == (self.key() == 0),
    {
        proof {
            use_type_invariant(&*self);
            self.0.lemma_finite_not_nan();
        }
        let z: V = V::zero();
        proof {
            z.lemma_finite_not_nan();
        }
        self.0.eq_prim(z)
    }

    /// Whether the sign bit of the wrapped value is set.
    pub fn is_negative(&self) -> (r: bool)
        ensures
            r == self.value().is_sign_negative_spec(),
    {
        self.0.is_sign_negative()
    }

    /// Add. Operator-style arithmetic has no error channel, so the result
    /// must be proved to stay finite; a violation is fatal rather than
    /// recoverable.
    pub fn add(self, other: Self) -> (r: Self)
        requires
            self.value().add_spec(other.value()).is_finite_spec(),
        ensures
            r.value() == self.value().add_spec(other.value()),
    {
        FloatGuard(self.0.add_prim(other.0), PhantomData)
    }

    /// Safely add: the primitive sum is re-validated, and a sum that escapes
    /// the finite range (overflow to an infinity) is reported as `NotFinite`.
    pub fn try_add(self, other: Self) -> (r: Result<Self, Error>)
        ensures
            r == Self::try_from_spec(self.value().add_spec(other.value())),
            self.value().add_spec(other.value()).is_finite_spec() ==> (r matches Ok(g)
                && g.value() == self.value().add_spec(other.value())),
            !self.value().add_spec(other.value()).is_finite_spec() ==> r == Err::<Self, Error>(
                Error::NotFinite,
            ),
    {
        let raw: V = self.0.add_prim(other.0);
        if raw.is_finite() {
            Ok(self.add(other))
        } else {
            Err(Error::NotFinite)
        }
    }

    /// Safely add a bare (unwrapped) value.
    pub fn try_add_float(self, other: V) -> (r: Result<Self, Error>)
        ensures
            r == Self::try_from_spec(self.value().add_spec(other)),
    {
        Self::try_from(self.0.add_prim(other))
    }

    /// Subtract; the result must be proved to stay finite.
    pub fn sub(self, other: Self) -> (r: Self)
        requires
            self.value().sub_spec(other.value()).is_finite_spec(),
        ensures
            r.value() == self.value().sub_spec(other.value()),
    {
        FloatGuard(self.0.sub_prim(other.0), PhantomData)
    }

    /// Safely subtract: the primitive difference is re-validated.
    pub fn try_sub(self, other: Self) -> (r: Result<Self, Error>)
        ensures
            r == Self::try_from_spec(self.value().sub_spec(other.value())),
            self.value().sub_spec(other.value()).is_finite_spec() ==> (r matches Ok(g)
                && g.value() == self.value().sub_spec(other.value())),
            !self.value().sub_spec(other.value()).is_finite_spec() ==> r == Err::<Self, Error>(
                Error::NotFinite,
            ),
    {
        let raw: V = self.0.sub_prim(other.0);
        if raw.is_finite() {
            Ok(self.sub(other))
        } else {
            Err(Error::NotFinite)
        }
    }

    /// Safely subtract a bare (unwrapped) value.
    pub fn try_sub_float(self, other: V) -> (r: Result<Self, Error>)
        ensures
            r == Self::try_from_spec(self.value().sub_spec(other)),
    {
        Self::try_from(self.0.sub_prim(other))
    }

    /// Multiply; the result must be proved to stay finite.
    pub fn mul(self, other: Self) -> (r: Self)
        requires
            self.value().mul_spec(other.value()).is_finite_spec(),
        ensures
            r.value() == self.value().mul_spec(other.value()),
    {
        FloatGuard(self.0.mul_prim(other.0), PhantomData)
    }

    /// Safely multiply: the primitive product is re-validated, and a product
    /// that escapes the finite range is reported as `NotFinite`.
    pub fn try_mul(self, other: Self) -> (r: Result<Self, Error>)
        ensures
            r == Self::try_from_spec(self.value().mul_spec(other.value())),
            self.value().mul_spec(other.value()).is_finite_spec() ==> (r matches Ok(g)
                && g.value() == self.value().mul_spec(other.value())),
            !self.value().mul_spec(other.value()).is_finite_spec() ==> r == Err::<Self, Error>(
                Error::NotFinite,
            ),
    {
        let raw: V = self.0.mul_prim(other.0);
        if raw.is_finite() {
            Ok(self.mul(other))
        } else {
            Err(Error::NotFinite)
        }
    }

    /// Safely multiply by a bare (unwrapped) value.
    pub fn try_mul_float(self, other: V) -> (r: Result<Self, Error>)
        ensures
            r == Self::try_from_spec(self.value().mul_spec(other)),
    {
        Self::try_from(self.0.mul_prim(other))
    }

    /// Divide; the result must be proved to stay finite (so the divisor may
    /// not be a zero).
    pub fn div(self, other: Self) -> (r: Self)
        requires
            self.value().div_spec(other.value()).is_finite_spec(),
        ensures
            r.value() == self.value().div_spec(other.value()),
    {
        FloatGuard(self.0.div_prim(other.0), PhantomData)
    }

    /// Safely divide: the primitive quotient is re-validated, and a quotient
    /// that escapes the finite range (division by a zero) is reported as
    /// `NotFinite`.
    pub fn try_div(self, other: Self) -> (r: Result<Self, Error>)
        ensures
            r == Self::try_from_spec(self.value().div_spec(other.value())),
            self.value().div_spec(other.value()).is_finite_spec() ==> (r matches Ok(g)
                && g.value() == self.value().div_spec(other.value())),
            !self.value().div_spec(other.value()).is_finite_spec() ==> r == Err::<Self, Error>(
                Error::NotFinite,
            ),
    {
        let raw: V = self.0.div_prim(other.0);
        if raw.is_finite() {
            Ok(self.div(other))
        } else {
            Err(Error::NotFinite)
        }
    }

    /// Safely divide by a bare (unwrapped) value.
    pub fn try_div_float(self, other: V) -> (r: Result<Self, Error>)
        ensures
            r == Self::try_from_spec(self.value().div_spec(other)),
    {
        Self::try_from(self.0.div_prim(other))
    }

    /// Absolute value: the magnitude of a finite value is finite, so no
    /// re-validation is needed.
    pub fn abs(self) -> (r: Self)
        ensures
            r.value() == self.value().abs_spec(),
            r.key() == (if self.key() >= 0 {
                self.key()
            } else {
                -self.key()
            }),
    {
        proof {
            use_type_invariant(&self);
        }
        FloatGuard(self.0.abs_prim(), PhantomData)
    }

    /// Total order on finite guards: the wrapped patterns admit no NaN, so
    /// the floating-point partial order is total here.
    pub fn cmp(&self, other: &Self) -> (r: Ordering)
        ensures
            (r == Ordering::Less) <==> self.key() < other.key(),
            (r == Ordering::Equal) <==> self.key() == other.key(),
            (r == Ordering::Greater) <==> self.key() > other.key(),
    {
        proof {
            use_type_invariant(&*self);
            use_type_invariant(&*other);
            self.0.lemma_finite_not_nan();
            other.0.lemma_finite_not_nan();
        }
        if self.0.lt_prim(other.0) {
            Ordering::Less
        } else if self.0.eq_prim(other.0) {
            Ordering::Equal
        } else {
            Ordering::Greater
        }
    }

    /// The smaller of the two guards; the first one when they are equal.
    pub fn min(self, other: Self) -> (r: Self)
        ensures
            r == (if other.key() < self.key() {
                other
            } else {
                self
            }),
    {
        proof {
            use_type_invariant(&self);
            use_type_invariant(&other);
            self.0.lemma_finite_not_nan();
            other.0.lemma_finite_not_nan();
        }
        if other.0.lt_prim(self.0) {
            other
        } else {
            self
        }
    }

    /// The larger of the two guards; the second one when they are equal.
    pub fn max(self, other: Self) -> (r: Self)
        ensures
            r == (if self.key() > other.key() {
                self
            } else {
                other
            }),
    {
        proof {
            use_type_invariant(&self);
            use_type_invariant(&other);
            self.0.lemma_finite_not_nan();
            other.0.lemma_finite_not_nan();
        }
        if other.0.lt_prim(self.0) {
            self
        } else {
            other
        }
    }

    /// One stride of range stepping: `try_add`, with a step that would leave
    /// the `Finite` predicate ending the sequence (`None`) rather than
    /// erroring.
    pub fn step(&self, by: &Self) -> (r: Option<Self>)
        ensures
            self.value().add_spec(by.value()).is_finite_spec() ==> (r matches Some(g)
                && g.value() == self.value().add_spec(by.value())),
            !self.value().add_spec(by.value()).is_finite_spec() ==> r is None,
    {
        match self.try_add(*by) {
            Ok(g) => Some(g),
            Err(_) => None,
        }
    }

    /// Step up by the identity value; like the operator forms, fatal when
    /// the result escapes the finite range.
    pub fn add_one(&self) -> (r: Self)
        requires
            self.value().add_spec(V::one_spec()).is_finite_spec(),
        ensures
            r.value() == self.value().add_spec(V::one_spec()),
    {
        (*self).try_add_float(V::one()).unwrap()
    }

    /// Step down by the identity value; like the operator forms, fatal when
    /// the result escapes the finite range.
    pub fn sub_one(&self) -> (r: Self)
        requires
            self.value().sub_spec(V::one_spec()).is_finite_spec(),
        ensures
            r.value() == self.value().sub_spec(V::one_spec()),
    {
        (*self).try_sub_float(V::one()).unwrap()
    }

    /// Validation law: a finite value is accepted, the wrapped value is the
    /// input bit for bit, and unwrapping therefore returns it unchanged.
    pub proof fn lemma_try_from_round_trip(value: V)
        requires
            value.is_finite_spec(),
        ensures
            Self::try_from_spec(value) matches Ok(g) && g.value() == value,
    {
    }

    /// Validation law: a non-finite value is rejected with `NotFinite`.
    pub proof fn lemma_try_from_non_finite(value: V)
        requires
            !value.is_finite_spec(),
        ensures
            Self::try_from_spec(value) == Err::<Self, Error>(Error::NotFinite),
    {
    }
}

impl<I, M> PartialEq for FloatGuard<I, M> where I: Float<M>, M: FpMarker {
    /// Floating-point equality of the wrapped patterns: the two zeros are
    /// equal, and NaN (possible only outside the `Finite` tag) equals
    /// nothing.
    fn eq(&self, other: &Self) -> (r: bool) {
        self.0.eq_prim(other.0)
    }
}

impl<I, M> vstd::std_specs::cmp::PartialEqSpecImpl for FloatGuard<I, M> where I: Float<M>, M: FpMarker {
    open spec fn obeys_eq_spec() -> bool {
        true
    }

    open spec fn eq_spec(&self, other: &Self) -> bool {
        !self.value().is_nan_spec() && !other.value().is_nan_spec() && self.value().key()
            == other.value().key()
    }
}

impl<I, M> PartialOrd for FloatGuard<I, M> where I: Float<M>, M: FpMarker {
    /// Floating-point order of the wrapped patterns.
    fn partial_cmp(&self, other: &Self) -> (r: Option<Ordering>) {
        if self.0.is_nan() || other.0.is_nan() {
            None
        } else if self.0.lt_prim(other.0) {
            Some(Ordering::Less)
        } else if self.0.eq_prim(other.0) {
            Some(Ordering::Equal)
        } else {
            Some(Ordering::Greater)
        }
    }
}

impl<I, M> vstd::std_specs::cmp::PartialOrdSpecImpl for FloatGuard<I, M> where I: Float<M>, M: FpMarker {
    open spec fn obeys_partial_cmp_spec() -> bool {
        true
    }

    open spec fn partial_cmp_spec(&self, other: &Self) -> Option<Ordering> {
        if self.value().is_nan_spec() || other.value().is_nan_spec() {
            None
        } else if self.value().key() < other.value().key() {
            Some(Ordering::Less)
        } else if self.value().key() == other.value().key() {
            Some(Ordering::Equal)
        } else {
            Some(Ordering::Greater)
        }
    }
}

impl<I> PartialEq<I> for FloatGuard<I, Finite> where I: WithKind<Finite> {
    /// Equality against a bare primitive value. The bare operand is compared
    /// as it comes, without validation: a non-finite bare value can enter
    /// the comparison, and a bare NaN compares unequal to everything.
    fn eq(&self, other: &I) -> (r: bool) {
        self.0.eq_prim(*other)
    }
}

impl<I> vstd::std_specs::cmp::PartialEqSpecImpl<I> for FloatGuard<I, Finite> where I: WithKind<Finite> {
    open spec fn obeys_eq_spec() -> bool {
        true
    }

    open spec fn eq_spec(&self, other: &I) -> bool {
        !self.value().is_nan_spec() && !other.is_nan_spec() && self.value().key() == other.key()
    }
}

impl<I> PartialOrd<I> for FloatGuard<I, Finite> where I: WithKind<Finite> {
    /// Order against a bare primitive value, compared as it comes, without
    /// validation: a bare NaN makes the operands incomparable.
    fn partial_cmp(&self, other: &I) -> (r: Option<Ordering>) {
        if self.0.is_nan() || other.is_nan() {
            None
        } else if self.0.lt_prim(*other) {
            Some(Ordering::Less)
        } else if self.0.eq_prim(*other) {
            Some(Ordering::Equal)
        } else {
            Some(Ordering::Greater)
        }
    }
}

impl<I> vstd::std_specs::cmp::PartialOrdSpecImpl<I> for FloatGuard<I, Finite> where I: WithKind<Finite> {
    open spec fn obeys_partial_cmp_spec() -> bool {
        true
    }

    open spec fn partial_cmp_spec(&self, other: &I) -> Option<Ordering> {
        if self.value().is_nan_spec() || other.is_nan_spec() {
            None
        } else if self.value().key() < other.key() {
            Some(Ordering::Less)
        } else if self.value().key() == other.key() {
            Some(Ordering::Equal)
        } else {
            Some(Ordering::Greater)
        }
    }
}

} // verus!

