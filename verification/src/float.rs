use vstd::prelude::*;

use crate::marker::FpMarker;

verus! {

/// The raw-bits view of an IEEE 754 binary floating-point format.
///
/// A value of an implementing type holds the bit pattern of one
/// floating-point number. The spec side reads the pattern: `key` is the
/// sign-magnitude ordering key (negative patterns map below positive ones,
/// and both zeros map to `0`), and the classification predicates mirror the
/// format's encoding. The arithmetic operations return the bit pattern that
/// the format's rounding arithmetic produces.
pub trait FloatBits: Sized + Copy {
    /// Sign-magnitude ordering key of the bit pattern. For values that are
    /// not NaN this orders exactly as the floating-point comparison does,
    /// and it is `0` exactly for the two zeros.
    spec fn key(self) -> int;

    /// The pattern encodes neither NaN nor an infinity.
    spec fn is_finite_spec(self) -> bool;

    /// The pattern encodes NaN.
    spec fn is_nan_spec(self) -> bool;

    /// The sign bit is set.
    spec fn is_sign_negative_spec(self) -> bool;

    /// The bit pattern of positive zero.
    spec fn zero_spec() -> Self;

    /// The bit pattern of one.
    spec fn one_spec() -> Self;

    /// The bit pattern that addition of the two operands produces.
    spec fn add_spec(self, other: Self) -> Self;

    /// The bit pattern that subtraction of the two operands produces.
    spec fn sub_spec(self, other: Self) -> Self;

    /// The bit pattern that multiplication of the two operands produces.
    spec fn mul_spec(self, other: Self) -> Self;

    /// The bit pattern that division of the two operands produces.
    spec fn div_spec(self, other: Self) -> Self;

    /// The bit pattern of the largest integral value at or below the operand.
    spec fn floor_spec(self) -> Self;

    /// The operand with its sign bit cleared.
    spec fn abs_spec(self) -> Self;

    /// A finite pattern is never a NaN pattern.
    proof fn lemma_finite_not_nan(self)
        ensures
            self.is_finite_spec() ==> !self.is_nan_spec(),
    ;

    fn is_finite(self) -> (r: bool)
        ensures
            r == self.is_finite_spec(),
    ;

    fn is_nan(self) -> (r: bool)
        ensures
            r == self.is_nan_spec(),
    ;

    fn is_sign_negative(self) -> (r: bool)
        ensures
            r == self.is_sign_negative_spec(),
    ;

    /// Floating-point equality: false when either side is NaN, and otherwise
    /// equality of the ordering keys (so the two zeros are equal).
    fn eq_prim(self, other: Self) -> (r: bool)
        ensures
            r == (!self.is_nan_spec() && !other.is_nan_spec() && self.key() == other.key()),
    ;

    /// Floating-point strict order: false when either side is NaN, and
    /// otherwise the order of the keys.
    fn lt_prim(self, other: Self) -> (r: bool)
        ensures
            r == (!self.is_nan_spec() && !other.is_nan_spec() && self.key() < other.key()),
    ;

    fn zero() -> (r: Self)
        ensures
            r == Self::zero_spec(),
            r.is_finite_spec(),
            r.key() == 0,
    ;

    fn one() -> (r: Self)
        ensures
            r == Self::one_spec(),
            r.is_finite_spec(),
            r.key() > 0,
    ;

    fn add_prim(self, other: Self) -> (r: Self)
        ensures
            r == self.add_spec(other),
    ;

    fn sub_prim(self, other: Self) -> (r: Self)
        ensures
            r == self.sub_spec(other),
    ;

    fn mul_prim(self, other: Self) -> (r: Self)
        ensures
            r == self.mul_spec(other),
    ;

    fn div_prim(self, other: Self) -> (r: Self)
        ensures
            r == self.div_spec(other),
    ;

    /// Rounding a finite value to an integral value cannot overflow, so the
    /// result of `floor` on a finite pattern is finite.
    fn floor_prim(self) -> (r: Self)
        ensures
            r == self.floor_spec(),
            self.is_finite_spec() ==> r.is_finite_spec(),
    ;

    fn abs_prim(self) -> (r: Self)
        ensures
            r == self.abs_spec(),
            r.is_finite_spec() == self.is_finite_spec(),
            r.is_nan_spec() == self.is_nan_spec(),
            r.key() == (if self.key() >= 0 { self.key() } else { -self.key() }),
    ;
}

/// A bit-pattern type tagged with the classification `M` it may carry.
pub trait Float<M: FpMarker>: FloatBits {
}

/// Trait alias: a bit-pattern type usable under the classification `M`.
pub trait WithKind<M: FpMarker>: Float<M> {
}

impl<F, M> WithKind<M> for F where F: Float<M>, M: FpMarker {
}

} // verus!
