use vstd::prelude::*;

use crate::float::{Float, FloatBits};
use crate::marker::{Deflated, Finite};

verus! {

/// Mask of the non-sign bits of a 64-bit pattern.
pub const MAG_MASK_64: u64 = 0x7fff_ffff_ffff_ffff;

/// Mask of the exponent field of a 64-bit pattern, once shifted down.
pub const EXP_MASK_64: u64 = 0x7ff;

/// Mask of the mantissa field of a 64-bit pattern.
pub const MAN_MASK_64: u64 = 0xf_ffff_ffff_ffff;

/// The bit pattern of a 64-bit value of one.
pub const ONE_BITS_64: u64 = 0x3ff0_0000_0000_0000;

/// The exponent field of a 64-bit pattern.
pub open spec fn exponent64(b: u64) -> u64 {
    (b >> 52) & EXP_MASK_64
}

/// The magnitude (everything but the sign bit) of a 64-bit pattern.
pub open spec fn magnitude64(b: u64) -> u64 {
    b & MAG_MASK_64
}

/// A 64-bit pattern is finite when its exponent field is not saturated.
pub open spec fn is_finite64(b: u64) -> bool {
    exponent64(b) != EXP_MASK_64
}

/// A 64-bit pattern is NaN when its exponent field is saturated and its
/// mantissa field is not zero.
pub open spec fn is_nan64(b: u64) -> bool {
    exponent64(b) == EXP_MASK_64 && (b & MAN_MASK_64) != 0
}

/// The sign-magnitude ordering key of a 64-bit pattern.
pub open spec fn key64(b: u64) -> int {
    if (b >> 63) == 1 {
        -(magnitude64(b) as int)
    } else {
        magnitude64(b) as int
    }
}

/// The bit pattern that 64-bit addition (round to nearest, ties to even)
/// returns on the two operand patterns.
pub uninterp spec fn add_bits64(a: u64, b: u64) -> u64;

/// The bit pattern that 64-bit subtraction returns on the two operand
/// patterns.
pub uninterp spec fn sub_bits64(a: u64, b: u64) -> u64;

/// The bit pattern that 64-bit multiplication returns on the two operand
/// patterns.
pub uninterp spec fn mul_bits64(a: u64, b: u64) -> u64;

/// The bit pattern that 64-bit division returns on the two operand patterns.
pub uninterp spec fn div_bits64(a: u64, b: u64) -> u64;

/// The bit pattern of the largest integral value at or below the operand
/// pattern's value.
pub uninterp spec fn floor_bits64(a: u64) -> u64;

/// Relies on rustc_apfloat's IEEE 754 binary64 addition (round to nearest,
/// ties to even): the result depends on the operand bit patterns alone.
#[verifier::external_body]
fn add_raw64(a: u64, b: u64) -> (r: u64)
    ensures
        r == add_bits64(a, b),
{
    let x: rustc_apfloat::ieee::Double = rustc_apfloat::Float::from_bits(a as u128);
    let y: rustc_apfloat::ieee::Double = rustc_apfloat::Float::from_bits(b as u128);
    rustc_apfloat::Float::to_bits((x + y).value) as u64
}

/// Relies on rustc_apfloat's IEEE 754 binary64 subtraction (round to nearest,
/// ties to even): the result depends on the operand bit patterns alone.
#[verifier::external_body]
fn sub_raw64(a: u64, b: u64) -> (r: u64)
    ensures
        r == sub_bits64(a, b),
{
    let x: rustc_apfloat::ieee::Double = rustc_apfloat::Float::from_bits(a as u128);
    let y: rustc_apfloat::ieee::Double = rustc_apfloat::Float::from_bits(b as u128);
    rustc_apfloat::Float::to_bits((x - y).value) as u64
}

/// Relies on rustc_apfloat's IEEE 754 binary64 multiplication (round to
/// nearest, ties to even): the result depends on the operand bit patterns
/// alone.
#[verifier::external_body]
fn mul_raw64(a: u64, b: u64) -> (r: u64)
    ensures
        r == mul_bits64(a, b),
{
    let x: rustc_apfloat::ieee::Double = rustc_apfloat::Float::from_bits(a as u128);
    let y: rustc_apfloat::ieee::Double = rustc_apfloat::Float::from_bits(b as u128);
    rustc_apfloat::Float::to_bits((x * y).value) as u64
}

/// Relies on rustc_apfloat's IEEE 754 binary64 division (round to nearest,
/// ties to even): the result depends on the operand bit patterns alone.
#[verifier::external_body]
fn div_raw64(a: u64, b: u64) -> (r: u64)
    ensures
        r == div_bits64(a, b),
{
    let x: rustc_apfloat::ieee::Double = rustc_apfloat::Float::from_bits(a as u128);
    let y: rustc_apfloat::ieee::Double = rustc_apfloat::Float::from_bits(b as u128);
    rustc_apfloat::Float::to_bits((x / y).value) as u64
}

/// Relies on rustc_apfloat's round-to-integral toward negative infinity on an
/// IEEE 754 binary64 value: the result depends on the operand bits alone, and
/// rounding a finite value to an integral value never leaves the finite range.
#[verifier::external_body]
fn floor_raw64(a: u64) -> (r: u64)
    ensures
        r == floor_bits64(a),
        is_finite64(a) ==> is_finite64(r),
{
    let x: rustc_apfloat::ieee::Double = rustc_apfloat::Float::from_bits(a as u128);
    let f = rustc_apfloat::Float::round_to_integral(x, rustc_apfloat::Round::TowardNegative);
    rustc_apfloat::Float::to_bits(f.value) as u64
}

/// The bit pattern of one 64-bit floating-point value.
#[derive(Clone, Copy, Debug, Eq, PartialEq, Structural)]
pub struct Bits64(pub u64);

impl FloatBits for Bits64 {
    open spec fn key(self) -> int {
        key64(self.0)
    }

    open spec fn is_finite_spec(self) -> bool {
        is_finite64(self.0)
    }

    open spec fn is_nan_spec(self) -> bool {
        is_nan64(self.0)
    }

    open spec fn is_sign_negative_spec(self) -> bool {
        (self.0 >> 63) == 1
    }

    open spec fn zero_spec() -> Self {
        Bits64(0)
    }

    open spec fn one_spec() -> Self {
        Bits64(ONE_BITS_64)
    }

    open spec fn add_spec(self, other: Self) -> Self {
        Bits64(add_bits64(self.0, other.0))
    }

    open spec fn sub_spec(self, other: Self) -> Self {
        Bits64(sub_bits64(self.0, other.0))
    }

    open spec fn mul_spec(self, other: Self) -> Self {
        Bits64(mul_bits64(self.0, other.0))
    }

    open spec fn div_spec(self, other: Self) -> Self {
        Bits64(div_bits64(self.0, other.0))
    }

    open spec fn floor_spec(self) -> Self {
        Bits64(floor_bits64(self.0))
    }

    open spec fn abs_spec(self) -> Self {
        Bits64(magnitude64(self.0))
    }

    proof fn lemma_finite_not_nan(self) {
    }

    fn is_finite(self) -> (r: bool) {
        ((self.0 >> 52) & EXP_MASK_64) != EXP_MASK_64
    }

    fn is_nan(self) -> (r: bool) {
        ((self.0 >> 52) & EXP_MASK_64) == EXP_MASK_64 && (self.0 & MAN_MASK_64) != 0
    }

    fn is_sign_negative(self) -> (r: bool) {
        (self.0 >> 63) == 1
    }

    fn eq_prim(self, other: Self) -> (r: bool) {
        if self.is_nan() || other.is_nan() {
            false
        } else {
            let a: u64 = self.0;
            let b: u64 = other.0;
            let sa: u64 = a >> 63;
            let sb: u64 = b >> 63;
            let ma: u64 = a & MAG_MASK_64;
            let mb: u64 = b & MAG_MASK_64;
            proof {
                assert(a >> 63 == 0 || a >> 63 == 1) by (bit_vector);
                assert(b >> 63 == 0 || b >> 63 == 1) by (bit_vector);
            }
            (sa == sb && ma == mb) || (ma == 0 && mb == 0)
        }
    }

    fn lt_prim(self, other: Self) -> (r: bool) {
        if self.is_nan() || other.is_nan() {
            false
        } else {
            let a: u64 = self.0;
            let b: u64 = other.0;
            let sa: u64 = a >> 63;
            let sb: u64 = b >> 63;
            let ma: u64 = a & MAG_MASK_64;
            let mb: u64 = b & MAG_MASK_64;
            proof {
                assert(a >> 63 == 0 || a >> 63 == 1) by (bit_vector);
                assert(b >> 63 == 0 || b >> 63 == 1) by (bit_vector);
            }
            if sa == 1 && sb == 1 {
                mb < ma
            } else if sa == 1 {
                ma != 0 || mb != 0
            } else if sb == 1 {
                false
            } else {
                ma < mb
            }
        }
    }

    fn zero() -> (r: Self) {
        proof {
            assert((0u64 >> 52) & 0x7ffu64 != 0x7ffu64) by (bit_vector);
            assert(0u64 >> 63 == 0 && (0u64 & 0x7fff_ffff_ffff_ffffu64) == 0) by (bit_vector);
        }
        Bits64(0)
    }

    fn one() -> (r: Self) {
        proof {
            assert((0x3ff0_0000_0000_0000u64 >> 52) & 0x7ffu64 != 0x7ffu64) by (bit_vector);
            assert(0x3ff0_0000_0000_0000u64 >> 63 == 0) by (bit_vector);
            assert((0x3ff0_0000_0000_0000u64 & 0x7fff_ffff_ffff_ffffu64) > 0) by (bit_vector);
        }
        Bits64(ONE_BITS_64)
    }

    fn add_prim(self, other: Self) -> (r: Self) {
        Bits64(add_raw64(self.0, other.0))
    }

    fn sub_prim(self, other: Self) -> (r: Self) {
        Bits64(sub_raw64(self.0, other.0))
    }

    fn mul_prim(self, other: Self) -> (r: Self) {
        Bits64(mul_raw64(self.0, other.0))
    }

    fn div_prim(self, other: Self) -> (r: Self) {
        Bits64(div_raw64(self.0, other.0))
    }

    fn floor_prim(self) -> (r: Self) {
        Bits64(floor_raw64(self.0))
    }

    fn abs_prim(self) -> (r: Self) {
        let b: u64 = self.0;
        proof {
            assert(((b & 0x7fff_ffff_ffff_ffffu64) >> 52) & 0x7ffu64 == (b >> 52) & 0x7ffu64)
                by (bit_vector);
            assert((b & 0x7fff_ffff_ffff_ffffu64) & 0xf_ffff_ffff_ffffu64 == b
                & 0xf_ffff_ffff_ffffu64) by (bit_vector);
            assert((b & 0x7fff_ffff_ffff_ffffu64) >> 63 == 0) by (bit_vector);
            assert((b & 0x7fff_ffff_ffff_ffffu64) & 0x7fff_ffff_ffff_ffffu64 == b
                & 0x7fff_ffff_ffff_ffffu64) by (bit_vector);
        }
        Bits64(b & MAG_MASK_64)
    }
}

impl Float<Finite> for Bits64 {
}

impl Float<Deflated> for Bits64 {
}

/// Mask of the non-sign bits of a 32-bit pattern.
pub const MAG_MASK_32: u32 = 0x7fff_ffff;

/// Mask of the exponent field of a 32-bit pattern, once shifted down.
pub const EXP_MASK_32: u32 = 0xff;

/// Mask of the mantissa field of a 32-bit pattern.
pub const MAN_MASK_32: u32 = 0x7f_ffff;

/// The bit pattern of a 32-bit value of one.
pub const ONE_BITS_32: u32 = 0x3f80_0000;

/// The exponent field of a 32-bit pattern.
pub open spec fn exponent32(b: u32) -> u32 {
    (b >> 23) & EXP_MASK_32
}

/// The magnitude (everything but the sign bit) of a 32-bit pattern.
pub open spec fn magnitude32(b: u32) -> u32 {
    b & MAG_MASK_32
}

/// A 32-bit pattern is finite when its exponent field is not saturated.
pub open spec fn is_finite32(b: u32) -> bool {
    exponent32(b) != EXP_MASK_32
}

/// A 32-bit pattern is NaN when its exponent field is saturated and its
/// mantissa field is not zero.
pub open spec fn is_nan32(b: u32) -> bool {
    exponent32(b) == EXP_MASK_32 && (b & MAN_MASK_32) != 0
}

/// The sign-magnitude ordering key of a 32-bit pattern.
pub open spec fn key32(b: u32) -> int {
    if (b >> 31) == 1 {
        -(magnitude32(b) as int)
    } else {
        magnitude32(b) as int
    }
}

/// The bit pattern that 32-bit addition (round to nearest, ties to even)
/// returns on the two operand patterns.
pub uninterp spec fn add_bits32(a: u32, b: u32) -> u32;

/// The bit pattern that 32-bit subtraction returns on the two operand
/// patterns.
pub uninterp spec fn sub_bits32(a: u32, b: u32) -> u32;

/// The bit pattern that 32-bit multiplication returns on the two operand
/// patterns.
pub uninterp spec fn mul_bits32(a: u32, b: u32) -> u32;

/// The bit pattern that 32-bit division returns on the two operand patterns.
pub uninterp spec fn div_bits32(a: u32, b: u32) -> u32;

/// The bit pattern of the largest integral value at or below the operand
/// pattern's value.
pub uninterp spec fn floor_bits32(a: u32) -> u32;

/// Relies on rustc_apfloat's IEEE 754 binary32 addition (round to nearest,
/// ties to even): the result depends on the operand bit patterns alone.
#[verifier::external_body]
fn add_raw32(a: u32, b: u32) -> (r: u32)
    ensures
        r == add_bits32(a, b),
{
    let x: rustc_apfloat::ieee::Single = rustc_apfloat::Float::from_bits(a as u128);
    let y: rustc_apfloat::ieee::Single = rustc_apfloat::Float::from_bits(b as u128);
    rustc_apfloat::Float::to_bits((x + y).value) as u32
}

/// Relies on rustc_apfloat's IEEE 754 binary32 subtraction (round to nearest,
/// ties to even): the result depends on the operand bit patterns alone.
#[verifier::external_body]
fn sub_raw32(a: u32, b: u32) -> (r: u32)
    ensures
        r == sub_bits32(a, b),
{
    let x: rustc_apfloat::ieee::Single = rustc_apfloat::Float::from_bits(a as u128);
    let y: rustc_apfloat::ieee::Single = rustc_apfloat::Float::from_bits(b as u128);
    rustc_apfloat::Float::to_bits((x - y).value) as u32
}

/// Relies on rustc_apfloat's IEEE 754 binary32 multiplication (round to
/// nearest, ties to even): the result depends on the operand bit patterns
/// alone.
#[verifier::external_body]
fn mul_raw32(a: u32, b: u32) -> (r: u32)
    ensures
        r == mul_bits32(a, b),
{
    let x: rustc_apfloat::ieee::Single = rustc_apfloat::Float::from_bits(a as u128);
    let y: rustc_apfloat::ieee::Single = rustc_apfloat::Float::from_bits(b as u128);
    rustc_apfloat::Float::to_bits((x * y).value) as u32
}

/// Relies on rustc_apfloat's IEEE 754 binary32 division (round to nearest,
/// ties to even): the result depends on the operand bit patterns alone.
#[verifier::external_body]
fn div_raw32(a: u32, b: u32) -> (r: u32)
    ensures
        r == div_bits32(a, b),
{
    let x: rustc_apfloat::ieee::Single = rustc_apfloat::Float::from_bits(a as u128);
    let y: rustc_apfloat::ieee::Single = rustc_apfloat::Float::from_bits(b as u128);
    rustc_apfloat::Float::to_bits((x / y).value) as u32
}

/// Relies on rustc_apfloat's round-to-integral toward negative infinity on an
/// IEEE 754 binary32 value: the result depends on the operand bits alone, and
/// rounding a finite value to an integral value never leaves the finite range.
#[verifier::external_body]
fn floor_raw32(a: u32) -> (r: u32)
    ensures
        r == floor_bits32(a),
        is_finite32(a) ==> is_finite32(r),
{
    let x: rustc_apfloat::ieee::Single = rustc_apfloat::Float::from_bits(a as u128);
    let f = rustc_apfloat::Float::round_to_integral(x, rustc_apfloat::Round::TowardNegative);
    rustc_apfloat::Float::to_bits(f.value) as u32
}

/// The bit pattern of one 32-bit floating-point value.
#[derive(Clone, Copy, Debug, Eq, PartialEq, Structural)]
pub struct Bits32(pub u32);

impl FloatBits for Bits32 {
    open spec fn key(self) -> int {
        key32(self.0)
    }

    open spec fn is_finite_spec(self) -> bool {
        is_finite32(self.0)
    }

    open spec fn is_nan_spec(self) -> bool {
        is_nan32(self.0)
    }

    open spec fn is_sign_negative_spec(self) -> bool {
        (self.0 >> 31) == 1
    }

    open spec fn zero_spec() -> Self {
        Bits32(0)
    }

    open spec fn one_spec() -> Self {
        Bits32(ONE_BITS_32)
    }

    open spec fn add_spec(self, other: Self) -> Self {
        Bits32(add_bits32(self.0, other.0))
    }

    open spec fn sub_spec(self, other: Self) -> Self {
        Bits32(sub_bits32(self.0, other.0))
    }

    open spec fn mul_spec(self, other: Self) -> Self {
        Bits32(mul_bits32(self.0, other.0))
    }

    open spec fn div_spec(self, other: Self) -> Self {
        Bits32(div_bits32(self.0, other.0))
    }

    open spec fn floor_spec(self) -> Self {
        Bits32(floor_bits32(self.0))
    }

    open spec fn abs_spec(self) -> Self {
        Bits32(magnitude32(self.0))
    }

    proof fn lemma_finite_not_nan(self) {
    }

    fn is_finite(self) -> (r: bool) {
        ((self.0 >> 23) & EXP_MASK_32) != EXP_MASK_32
    }

    fn is_nan(self) -> (r: bool) {
        ((self.0 >> 23) & EXP_MASK_32) == EXP_MASK_32 && (self.0 & MAN_MASK_32) != 0
    }

    fn is_sign_negative(self) -> (r: bool) {
        (self.0 >> 31) == 1
    }

    fn eq_prim(self, other: Self) -> (r: bool) {
        if self.is_nan() || other.is_nan() {
            false
        } else {
            let a: u32 = self.0;
            let b: u32 = other.0;
            let sa: u32 = a >> 31;
            let sb: u32 = b >> 31;
            let ma: u32 = a & MAG_MASK_32;
            let mb: u32 = b & MAG_MASK_32;
            proof {
                assert(a >> 31 == 0 || a >> 31 == 1) by (bit_vector);
                assert(b >> 31 == 0 || b >> 31 == 1) by (bit_vector);
            }
            (sa == sb && ma == mb) || (ma == 0 && mb == 0)
        }
    }

    fn lt_prim(self, other: Self) -> (r: bool) {
        if self.is_nan() || other.is_nan() {
            false
        } else {
            let a: u32 = self.0;
            let b: u32 = other.0;
            let sa: u32 = a >> 31;
            let sb: u32 = b >> 31;
            let ma: u32 = a & MAG_MASK_32;
            let mb: u32 = b & MAG_MASK_32;
            proof {
                assert(a >> 31 == 0 || a >> 31 == 1) by (bit_vector);
                assert(b >> 31 == 0 || b >> 31 == 1) by (bit_vector);
            }
            if sa == 1 && sb == 1 {
                mb < ma
            } else if sa == 1 {
                ma != 0 || mb != 0
            } else if sb == 1 {
                false
            } else {
                ma < mb
            }
        }
    }

    fn zero() -> (r: Self) {
        proof {
            assert((0u32 >> 23) & 0xffu32 != 0xffu32) by (bit_vector);
            assert(0u32 >> 31 == 0 && (0u32 & 0x7fff_ffffu32) == 0) by (bit_vector);
        }
        Bits32(0)
    }

    fn one() -> (r: Self) {
        proof {
            assert((0x3f80_0000u32 >> 23) & 0xffu32 != 0xffu32) by (bit_vector);
            assert(0x3f80_0000u32 >> 31 == 0) by (bit_vector);
            assert((0x3f80_0000u32 & 0x7fff_ffffu32) > 0) by (bit_vector);
        }
        Bits32(ONE_BITS_32)
    }

    fn add_prim(self, other: Self) -> (r: Self) {
        Bits32(add_raw32(self.0, other.0))
    }

    fn sub_prim(self, other: Self) -> (r: Self) {
        Bits32(sub_raw32(self.0, other.0))
    }

    fn mul_prim(self, other: Self) -> (r: Self) {
        Bits32(mul_raw32(self.0, other.0))
    }

    fn div_prim(self, other: Self) -> (r: Self) {
        Bits32(div_raw32(self.0, other.0))
    }

    fn floor_prim(self) -> (r: Self) {
        Bits32(floor_raw32(self.0))
    }

    fn abs_prim(self) -> (r: Self) {
        let b: u32 = self.0;
        proof {
            assert(((b & 0x7fff_ffffu32) >> 23) & 0xffu32 == (b >> 23) & 0xffu32) by (bit_vector);
            assert((b & 0x7fff_ffffu32) & 0x7f_ffffu32 == b & 0x7f_ffffu32) by (bit_vector);
            assert((b & 0x7fff_ffffu32) >> 31 == 0) by (bit_vector);
            assert((b & 0x7fff_ffffu32) & 0x7fff_ffffu32 == b & 0x7fff_ffffu32) by (bit_vector);
        }
        Bits32(b & MAG_MASK_32)
    }
}

impl Float<Finite> for Bits32 {
}

impl Float<Deflated> for Bits32 {
}

} // verus!
