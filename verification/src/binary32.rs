//! The scalar model: IEEE-754 binary32 values held as their bit patterns.
//!
//! Every scalar a projection stores — a field of view, an aspect ratio, a
//! clip-plane distance, a view-volume bound — is an IEEE-754 binary32 value,
//! carried as its 32-bit pattern so that contracts can speak of it exactly.
//! The two arithmetic operations the projections need, division and
//! multiplication, are performed by a software IEEE-754 implementation behind
//! trusted wrappers; their results are named by uninterpreted spec functions.
//! Negation is a sign-bit flip and is implemented and verified here.

use rustc_apfloat::Float;
use vstd::prelude::*;

verus! {

/// An IEEE-754 binary32 value, as its bit pattern.
pub type Binary32 = u32;

/// Bit pattern of the binary32 value 0.0.
pub const B32_ZERO: u32 = 0x0000_0000;

/// Bit pattern of the binary32 value 1.0.
pub const B32_ONE: u32 = 0x3F80_0000;

/// Bit pattern of the binary32 value 2.0.
pub const B32_TWO: u32 = 0x4000_0000;

/// Bit pattern of the binary32 value 1000.0.
pub const B32_THOUSAND: u32 = 0x447A_0000;

/// Bit pattern of the binary32 value nearest to pi / 4.
pub const B32_FRAC_PI_4: u32 = 0x3F49_0FDB;

/// The IEEE-754 binary32 quotient of `a` and `b`, rounded to nearest, ties to
/// even: the bit pattern that dividing the two values they denote yields.
pub uninterp spec fn div32(a: Binary32, b: Binary32) -> Binary32;

/// The IEEE-754 binary32 product of `a` and `b`, rounded to nearest, ties to
/// even: the bit pattern that multiplying the two values they denote yields.
pub uninterp spec fn mul32(a: Binary32, b: Binary32) -> Binary32;

/// The IEEE-754 negation of a binary32 value: its sign bit flipped. This
/// holds of every value, zeros, infinities and NaNs included.
pub open spec fn neg32(a: Binary32) -> Binary32 {
    a ^ 0x8000_0000u32
}

/// Relies on `rustc_apfloat::ieee::Single`'s `Div` impl: the correctly
/// rounded (nearest, ties to even) IEEE-754 binary32 quotient, the same
/// result hardware division of the two denoted values gives.
#[verifier::external_body]
pub(crate) fn divide32(a: Binary32, b: Binary32) -> (r: Binary32)
    ensures
        r == div32(a, b),
{
    let x = rustc_apfloat::ieee::Single::from_bits(a as u128);
    let y = rustc_apfloat::ieee::Single::from_bits(b as u128);
    (x / y).value.to_bits() as u32
}

/// Relies on `rustc_apfloat::ieee::Single`'s `Mul` impl: the correctly
/// rounded (nearest, ties to even) IEEE-754 binary32 product, the same
/// result hardware multiplication of the two denoted values gives.
#[verifier::external_body]
pub(crate) fn multiply32(a: Binary32, b: Binary32) -> (r: Binary32)
    ensures
        r == mul32(a, b),
{
    let x = rustc_apfloat::ieee::Single::from_bits(a as u128);
    let y = rustc_apfloat::ieee::Single::from_bits(b as u128);
    (x * y).value.to_bits() as u32
}

/// Negates a binary32 value by flipping its sign bit.
pub(crate) fn negate32(a: Binary32) -> (r: Binary32)
    ensures
        r == neg32(a),
{
    a ^ 0x8000_0000u32
}

} // verus!
