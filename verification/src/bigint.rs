//! Arbitrary-precision integers from the `num-bigint` crate, modelled by
//! their mathematical value.
//!
//! The draw-count estimator works with probabilities written as exact
//! integer numerators over a common power-of-the-domain-size denominator,
//! so every quantity it manipulates is an unbounded integer.
//! `num_bigint::BigInt` carries those values at run time; the uninterpreted
//! function [`big_value`] carries them in specifications.

use vstd::prelude::*;

verus! {

#[verifier::external_type_specification]
#[verifier::external_body]
pub struct ExBigInt(num_bigint::BigInt);

/// The mathematical value held by a `num_bigint::BigInt`.
pub uninterp spec fn big_value(x: num_bigint::BigInt) -> int;

/// Relies on `num_bigint::BigInt::from::<u128>`: converting a primitive
/// unsigned integer yields an arbitrary-precision integer with the same
/// value.
#[verifier::external_body]
pub fn big_from_u128(v: u128) -> (r: num_bigint::BigInt)
    ensures
        big_value(r) == v as int,
{
    num_bigint::BigInt::from(v)
}

/// Relies on `num_bigint::BigInt`'s addition operator: the sum of two
/// arbitrary-precision integers is their exact mathematical sum.
#[verifier::external_body]
pub fn big_add(a: &num_bigint::BigInt, b: &num_bigint::BigInt) -> (r: num_bigint::BigInt)
    ensures
        big_value(r) == big_value(*a) + big_value(*b),
{
    a + b
}

/// Relies on `num_bigint::BigInt`'s subtraction operator: the difference of
/// two arbitrary-precision integers is their exact mathematical difference.
#[verifier::external_body]
pub fn big_sub(a: &num_bigint::BigInt, b: &num_bigint::BigInt) -> (r: num_bigint::BigInt)
    ensures
        big_value(r) == big_value(*a) - big_value(*b),
{
    a - b
}

/// Relies on `num_bigint::BigInt`'s multiplication operator: the product of
/// two arbitrary-precision integers is their exact mathematical product.
#[verifier::external_body]
pub fn big_mul(a: &num_bigint::BigInt, b: &num_bigint::BigInt) -> (r: num_bigint::BigInt)
    ensures
        big_value(r) == big_value(*a) * big_value(*b),
{
    a * b
}

/// Relies on `num_bigint::BigInt`'s left-shift operator: shifting left by
/// `s` multiplies the value by two raised to `s`.
#[verifier::external_body]
pub fn big_shl(a: &num_bigint::BigInt, s: u32) -> (r: num_bigint::BigInt)
    ensures
        big_value(r) == big_value(*a) * vstd::arithmetic::power2::pow2(s as nat),
{
    a << s
}

/// Relies on `num_bigint::BigInt`'s ordering: comparison agrees with the
/// order of the mathematical values.
#[verifier::external_body]
pub fn big_gt(a: &num_bigint::BigInt, b: &num_bigint::BigInt) -> (r: bool)
    ensures
        r == (big_value(*a) > big_value(*b)),
{
    a > b
}

} // verus!
