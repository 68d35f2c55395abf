//! Per-mil arithmetic on balances.

use vstd::prelude::*;

use crate::errors::Error;
use crate::types::Balance;
use crate::u256::{u256_max, U256};

verus! {

/// The divisor of a per-mil ratio.
pub const RATIO_DIVISOR: u64 = 1000;

/// The per-mil of the product of `number` and `other`, where `number` is the
/// greater one: the product divided by 1000 when the product fits in 256
/// bits, otherwise `number / 1000 * other` when that fits, otherwise nothing.
pub open spec fn spec_per_mil_of_ordered(number: nat, other: nat) -> Option<nat> {
    if number * other <= u256_max() {
        Some(number * other / 1000)
    } else if (number / 1000) * other <= u256_max() {
        Some((number / 1000) * other)
    } else {
        None
    }
}

/// The per-mil of the product of two numbers, taking the greater one first.
pub open spec fn spec_per_mil_of(number: nat, other: nat) -> Option<nat> {
    if number < other {
        spec_per_mil_of_ordered(other, number)
    } else {
        spec_per_mil_of_ordered(number, other)
    }
}

/// Returns the number divided by 1000.
pub fn to_per_mils(value: Balance) -> (r: Balance)
    ensures
        r.value() == value.value() / 1000,
{
    let divisor = U256::from_u64(RATIO_DIVISOR);
    match value.checked_div(&divisor) {
        Some(r) => r,
        None => value,
    }
}

/// Multiplies two numbers and returns the per-mil of their product.
///
/// When the product does not fit in 256 bits, the greater number is divided
/// by 1000 first, which may lose precision.
pub fn per_mil_of(number: Balance, other: Balance) -> (r: Result<Balance, Error>)
    ensures
        match r {
            Ok(v) => spec_per_mil_of(number.value(), other.value()) == Some(v.value()),
            Err(e) => spec_per_mil_of(number.value(), other.value()) is None
                && e == Error::ArithmeticOverflow,
        },
{
    if number.lt(&other) {
        per_mil_of_ordered(other, number)
    } else {
        per_mil_of_ordered(number, other)
    }
}

/// Multiplies two numbers and returns the per-mil of their product as `u32`.
pub fn per_mil_of_as_u32(number: Balance, other: Balance) -> (r: Result<u32, Error>)
    ensures
        match r {
            Ok(v) => spec_per_mil_of(number.value(), other.value()) == Some(v as nat),
            Err(e) => e == Error::ArithmeticOverflow && match spec_per_mil_of(
                number.value(),
                other.value(),
            ) {
                Some(v) => v > u32::MAX,
                None => true,
            },
        },
{
    match per_mil_of(number, other) {
        Ok(n) => match n.try_into_u32() {
            Some(v) => Ok(v),
            None => Err(Error::ArithmeticOverflow),
        },
        Err(e) => Err(e),
    }
}

fn per_mil_of_ordered(number: Balance, other: Balance) -> (r: Result<Balance, Error>)
    ensures
        match r {
            Ok(v) => spec_per_mil_of_ordered(number.value(), other.value()) == Some(v.value()),
            Err(e) => spec_per_mil_of_ordered(number.value(), other.value()) is None
                && e == Error::ArithmeticOverflow,
        },
{
    let divisor = U256::from_u64(RATIO_DIVISOR);
    match number.checked_mul(&other) {
        Some(value) => match value.checked_div(&divisor) {
            Some(q) => Ok(q),
            None => Err(Error::ArithmeticOverflow),
        },
        None => match number.checked_div(&divisor) {
            Some(q) => match q.checked_mul(&other) {
                Some(p) => Ok(p),
                None => Err(Error::ArithmeticOverflow),
            },
            None => Err(Error::ArithmeticOverflow),
        },
    }
}

/// The per-mil of a product does not depend on the order of the factors.
pub proof fn law_per_mil_of_symmetric(a: nat, b: nat)
    ensures
        spec_per_mil_of(a, b) == spec_per_mil_of(b, a),
{
}

} // verus!
