//! Arithmetic on `i128` that reports an overflow instead of wrapping.
use vstd::prelude::*;

use crate::errors::BridgeError;

verus! {

/// Whether an integer is a value of `i128`.
pub open spec fn fits(x: int) -> bool {
    i128::MIN <= x <= i128::MAX
}

/// The integer as an `i128`, or `Overflow` where it is not one.
pub open spec fn checked(x: int) -> Result<i128, BridgeError> {
    if fits(x) {
        Ok(x as i128)
    } else {
        Err(BridgeError::Overflow)
    }
}

/// The magnitude of an integer.
pub open spec fn magnitude(x: int) -> int {
    if x < 0 {
        -x
    } else {
        x
    }
}

/// The quotient rounded toward zero.
pub open spec fn quotient(a: int, b: int) -> int
    recommends
        b != 0,
{
    if (a < 0) == (b < 0) {
        magnitude(a) / magnitude(b)
    } else {
        -(magnitude(a) / magnitude(b))
    }
}

/// The sum, or `Overflow` where it leaves the range of `i128`.
pub fn safe_add(a: i128, b: i128) -> (r: Result<i128, BridgeError>)
    ensures
        r == checked(a + b),
{
    match a.checked_add(b) {
        Some(x) => Ok(x),
        None => Err(BridgeError::Overflow),
    }
}

/// The difference, or `Overflow` where it leaves the range of `i128`.
pub fn safe_sub(a: i128, b: i128) -> (r: Result<i128, BridgeError>)
    ensures
        r == checked(a - b),
{
    match a.checked_sub(b) {
        Some(x) => Ok(x),
        None => Err(BridgeError::Overflow),
    }
}

/// The product, or `Overflow` where it leaves the range of `i128`.
pub fn safe_mul(a: i128, b: i128) -> (r: Result<i128, BridgeError>)
    ensures
        r == checked(a * b),
{
    match a.checked_mul(b) {
        Some(x) => Ok(x),
        None => Err(BridgeError::Overflow),
    }
}

/// The quotient rounded toward zero. `Overflow` where the divisor is zero, or
/// where the quotient leaves the range of `i128`.
pub fn safe_div(a: i128, b: i128) -> (r: Result<i128, BridgeError>)
    ensures
        r == (if b == 0 {
            Err(BridgeError::Overflow)
        } else {
            checked(quotient(a as int, b as int))
        }),
{
    match a.checked_div(b) {
        Some(x) => Ok(x),
        None => Err(BridgeError::Overflow),
    }
}

} // verus!
