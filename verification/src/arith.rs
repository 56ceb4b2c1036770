//! Checked arithmetic on balances. Each helper either returns the exact
//! mathematical result or reports [`ErrorCode::Overflow`]; none wraps or
//! truncates.

use crate::error::ErrorCode;
use vstd::prelude::*;

verus! {

/// `a + b`, or `Overflow` where the sum does not fit in a `u64`.
pub fn safe_add(a: u64, b: u64) -> (r: Result<u64, ErrorCode>)
    ensures
        a + b <= u64::MAX ==> r == Ok::<u64, ErrorCode>((a + b) as u64),
        a + b > u64::MAX ==> r == Err::<u64, ErrorCode>(ErrorCode::Overflow),
{
    match a.checked_add(b) {
        Some(sum) => Ok(sum),
        None => Err(ErrorCode::Overflow),
    }
}

/// `a - b`, or `Overflow` where `b` exceeds `a`.
pub fn safe_sub(a: u64, b: u64) -> (r: Result<u64, ErrorCode>)
    ensures
        b <= a ==> r == Ok::<u64, ErrorCode>((a - b) as u64),
        b > a ==> r == Err::<u64, ErrorCode>(ErrorCode::Overflow),
{
    match a.checked_sub(b) {
        Some(difference) => Ok(difference),
        None => Err(ErrorCode::Overflow),
    }
}

/// `a * b`, or `Overflow` where the product does not fit in a `u64`.
pub fn safe_mul(a: u64, b: u64) -> (r: Result<u64, ErrorCode>)
    ensures
        a * b <= u64::MAX ==> r == Ok::<u64, ErrorCode>((a * b) as u64),
        a * b > u64::MAX ==> r == Err::<u64, ErrorCode>(ErrorCode::Overflow),
{
    match a.checked_mul(b) {
        Some(product) => Ok(product),
        None => Err(ErrorCode::Overflow),
    }
}

/// The whole part of `a * b / d`. The product is formed in 128 bits, so it is
/// exact for every `a` and `b`.
pub fn mul_div(a: u64, b: u64, d: u64) -> (q: u128)
    requires
        d > 0,
    ensures
        q == (a * b) / (d as int),
{
    assert(a * b <= u64::MAX * u64::MAX) by (nonlinear_arith);
    let product: u128 = (a as u128) * (b as u128);
    product / (d as u128)
}

} // verus!
