//! The fixed price and the checked arithmetic behind every balance change.

use vstd::prelude::*;
use crate::errors::PredictXError;

verus! {

/// The scaling unit of outcome-token supply: one whole unit of liquidity.
pub const BASE_UNIT: u64 = 1_000_000_000;

/// The fixed price of one outcome token, in collateral.
pub const PRICE: u64 = BASE_UNIT;

/// The whole tokens that `amount` of collateral buys: the quotient, rounded
/// down. What is left below one price is not credited.
pub open spec fn tokens_for(amount: u64) -> u64 {
    amount / PRICE
}

/// The collateral that `tokens` are worth at the fixed price, as a
/// mathematical integer.
pub open spec fn collateral_for(tokens: u64) -> int {
    tokens * PRICE
}

/// The part of `amount` that buys no whole token.
pub open spec fn dust_of(amount: u64) -> u64 {
    amount % PRICE
}

/// Adds two counters; fails with `InvalidAmount` exactly when the sum leaves
/// the 64-bit range.
pub fn checked_sum(a: u64, b: u64) -> (r: Result<u64, PredictXError>)
    ensures
        a + b <= u64::MAX ==> r == Ok::<u64, PredictXError>((a + b) as u64),
        a + b > u64::MAX ==> r == Err::<u64, PredictXError>(PredictXError::InvalidAmount),
{
    match a.checked_add(b) {
        Some(v) => Ok(v),
        None => Err(PredictXError::InvalidAmount),
    }
}

/// Subtracts `b` from `a`; fails with `InvalidAmount` exactly when `b`
/// exceeds `a`.
pub fn checked_difference(a: u64, b: u64) -> (r: Result<u64, PredictXError>)
    ensures
        b <= a ==> r == Ok::<u64, PredictXError>((a - b) as u64),
        b > a ==> r == Err::<u64, PredictXError>(PredictXError::InvalidAmount),
{
    match a.checked_sub(b) {
        Some(v) => Ok(v),
        None => Err(PredictXError::InvalidAmount),
    }
}

/// Multiplies two counters; fails with `InvalidAmount` exactly when the
/// product leaves the 64-bit range.
pub fn checked_product(a: u64, b: u64) -> (r: Result<u64, PredictXError>)
    ensures
        a * b <= u64::MAX ==> r == Ok::<u64, PredictXError>((a * b) as u64),
        a * b > u64::MAX ==> r == Err::<u64, PredictXError>(PredictXError::InvalidAmount),
{
    match a.checked_mul(b) {
        Some(v) => Ok(v),
        None => Err(PredictXError::InvalidAmount),
    }
}

/// Divides `amount` by the fixed price, rounding down.
pub fn whole_tokens(amount: u64) -> (tokens: u64)
    ensures
        tokens == tokens_for(amount),
        tokens * PRICE + dust_of(amount) == amount,
        0 <= dust_of(amount) < PRICE,
{
    amount / PRICE
}

} // verus!
