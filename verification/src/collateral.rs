//! The collateral backend: where a market's collateral is kept, and how much
//! of it each instruction moves.
//!
//! A deployment keeps collateral in one of two ways. With a pooled-token
//! vault a dedicated sub-account holds an external fungible token. With a
//! native-value vault the market record itself holds native value. The ledger
//! never moves value itself: an instruction answers with the [`Transfer`] that
//! has to be carried out together with its record changes.

use vstd::prelude::*;
use crate::errors::PredictXError;
use crate::identity::Identity;
use crate::units::{checked_difference, checked_product, checked_sum, PRICE};

verus! {

/// The way a market keeps its collateral, with the references it needs.
#[derive(Clone, Copy, Debug, PartialEq, Eq)]
pub enum CollateralBackend {
    /// A vault sub-account `treasury` holding the fungible token `mint`.
    PooledToken { mint: Identity, treasury: Identity },
    /// The market record's own balance of native value.
    NativeValue,
}

/// The movement of collateral that goes with a successful instruction.
#[derive(Clone, Copy, Debug, PartialEq, Eq, Structural)]
pub enum Transfer {
    /// No collateral moves.
    Nothing,
    /// `amount` moves from the caller into the vault.
    Deposit { amount: u64 },
    /// `amount` moves from the vault to the caller.
    Withdraw { amount: u64 },
}

impl CollateralBackend {
    /// The collateral a creator deposits for `initial_liquidity`, as a
    /// mathematical integer: twice the liquidity into a pooled-token vault,
    /// one share for each outcome, and the liquidity itself into a
    /// native-value vault.
    pub open spec fn initial_deposit_amount(self, initial_liquidity: u64) -> int {
        match self {
            CollateralBackend::PooledToken { .. } => 2 * initial_liquidity,
            CollateralBackend::NativeValue => initial_liquidity as int,
        }
    }

    /// The collateral paid out for `quantity` redeemed tokens, as a
    /// mathematical integer: the same number of token units from a
    /// pooled-token vault, and the quantity at the fixed price from a
    /// native-value vault.
    pub open spec fn payout_amount(self, quantity: u64) -> int {
        match self {
            CollateralBackend::PooledToken { .. } => quantity as int,
            CollateralBackend::NativeValue => quantity * PRICE,
        }
    }

    /// Computes the deposit that seeds a new market; fails with
    /// `InvalidAmount` exactly when it leaves the 64-bit range.
    pub fn initial_deposit(&self, initial_liquidity: u64) -> (r: Result<u64, PredictXError>)
        ensures
            self.initial_deposit_amount(initial_liquidity) <= u64::MAX ==> r == Ok::<
                u64,
                PredictXError,
            >(self.initial_deposit_amount(initial_liquidity) as u64),
            self.initial_deposit_amount(initial_liquidity) > u64::MAX ==> r == Err::<
                u64,
                PredictXError,
            >(PredictXError::InvalidAmount),
    {
        match self {
            CollateralBackend::PooledToken { .. } => checked_product(initial_liquidity, 2),
            CollateralBackend::NativeValue => Ok(initial_liquidity),
        }
    }

    /// Converts a redeemed token quantity into the collateral to pay out;
    /// fails with `InvalidAmount` exactly when it leaves the 64-bit range.
    pub fn payout_value(&self, quantity: u64) -> (r: Result<u64, PredictXError>)
        ensures
            self.payout_amount(quantity) <= u64::MAX ==> r == Ok::<u64, PredictXError>(
                self.payout_amount(quantity) as u64,
            ),
            self.payout_amount(quantity) > u64::MAX ==> r == Err::<u64, PredictXError>(
                PredictXError::InvalidAmount,
            ),
    {
        match self {
            CollateralBackend::PooledToken { .. } => Ok(quantity),
            CollateralBackend::NativeValue => checked_product(quantity, PRICE),
        }
    }
}

/// Whether `amount` can move from a balance `source` to a balance
/// `destination`: the source covers it and the destination stays in range.
pub open spec fn can_move(source: u64, destination: u64, amount: u64) -> bool {
    amount <= source && destination + amount <= u64::MAX
}

/// Moves `amount` of native value from one balance to another: a debit of
/// the source paired with a credit of the destination. Returns the two new
/// balances, source first. The move is all or nothing: it fails with
/// `InvalidAmount`, and nothing is debited, exactly when the source holds
/// less than `amount` or the destination would leave the 64-bit range.
pub fn move_value(source: u64, destination: u64, amount: u64) -> (r: Result<
    (u64, u64),
    PredictXError,
>)
    ensures
        can_move(source, destination, amount) ==> r == Ok::<(u64, u64), PredictXError>(
            ((source - amount) as u64, (destination + amount) as u64),
        ),
        !can_move(source, destination, amount) ==> r == Err::<(u64, u64), PredictXError>(
            PredictXError::InvalidAmount,
        ),
{
    let debited = checked_difference(source, amount)?;
    let credited = checked_sum(destination, amount)?;
    Ok((debited, credited))
}

} // verus!
