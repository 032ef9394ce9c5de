//! Trading: a holder sells tokens of one outcome back at the fixed price.

use vstd::prelude::*;
use crate::collateral::Transfer;
use crate::errors::PredictXError;
use crate::state::{is_tradable_outcome, Market, UserHoldings};
use crate::units::{checked_difference, checked_product, collateral_for, PRICE};

verus! {

/// The records a sale works on.
#[derive(Clone, Debug, PartialEq, Eq)]
pub struct SellOutcome {
    /// The market that is sold into.
    pub market: Market,
    /// The seller's balances in that market.
    pub user_holdings: UserHoldings,
}

impl SellOutcome {
    /// Why the sale is refused, if it is. The checks come in this order: the
    /// outcome is 1 or 2, the quantity is not zero, the market is open, the
    /// seller holds the quantity, the collateral owed fits 64 bits, and the
    /// supply covers the quantity.
    pub open spec fn failure(&self, outcome: u8, tokens_to_sell: u64) -> Option<PredictXError> {
        if !is_tradable_outcome(outcome) {
            Some(PredictXError::InvalidOutcome)
        } else if tokens_to_sell == 0 {
            Some(PredictXError::InvalidAmount)
        } else if self.market.resolved {
            Some(PredictXError::MarketAlreadyResolved)
        } else if self.user_holdings.tokens_of(outcome) < tokens_to_sell {
            Some(PredictXError::InsufficientTokens)
        } else if collateral_for(tokens_to_sell) > u64::MAX {
            Some(PredictXError::InvalidAmount)
        } else if self.market.supply_of(outcome) < tokens_to_sell {
            Some(PredictXError::InvalidAmount)
        } else {
            None
        }
    }

    /// The records after a successful sale: the supply of the outcome and the
    /// seller's balance of it have both shrunk by the tokens sold.
    pub open spec fn after(self, outcome: u8, tokens_to_sell: u64) -> SellOutcome {
        SellOutcome {
            market: self.market.with_supply(
                outcome,
                (self.market.supply_of(outcome) - tokens_to_sell) as u64,
            ),
            user_holdings: self.user_holdings.with_tokens(
                outcome,
                (self.user_holdings.tokens_of(outcome) - tokens_to_sell) as u64,
            ),
        }
    }
}

/// Sells `tokens_to_sell` tokens of `outcome` for exactly that many times
/// the fixed price. A refused sale changes nothing. A successful one takes
/// the tokens from the supply and from the seller's balance, and answers
/// with the withdrawal of the collateral owed.
pub fn sell_outcome(ctx: &mut SellOutcome, outcome: u8, tokens_to_sell: u64) -> (r: Result<
    Transfer,
    PredictXError,
>)
    ensures
        match old(ctx).failure(outcome, tokens_to_sell) {
            Some(e) => r == Err::<Transfer, PredictXError>(e) && *final(ctx) == *old(ctx),
            None => {
                &&& r == Ok::<Transfer, PredictXError>(
                    Transfer::Withdraw { amount: collateral_for(tokens_to_sell) as u64 },
                )
                &&& *final(ctx) == old(ctx).after(outcome, tokens_to_sell)
            },
        },
        old(ctx).market.wf() ==> final(ctx).market.wf(),
{
    if !(outcome == 1 || outcome == 2) {
        return Err(PredictXError::InvalidOutcome);
    }
    if tokens_to_sell == 0 {
        return Err(PredictXError::InvalidAmount);
    }
    if ctx.market.resolved {
        return Err(PredictXError::MarketAlreadyResolved);
    }
    let held: u64 = if outcome == 1 {
        ctx.user_holdings.outcome1_tokens
    } else {
        ctx.user_holdings.outcome2_tokens
    };
    if held < tokens_to_sell {
        return Err(PredictXError::InsufficientTokens);
    }
    let collateral_to_return: u64 = checked_product(tokens_to_sell, PRICE)?;
    if outcome == 1 {
        let supply: u64 = checked_difference(ctx.market.outcome1_supply, tokens_to_sell)?;
        let balance: u64 = checked_difference(ctx.user_holdings.outcome1_tokens, tokens_to_sell)?;
        ctx.market.outcome1_supply = supply;
        ctx.user_holdings.outcome1_tokens = balance;
    } else {
        let supply: u64 = checked_difference(ctx.market.outcome2_supply, tokens_to_sell)?;
        let balance: u64 = checked_difference(ctx.user_holdings.outcome2_tokens, tokens_to_sell)?;
        ctx.market.outcome2_supply = supply;
        ctx.user_holdings.outcome2_tokens = balance;
    }
    Ok(Transfer::Withdraw { amount: collateral_to_return })
}

} // verus!
