//! Settlement: a holder redeems a position in a resolved market.

use vstd::prelude::*;
use crate::collateral::Transfer;
use crate::errors::PredictXError;
use crate::state::{is_assertable_outcome, Market, UserHoldings, OUTCOME_1, OUTCOME_2};
use crate::units::checked_sum;

verus! {

/// The records a claim works on.
#[derive(Clone, Debug, PartialEq, Eq)]
pub struct ClaimWinnings {
    /// The market the position is in.
    pub market: Market,
    /// The claiming holder's balances in that market.
    pub user_holdings: UserHoldings,
}

impl ClaimWinnings {
    /// The tokens that are paid for, as a mathematical integer: the balance
    /// of the asserted outcome, or both balances when the market could not be
    /// decided.
    pub open spec fn payout_quantity(&self) -> int {
        if self.market.asserted_outcome == OUTCOME_1 {
            self.user_holdings.outcome1_tokens as int
        } else if self.market.asserted_outcome == OUTCOME_2 {
            self.user_holdings.outcome2_tokens as int
        } else {
            self.user_holdings.total()
        }
    }

    /// The collateral owed for the tokens that are paid for, as a
    /// mathematical integer.
    pub open spec fn payout_amount(&self) -> int {
        self.market.backend.payout_amount(self.payout_quantity() as u64)
    }

    /// Why the claim is refused, if it is. The checks come in this order: the
    /// market is resolved, the combined balance fits 64 bits and is not zero,
    /// the asserted outcome is one of 1, 2 and 3, and the payout fits 64 bits.
    pub open spec fn failure(&self) -> Option<PredictXError> {
        if !self.market.resolved {
            Some(PredictXError::MarketNotResolved)
        } else if self.user_holdings.total() > u64::MAX {
            Some(PredictXError::InvalidAmount)
        } else if self.user_holdings.total() == 0 {
            Some(PredictXError::NoTokensToClaim)
        } else if !is_assertable_outcome(self.market.asserted_outcome) {
            Some(PredictXError::InvalidOutcome)
        } else if self.payout_amount() > u64::MAX {
            Some(PredictXError::InvalidAmount)
        } else {
            None
        }
    }

    /// The transfer that goes with a successful claim: a withdrawal of the
    /// payout, or nothing when no token is paid for.
    pub open spec fn transfer(&self) -> Transfer {
        if self.payout_quantity() == 0 {
            Transfer::Nothing
        } else {
            Transfer::Withdraw { amount: self.payout_amount() as u64 }
        }
    }
}

/// Redeems the holder's position. A refused claim changes nothing. A
/// successful one sets both balances to zero, whichever side is paid, leaves
/// the market as it was, and answers with the withdrawal of the payout, or
/// with no transfer when the holder held only the losing side.
pub fn claim_winnings(ctx: &mut ClaimWinnings) -> (r: Result<Transfer, PredictXError>)
    ensures
        match old(ctx).failure() {
            Some(e) => r == Err::<Transfer, PredictXError>(e) && *final(ctx) == *old(ctx),
            None => {
                &&& r == Ok::<Transfer, PredictXError>(old(ctx).transfer())
                &&& final(ctx).market == old(ctx).market
                &&& final(ctx).user_holdings == old(ctx).user_holdings.cleared()
            },
        },
{
    if !ctx.market.resolved {
        return Err(PredictXError::MarketNotResolved);
    }
    let total_tokens: u64 = checked_sum(
        ctx.user_holdings.outcome1_tokens,
        ctx.user_holdings.outcome2_tokens,
    )?;
    if total_tokens == 0 {
        return Err(PredictXError::NoTokensToClaim);
    }
    let tokens_to_transfer: u64 = match ctx.market.asserted_outcome {
        1 => ctx.user_holdings.outcome1_tokens,
        2 => ctx.user_holdings.outcome2_tokens,
        3 => total_tokens,
        _ => {
            return Err(PredictXError::InvalidOutcome);
        },
    };
    let transfer = if tokens_to_transfer > 0 {
        let amount: u64 = ctx.market.backend.payout_value(tokens_to_transfer)?;
        Transfer::Withdraw { amount }
    } else {
        Transfer::Nothing
    };
    ctx.user_holdings.outcome1_tokens = 0;
    ctx.user_holdings.outcome2_tokens = 0;
    Ok(transfer)
}

} // verus!
