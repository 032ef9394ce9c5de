//! Trading: a participant buys tokens of one outcome at the fixed price.

use vstd::prelude::*;
use crate::collateral::Transfer;
use crate::errors::PredictXError;
use crate::identity::Identity;
use crate::state::{is_tradable_outcome, Market, UserHoldings};
use crate::units::{checked_sum, tokens_for, whole_tokens};

verus! {

/// The records a purchase works on.
#[derive(Clone, Debug, PartialEq, Eq)]
pub struct BuyOutcome {
    /// The market that is bought into.
    pub market: Market,
    /// The identity of the market record.
    pub market_key: Identity,
    /// The buyer.
    pub buyer: Identity,
    /// The buyer's balances in the market, or `None` before the first
    /// purchase.
    pub user_holdings: Option<UserHoldings>,
    /// The nonce of the holdings record, used when the record is created.
    pub holdings_bump: u8,
}

impl BuyOutcome {
    /// The buyer's balances before the purchase: the record at hand, or an
    /// empty one for this buyer and market when there is none yet.
    pub open spec fn holdings(&self) -> UserHoldings {
        match self.user_holdings {
            Some(holdings) => holdings,
            None => UserHoldings::empty(self.buyer, self.market_key, self.holdings_bump),
        }
    }

    /// Why the purchase is refused, if it is. The checks come in this order:
    /// the outcome is 1 or 2, the amount is not zero, the market is open, the
    /// amount buys at least one whole token, and neither the supply nor the
    /// buyer's balance leaves 64 bits.
    pub open spec fn failure(&self, outcome: u8, amount: u64) -> Option<PredictXError> {
        if !is_tradable_outcome(outcome) {
            Some(PredictXError::InvalidOutcome)
        } else if amount == 0 {
            Some(PredictXError::InvalidAmount)
        } else if self.market.resolved {
            Some(PredictXError::MarketAlreadyResolved)
        } else if tokens_for(amount) == 0 {
            Some(PredictXError::InvalidAmount)
        } else if self.market.supply_of(outcome) + tokens_for(amount) > u64::MAX {
            Some(PredictXError::InvalidAmount)
        } else if self.holdings().tokens_of(outcome) + tokens_for(amount) > u64::MAX {
            Some(PredictXError::InvalidAmount)
        } else {
            None
        }
    }

    /// The records after a successful purchase: the supply of the outcome
    /// and the buyer's balance of it have both grown by the tokens bought.
    pub open spec fn after(self, outcome: u8, amount: u64) -> BuyOutcome {
        BuyOutcome {
            market: self.market.with_supply(
                outcome,
                (self.market.supply_of(outcome) + tokens_for(amount)) as u64,
            ),
            user_holdings: Some(
                self.holdings().with_tokens(
                    outcome,
                    (self.holdings().tokens_of(outcome) + tokens_for(amount)) as u64,
                ),
            ),
            ..self
        }
    }
}

/// Buys tokens of `outcome` for `amount` of collateral. The buyer receives
/// `amount` divided by the fixed price, rounded down; what is left of the
/// amount below one price is deposited with the rest and credited to nobody.
/// A refused purchase changes nothing. A successful one adds the tokens to
/// the supply and to the buyer's balance, creating the holdings record if
/// there was none, and answers with the deposit of the whole `amount`.
pub fn buy_outcome(ctx: &mut BuyOutcome, outcome: u8, amount: u64) -> (r: Result<
    Transfer,
    PredictXError,
>)
    ensures
        match old(ctx).failure(outcome, amount) {
            Some(e) => r == Err::<Transfer, PredictXError>(e) && *final(ctx) == *old(ctx),
            None => {
                &&& r == Ok::<Transfer, PredictXError>(Transfer::Deposit { amount })
                &&& *final(ctx) == old(ctx).after(outcome, amount)
            },
        },
        old(ctx).market.wf() ==> final(ctx).market.wf(),
{
    if !(outcome == 1 || outcome == 2) {
        return Err(PredictXError::InvalidOutcome);
    }
    if amount == 0 {
        return Err(PredictXError::InvalidAmount);
    }
    if ctx.market.resolved {
        return Err(PredictXError::MarketAlreadyResolved);
    }
    let tokens_to_receive: u64 = whole_tokens(amount);
    if tokens_to_receive == 0 {
        return Err(PredictXError::InvalidAmount);
    }
    let mut holdings = match ctx.user_holdings {
        Some(holdings) => holdings,
        None => UserHoldings::new(ctx.buyer, ctx.market_key, ctx.holdings_bump),
    };
    if outcome == 1 {
        let supply: u64 = checked_sum(ctx.market.outcome1_supply, tokens_to_receive)?;
        let balance: u64 = checked_sum(holdings.outcome1_tokens, tokens_to_receive)?;
        ctx.market.outcome1_supply = supply;
        holdings.outcome1_tokens = balance;
    } else {
        let supply: u64 = checked_sum(ctx.market.outcome2_supply, tokens_to_receive)?;
        let balance: u64 = checked_sum(holdings.outcome2_tokens, tokens_to_receive)?;
        ctx.market.outcome2_supply = supply;
        holdings.outcome2_tokens = balance;
    }
    ctx.user_holdings = Some(holdings);
    Ok(Transfer::Deposit { amount })
}

} // verus!
