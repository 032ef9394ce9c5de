//! Creation: an authority opens a market and seeds its liquidity.

use vstd::prelude::*;
use crate::collateral::{CollateralBackend, Transfer};
use crate::errors::PredictXError;
use crate::identity::Identity;
use crate::state::{
    byte_len, texts_fit, Market, MAX_DESCRIPTION_LEN, MAX_NAME_LEN, MAX_OUTCOME_LEN, UNRESOLVED,
};
use crate::units::{checked_product, BASE_UNIT};

verus! {

/// What a creation works on: who creates the market and where its record
/// and its collateral live.
#[derive(Clone, Copy, Debug, PartialEq, Eq)]
pub struct CreateMarket {
    /// The creator, who becomes the market's authority.
    pub authority: Identity,
    /// Where the market's collateral is kept.
    pub backend: CollateralBackend,
    /// The nonce from which the market record's address is derived.
    pub bump: u8,
}

impl CreateMarket {
    /// Why the creation is refused, if it is: the seeded supply leaves 64
    /// bits, or else one of the texts is wider than its field.
    pub open spec fn failure(
        &self,
        outcome1: Seq<char>,
        outcome2: Seq<char>,
        description: Seq<char>,
        initial_liquidity: u64,
        market_name: Seq<char>,
    ) -> Option<PredictXError> {
        if initial_liquidity * BASE_UNIT > u64::MAX {
            Some(PredictXError::InvalidAmount)
        } else if !texts_fit(market_name, outcome1, outcome2, description) {
            Some(PredictXError::TextTooLong)
        } else {
            None
        }
    }

    /// The market that a successful creation writes: open, with no outcome
    /// asserted, and with the scaled liquidity as the supply of each outcome.
    pub open spec fn created(
        &self,
        outcome1: String,
        outcome2: String,
        description: String,
        initial_liquidity: u64,
        market_name: String,
    ) -> Market {
        Market {
            authority: self.authority,
            name: market_name,
            outcome1,
            outcome2,
            description,
            resolved: false,
            asserted_outcome: UNRESOLVED,
            outcome1_supply: (initial_liquidity * BASE_UNIT) as u64,
            outcome2_supply: (initial_liquidity * BASE_UNIT) as u64,
            backend: self.backend,
            bump: self.bump,
        }
    }
}

/// Opens a market over two named outcomes. Each outcome starts with a
/// supply of `initial_liquidity` scaled by the base unit; that seed belongs
/// to no holder. On success the answer is the new market together with the
/// creator's deposit: twice the liquidity into a pooled-token vault, the
/// liquidity itself into a native-value vault.
pub fn initialize_market(
    ctx: &CreateMarket,
    outcome1: String,
    outcome2: String,
    description: String,
    initial_liquidity: u64,
    market_name: String,
) -> (r: Result<(Market, Transfer), PredictXError>)
    ensures
        match ctx.failure(outcome1@, outcome2@, description@, initial_liquidity, market_name@) {
            Some(e) => r == Err::<(Market, Transfer), PredictXError>(e),
            None => {
                &&& r == Ok::<(Market, Transfer), PredictXError>(
                    (
                        ctx.created(outcome1, outcome2, description, initial_liquidity, market_name),
                        Transfer::Deposit {
                            amount: ctx.backend.initial_deposit_amount(initial_liquidity) as u64,
                        },
                    ),
                )
                &&& ctx.backend.initial_deposit_amount(initial_liquidity) <= u64::MAX
                &&& r->Ok_0.0.wf()
            },
        },
{
    let supply: u64 = checked_product(initial_liquidity, BASE_UNIT)?;
    let deposit: u64 = ctx.backend.initial_deposit(initial_liquidity)?;
    if byte_len(&market_name) > MAX_NAME_LEN || byte_len(&outcome1) > MAX_OUTCOME_LEN || byte_len(
        &outcome2,
    ) > MAX_OUTCOME_LEN || byte_len(&description) > MAX_DESCRIPTION_LEN {
        return Err(PredictXError::TextTooLong);
    }
    let market = Market {
        authority: ctx.authority,
        name: market_name,
        outcome1,
        outcome2,
        description,
        resolved: false,
        asserted_outcome: 0,
        outcome1_supply: supply,
        outcome2_supply: supply,
        backend: ctx.backend,
        bump: ctx.bump,
    };
    Ok((market, Transfer::Deposit { amount: deposit }))
}

} // verus!
