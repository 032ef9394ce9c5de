//! The market's lifecycle: open until its authority asserts an outcome.

use vstd::prelude::*;
use crate::errors::PredictXError;
use crate::identity::Identity;
use crate::state::{is_assertable_outcome, Market};

verus! {

/// The records a resolution works on.
#[derive(Clone, Debug, PartialEq, Eq)]
pub struct ResolveMarket {
    /// The market to resolve.
    pub market: Market,
    /// The identity that signed the call.
    pub authority: Identity,
}

impl ResolveMarket {
    /// Why the resolution is refused, if it is. The checks come in this
    /// order: the caller is the market's authority, the market is open, and
    /// the outcome is one of 1, 2 and 3.
    pub open spec fn failure(&self, outcome: u8) -> Option<PredictXError> {
        if self.market.authority != self.authority {
            Some(PredictXError::Unauthorized)
        } else if self.market.resolved {
            Some(PredictXError::MarketAlreadyResolved)
        } else if !is_assertable_outcome(outcome) {
            Some(PredictXError::InvalidOutcome)
        } else {
            None
        }
    }
}

/// Asserts the final outcome of a market: 1 or 2 for the outcome that came
/// true, 3 when the market cannot be decided. Only the market's authority
/// may do so, and only once. A refused resolution changes nothing. A
/// successful one marks the market resolved with `outcome` and changes
/// nothing else.
pub fn resolve_market(ctx: &mut ResolveMarket, outcome: u8) -> (r: Result<(), PredictXError>)
    ensures
        match old(ctx).failure(outcome) {
            Some(e) => r == Err::<(), PredictXError>(e) && *final(ctx) == *old(ctx),
            None => {
                &&& r == Ok::<(), PredictXError>(())
                &&& final(ctx).market == old(ctx).market.resolved_as(outcome)
                &&& final(ctx).authority == old(ctx).authority
            },
        },
        old(ctx).market.wf() ==> final(ctx).market.wf(),
{
    if ctx.market.authority != ctx.authority {
        return Err(PredictXError::Unauthorized);
    }
    if ctx.market.resolved {
        return Err(PredictXError::MarketAlreadyResolved);
    }
    if !(outcome >= 1 && outcome <= 3) {
        return Err(PredictXError::InvalidOutcome);
    }
    ctx.market.resolved = true;
    ctx.market.asserted_outcome = outcome;
    Ok(())
}

} // verus!
