//! What holds of the instructions together: statements about one call, or
//! about one call after another, proved from the descriptions that the
//! handlers' contracts use.

use vstd::prelude::*;
use crate::collateral::Transfer;
use crate::errors::PredictXError;
use crate::identity::Identity;
use crate::instructions::buy_outcome::BuyOutcome;
use crate::instructions::claim_winnings::ClaimWinnings;
use crate::instructions::initialize_market::CreateMarket;
use crate::instructions::resolve_market::ResolveMarket;
use crate::instructions::sell_outcome::SellOutcome;
use crate::state::{
    is_assertable_outcome, is_tradable_outcome, Market, OUTCOME_1, OUTCOME_2, OUTCOME_INVALID,
    UNRESOLVED,
};
use crate::units::{collateral_for, dust_of, tokens_for, BASE_UNIT, PRICE};

verus! {

/// A new market is open and well formed, and each outcome starts with the
/// liquidity scaled by the base unit, without wrapping.
pub proof fn law_creation_seeds_both_supplies(
    ctx: CreateMarket,
    outcome1: String,
    outcome2: String,
    description: String,
    initial_liquidity: u64,
    market_name: String,
)
    requires
        ctx.failure(outcome1@, outcome2@, description@, initial_liquidity, market_name@) is None,
    ensures
        ({
            let market = ctx.created(
                outcome1,
                outcome2,
                description,
                initial_liquidity,
                market_name,
            );
            &&& market.outcome1_supply == initial_liquidity * BASE_UNIT
            &&& market.outcome2_supply == initial_liquidity * BASE_UNIT
            &&& !market.resolved
            &&& market.asserted_outcome == UNRESOLVED
            &&& market.authority == ctx.authority
            &&& market.wf()
        }),
{
}

/// A purchase credits whole tokens only. The amount splits into the price of
/// the tokens bought and a remainder below one price, and the records after
/// the purchase are those after a purchase of the amount without the
/// remainder: nothing in them lets a later call credit it.
pub proof fn law_purchase_forfeits_remainder(ctx: BuyOutcome, outcome: u8, amount: u64)
    requires
        ctx.failure(outcome, amount) is None,
    ensures
        collateral_for(tokens_for(amount)) + dust_of(amount) == amount,
        0 <= dust_of(amount) < PRICE,
        tokens_for(amount) >= 1,
        ctx.failure(outcome, (amount - dust_of(amount)) as u64) is None,
        ctx.after(outcome, amount) == ctx.after(outcome, (amount - dust_of(amount)) as u64),
{
    let whole = (amount - dust_of(amount)) as u64;
    assert(tokens_for(whole) == tokens_for(amount)) by (nonlinear_arith)
        requires
            whole == amount - amount % PRICE,
            PRICE == 1_000_000_000,
            tokens_for(whole) == whole / PRICE,
            tokens_for(amount) == amount / PRICE,
    ;
}

/// A purchase adds exactly the tokens bought to the supply of the outcome
/// and to the buyer's balance of it, as mathematical integers: neither
/// counter wraps, and the counters of the other outcome stay as they were.
pub proof fn law_purchase_adds_without_wrapping(ctx: BuyOutcome, outcome: u8, amount: u64)
    requires
        ctx.failure(outcome, amount) is None,
    ensures
        ({
            let after = ctx.after(outcome, amount);
            let other = if outcome == OUTCOME_1 {
                OUTCOME_2
            } else {
                OUTCOME_1
            };
            &&& after.market.supply_of(outcome) == ctx.market.supply_of(outcome) + tokens_for(
                amount,
            )
            &&& after.holdings().tokens_of(outcome) == ctx.holdings().tokens_of(outcome)
                + tokens_for(amount)
            &&& after.market.supply_of(other) == ctx.market.supply_of(other)
            &&& after.holdings().tokens_of(other) == ctx.holdings().tokens_of(other)
            &&& ctx.market.wf() ==> after.market.wf()
        }),
{
}

/// A purchase whose supply or balance would leave the 64-bit range is
/// refused with `InvalidAmount`.
pub proof fn law_purchase_refuses_overflow(ctx: BuyOutcome, outcome: u8, amount: u64)
    requires
        is_tradable_outcome(outcome),
        !ctx.market.resolved,
        ctx.market.supply_of(outcome) + tokens_for(amount) > u64::MAX
            || ctx.holdings().tokens_of(outcome) + tokens_for(amount) > u64::MAX,
    ensures
        ctx.failure(outcome, amount) == Some(PredictXError::InvalidAmount),
{
}

/// A sale takes exactly the tokens sold from the supply of the outcome and
/// from the seller's balance of it, as mathematical integers, and pays
/// exactly that many times the fixed price: no counter wraps.
pub proof fn law_sale_subtracts_without_wrapping(ctx: SellOutcome, outcome: u8, tokens_to_sell: u64)
    requires
        ctx.failure(outcome, tokens_to_sell) is None,
    ensures
        ({
            let after = ctx.after(outcome, tokens_to_sell);
            let other = if outcome == OUTCOME_1 {
                OUTCOME_2
            } else {
                OUTCOME_1
            };
            &&& after.market.supply_of(outcome) == ctx.market.supply_of(outcome) - tokens_to_sell
            &&& after.user_holdings.tokens_of(outcome) == ctx.user_holdings.tokens_of(outcome)
                - tokens_to_sell
            &&& after.market.supply_of(other) == ctx.market.supply_of(other)
            &&& after.user_holdings.tokens_of(other) == ctx.user_holdings.tokens_of(other)
            &&& collateral_for(tokens_to_sell) <= u64::MAX
            &&& ctx.market.wf() ==> after.market.wf()
        }),
{
}

/// A sale whose collateral would leave the 64-bit range, or which the
/// supply does not cover, is refused with `InvalidAmount`, provided the
/// seller holds the tokens.
pub proof fn law_sale_refuses_overflow(ctx: SellOutcome, outcome: u8, tokens_to_sell: u64)
    requires
        is_tradable_outcome(outcome),
        !ctx.market.resolved,
        ctx.user_holdings.tokens_of(outcome) >= tokens_to_sell,
        collateral_for(tokens_to_sell) > u64::MAX || ctx.market.supply_of(outcome) < tokens_to_sell,
    ensures
        ctx.failure(outcome, tokens_to_sell) == Some(PredictXError::InvalidAmount),
{
}

/// Selling what a purchase bought undoes the purchase up to its remainder:
/// the sale is accepted, it pays the amount less the remainder, never more
/// than was paid, and the market and the balances are back where they were.
pub proof fn law_sale_undoes_purchase(ctx: BuyOutcome, outcome: u8, amount: u64)
    requires
        ctx.failure(outcome, amount) is None,
    ensures
        ({
            let bought = ctx.after(outcome, amount);
            let sale = SellOutcome {
                market: bought.market,
                user_holdings: bought.user_holdings->Some_0,
            };
            let tokens = tokens_for(amount);
            &&& bought.user_holdings is Some
            &&& sale.failure(outcome, tokens) is None
            &&& collateral_for(tokens) == amount - dust_of(amount)
            &&& collateral_for(tokens) <= amount
            &&& sale.after(outcome, tokens).market == ctx.market
            &&& sale.after(outcome, tokens).user_holdings == ctx.holdings()
        }),
{
}

/// Nobody but the authority resolves a market: from any other caller the
/// resolution is refused with `Unauthorized`, whatever the outcome and
/// whatever the market's state.
pub proof fn law_only_authority_resolves(ctx: ResolveMarket, outcome: u8)
    requires
        ctx.authority != ctx.market.authority,
    ensures
        ctx.failure(outcome) == Some(PredictXError::Unauthorized),
{
}

/// Resolution is one-way. After a successful resolution the market is
/// resolved with the asserted outcome, and every further resolution is
/// refused: with `MarketAlreadyResolved` from the authority, whatever the
/// outcome, and with `Unauthorized` from anybody else.
pub proof fn law_resolution_is_final(
    ctx: ResolveMarket,
    outcome: u8,
    caller: Identity,
    second_outcome: u8,
)
    requires
        ctx.failure(outcome) is None,
    ensures
        ({
            let resolved = ctx.market.resolved_as(outcome);
            let again = ResolveMarket { market: resolved, authority: caller };
            &&& resolved.resolved
            &&& resolved.asserted_outcome == outcome
            &&& is_assertable_outcome(outcome)
            &&& ctx.market.wf() ==> resolved.wf()
            &&& caller == ctx.market.authority ==> again.failure(second_outcome) == Some(
                PredictXError::MarketAlreadyResolved,
            )
            &&& caller != ctx.market.authority ==> again.failure(second_outcome) == Some(
                PredictXError::Unauthorized,
            )
        }),
{
}

/// Trading needs an open market and claiming a resolved one: on a resolved
/// market every purchase and every sale is refused, and on an open market
/// every claim is.
pub proof fn law_lifecycle_gates_instructions(
    market: Market,
    buy: BuyOutcome,
    sell: SellOutcome,
    claim: ClaimWinnings,
    outcome: u8,
    amount: u64,
)
    requires
        buy.market == market,
        sell.market == market,
        claim.market == market,
    ensures
        market.resolved ==> buy.failure(outcome, amount) is Some,
        market.resolved ==> sell.failure(outcome, amount) is Some,
        market.resolved && is_tradable_outcome(outcome) && amount > 0 ==> buy.failure(
            outcome,
            amount,
        ) == Some(PredictXError::MarketAlreadyResolved),
        market.resolved && is_tradable_outcome(outcome) && amount > 0 ==> sell.failure(
            outcome,
            amount,
        ) == Some(PredictXError::MarketAlreadyResolved),
        !market.resolved ==> claim.failure() == Some(PredictXError::MarketNotResolved),
{
}

/// The losing side is forfeited. A holder with tokens of the losing outcome
/// only claims successfully, nothing is transferred, and both balances
/// become zero.
pub proof fn law_losing_side_is_forfeited(ctx: ClaimWinnings)
    requires
        ctx.market.resolved,
        (ctx.market.asserted_outcome == OUTCOME_1 && ctx.user_holdings.outcome1_tokens == 0
            && ctx.user_holdings.outcome2_tokens > 0) || (ctx.market.asserted_outcome
            == OUTCOME_2 && ctx.user_holdings.outcome2_tokens == 0
            && ctx.user_holdings.outcome1_tokens > 0),
    ensures
        ctx.failure() is None,
        ctx.transfer() == Transfer::Nothing,
        ctx.user_holdings.cleared().outcome1_tokens == 0,
        ctx.user_holdings.cleared().outcome2_tokens == 0,
{
}

/// The winning side is paid and nothing else: when outcome 1 or 2 was
/// asserted, the tokens paid for are the holder's balance of that outcome.
pub proof fn law_winning_side_is_paid(ctx: ClaimWinnings)
    requires
        ctx.failure() is None,
        is_tradable_outcome(ctx.market.asserted_outcome),
    ensures
        ctx.payout_quantity() == ctx.user_holdings.tokens_of(ctx.market.asserted_outcome),
        ctx.payout_quantity() > 0 ==> ctx.transfer() == (Transfer::Withdraw {
            amount: ctx.market.backend.payout_amount(
                ctx.user_holdings.tokens_of(ctx.market.asserted_outcome),
            ) as u64,
        }),
{
}

/// A market that could not be decided refunds both sides: the tokens paid
/// for are both balances together. A pooled-token vault pays that many token
/// units, a native-value vault that many times the fixed price.
pub proof fn law_undecided_market_refunds_both_sides(ctx: ClaimWinnings)
    requires
        ctx.failure() is None,
        ctx.market.asserted_outcome == OUTCOME_INVALID,
    ensures
        ctx.payout_quantity() == ctx.user_holdings.outcome1_tokens
            + ctx.user_holdings.outcome2_tokens,
        ctx.payout_quantity() > 0,
        ctx.market.backend is PooledToken ==> ctx.transfer() == (Transfer::Withdraw {
            amount: (ctx.user_holdings.outcome1_tokens + ctx.user_holdings.outcome2_tokens) as u64,
        }),
        ctx.market.backend is NativeValue ==> ctx.transfer() == (Transfer::Withdraw {
            amount: ((ctx.user_holdings.outcome1_tokens + ctx.user_holdings.outcome2_tokens)
                * PRICE) as u64,
        }),
        ctx.market.backend is NativeValue ==> (ctx.user_holdings.outcome1_tokens
            + ctx.user_holdings.outcome2_tokens) * PRICE <= u64::MAX,
{
}

/// A claim whose combined balance or whose payout would leave the 64-bit
/// range is refused with `InvalidAmount`; a claim that is accepted pays an
/// amount that did not wrap.
pub proof fn law_claim_refuses_overflow(ctx: ClaimWinnings)
    requires
        ctx.market.resolved,
    ensures
        ctx.user_holdings.total() > u64::MAX ==> ctx.failure() == Some(
            PredictXError::InvalidAmount,
        ),
        ctx.user_holdings.total() <= u64::MAX && ctx.user_holdings.total() > 0
            && is_assertable_outcome(ctx.market.asserted_outcome) && ctx.payout_amount()
            > u64::MAX ==> ctx.failure() == Some(PredictXError::InvalidAmount),
        ctx.failure() is None ==> 0 <= ctx.payout_quantity() <= u64::MAX && 0
            <= ctx.payout_amount() <= u64::MAX,
{
}

} // verus!
