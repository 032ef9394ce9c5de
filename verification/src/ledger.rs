//! The ledger as a whole: one market with the holdings of all its users and
//! the collateral in its vault, and what holds of it after every sequence of
//! instructions.
//!
//! The handlers work on the records of one call. Here those calls are put
//! one after another, each described by the handler's own contract, and what
//! keeps supply and collateral consistent is proved of every state that a
//! sequence of calls can reach.

use vstd::prelude::*;
use crate::collateral::Transfer;
use crate::identity::Identity;
use crate::instructions::buy_outcome::BuyOutcome;
use crate::instructions::claim_winnings::ClaimWinnings;
use crate::instructions::initialize_market::CreateMarket;
use crate::instructions::resolve_market::ResolveMarket;
use crate::instructions::sell_outcome::SellOutcome;
use crate::state::{is_tradable_outcome, Market, UserHoldings, OUTCOME_1, OUTCOME_2};
use crate::units::{collateral_for, tokens_for, BASE_UNIT, PRICE};

verus! {

/// One market with everything that belongs to it.
pub struct Ledger {
    /// The market record.
    pub market: Market,
    /// The identity of the market record.
    pub market_key: Identity,
    /// One slot for each user: the user's holdings, or `None` before the
    /// user's first purchase.
    pub holdings: Seq<Option<UserHoldings>>,
    /// The collateral in the vault.
    pub vault: int,
    /// The supply that each outcome was seeded with.
    pub seed: int,
}

/// One call of an instruction on a market that exists.
pub enum Call {
    /// The user of `slot` buys tokens of `outcome` for `amount`.
    Buy { slot: int, buyer: Identity, bump: u8, outcome: u8, amount: u64 },
    /// The user of `slot` sells `tokens` tokens of `outcome`.
    Sell { slot: int, outcome: u8, tokens: u64 },
    /// `caller` asserts `outcome`.
    Resolve { caller: Identity, outcome: u8 },
    /// The user of `slot` claims.
    Claim { slot: int },
}

/// The tokens of `outcome` that a slot holds: none while it is empty.
pub open spec fn slot_tokens(entry: Option<UserHoldings>, outcome: u8) -> int {
    match entry {
        Some(holdings) => holdings.tokens_of(outcome) as int,
        None => 0,
    }
}

/// The tokens of `outcome` that all users hold together.
pub open spec fn held(holdings: Seq<Option<UserHoldings>>, outcome: u8) -> int
    decreases holdings.len(),
{
    if holdings.len() == 0 {
        0
    } else {
        held(holdings.drop_last(), outcome) + slot_tokens(holdings.last(), outcome)
    }
}

/// The collateral that a transfer adds to the vault: negative for a
/// withdrawal.
pub open spec fn vault_change(transfer: Transfer) -> int {
    match transfer {
        Transfer::Nothing => 0,
        Transfer::Deposit { amount } => amount as int,
        Transfer::Withdraw { amount } => -(amount as int),
    }
}

impl Ledger {
    /// The ledger right after a market was created: no user holds anything,
    /// and the vault holds the creator's deposit.
    pub open spec fn opened(
        ctx: CreateMarket,
        outcome1: String,
        outcome2: String,
        description: String,
        initial_liquidity: u64,
        market_name: String,
        market_key: Identity,
        users: nat,
    ) -> Ledger {
        Ledger {
            market: ctx.created(outcome1, outcome2, description, initial_liquidity, market_name),
            market_key,
            holdings: Seq::new(users, |slot: int| None::<UserHoldings>),
            vault: ctx.backend.initial_deposit_amount(initial_liquidity),
            seed: initial_liquidity * BASE_UNIT,
        }
    }

    /// Whether `slot` is the slot of a user.
    pub open spec fn has_slot(self, slot: int) -> bool {
        0 <= slot < self.holdings.len()
    }

    /// The records that a purchase by the user of `slot` works on.
    pub open spec fn purchase(self, slot: int, buyer: Identity, bump: u8) -> BuyOutcome {
        BuyOutcome {
            market: self.market,
            market_key: self.market_key,
            buyer,
            user_holdings: self.holdings[slot],
            holdings_bump: bump,
        }
    }

    /// The records that a sale by the user of `slot` works on.
    pub open spec fn sale(self, slot: int) -> SellOutcome {
        SellOutcome { market: self.market, user_holdings: self.holdings[slot]->Some_0 }
    }

    /// The records that a claim by the user of `slot` works on.
    pub open spec fn claim(self, slot: int) -> ClaimWinnings {
        ClaimWinnings { market: self.market, user_holdings: self.holdings[slot]->Some_0 }
    }

    /// Whether the handler accepts `call` in this state. A sale or a claim
    /// needs the holdings record of its user; a purchase creates it.
    pub open spec fn accepts(self, call: Call) -> bool {
        match call {
            Call::Buy { slot, buyer, bump, outcome, amount } => {
                self.has_slot(slot) && self.purchase(slot, buyer, bump).failure(outcome, amount)
                    is None
            },
            Call::Sell { slot, outcome, tokens } => {
                self.has_slot(slot) && self.holdings[slot] is Some && self.sale(slot).failure(
                    outcome,
                    tokens,
                ) is None
            },
            Call::Resolve { caller, outcome } => {
                (ResolveMarket { market: self.market, authority: caller }).failure(outcome)
                    is None
            },
            Call::Claim { slot } => {
                self.has_slot(slot) && self.holdings[slot] is Some && self.claim(slot).failure()
                    is None
            },
        }
    }

    /// The transfer that goes with `call` when it is accepted.
    pub open spec fn transfer_of(self, call: Call) -> Transfer {
        match call {
            Call::Buy { amount, .. } => Transfer::Deposit { amount },
            Call::Sell { tokens, .. } => Transfer::Withdraw { amount: collateral_for(tokens) as u64 },
            Call::Resolve { .. } => Transfer::Nothing,
            Call::Claim { slot } => self.claim(slot).transfer(),
        }
    }

    /// The ledger after `call`: changed as the handler's contract says and
    /// with the transfer carried out when the call is accepted, and as it
    /// was when the call is refused.
    pub open spec fn step(self, call: Call) -> Ledger {
        if !self.accepts(call) {
            self
        } else {
            let vault = self.vault + vault_change(self.transfer_of(call));
            match call {
                Call::Buy { slot, buyer, bump, outcome, amount } => {
                    let after = self.purchase(slot, buyer, bump).after(outcome, amount);
                    Ledger {
                        market: after.market,
                        holdings: self.holdings.update(slot, after.user_holdings),
                        vault,
                        ..self
                    }
                },
                Call::Sell { slot, outcome, tokens } => {
                    let after = self.sale(slot).after(outcome, tokens);
                    Ledger {
                        market: after.market,
                        holdings: self.holdings.update(slot, Some(after.user_holdings)),
                        vault,
                        ..self
                    }
                },
                Call::Resolve { caller, outcome } => {
                    Ledger { market: self.market.resolved_as(outcome), ..self }
                },
                Call::Claim { slot } => {
                    Ledger {
                        holdings: self.holdings.update(
                            slot,
                            Some(self.holdings[slot]->Some_0.cleared()),
                        ),
                        vault,
                        ..self
                    }
                },
            }
        }
    }

    /// The ledger after a sequence of calls, one after another.
    pub open spec fn run(self, calls: Seq<Call>) -> Ledger
        decreases calls.len(),
    {
        if calls.len() == 0 {
            self
        } else {
            self.run(calls.drop_last()).step(calls.last())
        }
    }

    /// By how much `call` changes the supply of `outcome`, as a mathematical
    /// integer: up by the tokens of an accepted purchase of that outcome,
    /// down by those of an accepted sale, and not at all otherwise.
    pub open spec fn supply_change(self, call: Call, outcome: u8) -> int {
        if !self.accepts(call) {
            0
        } else {
            match call {
                Call::Buy { outcome: bought, amount, .. } => if bought == outcome {
                    tokens_for(amount) as int
                } else {
                    0
                },
                Call::Sell { outcome: sold, tokens, .. } => if sold == outcome {
                    -(tokens as int)
                } else {
                    0
                },
                _ => 0,
            }
        }
    }

    /// By how much a sequence of calls changes the supply of `outcome`: the
    /// sum of the changes of its calls, as a mathematical integer.
    pub open spec fn supply_changes(self, calls: Seq<Call>, outcome: u8) -> int
        decreases calls.len(),
    {
        if calls.len() == 0 {
            0
        } else {
            self.supply_changes(calls.drop_last(), outcome) + self.run(
                calls.drop_last(),
            ).supply_change(calls.last(), outcome)
        }
    }

    /// By how much `call` changes the balance of `outcome` in `slot`, as a
    /// mathematical integer: up by the tokens of an accepted purchase, down
    /// by those of an accepted sale, down to zero by an accepted claim, and
    /// not at all by a call of another user or a refused one.
    pub open spec fn balance_change(self, call: Call, slot: int, outcome: u8) -> int {
        if !self.accepts(call) {
            0
        } else {
            match call {
                Call::Buy { slot: user, outcome: bought, amount, .. } => if user == slot
                    && bought == outcome {
                    tokens_for(amount) as int
                } else {
                    0
                },
                Call::Sell { slot: user, outcome: sold, tokens } => if user == slot && sold
                    == outcome {
                    -(tokens as int)
                } else {
                    0
                },
                Call::Resolve { .. } => 0,
                Call::Claim { slot: user } => if user == slot {
                    -slot_tokens(self.holdings[slot], outcome)
                } else {
                    0
                },
            }
        }
    }

    /// By how much a sequence of calls changes the balance of `outcome` in
    /// `slot`: the sum of the changes of its calls, as a mathematical
    /// integer.
    pub open spec fn balance_changes(self, calls: Seq<Call>, slot: int, outcome: u8) -> int
        decreases calls.len(),
    {
        if calls.len() == 0 {
            0
        } else {
            self.balance_changes(calls.drop_last(), slot, outcome) + self.run(
                calls.drop_last(),
            ).balance_change(calls.last(), slot, outcome)
        }
    }

    /// What keeps supply and collateral consistent. The market is well
    /// formed. Of each outcome, the users together hold no more than the
    /// supply less the seed: the seed is in the supply and belongs to
    /// nobody. And the vault holds at least the fixed price of every token
    /// that a user holds.
    pub open spec fn consistent(self) -> bool {
        &&& self.market.wf()
        &&& 0 <= self.seed
        &&& self.seed + held(self.holdings, OUTCOME_1) <= self.market.outcome1_supply
        &&& self.seed + held(self.holdings, OUTCOME_2) <= self.market.outcome2_supply
        &&& PRICE * (held(self.holdings, OUTCOME_1) + held(self.holdings, OUTCOME_2))
            <= self.vault
    }
}

/// Users who hold nothing hold nothing together.
pub proof fn lemma_held_of_empty_slots(users: nat, outcome: u8)
    ensures
        held(Seq::new(users, |slot: int| None::<UserHoldings>), outcome) == 0,
    decreases users,
{
    let slots = Seq::new(users, |slot: int| None::<UserHoldings>);
    if users > 0 {
        assert(slots.drop_last() =~= Seq::new((users - 1) as nat, |slot: int| None::<UserHoldings>));
        lemma_held_of_empty_slots((users - 1) as nat, outcome);
    }
}

/// No user holds more than all users together, and nobody holds less than
/// nothing.
pub proof fn lemma_held_covers_each_slot(
    holdings: Seq<Option<UserHoldings>>,
    slot: int,
    outcome: u8,
)
    requires
        0 <= slot < holdings.len(),
    ensures
        0 <= slot_tokens(holdings[slot], outcome) <= held(holdings, outcome),
    decreases holdings.len(),
{
    lemma_held_is_not_negative(holdings.drop_last(), outcome);
    if slot < holdings.len() - 1 {
        lemma_held_covers_each_slot(holdings.drop_last(), slot, outcome);
    }
}

/// The users together hold at least nothing.
pub proof fn lemma_held_is_not_negative(holdings: Seq<Option<UserHoldings>>, outcome: u8)
    ensures
        0 <= held(holdings, outcome),
    decreases holdings.len(),
{
    if holdings.len() > 0 {
        lemma_held_is_not_negative(holdings.drop_last(), outcome);
    }
}

/// Replacing one user's holdings changes what all users hold together by
/// the difference.
pub proof fn lemma_held_after_update(
    holdings: Seq<Option<UserHoldings>>,
    slot: int,
    entry: Option<UserHoldings>,
    outcome: u8,
)
    requires
        0 <= slot < holdings.len(),
    ensures
        held(holdings.update(slot, entry), outcome) == held(holdings, outcome) - slot_tokens(
            holdings[slot],
            outcome,
        ) + slot_tokens(entry, outcome),
    decreases holdings.len(),
{
    let updated = holdings.update(slot, entry);
    if slot == holdings.len() - 1 {
        assert(updated.drop_last() =~= holdings.drop_last());
    } else {
        assert(updated.drop_last() =~= holdings.drop_last().update(slot, entry));
        lemma_held_after_update(holdings.drop_last(), slot, entry, outcome);
    }
}

/// A market starts consistent: right after its creation nobody holds
/// anything, so no holdings record is credited with the seed.
pub proof fn law_new_ledger_is_consistent(
    ctx: CreateMarket,
    outcome1: String,
    outcome2: String,
    description: String,
    initial_liquidity: u64,
    market_name: String,
    market_key: Identity,
    users: nat,
)
    requires
        ctx.failure(outcome1@, outcome2@, description@, initial_liquidity, market_name@) is None,
    ensures
        ({
            let ledger = Ledger::opened(
                ctx,
                outcome1,
                outcome2,
                description,
                initial_liquidity,
                market_name,
                market_key,
                users,
            );
            &&& ledger.consistent()
            &&& held(ledger.holdings, OUTCOME_1) == 0
            &&& held(ledger.holdings, OUTCOME_2) == 0
            &&& forall|slot: int| ledger.has_slot(slot) ==> ledger.holdings[slot] is None
        }),
{
    lemma_held_of_empty_slots(users, OUTCOME_1);
    lemma_held_of_empty_slots(users, OUTCOME_2);
}

/// Every call keeps the ledger consistent, whether it is accepted or
/// refused.
pub proof fn law_step_keeps_ledger_consistent(ledger: Ledger, call: Call)
    requires
        ledger.consistent(),
    ensures
        ledger.step(call).consistent(),
        ledger.step(call).seed == ledger.seed,
        ledger.step(call).holdings.len() == ledger.holdings.len(),
{
    if ledger.accepts(call) {
        match call {
            Call::Buy { slot, buyer, bump, outcome, amount } => {
                let after = ledger.purchase(slot, buyer, bump).after(outcome, amount);
                lemma_held_after_update(ledger.holdings, slot, after.user_holdings, OUTCOME_1);
                lemma_held_after_update(ledger.holdings, slot, after.user_holdings, OUTCOME_2);
            },
            Call::Sell { slot, outcome, tokens } => {
                let after = ledger.sale(slot).after(outcome, tokens);
                lemma_held_after_update(
                    ledger.holdings,
                    slot,
                    Some(after.user_holdings),
                    OUTCOME_1,
                );
                lemma_held_after_update(
                    ledger.holdings,
                    slot,
                    Some(after.user_holdings),
                    OUTCOME_2,
                );
            },
            Call::Resolve { caller, outcome } => {},
            Call::Claim { slot } => {
                let cleared = Some(ledger.holdings[slot]->Some_0.cleared());
                lemma_held_after_update(ledger.holdings, slot, cleared, OUTCOME_1);
                lemma_held_after_update(ledger.holdings, slot, cleared, OUTCOME_2);
            },
        }
    }
}

/// Every state that a sequence of calls reaches from a consistent ledger is
/// consistent: the counters never wrap, the seed stays in the supply, and
/// the vault covers what the users hold.
pub proof fn law_every_reachable_ledger_is_consistent(ledger: Ledger, calls: Seq<Call>)
    requires
        ledger.consistent(),
    ensures
        ledger.run(calls).consistent(),
        ledger.run(calls).seed == ledger.seed,
        ledger.run(calls).holdings.len() == ledger.holdings.len(),
    decreases calls.len(),
{
    if calls.len() > 0 {
        law_every_reachable_ledger_is_consistent(ledger, calls.drop_last());
        law_step_keeps_ledger_consistent(ledger.run(calls.drop_last()), calls.last());
    }
}

/// The vault of a consistent ledger covers every withdrawal that a handler
/// answers with, and is never overdrawn.
pub proof fn law_vault_covers_every_withdrawal(ledger: Ledger, call: Call)
    requires
        ledger.consistent(),
        ledger.accepts(call),
    ensures
        0 <= ledger.vault + vault_change(ledger.transfer_of(call)),
        ledger.step(call).vault == ledger.vault + vault_change(ledger.transfer_of(call)),
{
    match call {
        Call::Sell { slot, outcome, tokens } => {
            lemma_held_covers_each_slot(ledger.holdings, slot, OUTCOME_1);
            lemma_held_covers_each_slot(ledger.holdings, slot, OUTCOME_2);
        },
        Call::Claim { slot } => {
            lemma_held_covers_each_slot(ledger.holdings, slot, OUTCOME_1);
            lemma_held_covers_each_slot(ledger.holdings, slot, OUTCOME_2);
        },
        _ => {
            lemma_held_is_not_negative(ledger.holdings, OUTCOME_1);
            lemma_held_is_not_negative(ledger.holdings, OUTCOME_2);
        },
    }
}

/// What a market was created with never changes: after every sequence of
/// calls it has the authority, the texts, the backend and the nonce that it
/// had before.
pub proof fn law_market_keeps_what_it_was_created_with(ledger: Ledger, calls: Seq<Call>)
    ensures
        ({
            let before = ledger.market;
            let after = ledger.run(calls).market;
            &&& after.authority == before.authority
            &&& after.name == before.name
            &&& after.outcome1 == before.outcome1
            &&& after.outcome2 == before.outcome2
            &&& after.description == before.description
            &&& after.backend == before.backend
            &&& after.bump == before.bump
            &&& before.resolved ==> after.resolved
        }),
    decreases calls.len(),
{
    if calls.len() > 0 {
        law_market_keeps_what_it_was_created_with(ledger, calls.drop_last());
    }
}

/// Once resolved, a market stays resolved with the outcome that was
/// asserted, whatever calls follow.
pub proof fn law_resolution_survives_every_sequence(ledger: Ledger, calls: Seq<Call>)
    requires
        ledger.market.resolved,
    ensures
        ledger.run(calls).market == ledger.market,
    decreases calls.len(),
{
    if calls.len() > 0 {
        law_resolution_survives_every_sequence(ledger, calls.drop_last());
    }
}

/// The supply counters never wrap: after every sequence of calls the supply
/// of a tradable outcome is what it was plus the changes of the calls,
/// added up as mathematical integers.
pub proof fn law_supply_never_wraps(ledger: Ledger, calls: Seq<Call>, outcome: u8)
    requires
        is_tradable_outcome(outcome),
    ensures
        ledger.run(calls).market.supply_of(outcome) == ledger.market.supply_of(outcome)
            + ledger.supply_changes(calls, outcome),
        ledger.run(calls).holdings.len() == ledger.holdings.len(),
    decreases calls.len(),
{
    if calls.len() > 0 {
        law_supply_never_wraps(ledger, calls.drop_last(), outcome);
    }
}

/// The holdings counters never wrap: after every sequence of calls a user's
/// balance of a tradable outcome is what it was plus the changes of the
/// calls, added up as mathematical integers.
pub proof fn law_balance_never_wraps(ledger: Ledger, calls: Seq<Call>, slot: int, outcome: u8)
    requires
        is_tradable_outcome(outcome),
        ledger.has_slot(slot),
    ensures
        ledger.run(calls).has_slot(slot),
        slot_tokens(ledger.run(calls).holdings[slot], outcome) == slot_tokens(
            ledger.holdings[slot],
            outcome,
        ) + ledger.balance_changes(calls, slot, outcome),
    decreases calls.len(),
{
    if calls.len() > 0 {
        law_balance_never_wraps(ledger, calls.drop_last(), slot, outcome);
    }
}

} // verus!
