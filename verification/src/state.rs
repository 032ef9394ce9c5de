//! The persisted records: a market, a user's holdings in it, and its treasury.

use vstd::prelude::*;
use crate::collateral::CollateralBackend;
use crate::identity::Identity;

verus! {

/// The longest market name, in bytes of its UTF-8 encoding.
pub const MAX_NAME_LEN: usize = 50;

/// The longest outcome label, in bytes of its UTF-8 encoding.
pub const MAX_OUTCOME_LEN: usize = 100;

/// The longest market description, in bytes of its UTF-8 encoding.
pub const MAX_DESCRIPTION_LEN: usize = 500;

/// Asserted outcome of a market that is still open.
pub const UNRESOLVED: u8 = 0;

/// Asserted outcome: the first outcome came true.
pub const OUTCOME_1: u8 = 1;

/// Asserted outcome: the second outcome came true.
pub const OUTCOME_2: u8 = 2;

/// Asserted outcome: the market could not be decided.
pub const OUTCOME_INVALID: u8 = 3;

/// The length of a text as a record stores it: the bytes of its UTF-8
/// encoding.
pub open spec fn text_len(text: Seq<char>) -> nat {
    vstd::utf8::encode_utf8(text).len()
}

/// Measures a text as a record stores it.
pub fn byte_len(text: &String) -> (len: usize)
    ensures
        len == text_len(text@),
{
    text.as_str().as_bytes().len()
}

/// Whether the four texts of a market fit the widths of its record.
pub open spec fn texts_fit(
    name: Seq<char>,
    outcome1: Seq<char>,
    outcome2: Seq<char>,
    description: Seq<char>,
) -> bool {
    &&& text_len(name) <= MAX_NAME_LEN
    &&& text_len(outcome1) <= MAX_OUTCOME_LEN
    &&& text_len(outcome2) <= MAX_OUTCOME_LEN
    &&& text_len(description) <= MAX_DESCRIPTION_LEN
}

/// Whether an outcome code names one of the two tradable outcomes.
pub open spec fn is_tradable_outcome(outcome: u8) -> bool {
    outcome == OUTCOME_1 || outcome == OUTCOME_2
}

/// Whether an outcome code is one an authority may assert.
pub open spec fn is_assertable_outcome(outcome: u8) -> bool {
    OUTCOME_1 <= outcome <= OUTCOME_INVALID
}

/// One market, kept per pair of authority and name.
#[derive(Clone, Debug, PartialEq, Eq)]
pub struct Market {
    /// The creator, and the only identity that may resolve the market.
    pub authority: Identity,
    /// The market's name.
    pub name: String,
    /// The label of the first outcome.
    pub outcome1: String,
    /// The label of the second outcome.
    pub outcome2: String,
    /// What the market is about.
    pub description: String,
    /// Whether the authority has asserted an outcome.
    pub resolved: bool,
    /// 0 while open, then 1 or 2 for the outcome that came true, or 3 when
    /// the market could not be decided.
    pub asserted_outcome: u8,
    /// Outstanding tokens of the first outcome.
    pub outcome1_supply: u64,
    /// Outstanding tokens of the second outcome.
    pub outcome2_supply: u64,
    /// Where the market's collateral is kept.
    pub backend: CollateralBackend,
    /// The nonce from which the record's own address is derived.
    pub bump: u8,
}

impl Market {
    /// What holds of every market that the instructions create and change:
    /// its texts fit their widths, and it is resolved exactly when an outcome
    /// from 1 to 3 has been asserted.
    pub open spec fn wf(&self) -> bool {
        &&& texts_fit(self.name@, self.outcome1@, self.outcome2@, self.description@)
        &&& self.asserted_outcome <= OUTCOME_INVALID
        &&& self.resolved <==> self.asserted_outcome != UNRESOLVED
    }

    /// The supply of the given tradable outcome: the first for 1, the second
    /// otherwise.
    pub open spec fn supply_of(&self, outcome: u8) -> u64 {
        if outcome == OUTCOME_1 {
            self.outcome1_supply
        } else {
            self.outcome2_supply
        }
    }

    /// This market with the supply of the given outcome replaced.
    pub open spec fn with_supply(self, outcome: u8, supply: u64) -> Market {
        if outcome == OUTCOME_1 {
            Market { outcome1_supply: supply, ..self }
        } else {
            Market { outcome2_supply: supply, ..self }
        }
    }

    /// This market with `outcome` asserted.
    pub open spec fn resolved_as(self, outcome: u8) -> Market {
        Market { resolved: true, asserted_outcome: outcome, ..self }
    }
}

/// The record of a pooled-token vault: the market it belongs to.
#[derive(Clone, Copy, Debug, PartialEq, Eq)]
pub struct Treasury {
    /// The market whose collateral the vault holds.
    pub market: Identity,
    /// The nonce from which the record's own address is derived.
    pub bump: u8,
}

/// One user's balances in one market.
#[derive(Clone, Copy, Debug, PartialEq, Eq)]
pub struct UserHoldings {
    /// The holder.
    pub user: Identity,
    /// The market the balances belong to.
    pub market: Identity,
    /// Tokens of the first outcome.
    pub outcome1_tokens: u64,
    /// Tokens of the second outcome.
    pub outcome2_tokens: u64,
    /// The nonce from which the record's own address is derived.
    pub bump: u8,
}

impl UserHoldings {
    /// The record of a holder who has not bought anything yet.
    pub open spec fn empty(user: Identity, market: Identity, bump: u8) -> UserHoldings {
        UserHoldings { user, market, outcome1_tokens: 0, outcome2_tokens: 0, bump }
    }

    /// Creates the record of a holder who has not bought anything yet.
    pub fn new(user: Identity, market: Identity, bump: u8) -> (holdings: UserHoldings)
        ensures
            holdings == UserHoldings::empty(user, market, bump),
    {
        UserHoldings { user, market, outcome1_tokens: 0, outcome2_tokens: 0, bump }
    }

    /// The balance of the given tradable outcome: the first for 1, the second
    /// otherwise.
    pub open spec fn tokens_of(&self, outcome: u8) -> u64 {
        if outcome == OUTCOME_1 {
            self.outcome1_tokens
        } else {
            self.outcome2_tokens
        }
    }

    /// These holdings with the balance of the given outcome replaced.
    pub open spec fn with_tokens(self, outcome: u8, tokens: u64) -> UserHoldings {
        if outcome == OUTCOME_1 {
            UserHoldings { outcome1_tokens: tokens, ..self }
        } else {
            UserHoldings { outcome2_tokens: tokens, ..self }
        }
    }

    /// These holdings with both balances set to zero.
    pub open spec fn cleared(self) -> UserHoldings {
        UserHoldings { outcome1_tokens: 0, outcome2_tokens: 0, ..self }
    }

    /// Both balances together, as a mathematical integer.
    pub open spec fn total(&self) -> int {
        self.outcome1_tokens + self.outcome2_tokens
    }
}

} // verus!
