//! The kinds of failure an instruction can report.

use vstd::prelude::*;

verus! {

/// Why an instruction was aborted. A failed instruction changes no record.
#[derive(Clone, Copy, Debug, PartialEq, Eq, Structural)]
pub enum PredictXError {
    /// The outcome code is outside the domain the instruction allows.
    InvalidOutcome,
    /// The amount is zero, buys less than one whole token, or checked
    /// arithmetic left the 64-bit range.
    InvalidAmount,
    /// The market is resolved and the instruction needs an open one.
    MarketAlreadyResolved,
    /// The market is open and the instruction needs a resolved one.
    MarketNotResolved,
    /// Reserved for a shortfall of the collateral vault; no instruction
    /// reports it.
    InsufficientLiquidity,
    /// The seller holds fewer tokens than the sale asks for.
    InsufficientTokens,
    /// The holder's combined balance is zero.
    NoTokensToClaim,
    /// The caller is not the market's authority.
    Unauthorized,
    /// A text field of a new market is longer than its record allows.
    TextTooLong,
}

impl PredictXError {
    /// The text shown for each kind of failure.
    pub open spec fn message_text(self) -> Seq<char> {
        match self {
            PredictXError::InvalidOutcome => "Invalid outcome specified"@,
            PredictXError::InvalidAmount => "Invalid amount"@,
            PredictXError::MarketAlreadyResolved => "Market is already resolved"@,
            PredictXError::MarketNotResolved => "Market is not resolved"@,
            PredictXError::InsufficientLiquidity => "Insufficient liquidity"@,
            PredictXError::InsufficientTokens => "Insufficient tokens"@,
            PredictXError::NoTokensToClaim => "No tokens to claim"@,
            PredictXError::Unauthorized => "Unauthorized"@,
            PredictXError::TextTooLong => "Text field too long"@,
        }
    }

    /// Returns the text shown for this kind of failure.
    pub fn message(&self) -> (text: &'static str)
        ensures
            text@ == self.message_text(),
    {
        match self {
            PredictXError::InvalidOutcome => "Invalid outcome specified",
            PredictXError::InvalidAmount => "Invalid amount",
            PredictXError::MarketAlreadyResolved => "Market is already resolved",
            PredictXError::MarketNotResolved => "Market is not resolved",
            PredictXError::InsufficientLiquidity => "Insufficient liquidity",
            PredictXError::InsufficientTokens => "Insufficient tokens",
            PredictXError::NoTokensToClaim => "No tokens to claim",
            PredictXError::Unauthorized => "Unauthorized",
            PredictXError::TextTooLong => "Text field too long",
        }
    }
}

} // verus!
