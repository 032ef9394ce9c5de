//! A binary-outcome prediction-market ledger.
//!
//! An authority opens a market over two named outcomes. Participants buy and
//! sell outcome positions at a fixed price against a collateral pool, the
//! authority asserts the final outcome, and holders redeem their positions.
//! Every instruction is a single atomic step on plain records: it either
//! succeeds and says which value transfer the collateral backend has to carry
//! out, or it fails and leaves every record as it was.
//!
//! - [`state`] holds the records, [`identity`] the names they refer to.
//! - [`units`] holds the fixed price and the checked arithmetic.
//! - [`collateral`] says where collateral is kept and how much of it moves.
//! - [`instructions`] holds the five handlers and the records each works on.
//! - [`derivation`] lists the seeds of the records' addresses.
//! - [`laws`] and [`ledger`] prove what holds of the handlers together and of
//!   every sequence of calls.

pub mod collateral;
pub mod derivation;
pub mod errors;
pub mod identity;
pub mod instructions;
pub mod laws;
pub mod ledger;
pub mod state;
pub mod units;

pub use errors::PredictXError;
pub use identity::Identity;
