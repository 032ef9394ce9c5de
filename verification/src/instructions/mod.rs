//! The instruction handlers. Each is one atomic step on the records of its
//! context: it validates, changes the records through checked arithmetic, and
//! says which collateral transfer goes with the change.

pub mod buy_outcome;
pub mod claim_winnings;
pub mod initialize_market;
pub mod resolve_market;
pub mod sell_outcome;

pub use buy_outcome::{buy_outcome, BuyOutcome};
pub use claim_winnings::{claim_winnings, ClaimWinnings};
pub use initialize_market::{initialize_market, CreateMarket};
pub use resolve_market::{resolve_market, ResolveMarket};
pub use sell_outcome::{sell_outcome, SellOutcome};
