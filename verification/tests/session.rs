use predictx::collateral::{move_value, CollateralBackend, Transfer};
use predictx::errors::PredictXError;
use predictx::identity::Identity;
use predictx::instructions::{
    buy_outcome, claim_winnings, initialize_market, resolve_market, sell_outcome, BuyOutcome,
    ClaimWinnings, CreateMarket, ResolveMarket, SellOutcome,
};
use predictx::state::{Market, UserHoldings};

const PRICE: u64 = 1_000_000_000;

struct Session {
    market: Market,
    market_key: Identity,
    holdings: Vec<Option<UserHoldings>>,
    vault: u64,
    outside: u64,
    seed: u64,
}

fn user(slot: usize) -> Identity {
    let mut bytes = [0u8; 32];
    bytes[0] = slot as u8 + 1;
    Identity::new(bytes)
}

impl Session {
    fn open(backend: CollateralBackend, liquidity: u64, users: usize) -> Session {
        let ctx = CreateMarket { authority: Identity::new([7u8; 32]), backend, bump: 250 };
        let (market, transfer) = initialize_market(
            &ctx,
            String::from("Yes"),
            String::from("No"),
            String::from("Will it rain tomorrow?"),
            liquidity,
            String::from("rain"),
        )
        .unwrap();
        let mut session = Session {
            seed: market.outcome1_supply,
            market,
            market_key: Identity::new([9u8; 32]),
            holdings: vec![None; users],
            vault: 0,
            outside: u64::MAX,
        };
        session.carry_out(transfer);
        session
    }

    fn carry_out(&mut self, transfer: Transfer) {
        match transfer {
            Transfer::Nothing => {}
            Transfer::Deposit { amount } => {
                let (outside, vault) = move_value(self.outside, self.vault, amount).unwrap();
                self.outside = outside;
                self.vault = vault;
            }
            Transfer::Withdraw { amount } => {
                let (vault, outside) = move_value(self.vault, self.outside, amount).unwrap();
                self.outside = outside;
                self.vault = vault;
            }
        }
    }

    fn buy(&mut self, slot: usize, outcome: u8, amount: u64) -> Result<(), PredictXError> {
        let mut ctx = BuyOutcome {
            market: self.market.clone(),
            market_key: self.market_key,
            buyer: user(slot),
            user_holdings: self.holdings[slot],
            holdings_bump: 1,
        };
        let transfer = buy_outcome(&mut ctx, outcome, amount)?;
        self.market = ctx.market;
        self.holdings[slot] = ctx.user_holdings;
        self.carry_out(transfer);
        Ok(())
    }

    fn sell(&mut self, slot: usize, outcome: u8, tokens: u64) -> Result<(), PredictXError> {
        let mut ctx = SellOutcome {
            market: self.market.clone(),
            user_holdings: self.holdings[slot].unwrap(),
        };
        let transfer = sell_outcome(&mut ctx, outcome, tokens)?;
        self.market = ctx.market;
        self.holdings[slot] = Some(ctx.user_holdings);
        self.carry_out(transfer);
        Ok(())
    }

    fn resolve(&mut self, caller: Identity, outcome: u8) -> Result<(), PredictXError> {
        let mut ctx = ResolveMarket { market: self.market.clone(), authority: caller };
        resolve_market(&mut ctx, outcome)?;
        self.market = ctx.market;
        Ok(())
    }

    fn claim(&mut self, slot: usize) -> Result<Transfer, PredictXError> {
        let mut ctx = ClaimWinnings {
            market: self.market.clone(),
            user_holdings: self.holdings[slot].unwrap(),
        };
        let transfer = claim_winnings(&mut ctx)?;
        self.holdings[slot] = Some(ctx.user_holdings);
        self.carry_out(transfer);
        Ok(transfer)
    }

    fn held(&self, outcome: u8) -> u64 {
        self.holdings
            .iter()
            .flatten()
            .map(|h| if outcome == 1 { h.outcome1_tokens } else { h.outcome2_tokens })
            .sum()
    }

    fn assert_consistent(&self) {
        assert!(self.seed + self.held(1) <= self.market.outcome1_supply);
        assert!(self.seed + self.held(2) <= self.market.outcome2_supply);
        assert!(PRICE * (self.held(1) + self.held(2)) <= self.vault);
    }
}

fn play(backend: CollateralBackend) -> Session {
    let mut session = Session::open(backend, 10, 3);
    session.assert_consistent();
    assert!(session.holdings.iter().all(|slot| slot.is_none()));

    session.buy(0, 1, 2_500_000_000).unwrap();
    session.assert_consistent();
    session.buy(1, 2, 7_000_000_000).unwrap();
    session.assert_consistent();
    session.buy(1, 1, 1_999_999_999).unwrap();
    session.assert_consistent();
    session.buy(2, 2, 3_000_000_001).unwrap();
    session.assert_consistent();
    assert_eq!(session.buy(2, 2, 999_999_999), Err(PredictXError::InvalidAmount));
    session.assert_consistent();
    assert_eq!(session.market.outcome1_supply, 10_000_000_003);
    assert_eq!(session.market.outcome2_supply, 10_000_000_010);

    session.sell(1, 2, 4).unwrap();
    session.assert_consistent();
    assert_eq!(session.sell(0, 1, 3), Err(PredictXError::InsufficientTokens));
    session.assert_consistent();
    assert_eq!(session.market.outcome2_supply, 10_000_000_006);
    assert_eq!(session.held(1), 3);
    assert_eq!(session.held(2), 6);
    session
}

#[test]
fn session_with_a_winner_stays_consistent() {
    let mut session = play(CollateralBackend::NativeValue);
    assert_eq!(session.claim(0), Err(PredictXError::MarketNotResolved));
    assert_eq!(session.resolve(user(0), 1), Err(PredictXError::Unauthorized));
    session.resolve(Identity::new([7u8; 32]), 1).unwrap();
    session.assert_consistent();
    assert_eq!(session.buy(0, 1, PRICE), Err(PredictXError::MarketAlreadyResolved));
    assert_eq!(session.sell(0, 1, 1), Err(PredictXError::MarketAlreadyResolved));

    assert_eq!(session.claim(0), Ok(Transfer::Withdraw { amount: 2_000_000_000 }));
    session.assert_consistent();
    assert_eq!(session.claim(1), Ok(Transfer::Withdraw { amount: 1_000_000_000 }));
    session.assert_consistent();
    assert_eq!(session.claim(2), Ok(Transfer::Nothing));
    session.assert_consistent();
    assert_eq!(session.claim(2), Err(PredictXError::NoTokensToClaim));
    assert_eq!(session.held(1), 0);
    assert_eq!(session.held(2), 0);
    // The supply keeps the seed and what was never sold back.
    assert_eq!(session.market.outcome1_supply, 10_000_000_003);
    assert_eq!(session.market.outcome2_supply, 10_000_000_006);
    // Deposits 10 + 2.5e9 + 7e9 + 1,999,999,999 + 3,000,000,001, withdrawals 4e9 + 2e9 + 1e9.
    assert_eq!(session.vault, 7_500_000_010);
}

#[test]
fn session_without_a_decision_refunds_everybody() {
    let mut session = play(CollateralBackend::PooledToken {
        mint: Identity::new([4u8; 32]),
        treasury: Identity::new([5u8; 32]),
    });
    session.resolve(Identity::new([7u8; 32]), 3).unwrap();
    assert_eq!(
        session.resolve(Identity::new([7u8; 32]), 1),
        Err(PredictXError::MarketAlreadyResolved)
    );
    assert_eq!(session.claim(0), Ok(Transfer::Withdraw { amount: 2 }));
    session.assert_consistent();
    assert_eq!(session.claim(1), Ok(Transfer::Withdraw { amount: 4 }));
    session.assert_consistent();
    assert_eq!(session.claim(2), Ok(Transfer::Withdraw { amount: 3 }));
    session.assert_consistent();
    assert_eq!(session.held(1) + session.held(2), 0);
    // Deposits 20 + 14,500,000,000, withdrawals 4e9 + 2 + 4 + 3.
    assert_eq!(session.vault, 10_500_000_011);
}
