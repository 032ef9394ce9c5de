use predictx::collateral::CollateralBackend;
use predictx::errors::PredictXError;
use predictx::identity::Identity;
use predictx::instructions::{resolve_market, ResolveMarket};
use predictx::state::Market;

fn authority() -> Identity {
    Identity::new([7u8; 32])
}

fn stranger() -> Identity {
    let mut bytes = [7u8; 32];
    bytes[31] = 8;
    Identity::new(bytes)
}

fn open_market() -> Market {
    Market {
        authority: authority(),
        name: String::from("rain"),
        outcome1: String::from("Yes"),
        outcome2: String::from("No"),
        description: String::from("Will it rain tomorrow?"),
        resolved: false,
        asserted_outcome: 0,
        outcome1_supply: 10_000_000_000,
        outcome2_supply: 10_000_000_000,
        backend: CollateralBackend::PooledToken {
            mint: Identity::new([8u8; 32]),
            treasury: Identity::new([9u8; 32]),
        },
        bump: 254,
    }
}

#[test]
fn authority_resolves_to_each_outcome() {
    for outcome in [1u8, 2, 3] {
        let mut ctx = ResolveMarket { market: open_market(), authority: authority() };
        assert_eq!(resolve_market(&mut ctx, outcome), Ok(()));
        let mut expected = open_market();
        expected.resolved = true;
        expected.asserted_outcome = outcome;
        assert_eq!(ctx.market, expected);
        assert_eq!(ctx.authority, authority());
    }
}

#[test]
fn resolution_by_a_stranger_is_unauthorized() {
    let mut ctx = ResolveMarket { market: open_market(), authority: stranger() };
    assert_eq!(resolve_market(&mut ctx, 1), Err(PredictXError::Unauthorized));
    assert_eq!(ctx.market, open_market());
    assert!(!ctx.market.resolved);
    assert_eq!(ctx.market.asserted_outcome, 0);
}

#[test]
fn stranger_is_unauthorized_whatever_else_is_wrong() {
    let mut ctx = ResolveMarket { market: open_market(), authority: stranger() };
    assert_eq!(resolve_market(&mut ctx, 0), Err(PredictXError::Unauthorized));
    assert_eq!(resolve_market(&mut ctx, 9), Err(PredictXError::Unauthorized));
    let mut resolved = ResolveMarket { market: open_market(), authority: authority() };
    assert_eq!(resolve_market(&mut resolved, 2), Ok(()));
    let after = resolved.market.clone();
    resolved.authority = stranger();
    assert_eq!(resolve_market(&mut resolved, 1), Err(PredictXError::Unauthorized));
    assert_eq!(resolved.market, after);
}

#[test]
fn second_resolution_is_refused() {
    let mut ctx = ResolveMarket { market: open_market(), authority: authority() };
    assert_eq!(resolve_market(&mut ctx, 1), Ok(()));
    let after = ctx.clone();
    for outcome in [0u8, 1, 2, 3, 4] {
        assert_eq!(resolve_market(&mut ctx, outcome), Err(PredictXError::MarketAlreadyResolved));
        assert_eq!(ctx, after);
    }
    assert!(ctx.market.resolved);
    assert_eq!(ctx.market.asserted_outcome, 1);
}

#[test]
fn resolution_to_an_unknown_outcome_is_refused() {
    for outcome in [0u8, 4, 255] {
        let mut ctx = ResolveMarket { market: open_market(), authority: authority() };
        assert_eq!(resolve_market(&mut ctx, outcome), Err(PredictXError::InvalidOutcome));
        assert_eq!(ctx.market, open_market());
    }
}
