use predictx::collateral::{CollateralBackend, Transfer};
use predictx::errors::PredictXError;
use predictx::identity::Identity;
use predictx::instructions::{initialize_market, CreateMarket};
use predictx::state::{byte_len, Treasury, UserHoldings};

fn native_context() -> CreateMarket {
    CreateMarket {
        authority: Identity::new([7u8; 32]),
        backend: CollateralBackend::NativeValue,
        bump: 254,
    }
}

fn pooled_context() -> CreateMarket {
    CreateMarket {
        authority: Identity::new([7u8; 32]),
        backend: CollateralBackend::PooledToken {
            mint: Identity::new([8u8; 32]),
            treasury: Identity::new([9u8; 32]),
        },
        bump: 253,
    }
}

fn create(
    ctx: &CreateMarket,
    liquidity: u64,
    name: &str,
    outcome1: &str,
    outcome2: &str,
    description: &str,
) -> Result<(predictx::state::Market, Transfer), PredictXError> {
    initialize_market(
        ctx,
        String::from(outcome1),
        String::from(outcome2),
        String::from(description),
        liquidity,
        String::from(name),
    )
}

#[test]
fn seeding_gives_both_outcomes_the_scaled_liquidity() {
    let ctx = native_context();
    let (market, _) = create(&ctx, 10, "rain", "Yes", "No", "Will it rain tomorrow?").unwrap();
    assert_eq!(market.outcome1_supply, 10_000_000_000);
    assert_eq!(market.outcome2_supply, 10_000_000_000);
}

#[test]
fn new_market_is_open_and_keeps_what_it_was_given() {
    let ctx = pooled_context();
    let (market, _) = create(&ctx, 3, "rain", "Yes", "No", "Will it rain tomorrow?").unwrap();
    assert_eq!(market.authority, ctx.authority);
    assert_eq!(market.name, "rain");
    assert_eq!(market.outcome1, "Yes");
    assert_eq!(market.outcome2, "No");
    assert_eq!(market.description, "Will it rain tomorrow?");
    assert!(!market.resolved);
    assert_eq!(market.asserted_outcome, 0);
    assert_eq!(market.backend, ctx.backend);
    assert_eq!(market.bump, 253);
}

#[test]
fn pooled_vault_is_seeded_with_twice_the_liquidity() {
    let (_, transfer) = create(&pooled_context(), 10, "rain", "Yes", "No", "").unwrap();
    assert_eq!(transfer, Transfer::Deposit { amount: 20 });
}

#[test]
fn native_vault_is_seeded_with_the_liquidity_itself() {
    let (_, transfer) = create(&native_context(), 10, "rain", "Yes", "No", "").unwrap();
    assert_eq!(transfer, Transfer::Deposit { amount: 10 });
}

#[test]
fn zero_liquidity_opens_an_empty_market() {
    let (market, transfer) = create(&pooled_context(), 0, "rain", "Yes", "No", "").unwrap();
    assert_eq!(market.outcome1_supply, 0);
    assert_eq!(market.outcome2_supply, 0);
    assert_eq!(transfer, Transfer::Deposit { amount: 0 });
}

#[test]
fn largest_liquidity_that_scales_is_accepted() {
    let largest = u64::MAX / 1_000_000_000;
    let (market, transfer) = create(&pooled_context(), largest, "rain", "Yes", "No", "").unwrap();
    assert_eq!(market.outcome1_supply, 18_446_744_073_000_000_000);
    assert_eq!(market.outcome2_supply, 18_446_744_073_000_000_000);
    assert_eq!(transfer, Transfer::Deposit { amount: 36_893_488_146 });
}

#[test]
fn liquidity_that_overflows_when_scaled_is_refused() {
    let too_large = u64::MAX / 1_000_000_000 + 1;
    assert_eq!(
        create(&native_context(), too_large, "rain", "Yes", "No", ""),
        Err(PredictXError::InvalidAmount)
    );
    assert_eq!(
        create(&pooled_context(), u64::MAX, "rain", "Yes", "No", ""),
        Err(PredictXError::InvalidAmount)
    );
}

#[test]
fn overflow_is_reported_before_text_width() {
    let name = "n".repeat(51);
    assert_eq!(
        create(&native_context(), u64::MAX, &name, "Yes", "No", ""),
        Err(PredictXError::InvalidAmount)
    );
}

#[test]
fn texts_of_full_width_are_accepted() {
    let name = "n".repeat(50);
    let label = "o".repeat(100);
    let description = "d".repeat(500);
    let (market, _) = create(&native_context(), 1, &name, &label, &label, &description).unwrap();
    assert_eq!(market.name.len(), 50);
    assert_eq!(market.outcome1.len(), 100);
    assert_eq!(market.outcome2.len(), 100);
    assert_eq!(market.description.len(), 500);
}

#[test]
fn name_wider_than_its_field_is_refused() {
    let name = "n".repeat(51);
    assert_eq!(
        create(&native_context(), 1, &name, "Yes", "No", ""),
        Err(PredictXError::TextTooLong)
    );
}

#[test]
fn outcome_labels_wider_than_their_field_are_refused() {
    let label = "o".repeat(101);
    assert_eq!(
        create(&native_context(), 1, "rain", &label, "No", ""),
        Err(PredictXError::TextTooLong)
    );
    assert_eq!(
        create(&native_context(), 1, "rain", "Yes", &label, ""),
        Err(PredictXError::TextTooLong)
    );
}

#[test]
fn description_wider_than_its_field_is_refused() {
    let description = "d".repeat(501);
    assert_eq!(
        create(&native_context(), 1, "rain", "Yes", "No", &description),
        Err(PredictXError::TextTooLong)
    );
}

#[test]
fn text_width_is_measured_in_encoded_bytes() {
    // Seventeen euro signs are 17 characters and 51 bytes.
    let name = "\u{20ac}".repeat(17);
    assert_eq!(byte_len(&name), 51);
    assert_eq!(
        create(&native_context(), 1, &name, "Yes", "No", ""),
        Err(PredictXError::TextTooLong)
    );
    let shorter = "\u{20ac}".repeat(16);
    assert_eq!(byte_len(&shorter), 48);
    assert!(create(&native_context(), 1, &shorter, "Yes", "No", "").is_ok());
}

#[test]
fn new_holdings_record_is_empty() {
    let user = Identity::new([1u8; 32]);
    let market = Identity::new([2u8; 32]);
    let holdings = UserHoldings::new(user, market, 9);
    assert_eq!(holdings.user, user);
    assert_eq!(holdings.market, market);
    assert_eq!(holdings.outcome1_tokens, 0);
    assert_eq!(holdings.outcome2_tokens, 0);
    assert_eq!(holdings.bump, 9);
}

#[test]
fn treasury_record_names_its_market() {
    let market = Identity::new([2u8; 32]);
    let treasury = Treasury { market, bump: 4 };
    assert_eq!(treasury.market, market);
    assert_eq!(treasury.bump, 4);
}

#[test]
fn identities_are_equal_when_all_bytes_are() {
    let mut bytes = [5u8; 32];
    let a = Identity::new(bytes);
    assert_eq!(a, Identity::new([5u8; 32]));
    bytes[31] = 6;
    assert_ne!(a, Identity::new(bytes));
    bytes[31] = 5;
    bytes[0] = 6;
    assert_ne!(a, Identity::new(bytes));
}

#[test]
fn each_failure_has_its_message() {
    assert_eq!(PredictXError::InvalidOutcome.message(), "Invalid outcome specified");
    assert_eq!(PredictXError::InvalidAmount.message(), "Invalid amount");
    assert_eq!(PredictXError::MarketAlreadyResolved.message(), "Market is already resolved");
    assert_eq!(PredictXError::MarketNotResolved.message(), "Market is not resolved");
    assert_eq!(PredictXError::InsufficientLiquidity.message(), "Insufficient liquidity");
    assert_eq!(PredictXError::InsufficientTokens.message(), "Insufficient tokens");
    assert_eq!(PredictXError::NoTokensToClaim.message(), "No tokens to claim");
    assert_eq!(PredictXError::Unauthorized.message(), "Unauthorized");
    assert_eq!(PredictXError::TextTooLong.message(), "Text field too long");
}
