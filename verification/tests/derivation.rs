use predictx::collateral::CollateralBackend;
use predictx::derivation::{market_seeds, market_signer_seeds, treasury_seeds, user_holdings_seeds};
use predictx::identity::Identity;
use predictx::state::Market;

#[test]
fn market_seeds_are_tag_authority_and_name() {
    let authority = Identity::new([7u8; 32]);
    let seeds = market_seeds(&authority, &String::from("rain"));
    assert_eq!(seeds, vec![b"market".to_vec(), vec![7u8; 32], b"rain".to_vec()]);
}

#[test]
fn market_name_enters_its_seeds_as_encoded_bytes() {
    let authority = Identity::new([0u8; 32]);
    let seeds = market_seeds(&authority, &String::from("\u{20ac}1"));
    assert_eq!(seeds[2], vec![0xe2, 0x82, 0xac, 0x31]);
}

#[test]
fn market_signs_with_its_seeds_and_nonce() {
    let market = Market {
        authority: Identity::new([7u8; 32]),
        name: String::from("rain"),
        outcome1: String::from("Yes"),
        outcome2: String::from("No"),
        description: String::new(),
        resolved: true,
        asserted_outcome: 1,
        outcome1_supply: 1,
        outcome2_supply: 1,
        backend: CollateralBackend::NativeValue,
        bump: 251,
    };
    let seeds = market_signer_seeds(&market);
    assert_eq!(seeds, vec![b"market".to_vec(), vec![7u8; 32], b"rain".to_vec(), vec![251u8]]);
}

#[test]
fn treasury_seeds_are_tag_and_market() {
    let seeds = treasury_seeds(&Identity::new([3u8; 32]));
    assert_eq!(seeds, vec![b"treasury".to_vec(), vec![3u8; 32]]);
}

#[test]
fn holdings_seeds_are_tag_user_and_market() {
    let mut user = [1u8; 32];
    user[0] = 200;
    let seeds = user_holdings_seeds(&Identity::new(user), &Identity::new([3u8; 32]));
    assert_eq!(seeds, vec![b"user_holdings".to_vec(), user.to_vec(), vec![3u8; 32]]);
}
