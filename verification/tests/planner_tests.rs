use std::str::FromStr;

use decent_social::address::{pda_key, Address};
use decent_social::planner::{plan, ChainView, NeedsCreation, ProvisionOutcome};
use decent_social::Error;
use solana_program::pubkey::Pubkey;

fn address_of(p: &Pubkey) -> Address {
    Address::from_bytes(p.to_bytes().to_vec()).unwrap()
}

fn expect_needs_creation(outcome: ProvisionOutcome) -> NeedsCreation {
    match outcome {
        ProvisionOutcome::NeedsCreation(n) => n,
        ProvisionOutcome::AlreadyProvisioned => panic!("expected NeedsCreation"),
    }
}

#[test]
fn plan_on_empty_chain_needs_creation() {
    let owner = address_of(&Pubkey::from_str("2ULuUe9z1fYKv5GC9UrFTztCQpnBsU8M3SjCoJVZh2GA").unwrap());
    let authority = address_of(&Pubkey::from_str("11111111111111111111111111111111").unwrap());
    let chain = ChainView { account_exists: false, minimum_balance: 1_146_800 };
    let outcome = plan(&owner, &authority, "user_test_99", &chain).unwrap();
    let needs = expect_needs_creation(outcome);
    let derived = pda_key(&owner, &authority, "user_test_99").unwrap();
    assert_eq!(needs.address, derived);
    assert_eq!(needs.byte_length, 37);
    assert_eq!(needs.minimum_balance, 1_146_800);
}

#[test]
fn plan_is_idempotent_until_creation() {
    let owner = address_of(&Pubkey::from_str("2ULuUe9z1fYKv5GC9UrFTztCQpnBsU8M3SjCoJVZh2GA").unwrap());
    let authority = address_of(&Pubkey::from_str("11111111111111111111111111111111").unwrap());
    let chain = ChainView { account_exists: false, minimum_balance: 890_880 };
    let first = expect_needs_creation(plan(&owner, &authority, "user_test_99", &chain).unwrap());
    let second = expect_needs_creation(plan(&owner, &authority, "user_test_99", &chain).unwrap());
    assert_eq!(first.address, second.address);
    assert_eq!(first.byte_length, second.byte_length);
    assert_eq!(first.minimum_balance, second.minimum_balance);

    let after_creation = ChainView { account_exists: true, minimum_balance: 890_880 };
    let outcome = plan(&owner, &authority, "user_test_99", &after_creation).unwrap();
    assert!(matches!(outcome, ProvisionOutcome::AlreadyProvisioned));
}

#[test]
fn plan_rejects_long_seed_before_consulting_the_chain() {
    let owner = address_of(&Pubkey::from_str("2ULuUe9z1fYKv5GC9UrFTztCQpnBsU8M3SjCoJVZh2GA").unwrap());
    let authority = address_of(&Pubkey::from_str("11111111111111111111111111111111").unwrap());
    let chain = ChainView { account_exists: false, minimum_balance: 0 };
    let long_seed = "a".repeat(33);
    let result = plan(&owner, &authority, long_seed.as_str(), &chain);
    assert_eq!(result.unwrap_err(), Error::SeedTooLong);
}
