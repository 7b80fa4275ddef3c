use std::str::FromStr;

use decent_social::address::Address;
use decent_social::dispatch::{process_instruction, AccountState, OP_CREATE_PROFILE};
use decent_social::planner::{plan, ChainView, ProvisionOutcome};
use decent_social::profile::get_program_obj;
use solana_program::pubkey::Pubkey;

fn address_of(p: &Pubkey) -> Address {
    Address::from_bytes(p.to_bytes().to_vec()).unwrap()
}

#[test]
fn provision_create_and_read_back_a_profile() {
    let seed = "user_test_99";
    let owner = address_of(&Pubkey::from_str("2ULuUe9z1fYKv5GC9UrFTztCQpnBsU8M3SjCoJVZh2GA").unwrap());
    let authority = address_of(&Pubkey::from_str("11111111111111111111111111111111").unwrap());

    // Plan against an empty chain: the address must be created.
    let chain = ChainView { account_exists: false, minimum_balance: 1_146_800 };
    let needs = match plan(&owner, &authority, seed, &chain).unwrap() {
        ProvisionOutcome::NeedsCreation(n) => n,
        ProvisionOutcome::AlreadyProvisioned => panic!("expected NeedsCreation"),
    };

    // The platform allocates exactly the planned byte length, zero-filled.
    let mut pda = AccountState {
        address: needs.address,
        lamports: needs.minimum_balance,
        data: vec![0u8; needs.byte_length as usize],
    };
    let mut user = AccountState { address: owner.clone(), lamports: 0, data: Vec::new() };

    // Execute the create-profile action and read the stored bytes back.
    process_instruction(&[OP_CREATE_PROFILE], &mut pda, &mut user).unwrap();
    let program_obj = get_program_obj(pda.data.as_slice()).unwrap();

    assert_eq!(program_obj.user_id, pda.address);
    assert_eq!(program_obj.followers, 100);
    assert_eq!(program_obj.blocked_account, false);
    assert_eq!(seed, "user_test_99");
}
