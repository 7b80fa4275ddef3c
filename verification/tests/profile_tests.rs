use std::str::FromStr;

use decent_social::address::Address;
use decent_social::profile::{
    decode, encode, get_program_obj, get_program_obj_size, init_new_profile, UserProfile,
};
use decent_social::Error;
use solana_program::pubkey::Pubkey;

fn address_of(p: &Pubkey) -> Address {
    Address::from_bytes(p.to_bytes().to_vec()).unwrap()
}

#[test]
fn create_new_profile_with_default_values() {
    let user_profile = UserProfile::default();
    let pubkey = Pubkey::from_str("11111111111111111111111111111111").unwrap();
    assert_eq!(user_profile.user_id, address_of(&pubkey));
    assert_eq!(user_profile.blocked_account, false);
    assert_eq!(user_profile.followers, 0);
}

#[test]
fn init_new_profile_() {
    let mut user_profile = UserProfile::default();
    let pubkey = Pubkey::from_str("2ULuUe9z1fYKv5GC9UrFTztCQpnBsU8M3SjCoJVZh2GA").unwrap();
    init_new_profile(&mut user_profile, address_of(&pubkey));
    assert_eq!(user_profile.user_id, address_of(&pubkey));
    assert_eq!(user_profile.blocked_account, false);
    assert_eq!(user_profile.followers, 100);
}

#[test]
fn codec_round_trips_a_record() {
    let pubkey = Pubkey::from_str("2ULuUe9z1fYKv5GC9UrFTztCQpnBsU8M3SjCoJVZh2GA").unwrap();
    let original = UserProfile {
        user_id: address_of(&pubkey),
        followers: 424_242,
        blocked_account: true,
    };
    let bytes = encode(&original);
    let back = decode(bytes.as_slice()).unwrap();
    assert_eq!(back.user_id, original.user_id);
    assert_eq!(back.followers, original.followers);
    assert_eq!(back.blocked_account, original.blocked_account);
}

#[test]
fn encoding_layout_is_exact() {
    let pubkey = Pubkey::from_str("2ULuUe9z1fYKv5GC9UrFTztCQpnBsU8M3SjCoJVZh2GA").unwrap();
    let profile = UserProfile {
        user_id: address_of(&pubkey),
        followers: 0x0403_0201,
        blocked_account: false,
    };
    let bytes = encode(&profile);
    assert_eq!(bytes.len(), 37);
    assert_eq!(&bytes[0..32], pubkey.to_bytes().as_slice());
    assert_eq!(&bytes[32..36], &[0x01, 0x02, 0x03, 0x04]);
    assert_eq!(bytes[36], 0);
}

#[test]
fn encoding_matches_platform_serializer() {
    let pubkey = Pubkey::from_str("2ULuUe9z1fYKv5GC9UrFTztCQpnBsU8M3SjCoJVZh2GA").unwrap();
    let profile = UserProfile {
        user_id: address_of(&pubkey),
        followers: 100,
        blocked_account: false,
    };
    let reference = borsh::to_vec(&(pubkey.to_bytes(), 100u32, false)).unwrap();
    assert_eq!(encode(&profile), reference);
}

#[test]
fn size_is_constant_and_matches_default_encoding() {
    assert_eq!(get_program_obj_size(), 37);
    assert_eq!(get_program_obj_size(), encode(&UserProfile::default()).len());
    let busy = UserProfile {
        user_id: address_of(&Pubkey::from_str("2ULuUe9z1fYKv5GC9UrFTztCQpnBsU8M3SjCoJVZh2GA").unwrap()),
        followers: u32::MAX,
        blocked_account: true,
    };
    assert_eq!(encode(&busy).len(), get_program_obj_size());
}

#[test]
fn decode_rejects_wrong_lengths() {
    assert_eq!(decode(&[0u8; 36]).unwrap_err(), Error::MalformedRecord);
    assert_eq!(decode(&[0u8; 38]).unwrap_err(), Error::MalformedRecord);
    assert_eq!(decode(&[]).unwrap_err(), Error::MalformedRecord);
}

#[test]
fn decode_rejects_invalid_flag_byte() {
    let mut bytes = vec![0u8; 37];
    bytes[36] = 2;
    assert_eq!(decode(bytes.as_slice()).unwrap_err(), Error::MalformedRecord);
}

#[test]
fn decode_reads_blocked_flag() {
    let mut bytes = vec![0u8; 37];
    bytes[36] = 1;
    let profile = decode(bytes.as_slice()).unwrap();
    assert_eq!(profile.blocked_account, true);
    assert_eq!(profile.followers, 0);
}

#[test]
fn get_program_obj_reads_fetched_bytes() {
    let profile = get_program_obj(vec![0u8; 37].as_slice()).unwrap();
    assert_eq!(profile.user_id, UserProfile::default().user_id);
    assert_eq!(profile.followers, 0);
    assert_eq!(profile.blocked_account, false);
    assert_eq!(
        get_program_obj(&[1u8, 2u8, 3u8]).unwrap_err(),
        Error::MalformedRecord
    );
}
