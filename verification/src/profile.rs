//! The stored per-account record and its fixed-width binary codec.
//!
//! The wire layout is shared bit-for-bit between the requesting side and the
//! executing side: owner reference (32 bytes), follower count (4 bytes,
//! little-endian), blocked flag (1 byte, 0 or 1) — 37 bytes in all, for every
//! record.

use vstd::prelude::*;
use vstd::bytes::{spec_u32_to_le_bytes, spec_u32_from_le_bytes, u32_to_le_bytes, u32_from_le_bytes};
use crate::address::{Address, ADDRESS_LEN};
use crate::Error;

verus! {

/// Encoded byte length of every record: 32 + 4 + 1.
pub const RECORD_LEN: usize = 37;

/// The stored per-account state. The byte length of its encoding is the same
/// for every instance: the ledger allocates storage by exact byte count at
/// creation time and never resizes it.
#[derive(Debug)]
pub struct UserProfile {
    /// Identity this record belongs to; set to the storage address itself on creation.
    pub user_id: Address,
    /// Unsigned follower count.
    pub followers: u32,
    /// Whether the account is blocked.
    pub blocked_account: bool,
}

/// The mathematical value of a record.
pub ghost struct ProfileView {
    pub user_id: Seq<u8>,
    pub followers: u32,
    pub blocked_account: bool,
}

impl View for UserProfile {
    type V = ProfileView;

    open spec fn view(&self) -> ProfileView {
        ProfileView {
            user_id: self.user_id@,
            followers: self.followers,
            blocked_account: self.blocked_account,
        }
    }
}

/// A record value is well formed when its owner reference has address length.
pub open spec fn wf_profile(p: ProfileView) -> bool {
    p.user_id.len() == ADDRESS_LEN
}

/// The canonical encoding: owner reference, then the follower count in
/// little-endian, then the blocked flag as one byte (0 or 1).
pub open spec fn spec_encode(p: ProfileView) -> Seq<u8> {
    p.user_id + spec_u32_to_le_bytes(p.followers) + seq![
        if p.blocked_account {
            1u8
        } else {
            0u8
        },
    ]
}

/// The exact inverse of the encoding. Fails when the length is not the fixed
/// record length, or when the flag byte is neither 0 nor 1.
pub open spec fn spec_decode(data: Seq<u8>) -> Result<ProfileView, Error> {
    if data.len() != RECORD_LEN {
        Err(Error::MalformedRecord)
    } else if data[36] != 0u8 && data[36] != 1u8 {
        Err(Error::MalformedRecord)
    } else {
        Ok(ProfileView {
            user_id: data.subrange(0, ADDRESS_LEN as int),
            followers: spec_u32_from_le_bytes(data.subrange(ADDRESS_LEN as int, 36)),
            blocked_account: data[36] == 1u8,
        })
    }
}

/// The default record: zero owner reference, no followers, not blocked.
pub open spec fn spec_default_profile() -> ProfileView {
    ProfileView {
        user_id: Seq::new(ADDRESS_LEN as nat, |i: int| 0u8),
        followers: 0u32,
        blocked_account: false,
    }
}

impl Default for UserProfile {
    /// The record a zero-initialized storage buffer decodes to.
    fn default() -> (r: Self)
        ensures
            r@ == spec_default_profile(),
    {
        UserProfile { user_id: Address::zeroed(), followers: 0, blocked_account: false }
    }
}

/// Encode a record into its fixed 37-byte wire form.
pub fn encode(p: &UserProfile) -> (r: Vec<u8>)
    ensures
        r@ == spec_encode(p@),
        r@.len() == RECORD_LEN,
{
    proof {
        use_type_invariant(&p.user_id);
    }
    let mut out = p.user_id.to_bytes();
    let mut count = u32_to_le_bytes(p.followers);
    out.append(&mut count);
    out.push(if p.blocked_account { 1u8 } else { 0u8 });
    proof {
        assert(out@ =~= spec_encode(p@));
    }
    out
}

/// Decode a fixed 37-byte wire form back into a record; the exact inverse of
/// `encode`. Any other length, or a flag byte that is neither 0 nor 1, is
/// `MalformedRecord`.
pub fn decode(data: &[u8]) -> (r: Result<UserProfile, Error>)
    ensures
        match r {
            Ok(p) => spec_decode(data@) == Ok::<ProfileView, Error>(p@),
            Err(e) => spec_decode(data@) == Err::<ProfileView, Error>(e),
        },
{
    if data.len() != RECORD_LEN {
        return Err(Error::MalformedRecord);
    }
    let flag = *vstd::slice::slice_index_get(data, 36);
    if flag != 0u8 && flag != 1u8 {
        return Err(Error::MalformedRecord);
    }
    let id_bytes = vstd::slice::slice_to_vec(vstd::slice::slice_subrange(data, 0, ADDRESS_LEN));
    let user_id = match Address::from_bytes(id_bytes) {
        Some(a) => a,
        None => vstd::pervasive::unreached(),
    };
    let followers = u32_from_le_bytes(vstd::slice::slice_subrange(data, ADDRESS_LEN, 36));
    let p = UserProfile { user_id, followers, blocked_account: flag == 1u8 };
    proof {
        assert(spec_decode(data@) == Ok::<ProfileView, Error>(p@));
    }
    Ok(p)
}

/// Reconstruct the record held in fetched account bytes (the codec's decode,
/// published under the read path's name).
pub fn get_program_obj(data: &[u8]) -> (r: Result<UserProfile, Error>)
    ensures
        match r {
            Ok(p) => spec_decode(data@) == Ok::<ProfileView, Error>(p@),
            Err(e) => spec_decode(data@) == Err::<ProfileView, Error>(e),
        },
{
    decode(data)
}

/// The constant encoded byte length, computed by encoding a zero-valued
/// record. This is the exact byte count the platform must allocate for a
/// storage address.
pub fn get_program_obj_size() -> (r: usize)
    ensures
        r == RECORD_LEN,
        r == spec_encode(spec_default_profile()).len(),
{
    let zeroed = UserProfile::default();
    let encoded = encode(&zeroed);
    encoded.len()
}

/// Reset a record to its creation-time contents: the owner reference becomes
/// the storage address itself, the follower count 100, the blocked flag false.
pub fn init_new_profile(user_profile: &mut UserProfile, pda_key: Address)
    ensures
        final(user_profile)@.user_id == pda_key@,
        final(user_profile)@.followers == 100u32,
        final(user_profile)@.blocked_account == false,
{
    user_profile.user_id = pda_key;
    user_profile.blocked_account = false;
    user_profile.followers = 100;
}

/// Law: the codec round-trips — decoding an encoding returns the record.
pub proof fn lemma_codec_round_trip(p: ProfileView)
    requires
        wf_profile(p),
    ensures
        spec_decode(spec_encode(p)) == Ok::<ProfileView, Error>(p),
{
    vstd::bytes::lemma_auto_spec_u32_to_from_le_bytes();
    let e = spec_encode(p);
    assert(e.len() == RECORD_LEN);
    assert(e[36] == if p.blocked_account { 1u8 } else { 0u8 });
    assert(e.subrange(0, ADDRESS_LEN as int) =~= p.user_id);
    assert(e.subrange(ADDRESS_LEN as int, 36) =~= spec_u32_to_le_bytes(p.followers));
    let d = spec_decode(e);
    assert(d is Ok);
    assert(d->Ok_0 == p);
}

/// Law: the encoded byte length is the same for every well-formed record,
/// whatever its field values.
pub proof fn lemma_encode_len_constant(p: ProfileView)
    requires
        wf_profile(p),
    ensures
        spec_encode(p).len() == RECORD_LEN,
{
    vstd::bytes::lemma_auto_spec_u32_to_from_le_bytes();
}

} // verus!
