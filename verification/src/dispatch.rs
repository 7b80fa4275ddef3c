//! The on-ledger execution handler: one call, one transition.
//!
//! Given a leading op-code byte and the two account references (storage
//! address first, counterparty second), it decodes the stored record, applies
//! the selected mutation, and re-encodes the full fixed-size byte range — or
//! moves the fixed balance quantity — or fails without touching anything.

use vstd::prelude::*;
use crate::address::Address;
use crate::profile::{
    ProfileView, decode, encode, init_new_profile, spec_decode, spec_encode,
};
use crate::Error;

verus! {

/// Op-code byte that resets the record to its creation-time contents.
pub const OP_CREATE_PROFILE: u8 = 1;

/// Op-code byte that moves the fixed balance quantity to the owner.
pub const OP_TRANSFER_TO_OWNER: u8 = 2;

/// The fixed quantity of native balance one transfer moves.
pub const TRANSFER_LAMPORTS: u64 = 10;

/// One account as the handler sees it: its address, its native balance, and
/// the raw bytes stored at it.
#[derive(Debug)]
pub struct AccountState {
    pub address: Address,
    pub lamports: u64,
    pub data: Vec<u8>,
}

/// The mathematical value of an account.
pub ghost struct AccountView {
    pub address: Seq<u8>,
    pub lamports: u64,
    pub data: Seq<u8>,
}

impl View for AccountState {
    type V = AccountView;

    open spec fn view(&self) -> AccountView {
        AccountView { address: self.address@, lamports: self.lamports, data: self.data@ }
    }
}

/// The exact transition the handler makes for an op-code byte, as a function
/// from the two old account values to the two new ones, or to the error that
/// leaves both untouched.
pub open spec fn dispatch_spec(op: u8, pda: AccountView, user: AccountView) -> Result<
    (AccountView, AccountView),
    Error,
> {
    if op == OP_CREATE_PROFILE {
        match spec_decode(pda.data) {
            Ok(_) => Ok((
                AccountView {
                    data: spec_encode(
                        ProfileView {
                            user_id: pda.address,
                            followers: 100u32,
                            blocked_account: false,
                        },
                    ),
                    ..pda
                },
                user,
            )),
            Err(e) => Err(e),
        }
    } else if op == OP_TRANSFER_TO_OWNER {
        if pda.lamports >= TRANSFER_LAMPORTS {
            Ok((
                AccountView { lamports: (pda.lamports - TRANSFER_LAMPORTS) as u64, ..pda },
                AccountView { lamports: (user.lamports + TRANSFER_LAMPORTS) as u64, ..user },
            ))
        } else {
            Err(Error::InsufficientFunds)
        }
    } else {
        Err(Error::UnknownOpCode)
    }
}

/// Execute one action: interpret the leading op-code byte of the instruction
/// data and apply its transition to (storage account, counterparty account).
/// On any failure both accounts are left exactly as they were.
pub fn process_instruction(instruction_data: &[u8], pda: &mut AccountState, user: &mut AccountState) -> (r:
    Result<(), Error>)
    requires
        instruction_data@.len() >= 1,
        instruction_data@[0] == OP_TRANSFER_TO_OWNER ==> old(user).lamports + TRANSFER_LAMPORTS
            <= u64::MAX,
    ensures
        match r {
            Ok(_) => dispatch_spec(instruction_data@[0], old(pda)@, old(user)@) == Ok::<
                (AccountView, AccountView),
                Error,
            >((final(pda)@, final(user)@)),
            Err(e) => dispatch_spec(instruction_data@[0], old(pda)@, old(user)@) == Err::<
                (AccountView, AccountView),
                Error,
            >(e) && final(pda)@ == old(pda)@ && final(user)@ == old(user)@,
        },
{
    let op = *vstd::slice::slice_index_get(instruction_data, 0);
    if op == OP_CREATE_PROFILE {
        let mut user_profile = match decode(pda.data.as_slice()) {
            Ok(p) => p,
            Err(e) => {
                return Err(e);
            },
        };
        init_new_profile(&mut user_profile, pda.address.clone());
        pda.data = encode(&user_profile);
        Ok(())
    } else if op == OP_TRANSFER_TO_OWNER {
        if pda.lamports < TRANSFER_LAMPORTS {
            return Err(Error::InsufficientFunds);
        }
        pda.lamports = pda.lamports - TRANSFER_LAMPORTS;
        user.lamports = user.lamports + TRANSFER_LAMPORTS;
        Ok(())
    } else {
        Err(Error::UnknownOpCode)
    }
}

/// Law: an unknown op-code byte fails with `UnknownOpCode` and, by the
/// handler's contract, changes neither account.
pub proof fn lemma_unknown_op_rejected(op: u8, pda: AccountView, user: AccountView)
    requires
        op != OP_CREATE_PROFILE,
        op != OP_TRANSFER_TO_OWNER,
    ensures
        dispatch_spec(op, pda, user) == Err::<(AccountView, AccountView), Error>(
            Error::UnknownOpCode,
        ),
{
}

/// Law: creating a profile on any decodable storage buffer leaves bytes that
/// decode to exactly the creation-time record — owner reference equal to the
/// storage address, a follower count of 100, the blocked flag clear — and
/// touches nothing else.
pub proof fn lemma_create_profile_resets(pda: AccountView, user: AccountView)
    requires
        pda.address.len() == crate::address::ADDRESS_LEN,
        spec_decode(pda.data) is Ok,
    ensures
        ({
            let reset = ProfileView {
                user_id: pda.address,
                followers: 100u32,
                blocked_account: false,
            };
            dispatch_spec(OP_CREATE_PROFILE, pda, user) == Ok::<(AccountView, AccountView), Error>(
                (AccountView { data: spec_encode(reset), ..pda }, user),
            ) && spec_decode(spec_encode(reset)) == Ok::<ProfileView, Error>(reset)
        }),
{
    let reset = ProfileView { user_id: pda.address, followers: 100u32, blocked_account: false };
    crate::profile::lemma_codec_round_trip(reset);
}

/// Law: a transfer never makes a partial move — either both balances change
/// by the fixed quantity and nothing else changes, or the storage balance was
/// insufficient and the outcome is the insufficient-funds failure.
pub proof fn lemma_transfer_all_or_nothing(pda: AccountView, user: AccountView)
    requires
        user.lamports + TRANSFER_LAMPORTS <= u64::MAX,
    ensures
        pda.lamports >= TRANSFER_LAMPORTS ==> dispatch_spec(OP_TRANSFER_TO_OWNER, pda, user)
            == Ok::<(AccountView, AccountView), Error>(
            (
                AccountView { lamports: (pda.lamports - TRANSFER_LAMPORTS) as u64, ..pda },
                AccountView { lamports: (user.lamports + TRANSFER_LAMPORTS) as u64, ..user },
            ),
        ),
        pda.lamports < TRANSFER_LAMPORTS ==> dispatch_spec(OP_TRANSFER_TO_OWNER, pda, user)
            == Err::<(AccountView, AccountView), Error>(Error::InsufficientFunds),
{
}

} // verus!
