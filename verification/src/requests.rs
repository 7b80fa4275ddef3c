//! The client-side request builder: assembles the creation request from the
//! planner's parameters, and action requests in the exact account order the
//! execution handler expects — storage address first, counterparty second.

use vstd::prelude::*;
use crate::address::Address;
use crate::planner::NeedsCreation;

verus! {

/// One executable unit: an op-code byte and the ordered account references it
/// acts on. Created per call, consumed once by submission.
#[derive(Debug)]
pub struct ActionRequest {
    pub op_code: u8,
    pub accounts: Vec<Address>,
}

impl ActionRequest {
    /// The request's wire payload: the op-code as the leading byte of an
    /// otherwise empty body.
    pub fn instruction_data(&self) -> (d: Vec<u8>)
        ensures
            d@ == seq![self.op_code],
    {
        let mut d: Vec<u8> = Vec::new();
        d.push(self.op_code);
        proof {
            assert(d@ =~= seq![self.op_code]);
        }
        d
    }
}

/// A creation request: exactly the parameters the planner computed, arranged
/// as the platform's create-with-seed instruction takes them. The owner funds
/// the account and is the derivation base; the authority program becomes the
/// owner of the new account's bytes.
#[derive(Debug)]
pub struct CreationRequest {
    pub funder: Address,
    pub new_address: Address,
    pub base: Address,
    pub seed: String,
    pub minimum_balance: u64,
    pub byte_length: u64,
    pub owner_program: Address,
}

/// Assemble the creation request for the planner's `NeedsCreation` verdict.
pub fn build_creation_request(owner: &Address, authority: &Address, seed: &str, plan: NeedsCreation) -> (r:
    CreationRequest)
    ensures
        r.funder@ == owner@,
        r.new_address@ == plan.address@,
        r.base@ == owner@,
        r.seed@ == seed@,
        r.minimum_balance == plan.minimum_balance,
        r.byte_length == plan.byte_length,
        r.owner_program@ == authority@,
{
    CreationRequest {
        funder: owner.clone(),
        new_address: plan.address,
        base: owner.clone(),
        seed: seed.to_owned(),
        minimum_balance: plan.minimum_balance,
        byte_length: plan.byte_length,
        owner_program: authority.clone(),
    }
}

/// Assemble one action request, with the account references in the handler's
/// fixed order: the storage address first, the counterparty second.
pub fn build_action_request(op_code: u8, storage_address: Address, counterparty: Address) -> (r:
    ActionRequest)
    ensures
        r.op_code == op_code,
        r.accounts@.len() == 2,
        r.accounts@[0]@ == storage_address@,
        r.accounts@[1]@ == counterparty@,
{
    let mut accounts: Vec<Address> = Vec::new();
    accounts.push(storage_address);
    accounts.push(counterparty);
    ActionRequest { op_code, accounts }
}

} // verus!
