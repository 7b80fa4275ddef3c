//! The provisioning planner: decides whether the storage address needs to be
//! created and computes the exact byte length and minimum funding required.
//! It never mutates state; submission belongs to the transport collaborator.

use vstd::prelude::*;
use vstd::string::StringSliceAdditionalSpecFns;
use crate::address::{Address, pda_key, pda_key_spec};
use crate::profile::{RECORD_LEN, get_program_obj_size};
use crate::Error;

verus! {

/// What the chain-view collaborator reported for the derived address: whether
/// it already holds an account, and the minimum balance that storage of the
/// record's byte length needs to be exempt from rent collection.
#[derive(Clone, Copy, Debug)]
pub struct ChainView {
    pub account_exists: bool,
    pub minimum_balance: u64,
}

/// The creation parameters the planner computed: everything the request
/// builder needs to assemble a creation request.
#[derive(Debug)]
pub struct NeedsCreation {
    pub address: Address,
    pub byte_length: u64,
    pub minimum_balance: u64,
}

/// The planner's verdict for a (owner, authority, seed) triple.
#[derive(Debug)]
pub enum ProvisionOutcome {
    /// The address already holds an account; nothing to submit. Idempotent,
    /// not an error.
    AlreadyProvisioned,
    /// The address must be created with exactly these parameters.
    NeedsCreation(NeedsCreation),
}

/// The mathematical value of a planner verdict.
pub ghost enum ProvisionOutcomeView {
    AlreadyProvisioned,
    NeedsCreation { address: Seq<u8>, byte_length: u64, minimum_balance: u64 },
}

impl View for ProvisionOutcome {
    type V = ProvisionOutcomeView;

    open spec fn view(&self) -> ProvisionOutcomeView {
        match self {
            ProvisionOutcome::AlreadyProvisioned => ProvisionOutcomeView::AlreadyProvisioned,
            ProvisionOutcome::NeedsCreation(n) => ProvisionOutcomeView::NeedsCreation {
                address: n.address@,
                byte_length: n.byte_length,
                minimum_balance: n.minimum_balance,
            },
        }
    }
}

/// The exact verdict for (owner identity, authority identity, seed bytes) and
/// a chain view: derivation errors pass through; an existing account is
/// `AlreadyProvisioned`; otherwise the creation parameters, with the record's
/// fixed byte length and the reported minimum balance.
pub open spec fn plan_spec(
    user: Seq<u8>,
    program: Seq<u8>,
    seed_bytes: Seq<u8>,
    chain: ChainView,
) -> Result<ProvisionOutcomeView, Error> {
    match pda_key_spec(user, seed_bytes, program) {
        Err(e) => Err(e),
        Ok(address) => if chain.account_exists {
            Ok(ProvisionOutcomeView::AlreadyProvisioned)
        } else {
            Ok(
                ProvisionOutcomeView::NeedsCreation {
                    address,
                    byte_length: RECORD_LEN as u64,
                    minimum_balance: chain.minimum_balance,
                },
            )
        },
    }
}

/// Decide whether the storage address for (owner, authority, seed) needs to
/// be created, and with which parameters. A seed that is too long is rejected
/// here, before any chain data is consulted.
pub fn plan(user: &Address, program: &Address, seed: &str, chain: &ChainView) -> (r: Result<
    ProvisionOutcome,
    Error,
>)
    ensures
        match r {
            Ok(o) => plan_spec(user@, program@, seed.spec_bytes(), *chain) == Ok::<
                ProvisionOutcomeView,
                Error,
            >(o@),
            Err(e) => plan_spec(user@, program@, seed.spec_bytes(), *chain) == Err::<
                ProvisionOutcomeView,
                Error,
            >(e),
        },
{
    let address = match pda_key(user, program, seed) {
        Ok(a) => a,
        Err(e) => {
            return Err(e);
        },
    };
    if chain.account_exists {
        Ok(ProvisionOutcome::AlreadyProvisioned)
    } else {
        let byte_length = get_program_obj_size() as u64;
        Ok(
            ProvisionOutcome::NeedsCreation(
                NeedsCreation { address, byte_length, minimum_balance: chain.minimum_balance },
            ),
        )
    }
}

/// Law: planning is idempotent — two plans from the same triple and the same
/// chain view are the same verdict; in particular, with no intervening
/// creation the `NeedsCreation` payload is identical, and once the account
/// exists the verdict is `AlreadyProvisioned`.
pub proof fn lemma_plan_idempotent(
    user: Seq<u8>,
    program: Seq<u8>,
    seed_bytes: Seq<u8>,
    chain: ChainView,
    r1: Result<ProvisionOutcomeView, Error>,
    r2: Result<ProvisionOutcomeView, Error>,
)
    requires
        r1 == plan_spec(user, program, seed_bytes, chain),
        r2 == plan_spec(user, program, seed_bytes, chain),
    ensures
        r1 == r2,
        chain.account_exists && r1 is Ok ==> r1->Ok_0 == ProvisionOutcomeView::AlreadyProvisioned,
{
}

} // verus!
