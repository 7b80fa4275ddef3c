//! Ledger account addresses and the deterministic derivation of a storage
//! address from (owner identity, seed string, authority identity).

use vstd::prelude::*;
use vstd::string::StringSliceAdditionalSpecFns;
use crate::Error;

verus! {

/// Byte length of every ledger account address.
pub const ADDRESS_LEN: usize = 32;

/// Maximum byte length of a seed string accepted by the derivation primitive.
pub const MAX_SEED_LEN: usize = 32;

/// A ledger account address: exactly 32 bytes.
#[derive(Debug)]
pub struct Address {
    bytes: Vec<u8>,
}

impl View for Address {
    type V = Seq<u8>;

    closed spec fn view(&self) -> Seq<u8> {
        self.bytes@
    }
}

impl Address {
    /// Holds of every address by construction.
    #[verifier::type_invariant]
    pub open spec fn wf(self) -> bool {
        self@.len() == ADDRESS_LEN
    }

    /// Build an address from its 32 bytes; any other length is refused.
    pub fn from_bytes(bytes: Vec<u8>) -> (r: Option<Address>)
        ensures
            match r {
                Some(a) => bytes@.len() == ADDRESS_LEN && a@ == bytes@,
                None => bytes@.len() != ADDRESS_LEN,
            },
    {
        if bytes.len() == ADDRESS_LEN {
            Some(Address { bytes })
        } else {
            None
        }
    }

    /// The all-zero address (the identity value of a freshly provisioned record).
    pub fn zeroed() -> (r: Address)
        ensures
            r@ == Seq::new(ADDRESS_LEN as nat, |i: int| 0u8),
    {
        let mut bytes: Vec<u8> = Vec::new();
        let mut i: usize = 0;
        while i < ADDRESS_LEN
            invariant
                i <= ADDRESS_LEN,
                bytes@.len() == i,
                forall|j: int| 0 <= j < i ==> bytes@[j] == 0u8,
            decreases ADDRESS_LEN - i,
        {
            bytes.push(0u8);
            i = i + 1;
        }
        proof {
            assert(bytes@ =~= Seq::new(ADDRESS_LEN as nat, |i: int| 0u8));
        }
        Address { bytes }
    }

    /// The address's bytes, as an owned vector.
    pub fn to_bytes(&self) -> (r: Vec<u8>)
        ensures
            r@ == self@,
    {
        vstd::slice::slice_to_vec(self.bytes.as_slice())
    }

    /// Every address is exactly 32 bytes long.
    pub fn len_is_fixed(&self) -> (r: usize)
        ensures
            r == ADDRESS_LEN,
            self@.len() == ADDRESS_LEN,
    {
        proof {
            use_type_invariant(self);
        }
        self.bytes.len()
    }
}

impl Clone for Address {
    fn clone(&self) -> (r: Self)
        ensures
            r@ == self@,
    {
        proof {
            use_type_invariant(self);
        }
        Address { bytes: self.to_bytes() }
    }
}

impl PartialEq for Address {
    fn eq(&self, other: &Self) -> (r: bool)
    {
        let mut i: usize = 0;
        let n = self.bytes.len();
        if n != other.bytes.len() {
            return false;
        }
        while i < n
            invariant
                i <= n,
                n == self.bytes@.len(),
                n == other.bytes@.len(),
                forall|j: int| 0 <= j < i ==> self.bytes@[j] == other.bytes@[j],
            decreases n - i,
        {
            if self.bytes[i] != other.bytes[i] {
                return false;
            }
            i = i + 1;
        }
        proof {
            assert(self.bytes@ =~= other.bytes@);
        }
        true
    }
}

impl vstd::std_specs::cmp::PartialEqSpecImpl for Address {
    open spec fn obeys_eq_spec() -> bool {
        true
    }

    open spec fn eq_spec(&self, other: &Self) -> bool {
        self@ == other@
    }
}

/// The storage address that the platform's derivation primitive returns for
/// (base identity, seed bytes, owning authority). It is a pure function of
/// its three arguments: a collision-resistant digest of their concatenation.
pub uninterp spec fn derived_address_of(base: Seq<u8>, seed_bytes: Seq<u8>, owner: Seq<u8>) -> Seq<u8>;

/// The reserved 21-byte marker that closes every program-derived address
/// domain; an authority identity ending in it may not own derived addresses.
pub open spec fn pda_marker() -> Seq<u8> {
    seq![
        80u8, 114u8, 111u8, 103u8, 114u8, 97u8, 109u8, 68u8, 101u8, 114u8, 105u8, 118u8,
        101u8, 100u8, 65u8, 100u8, 100u8, 114u8, 101u8, 115u8, 115u8,
    ]
}

/// Whether an owner identity ends with the reserved derived-address marker.
pub open spec fn ends_with_pda_marker(owner: Seq<u8>) -> bool {
    owner.len() >= 21 && owner.subrange(owner.len() - 21, owner.len() as int) == pda_marker()
}

/// The exact outcome of deriving a storage address for
/// (owner identity, seed string bytes, authority identity).
pub open spec fn pda_key_spec(user: Seq<u8>, seed_bytes: Seq<u8>, program: Seq<u8>) -> Result<Seq<u8>, Error> {
    if seed_bytes.len() > MAX_SEED_LEN {
        Err(Error::SeedTooLong)
    } else if ends_with_pda_marker(program) {
        Err(Error::IllegalAuthority)
    } else {
        Ok(derived_address_of(user, seed_bytes, program))
    }
}

/// Return the storage address for (user identity, authority program, seed).
///
/// Relies on solana_program's `Pubkey::create_with_seed`: it rejects seeds
/// over 32 bytes with `MaxSeedLengthExceeded` and owners whose last 21 bytes
/// are the derived-address marker with `IllegalOwner`; otherwise it returns
/// the 32-byte sha256 digest of base ‖ seed bytes ‖ owner, a pure function of
/// those inputs.
#[verifier::external_body]
pub fn pda_key(user: &Address, program: &Address, seed: &str) -> (r: Result<Address, Error>)
    ensures
        match r {
            Ok(a) => a@ == derived_address_of(user@, seed.spec_bytes(), program@)
                && pda_key_spec(user@, seed.spec_bytes(), program@) == Ok::<Seq<u8>, Error>(a@)
                && a@.len() == ADDRESS_LEN,
            Err(e) => pda_key_spec(user@, seed.spec_bytes(), program@) == Err::<Seq<u8>, Error>(e),
        },
{
    let base = solana_program::pubkey::Pubkey::try_from(user.bytes.as_slice()).unwrap();
    let owner = solana_program::pubkey::Pubkey::try_from(program.bytes.as_slice()).unwrap();
    match solana_program::pubkey::Pubkey::create_with_seed(&base, seed, &owner) {
        Ok(k) => Ok(Address { bytes: k.to_bytes().to_vec() }),
        Err(solana_program::pubkey::PubkeyError::MaxSeedLengthExceeded) => Err(Error::SeedTooLong),
        Err(solana_program::pubkey::PubkeyError::IllegalOwner) => Err(Error::IllegalAuthority),
        Err(solana_program::pubkey::PubkeyError::InvalidSeeds) => Err(Error::IllegalAuthority),
    }
}

/// Law: derivation is deterministic — two derivations from the same
/// (owner, seed, authority) triple have the same outcome.
pub proof fn lemma_pda_key_deterministic(
    user: Seq<u8>,
    seed_bytes: Seq<u8>,
    program: Seq<u8>,
    r1: Result<Seq<u8>, Error>,
    r2: Result<Seq<u8>, Error>,
)
    requires
        r1 == pda_key_spec(user, seed_bytes, program),
        r2 == pda_key_spec(user, seed_bytes, program),
    ensures
        r1 == r2,
{
}

} // verus!
