//! Deterministic storage-address derivation, a fixed-width record codec,
//! a provisioning planner, and the single-shot op-code dispatcher that
//! mutates the record stored at a derived ledger address.

use vstd::prelude::*;

pub mod address;
pub mod dispatch;
pub mod planner;
pub mod profile;
pub mod requests;
pub mod util;

verus! {

/// Errors reported by the library. Every operation either fully succeeds or
/// reports exactly one of these; no partial writes are made.
#[derive(Clone, Copy, Debug, PartialEq, Eq, Structural)]
pub enum Error {
    /// A required configuration field is missing, or the designated program
    /// account is not executable.
    InvalidConfig,
    /// The given bytes do not hold a record of the fixed schema (wrong length
    /// or an invalid flag byte).
    MalformedRecord,
    /// The seed string exceeds the platform's maximum seed byte length.
    SeedTooLong,
    /// The authority identity ends in the reserved derived-address marker and
    /// may not own derived addresses.
    IllegalAuthority,
    /// The leading op-code byte selects no known action.
    UnknownOpCode,
    /// The storage address holds less than the fixed transfer quantity.
    InsufficientFunds,
}

} // verus!
