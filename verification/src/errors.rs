//! Error taxonomy of the escrow engine.

use vstd::prelude::*;

verus! {

/// Every precondition violation surfaces one of these named errors; no
/// error is silently swallowed and no operation retries.
#[derive(Clone, Copy, Debug, PartialEq, Eq, Structural)]
pub enum RouterError {
    /// The escrow's condition was already attested.
    AlreadyFulfilled,
    /// The escrow's expiry time has passed.
    Expired,
    /// The escrow's condition has not been attested yet.
    ConditionNotFulfilled,
    /// The escrow's expiry time has not passed yet.
    NotExpired,
    /// The source account does not hold the requested amount.
    InsufficientFunds,
    /// The presented authority does not control the source account.
    BadAuthority,
    /// A bounded registry is at capacity.
    RegistryFull,
    /// A singleton registry was already initialized.
    AlreadyInitialized,
    /// A referenced account is absent or inconsistent with the escrow.
    MissingOrMismatchedAccount,
}

} // verus!
