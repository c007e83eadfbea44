use vstd::prelude::*;

verus! {

/// Why an operation on an ephemeral account was refused.
#[derive(Clone, Copy, Debug, PartialEq, Eq, Structural)]
pub enum Error {
    /// `initialize` was called on an account that is already set up.
    AlreadyInitialized,
    /// The account has not been initialized yet.
    NotInitialized,
    /// The expiry ledger is not strictly after the current ledger.
    InvalidExpiry,
    /// A non-positive payment, or an overflow or underflow in the accounting.
    InvalidAmount,
    /// A payment for this asset has already been recorded.
    DuplicateAsset,
    /// The account already holds the largest allowed number of payments.
    TooManyPayments,
    /// The account has already been swept.
    AlreadySwept,
    /// A sweep was attempted before any payment was recorded.
    NoPaymentReceived,
    /// A sweep was attempted at or after the expiry ledger.
    AccountExpired,
    /// The sweep authorization was rejected.
    Unauthorized,
    /// `expire` was called before the expiry ledger.
    NotExpired,
    /// The operation is not allowed in the account's current status.
    InvalidStatus,
}

} // verus!
