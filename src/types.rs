use vstd::prelude::*;

use crate::address::Address;

verus! {

/// Lifecycle status of an ephemeral account.
///
/// `Active -> PaymentReceived -> Swept`, and `Active | PaymentReceived -> Expired`;
/// `Swept` and `Expired` are terminal.
#[derive(Clone, Copy, Debug, PartialEq, Eq, Structural)]
pub enum AccountStatus {
    Active,
    PaymentReceived,
    Swept,
    Expired,
}

impl AccountStatus {
    /// A status that no operation leaves.
    pub open spec fn is_terminal(self) -> bool {
        self is Swept || self is Expired
    }
}

/// One recorded inbound payment.
#[derive(Clone, Copy, Debug, PartialEq, Eq)]
pub struct Payment {
    pub asset: Address,
    pub amount: i128,
    pub timestamp: u64,
}

/// What `initialize` fixes for the lifetime of an account.
#[derive(Clone, Copy, Debug, PartialEq, Eq)]
pub struct AccountConfig {
    pub creator: Address,
    pub expiry_ledger: u32,
    pub recovery_address: Address,
}

/// A snapshot of an account, as returned by `get_info`.
#[derive(Clone, Debug)]
pub struct AccountInfo {
    pub creator: Address,
    pub status: AccountStatus,
    pub expiry_ledger: u32,
    pub recovery_address: Address,
    pub payment_received: bool,
    pub payment_count: u32,
    pub payments: Vec<Payment>,
    pub swept_to: Option<Address>,
}

} // verus!
