use vstd::prelude::*;

use crate::address::Address;
use crate::reserve::ReserveReclaimed;
use crate::types::Payment;

verus! {

/// A notification published by an ephemeral account for off-chain observers.
#[derive(Clone, Debug)]
pub enum AccountEvent {
    /// The account was initialized.
    AccountCreated { creator: Address, expiry_ledger: u32 },
    /// The first payment was recorded.
    PaymentReceived { amount: i128, asset: Address },
    /// A payment for a further asset was recorded.
    MultiPaymentReceived { asset: Address, amount: i128 },
    /// The account was swept; carries every recorded payment.
    SweepExecutedMulti { destination: Address, payments: Vec<Payment> },
    /// The account expired; carries the summed payments and the reserve released now.
    AccountExpired { recovery_address: Address, amount: i128, reserve_reclaimed: i128 },
    /// Reserve was reclaimed (possibly 0 once nothing is owed).
    ReserveReclaimed(ReserveReclaimed),
}

/// The mathematical content of an [`AccountEvent`].
pub enum EventView {
    AccountCreated { creator: Address, expiry_ledger: u32 },
    PaymentReceived { amount: i128, asset: Address },
    MultiPaymentReceived { asset: Address, amount: i128 },
    SweepExecutedMulti { destination: Address, payments: Seq<Payment> },
    AccountExpired { recovery_address: Address, amount: i128, reserve_reclaimed: i128 },
    ReserveReclaimed(ReserveReclaimed),
}

impl View for AccountEvent {
    type V = EventView;

    open spec fn view(&self) -> EventView {
        match self {
            AccountEvent::AccountCreated { creator, expiry_ledger } => EventView::AccountCreated {
                creator: *creator,
                expiry_ledger: *expiry_ledger,
            },
            AccountEvent::PaymentReceived { amount, asset } => EventView::PaymentReceived {
                amount: *amount,
                asset: *asset,
            },
            AccountEvent::MultiPaymentReceived { asset, amount } => EventView::MultiPaymentReceived {
                asset: *asset,
                amount: *amount,
            },
            AccountEvent::SweepExecutedMulti { destination, payments } =>
                EventView::SweepExecutedMulti { destination: *destination, payments: payments@ },
            AccountEvent::AccountExpired { recovery_address, amount, reserve_reclaimed } =>
                EventView::AccountExpired {
                recovery_address: *recovery_address,
                amount: *amount,
                reserve_reclaimed: *reserve_reclaimed,
            },
            AccountEvent::ReserveReclaimed(record) => EventView::ReserveReclaimed(*record),
        }
    }
}

/// The views of a list of events, in order.
pub open spec fn events_view(events: Seq<AccountEvent>) -> Seq<EventView> {
    events.map_values(|e: AccountEvent| e@)
}

} // verus!
