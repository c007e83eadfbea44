use vstd::prelude::*;

use crate::address::Address;
use crate::errors::Error;
use crate::events::EventView;
use crate::payments::{has_asset, payments_total, payments_valid, MAX_PAYMENTS};
use crate::reserve::{lemma_reclaim_monotonic, ReserveState};
use crate::types::{AccountConfig, AccountStatus, Payment};

verus! {

/// The abstract state of an ephemeral account.
pub struct AccountModel {
    /// Set by `initialize`; `None` while the account is not initialized.
    pub config: Option<AccountConfig>,
    pub status: AccountStatus,
    /// Recorded payments, in the order they were recorded.
    pub payments: Seq<Payment>,
    /// Destination of the sweep, or the recovery address after expiry.
    pub swept_to: Option<Address>,
    pub reserve: ReserveState,
    /// Notifications published and not yet taken.
    pub events: Seq<EventView>,
}

impl AccountModel {
    /// The states an account can be in.
    pub open spec fn valid(self) -> bool {
        &&& payments_valid(self.payments)
        &&& self.reserve.wf()
        &&& self.config is None ==> self.status is Active && self.payments.len() == 0
    }

    /// `initialize` at ledger `current_ledger`, seeding the reserve with `base_reserve`.
    pub open spec fn initialize(
        self,
        current_ledger: u32,
        creator: Address,
        expiry_ledger: u32,
        recovery_address: Address,
        base_reserve: i128,
    ) -> (AccountModel, Result<(), Error>) {
        if self.config is Some {
            (self, Err(Error::AlreadyInitialized))
        } else if expiry_ledger <= current_ledger {
            (self, Err(Error::InvalidExpiry))
        } else {
            (
                AccountModel {
                    config: Some(AccountConfig { creator, expiry_ledger, recovery_address }),
                    status: AccountStatus::Active,
                    reserve: ReserveState::initial(base_reserve),
                    events: self.events.push(EventView::AccountCreated { creator, expiry_ledger }),
                    ..self
                },
                Ok(()),
            )
        }
    }

    /// `record_payment` of `amount` in `asset`, received at `timestamp`.
    pub open spec fn record_payment(self, timestamp: u64, amount: i128, asset: Address) -> (
        AccountModel,
        Result<(), Error>,
    ) {
        if self.config is None {
            (self, Err(Error::NotInitialized))
        } else if amount <= 0 {
            (self, Err(Error::InvalidAmount))
        } else if has_asset(self.payments, asset) {
            (self, Err(Error::DuplicateAsset))
        } else if self.payments.len() >= MAX_PAYMENTS {
            (self, Err(Error::TooManyPayments))
        } else {
            let first = self.payments.len() == 0;
            (
                AccountModel {
                    status: if first && self.status is Active {
                        AccountStatus::PaymentReceived
                    } else {
                        self.status
                    },
                    payments: self.payments.push(Payment { asset, amount, timestamp }),
                    events: self.events.push(
                        if first {
                            EventView::PaymentReceived { amount, asset }
                        } else {
                            EventView::MultiPaymentReceived { asset, amount }
                        },
                    ),
                    ..self
                },
                Ok(()),
            )
        }
    }

    /// Whether the account has reached its expiry ledger at `current_ledger`.
    pub open spec fn is_expired(self, current_ledger: u32) -> bool {
        match self.config {
            Some(c) => current_ledger >= c.expiry_ledger,
            None => false,
        }
    }

    /// `sweep` to `destination` at `current_ledger`; `approved` is the answer of
    /// the authorization hook.
    pub open spec fn sweep(self, current_ledger: u32, destination: Address, approved: bool) -> (
        AccountModel,
        Result<(), Error>,
    ) {
        if self.config is None {
            (self, Err(Error::NotInitialized))
        } else if self.status is Swept {
            (self, Err(Error::AlreadySwept))
        } else if self.payments.len() == 0 {
            (self, Err(Error::NoPaymentReceived))
        } else if self.status is Expired || self.is_expired(current_ledger) {
            (self, Err(Error::AccountExpired))
        } else if !approved {
            (self, Err(Error::Unauthorized))
        } else {
            let sweep_id = current_ledger as u64;
            match (ReserveState { last_sweep_id: sweep_id, ..self.reserve }).reclaim(
                destination,
                sweep_id,
            ) {
                Ok((reserve, amount)) => (
                    AccountModel {
                        status: AccountStatus::Swept,
                        swept_to: Some(destination),
                        reserve,
                        events: self.events.push(
                            EventView::SweepExecutedMulti { destination, payments: self.payments },
                        ).push(EventView::ReserveReclaimed(reserve.last_event->0)),
                        ..self
                    },
                    Ok(()),
                ),
                Err(e) => (self, Err(e)),
            }
        }
    }

    /// `expire` at `current_ledger`: returns everything to the recovery address.
    pub open spec fn expire(self, current_ledger: u32) -> (AccountModel, Result<(), Error>) {
        match self.config {
            None => (self, Err(Error::NotInitialized)),
            Some(config) => if self.status.is_terminal() {
                (self, Err(Error::InvalidStatus))
            } else if current_ledger < config.expiry_ledger {
                (self, Err(Error::NotExpired))
            } else if payments_total(self.payments) > i128::MAX {
                (self, Err(Error::InvalidAmount))
            } else {
                let sweep_id = current_ledger as u64;
                let recovery = config.recovery_address;
                match (ReserveState { last_sweep_id: sweep_id, ..self.reserve }).reclaim(
                    recovery,
                    sweep_id,
                ) {
                    Ok((reserve, amount)) => (
                        AccountModel {
                            status: AccountStatus::Expired,
                            swept_to: Some(recovery),
                            reserve,
                            events: self.events.push(
                                EventView::ReserveReclaimed(reserve.last_event->0),
                            ).push(
                                EventView::AccountExpired {
                                    recovery_address: recovery,
                                    amount: payments_total(self.payments) as i128,
                                    reserve_reclaimed: amount,
                                },
                            ),
                            ..self
                        },
                        Ok(()),
                    ),
                    Err(e) => (self, Err(e)),
                }
            },
        }
    }

    /// `reclaim_reserve`: another installment toward the recorded destination.
    pub open spec fn reclaim_reserve(self) -> (AccountModel, Result<i128, Error>) {
        if self.config is None {
            (self, Err(Error::NotInitialized))
        } else if !self.status.is_terminal() {
            (self, Err(Error::InvalidStatus))
        } else {
            match self.swept_to {
                None => (self, Err(Error::InvalidStatus)),
                Some(destination) => match self.reserve.reclaim(
                    destination,
                    self.reserve.last_sweep_id,
                ) {
                    Ok((reserve, amount)) => (
                        AccountModel {
                            reserve,
                            events: self.events.push(
                                EventView::ReserveReclaimed(reserve.last_event->0),
                            ),
                            ..self
                        },
                        Ok(amount),
                    ),
                    Err(e) => (self, Err(e)),
                },
            }
        }
    }

    /// The host moved reserve liquidity: `available` becomes `amount`.
    pub open spec fn set_available_reserve(self, amount: i128) -> AccountModel {
        AccountModel { reserve: ReserveState { available: amount, ..self.reserve }, ..self }
    }
}

/// Once an account is swept or expired, no operation changes its status, and
/// sweeping a swept account again fails with `AlreadySwept`.
pub proof fn lemma_terminal_status_is_final(
    s: AccountModel,
    current_ledger: u32,
    creator: Address,
    expiry_ledger: u32,
    recovery_address: Address,
    base_reserve: i128,
    timestamp: u64,
    amount: i128,
    asset: Address,
    destination: Address,
    approved: bool,
    available: i128,
)
    requires
        s.valid(),
        s.status.is_terminal(),
    ensures
        s.initialize(
            current_ledger,
            creator,
            expiry_ledger,
            recovery_address,
            base_reserve,
        ).0.status == s.status,
        s.record_payment(timestamp, amount, asset).0.status == s.status,
        s.sweep(current_ledger, destination, approved).0.status == s.status,
        s.expire(current_ledger).0.status == s.status,
        s.reclaim_reserve().0.status == s.status,
        s.set_available_reserve(available).status == s.status,
        s.status is Swept ==> s.sweep(current_ledger, destination, approved).1 == Err::<(), Error>(
            Error::AlreadySwept,
        ),
{
}

/// Every operation keeps an account valid; in particular an account never holds
/// more than `MAX_PAYMENTS` payments, nor two payments for one asset.
pub proof fn lemma_operations_preserve_validity(
    s: AccountModel,
    current_ledger: u32,
    creator: Address,
    expiry_ledger: u32,
    recovery_address: Address,
    base_reserve: i128,
    timestamp: u64,
    amount: i128,
    asset: Address,
    destination: Address,
    approved: bool,
    available: i128,
)
    requires
        s.valid(),
        base_reserve >= 0,
    ensures
        s.initialize(current_ledger, creator, expiry_ledger, recovery_address, base_reserve).0.valid(),
        s.record_payment(timestamp, amount, asset).0.valid(),
        s.sweep(current_ledger, destination, approved).0.valid(),
        s.expire(current_ledger).0.valid(),
        s.reclaim_reserve().0.valid(),
        s.set_available_reserve(available).valid(),
{
    let sweep_id = current_ledger as u64;
    lemma_reclaim_monotonic(ReserveState { last_sweep_id: sweep_id, ..s.reserve }, destination, sweep_id);
    if let Some(config) = s.config {
        lemma_reclaim_monotonic(
            ReserveState { last_sweep_id: sweep_id, ..s.reserve },
            config.recovery_address,
            sweep_id,
        );
    }
    if let Some(d) = s.swept_to {
        lemma_reclaim_monotonic(s.reserve, d, s.reserve.last_sweep_id);
    }
    let next = s.record_payment(timestamp, amount, asset).0;
    if next.payments.len() > s.payments.len() {
        let n = s.payments.len() as int;
        assert forall|i: int, j: int|
            0 <= i < next.payments.len() && 0 <= j < next.payments.len() && i != j implies
            #[trigger] next.payments[i].asset != #[trigger] next.payments[j].asset by {
            if i == n {
                assert(next.payments[j] == s.payments[j]);
            } else if j == n {
                assert(next.payments[i] == s.payments[i]);
            } else {
                assert(next.payments[i] == s.payments[i]);
                assert(next.payments[j] == s.payments[j]);
            }
        }
    }
}

} // verus!
