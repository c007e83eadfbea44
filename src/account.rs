use vstd::prelude::*;

use crate::address::Address;
use crate::auth::SweepAuthorization;
use crate::errors::Error;
use crate::events::{events_view, AccountEvent, EventView};
use crate::model::AccountModel;
use crate::payments::{
    check_payments, find_payment, payment_for, payments_valid, total_amount, MAX_PAYMENTS,
};
use crate::reserve::{ReserveReclaimed, ReserveState};
use crate::types::{AccountConfig, AccountInfo, AccountStatus, Payment};

verus! {

/// Base reserve an account tracks by default: 100 XLM, in stroops.
pub const BASE_RESERVE_STROOPS: i128 = 1_000_000_000;

/// Storage slots of an ephemeral account, one per stored field.
#[derive(Clone, Copy, Debug, PartialEq, Eq, Structural)]
pub enum DataKey {
    Initialized,
    Creator,
    ExpiryLedger,
    RecoveryAddress,
    Payments,
    Status,
    SweptTo,
    BaseReserveRemaining,
    AvailableReserve,
    ReserveReclaimed,
    LastSweepId,
    ReserveEventCount,
    LastReserveEvent,
}

/// A time-bounded escrow account: it records payments per asset and later releases
/// everything either to an authorized destination (sweep) or, once expired, to its
/// recovery address, reclaiming its base reserve toward the same place.
///
/// Every operation either succeeds or returns an error and changes nothing.
/// Notifications pile up until taken with `take_events`.
pub struct EphemeralAccountContract {
    config: Option<AccountConfig>,
    status: AccountStatus,
    payments: Vec<Payment>,
    swept_to: Option<Address>,
    reserve: ReserveState,
    events: Vec<AccountEvent>,
}

impl View for EphemeralAccountContract {
    type V = AccountModel;

    closed spec fn view(&self) -> AccountModel {
        AccountModel {
            config: self.config,
            status: self.status,
            payments: self.payments@,
            swept_to: self.swept_to,
            reserve: self.reserve,
            events: events_view(self.events@),
        }
    }
}

impl EphemeralAccountContract {
    #[verifier::type_invariant]
    spec fn inv(&self) -> bool {
        self@.valid()
    }

    /// A fresh, uninitialized account.
    pub fn new() -> (r: EphemeralAccountContract)
        ensures
            r@ == (AccountModel {
                config: None,
                status: AccountStatus::Active,
                payments: Seq::empty(),
                swept_to: None,
                reserve: ReserveState::initial(0),
                events: Seq::empty(),
            }),
    {
        let r = EphemeralAccountContract {
            config: None,
            status: AccountStatus::Active,
            payments: Vec::new(),
            swept_to: None,
            reserve: ReserveState::new(0),
            events: Vec::new(),
        };
        proof {
            assert(events_view(r.events@) =~= Seq::empty());
        }
        r
    }

    /// Rebuilds an account from its stored parts, with no pending notifications;
    /// `None` when the parts do not form a valid account.
    pub fn from_parts(
        config: Option<AccountConfig>,
        status: AccountStatus,
        payments: Vec<Payment>,
        swept_to: Option<Address>,
        reserve: ReserveState,
    ) -> (r: Option<EphemeralAccountContract>)
        ensures
            ({
                let m = AccountModel {
                    config,
                    status,
                    payments: payments@,
                    swept_to,
                    reserve,
                    events: Seq::empty(),
                };
                &&& r is Some <==> m.valid()
                &&& r matches Some(a) ==> a@ == m
            }),
    {
        if !check_payments(&payments) {
            return None;
        }
        if reserve.remaining < 0 || reserve.reclaimed != (reserve.remaining == 0) {
            return None;
        }
        if config.is_none() && (status != AccountStatus::Active || payments.len() > 0) {
            return None;
        }
        let r = EphemeralAccountContract {
            config,
            status,
            payments,
            swept_to,
            reserve,
            events: Vec::new(),
        };
        proof {
            assert(events_view(r.events@) =~= Seq::empty());
        }
        Some(r)
    }

    /// Appends one notification.
    fn publish(&mut self, event: AccountEvent)
        ensures
            final(self)@ == (AccountModel { events: old(self)@.events.push(event@), ..old(self)@ }),
    {
        proof {
            use_type_invariant(&*self);
        }
        let mut events = Vec::new();
        std::mem::swap(&mut events, &mut self.events);
        events.push(event);
        self.events = events;
        proof {
            assert(events_view(self.events@) =~= events_view(old(self).events@).push(event@));
        }
    }

    /// Sets the account up for `creator`, expiring at `expiry_ledger` with funds
    /// returning to `recovery_address`, and starts tracking `base_reserve`.
    pub fn initialize(
        &mut self,
        current_ledger: u32,
        creator: Address,
        expiry_ledger: u32,
        recovery_address: Address,
        base_reserve: i128,
    ) -> (r: Result<(), Error>)
        requires
            base_reserve >= 0,
        ensures
            (final(self)@, r) == old(self)@.initialize(
                current_ledger,
                creator,
                expiry_ledger,
                recovery_address,
                base_reserve,
            ),
    {
        proof {
            use_type_invariant(&*self);
        }
        if self.config.is_some() {
            return Err(Error::AlreadyInitialized);
        }
        if expiry_ledger <= current_ledger {
            return Err(Error::InvalidExpiry);
        }
        self.config = Some(AccountConfig { creator, expiry_ledger, recovery_address });
        self.status = AccountStatus::Active;
        self.reserve = ReserveState::new(base_reserve);
        self.publish(AccountEvent::AccountCreated { creator, expiry_ledger });
        Ok(())
    }

    /// Records a payment of `amount` in `asset`, received at `timestamp`.
    /// The first payment moves an active account to `PaymentReceived`.
    pub fn record_payment(&mut self, timestamp: u64, amount: i128, asset: Address) -> (r: Result<
        (),
        Error,
    >)
        ensures
            (final(self)@, r) == old(self)@.record_payment(timestamp, amount, asset),
    {
        proof {
            use_type_invariant(&*self);
        }
        if self.config.is_none() {
            return Err(Error::NotInitialized);
        }
        if amount <= 0 {
            return Err(Error::InvalidAmount);
        }
        if find_payment(&self.payments, &asset).is_some() {
            return Err(Error::DuplicateAsset);
        }
        let payment_count = self.payments.len();
        if payment_count >= MAX_PAYMENTS {
            return Err(Error::TooManyPayments);
        }

        let payment = Payment { asset, amount, timestamp };
        let mut payments = Vec::new();
        std::mem::swap(&mut payments, &mut self.payments);
        payments.push(payment);
        proof {
            assert forall|i: int, j: int|
                0 <= i < payments@.len() && 0 <= j < payments@.len() && i != j implies
                #[trigger] payments@[i].asset != #[trigger] payments@[j].asset by {
                if i == payment_count as int {
                    assert(payments@[j] == old(self).payments@[j]);
                } else if j == payment_count as int {
                    assert(payments@[i] == old(self).payments@[i]);
                } else {
                    assert(payments@[i] == old(self).payments@[i]);
                    assert(payments@[j] == old(self).payments@[j]);
                }
            }
            assert(payments_valid(payments@));
        }
        self.payments = payments;

        if payment_count == 0 && self.status == AccountStatus::Active {
            self.status = AccountStatus::PaymentReceived;
        }
        if payment_count == 0 {
            self.publish(AccountEvent::PaymentReceived { amount, asset });
        } else {
            self.publish(AccountEvent::MultiPaymentReceived { asset, amount });
        }
        Ok(())
    }

    /// Whether the account has reached its expiry ledger at `current_ledger`;
    /// `false` while not initialized.
    pub fn is_expired(&self, current_ledger: u32) -> (r: bool)
        ensures
            r == self@.is_expired(current_ledger),
    {
        match &self.config {
            Some(c) => current_ledger >= c.expiry_ledger,
            None => false,
        }
    }

    /// Sweeps everything to `destination` once `authorizer` accepts
    /// `auth_signature`, then reclaims the reserve there. The status is committed
    /// as `Swept` in the same step, so a repeated sweep fails with `AlreadySwept`.
    pub fn sweep<A: SweepAuthorization>(
        &mut self,
        current_ledger: u32,
        destination: Address,
        auth_signature: &[u8; 64],
        authorizer: &A,
    ) -> (r: Result<(), Error>)
        ensures
            (final(self)@, r) == old(self)@.sweep(
                current_ledger,
                destination,
                authorizer.approves(destination, auth_signature@),
            ),
    {
        proof {
            use_type_invariant(&*self);
        }
        if self.config.is_none() {
            return Err(Error::NotInitialized);
        }
        if self.status == AccountStatus::Swept {
            return Err(Error::AlreadySwept);
        }
        if self.payments.len() == 0 {
            return Err(Error::NoPaymentReceived);
        }
        if self.status == AccountStatus::Expired || self.is_expired(current_ledger) {
            return Err(Error::AccountExpired);
        }
        if let Err(e) = authorizer.verify_sweep_authorization(&destination, auth_signature) {
            return Err(e);
        }

        let sweep_id = current_ledger as u64;
        let mut reserve = self.reserve;
        reserve.last_sweep_id = sweep_id;
        if let Err(e) = reserve.reclaim_reserve_to(destination, sweep_id) {
            return Err(e);
        }
        let payments = self.payments.clone();
        proof {
            assert(payments@ =~= self.payments@);
        }

        self.status = AccountStatus::Swept;
        self.swept_to = Some(destination);
        self.reserve = reserve;
        self.publish(AccountEvent::SweepExecutedMulti { destination, payments });
        self.publish_last_reclaim();
        Ok(())
    }

    /// Publishes the latest reserve reclaim record.
    fn publish_last_reclaim(&mut self)
        requires
            old(self).reserve.last_event is Some,
        ensures
            final(self)@ == (AccountModel {
                events: old(self)@.events.push(
                    EventView::ReserveReclaimed(old(self).reserve.last_event->0),
                ),
                ..old(self)@
            }),
    {
        if let Some(record) = self.reserve.last_event {
            self.publish(AccountEvent::ReserveReclaimed(record));
        }
    }

    /// Expires the account once `current_ledger` has reached its expiry ledger:
    /// the recovery address becomes the destination and the reserve is reclaimed there.
    pub fn expire(&mut self, current_ledger: u32) -> (r: Result<(), Error>)
        ensures
            (final(self)@, r) == old(self)@.expire(current_ledger),
    {
        proof {
            use_type_invariant(&*self);
        }
        let config = match self.config {
            Some(c) => c,
            None => return Err(Error::NotInitialized),
        };
        if self.status == AccountStatus::Swept || self.status == AccountStatus::Expired {
            return Err(Error::InvalidStatus);
        }
        if !self.is_expired(current_ledger) {
            return Err(Error::NotExpired);
        }
        let recovery_address = config.recovery_address;
        let total_amount = match total_amount(&self.payments) {
            Some(t) => t,
            None => return Err(Error::InvalidAmount),
        };

        let sweep_id = current_ledger as u64;
        let mut reserve = self.reserve;
        reserve.last_sweep_id = sweep_id;
        let reclaimed_reserve = match reserve.reclaim_reserve_to(recovery_address, sweep_id) {
            Ok(amount) => amount,
            Err(e) => return Err(e),
        };

        self.status = AccountStatus::Expired;
        self.swept_to = Some(recovery_address);
        self.reserve = reserve;
        self.publish_last_reclaim();
        self.publish(
            AccountEvent::AccountExpired {
                recovery_address,
                amount: total_amount,
                reserve_reclaimed: reclaimed_reserve,
            },
        );
        Ok(())
    }

    /// Reclaims another installment of the reserve toward the recorded destination
    /// of a swept or expired account; returns the amount released (0 once nothing is owed).
    pub fn reclaim_reserve(&mut self) -> (r: Result<i128, Error>)
        ensures
            (final(self)@, r) == old(self)@.reclaim_reserve(),
    {
        proof {
            use_type_invariant(&*self);
        }
        if self.config.is_none() {
            return Err(Error::NotInitialized);
        }
        if self.status != AccountStatus::Swept && self.status != AccountStatus::Expired {
            return Err(Error::InvalidStatus);
        }
        let destination = match self.swept_to {
            Some(d) => d,
            None => return Err(Error::InvalidStatus),
        };
        let sweep_id = self.reserve.last_sweep_id;
        let mut reserve = self.reserve;
        let amount = match reserve.reclaim_reserve_to(destination, sweep_id) {
            Ok(amount) => amount,
            Err(e) => return Err(e),
        };
        self.reserve = reserve;
        self.publish_last_reclaim();
        Ok(amount)
    }

    /// The host moved reserve liquidity: the reserve available for transfer becomes `amount`.
    pub fn set_available_reserve(&mut self, amount: i128)
        ensures
            final(self)@ == old(self)@.set_available_reserve(amount),
    {
        proof {
            use_type_invariant(&*self);
        }
        let mut reserve = self.reserve;
        reserve.available = amount;
        self.reserve = reserve;
    }

    /// Whether `initialize` has succeeded.
    pub fn is_initialized(&self) -> (r: bool)
        ensures
            r == self@.config is Some,
    {
        self.config.is_some()
    }

    /// Creator, expiry ledger and recovery address; `None` while not initialized.
    pub fn config(&self) -> (r: Option<AccountConfig>)
        ensures
            r == self@.config,
    {
        self.config
    }

    /// Current status; an uninitialized account reports `Active`.
    pub fn get_status(&self) -> (r: AccountStatus)
        ensures
            r == (if self@.config is None {
                AccountStatus::Active
            } else {
                self@.status
            }),
    {
        proof {
            use_type_invariant(self);
        }
        if self.config.is_none() {
            return AccountStatus::Active;
        }
        self.status
    }

    /// The payment recorded for `asset`, if any.
    pub fn get_payment(&self, asset: &Address) -> (r: Option<Payment>)
        ensures
            r == payment_for(self@.payments, *asset),
    {
        proof {
            use_type_invariant(self);
        }
        find_payment(&self.payments, asset)
    }

    /// Every recorded payment, in the order recorded: at most `MAX_PAYMENTS`,
    /// one per asset, each positive.
    pub fn get_all_payments(&self) -> (r: Vec<Payment>)
        ensures
            r@ == self@.payments,
            payments_valid(r@),
    {
        proof {
            use_type_invariant(self);
        }
        let r = self.payments.clone();
        proof {
            assert(r@ =~= self.payments@);
        }
        r
    }

    /// Number of recorded payments.
    pub fn get_total_payments(&self) -> (r: u32)
        ensures
            r == self@.payments.len(),
            r <= MAX_PAYMENTS,
    {
        proof {
            use_type_invariant(self);
        }
        self.payments.len() as u32
    }

    /// Whether any payment has been recorded.
    pub fn has_payment_received(&self) -> (r: bool)
        ensures
            r == (self@.payments.len() > 0),
    {
        self.payments.len() > 0
    }

    /// Where the account was swept or returned to, once terminal.
    pub fn get_swept_to(&self) -> (r: Option<Address>)
        ensures
            r == self@.swept_to,
    {
        self.swept_to
    }

    /// The reserve tracking state as stored.
    pub fn reserve(&self) -> (r: ReserveState)
        ensures
            r == self@.reserve,
            r.wf(),
    {
        proof {
            use_type_invariant(self);
        }
        self.reserve
    }

    /// Reserve still owed; 0 while not initialized.
    pub fn get_reserve_remaining(&self) -> (r: i128)
        ensures
            r == (if self@.config is None {
                0
            } else {
                self@.reserve.remaining
            }),
    {
        if self.config.is_none() {
            return 0;
        }
        self.reserve.remaining
    }

    /// Reserve currently available for transfer; 0 while not initialized.
    pub fn get_reserve_available(&self) -> (r: i128)
        ensures
            r == (if self@.config is None {
                0
            } else {
                self@.reserve.available
            }),
    {
        if self.config.is_none() {
            return 0;
        }
        self.reserve.available
    }

    /// Whether the reserve has been fully reclaimed; `false` while not initialized.
    pub fn is_reserve_reclaimed(&self) -> (r: bool)
        ensures
            r == (self@.config is Some && self@.reserve.reclaimed),
    {
        if self.config.is_none() {
            return false;
        }
        self.reserve.reclaimed
    }

    /// The latest reserve reclaim record; `None` while not initialized.
    pub fn get_last_reserve_event(&self) -> (r: Option<ReserveReclaimed>)
        ensures
            r == (if self@.config is None {
                None
            } else {
                self@.reserve.last_event
            }),
    {
        if self.config.is_none() {
            return None;
        }
        self.reserve.last_event
    }

    /// Number of reserve reclaim records; 0 while not initialized.
    pub fn get_reserve_reclaim_event_count(&self) -> (r: u32)
        ensures
            r == (if self@.config is None {
                0
            } else {
                self@.reserve.event_count
            }),
    {
        if self.config.is_none() {
            return 0;
        }
        self.reserve.event_count
    }

    /// The whole account: configuration, status, payments and destination.
    pub fn get_info(&self) -> (r: Result<AccountInfo, Error>)
        ensures
            self@.config is None ==> (r matches Err(e) && e == Error::NotInitialized),
            self@.config matches Some(c) ==> (r matches Ok(info) && {
                &&& info.creator == c.creator
                &&& info.status == self@.status
                &&& info.expiry_ledger == c.expiry_ledger
                &&& info.recovery_address == c.recovery_address
                &&& info.payment_received == (self@.payments.len() > 0)
                &&& info.payment_count == self@.payments.len()
                &&& info.payments@ == self@.payments
                &&& info.swept_to == self@.swept_to
            }),
    {
        let config = match self.config {
            Some(c) => c,
            None => return Err(Error::NotInitialized),
        };
        let payments = self.get_all_payments();
        let payment_count = self.get_total_payments();
        Ok(
            AccountInfo {
                creator: config.creator,
                status: self.status,
                expiry_ledger: config.expiry_ledger,
                recovery_address: config.recovery_address,
                payment_received: payment_count > 0,
                payment_count,
                payments,
                swept_to: self.swept_to,
            },
        )
    }

    /// Published notifications not yet taken.
    pub fn events(&self) -> (r: &Vec<AccountEvent>)
        ensures
            events_view(r@) == self@.events,
    {
        &self.events
    }

    /// Hands out the published notifications, oldest first, and clears them.
    pub fn take_events(&mut self) -> (r: Vec<AccountEvent>)
        ensures
            events_view(r@) == old(self)@.events,
            final(self)@ == (AccountModel { events: Seq::empty(), ..old(self)@ }),
    {
        proof {
            use_type_invariant(&*self);
        }
        let mut events = Vec::new();
        std::mem::swap(&mut events, &mut self.events);
        proof {
            assert(events_view(self.events@) =~= Seq::empty());
        }
        events
    }
}

} // verus!
