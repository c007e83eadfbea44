use vstd::prelude::*;

use crate::address::Address;

verus! {

/// Largest accepted base reserve: 10 000 XLM, in stroops. It catches amounts
/// given in XLM instead of stroops.
pub const MAX_RESERVE_STROOPS: i128 = 100_000_000_000;

/// Why an operation on the reserve registry was refused.
#[derive(Clone, Copy, Debug, PartialEq, Eq, Structural)]
pub enum Error {
    /// The amount is zero or negative.
    InvalidAmount,
    /// No base reserve has been stored yet.
    ReserveNotSet,
    /// The caller is not the admin.
    Unauthorized,
    /// `initialize` was called more than once.
    AlreadyInitialized,
    /// A change was attempted before `initialize`.
    NotInitialized,
    /// The amount is above `MAX_RESERVE_STROOPS`.
    AmountTooLarge,
}

/// Storage slots of the registry.
#[derive(Clone, Copy, Debug, PartialEq, Eq, Structural)]
pub enum DataKey {
    /// The configured base reserve, in stroops.
    BaseReserve,
    /// The admin allowed to change it.
    Admin,
}

/// Published once, when the registry is initialized.
#[derive(Clone, Copy, Debug, PartialEq, Eq)]
pub struct ContractInitialized {
    pub admin: Address,
}

/// Published whenever a new base reserve is stored; `old_value` is 0 when none was set.
#[derive(Clone, Copy, Debug, PartialEq, Eq)]
pub struct BaseReserveUpdated {
    pub old_value: i128,
    pub new_value: i128,
    pub admin: Address,
}

/// A notification published by the registry.
#[derive(Clone, Copy, Debug, PartialEq, Eq)]
pub enum RegistryEvent {
    Initialized(ContractInitialized),
    BaseReserveUpdated(BaseReserveUpdated),
}

/// The abstract state of the registry.
pub struct RegistryModel {
    pub admin: Option<Address>,
    pub base_reserve: Option<i128>,
    /// Notifications published and not yet taken.
    pub events: Seq<RegistryEvent>,
}

impl RegistryModel {
    /// `initialize` with `admin`.
    pub open spec fn initialize(self, admin: Address) -> (RegistryModel, Result<(), Error>) {
        if self.admin is Some {
            (self, Err(Error::AlreadyInitialized))
        } else {
            (
                RegistryModel {
                    admin: Some(admin),
                    events: self.events.push(
                        RegistryEvent::Initialized(ContractInitialized { admin }),
                    ),
                    ..self
                },
                Ok(()),
            )
        }
    }

    /// `set_base_reserve` with `amount`.
    pub open spec fn set_base_reserve(self, amount: i128) -> (RegistryModel, Result<(), Error>) {
        match self.admin {
            None => (self, Err(Error::NotInitialized)),
            Some(admin) => if amount <= 0 {
                (self, Err(Error::InvalidAmount))
            } else if amount > MAX_RESERVE_STROOPS {
                (self, Err(Error::AmountTooLarge))
            } else {
                let old_value = match self.base_reserve {
                    Some(v) => v,
                    None => 0,
                };
                (
                    RegistryModel {
                        base_reserve: Some(amount),
                        events: self.events.push(
                            RegistryEvent::BaseReserveUpdated(
                                BaseReserveUpdated { old_value, new_value: amount, admin },
                            ),
                        ),
                        ..self
                    },
                    Ok(()),
                )
            },
        }
    }
}

/// The registry that holds the one configured base reserve, changed only by its admin.
pub struct ReserveContract {
    admin: Option<Address>,
    base_reserve: Option<i128>,
    events: Vec<RegistryEvent>,
}

impl View for ReserveContract {
    type V = RegistryModel;

    closed spec fn view(&self) -> RegistryModel {
        RegistryModel { admin: self.admin, base_reserve: self.base_reserve, events: self.events@ }
    }
}

impl ReserveContract {
    /// A registry with no admin and no base reserve.
    pub fn new() -> (r: ReserveContract)
        ensures
            r@ == (RegistryModel { admin: None, base_reserve: None, events: Seq::empty() }),
    {
        ReserveContract { admin: None, base_reserve: None, events: Vec::new() }
    }

    /// Rebuilds a registry from its stored parts, with no pending notifications.
    pub fn from_parts(admin: Option<Address>, base_reserve: Option<i128>) -> (r: ReserveContract)
        ensures
            r@ == (RegistryModel { admin, base_reserve, events: Seq::empty() }),
    {
        ReserveContract { admin, base_reserve, events: Vec::new() }
    }

    /// Stores `admin`; allowed once.
    pub fn initialize(&mut self, admin: Address) -> (r: Result<(), Error>)
        ensures
            (final(self)@, r) == old(self)@.initialize(admin),
    {
        if self.admin.is_some() {
            return Err(Error::AlreadyInitialized);
        }
        self.admin = Some(admin);
        self.emit_initialized(admin);
        Ok(())
    }

    /// Publishes the `initialized` notification.
    fn emit_initialized(&mut self, admin: Address)
        ensures
            final(self)@ == (RegistryModel {
                events: old(self)@.events.push(
                    RegistryEvent::Initialized(ContractInitialized { admin }),
                ),
                ..old(self)@
            }),
    {
        self.events.push(RegistryEvent::Initialized(ContractInitialized { admin }));
    }

    /// Publishes the old and the new base reserve.
    fn emit_base_reserve_updated(&mut self, old_value: i128, new_value: i128, admin: Address)
        ensures
            final(self)@ == (RegistryModel {
                events: old(self)@.events.push(
                    RegistryEvent::BaseReserveUpdated(
                        BaseReserveUpdated { old_value, new_value, admin },
                    ),
                ),
                ..old(self)@
            }),
    {
        self.events.push(
            RegistryEvent::BaseReserveUpdated(BaseReserveUpdated { old_value, new_value, admin }),
        );
    }

    /// Stores a new base reserve of `amount` stroops, `0 < amount <= MAX_RESERVE_STROOPS`.
    /// Authorizing the admin is the host's part.
    pub fn set_base_reserve(&mut self, amount: i128) -> (r: Result<(), Error>)
        ensures
            (final(self)@, r) == old(self)@.set_base_reserve(amount),
    {
        let admin = match self.admin {
            Some(a) => a,
            None => return Err(Error::NotInitialized),
        };
        if amount <= 0 {
            return Err(Error::InvalidAmount);
        }
        if amount > MAX_RESERVE_STROOPS {
            return Err(Error::AmountTooLarge);
        }
        let old_value = match self.base_reserve {
            Some(v) => v,
            None => 0,
        };
        self.base_reserve = Some(amount);
        self.emit_base_reserve_updated(old_value, amount, admin);
        Ok(())
    }

    /// The configured base reserve, if any.
    pub fn get_base_reserve(&self) -> (r: Option<i128>)
        ensures
            r == self@.base_reserve,
    {
        self.base_reserve
    }

    /// The configured base reserve, or `ReserveNotSet`.
    pub fn require_base_reserve(&self) -> (r: Result<i128, Error>)
        ensures
            r == (match self@.base_reserve {
                Some(v) => Ok::<i128, Error>(v),
                None => Err(Error::ReserveNotSet),
            }),
    {
        match self.base_reserve {
            Some(v) => Ok(v),
            None => Err(Error::ReserveNotSet),
        }
    }

    /// Whether a base reserve is configured.
    pub fn has_base_reserve(&self) -> (r: bool)
        ensures
            r == self@.base_reserve is Some,
    {
        self.base_reserve.is_some()
    }

    /// The admin, once initialized.
    pub fn get_admin(&self) -> (r: Option<Address>)
        ensures
            r == self@.admin,
    {
        self.admin
    }

    /// Whether an admin is set, that is, whether the registry is initialized.
    pub fn has_admin(&self) -> (r: bool)
        ensures
            r == self@.admin is Some,
    {
        self.admin.is_some()
    }

    /// Hands out the published notifications, oldest first, and clears them.
    pub fn take_events(&mut self) -> (r: Vec<RegistryEvent>)
        ensures
            r@ == old(self)@.events,
            final(self)@ == (RegistryModel { events: Seq::empty(), ..old(self)@ }),
    {
        let mut events = Vec::new();
        std::mem::swap(&mut events, &mut self.events);
        events
    }
}

} // verus!
