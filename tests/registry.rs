use ephemeral_account::registry::{BaseReserveUpdated, Error, RegistryEvent, ReserveContract};
use ephemeral_account::Address;

fn address(n: u8) -> Address {
    Address::contract([n; 32])
}

fn setup() -> (ReserveContract, Address) {
    let mut registry = ReserveContract::new();
    let admin = address(1);
    registry.initialize(admin).unwrap();
    (registry, admin)
}

#[test]
fn test_initialize_stores_admin() {
    let mut registry = ReserveContract::new();
    let new_admin = address(2);
    registry.initialize(new_admin).unwrap();
    assert_eq!(registry.get_admin(), Some(new_admin));
}

#[test]
fn test_initialize_twice_panics() {
    let (mut registry, admin) = setup();
    let another = address(3);
    assert_eq!(registry.initialize(another), Err(Error::AlreadyInitialized));
    assert_eq!(registry.get_admin(), Some(admin));
}

#[test]
fn test_set_base_reserve_before_initialize_panics() {
    let mut registry = ReserveContract::new();
    assert_eq!(registry.set_base_reserve(1_000_000_000i128), Err(Error::NotInitialized));
}

#[test]
fn test_get_base_reserve_returns_none_when_not_set() {
    let registry = ReserveContract::new();
    assert_eq!(registry.get_base_reserve(), None);
}

#[test]
fn test_has_base_reserve_returns_false_when_not_set() {
    let registry = ReserveContract::new();
    assert!(!registry.has_base_reserve());
}

#[test]
fn test_require_base_reserve_panics_when_not_set() {
    let registry = ReserveContract::new();
    assert_eq!(registry.require_base_reserve(), Err(Error::ReserveNotSet));
}

#[test]
fn test_set_and_get_base_reserve() {
    let (mut registry, _admin) = setup();
    let reserve = 1_000_000_000i128;
    registry.set_base_reserve(reserve).unwrap();

    assert_eq!(registry.get_base_reserve(), Some(reserve));
    assert!(registry.has_base_reserve());
    assert_eq!(registry.require_base_reserve(), Ok(reserve));
}

#[test]
fn test_set_base_reserve_minimum_valid_value() {
    let (mut registry, _admin) = setup();
    registry.set_base_reserve(1i128).unwrap();
    assert_eq!(registry.get_base_reserve(), Some(1i128));
}

#[test]
fn test_set_base_reserve_overwrites_previous_value() {
    let (mut registry, _admin) = setup();

    registry.set_base_reserve(1_000_000_000i128).unwrap();
    assert_eq!(registry.get_base_reserve(), Some(1_000_000_000i128));

    registry.set_base_reserve(2_000_000_000i128).unwrap();
    assert_eq!(registry.get_base_reserve(), Some(2_000_000_000i128));

    assert!(registry.has_base_reserve());
}

#[test]
fn test_set_base_reserve_zero_is_rejected() {
    let (mut registry, _admin) = setup();
    assert_eq!(registry.set_base_reserve(0i128), Err(Error::InvalidAmount));
}

#[test]
fn test_set_base_reserve_negative_is_rejected() {
    let (mut registry, _admin) = setup();
    assert_eq!(registry.set_base_reserve(-1i128), Err(Error::InvalidAmount));
}

#[test]
fn test_set_base_reserve_min_i128_is_rejected() {
    let (mut registry, _admin) = setup();
    assert_eq!(registry.set_base_reserve(i128::MIN), Err(Error::InvalidAmount));
}

#[test]
fn test_set_base_reserve_at_max_is_accepted() {
    let (mut registry, _admin) = setup();
    let max = 100_000_000_000i128;
    registry.set_base_reserve(max).unwrap();
    assert_eq!(registry.get_base_reserve(), Some(max));
}

#[test]
fn test_set_base_reserve_above_max_is_rejected() {
    let (mut registry, _admin) = setup();
    assert_eq!(registry.set_base_reserve(100_000_000_001i128), Err(Error::AmountTooLarge));
}

#[test]
fn test_set_base_reserve_huge_value_is_rejected() {
    let (mut registry, _admin) = setup();
    assert_eq!(registry.set_base_reserve(i128::MAX), Err(Error::AmountTooLarge));
}

#[test]
fn test_two_contracts_are_independent() {
    let mut registry_a = ReserveContract::new();
    let mut registry_b = ReserveContract::new();

    let admin_a = address(1);
    let admin_b = address(2);
    registry_a.initialize(admin_a).unwrap();
    registry_b.initialize(admin_b).unwrap();

    registry_a.set_base_reserve(500_000_000i128).unwrap();

    assert_eq!(registry_b.get_base_reserve(), None);
    assert!(!registry_b.has_base_reserve());

    assert_eq!(registry_a.get_base_reserve(), Some(500_000_000i128));
}

#[test]
fn test_get_admin_returns_none_before_init() {
    let registry = ReserveContract::new();
    assert_eq!(registry.get_admin(), None);
}

#[test]
fn test_get_admin_returns_admin_after_init() {
    let (registry, admin) = setup();
    assert_eq!(registry.get_admin(), Some(admin));
}

#[test]
fn updates_publish_old_and_new_values() {
    let (mut registry, admin) = setup();
    registry.set_base_reserve(10).unwrap();
    registry.set_base_reserve(20).unwrap();
    assert_eq!(registry.set_base_reserve(0), Err(Error::InvalidAmount));
    let events = registry.take_events();
    assert_eq!(events.len(), 3);
    assert_eq!(
        events[1],
        RegistryEvent::BaseReserveUpdated(BaseReserveUpdated {
            old_value: 0,
            new_value: 10,
            admin
        })
    );
    assert_eq!(
        events[2],
        RegistryEvent::BaseReserveUpdated(BaseReserveUpdated {
            old_value: 10,
            new_value: 20,
            admin
        })
    );
    assert!(registry.take_events().is_empty());
}

#[test]
fn restored_registry_keeps_its_values() {
    let registry = ReserveContract::from_parts(Some(address(4)), Some(123));
    assert_eq!(registry.get_admin(), Some(address(4)));
    assert_eq!(registry.require_base_reserve(), Ok(123));
    assert!(registry.has_admin());
}
