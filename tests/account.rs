use ephemeral_account::{
    AccountEvent, AccountStatus, Address, EphemeralAccountContract, Error, FixedAuthorization,
    ReserveReclaimed, BASE_RESERVE_STROOPS,
};

const LEDGER: u32 = 0;
const NOW: u64 = 1_700_000_000;

fn address(n: u8) -> Address {
    Address::account([n; 32])
}

fn allow() -> FixedAuthorization {
    FixedAuthorization { approve: true }
}

fn initialized(creator: Address, recovery: Address) -> EphemeralAccountContract {
    let mut account = EphemeralAccountContract::new();
    let expiry_ledger = LEDGER + 1000;
    account
        .initialize(LEDGER, creator, expiry_ledger, recovery, BASE_RESERVE_STROOPS)
        .unwrap();
    account
}

fn latest_reserve_event(account: &EphemeralAccountContract) -> ReserveReclaimed {
    account
        .get_last_reserve_event()
        .expect("reserve event was not emitted")
}

#[test]
fn test_initialize() {
    let account = initialized(address(1), address(2));

    assert_eq!(account.get_status(), AccountStatus::Active);
    assert!(!account.is_expired(LEDGER));
    assert_eq!(account.get_reserve_remaining(), BASE_RESERVE_STROOPS);
    assert_eq!(account.get_reserve_available(), BASE_RESERVE_STROOPS);
    assert!(!account.is_reserve_reclaimed());
}

#[test]
fn test_record_payment() {
    let mut account = initialized(address(1), address(2));
    let asset = address(3);
    account.record_payment(NOW, 100, asset).unwrap();

    assert_eq!(account.get_status(), AccountStatus::PaymentReceived);
}

#[test]
fn test_multiple_payments() {
    let mut account = initialized(address(1), address(2));
    let asset1 = address(3);
    let asset2 = address(4);

    account.record_payment(NOW, 100, asset1).unwrap();
    let info = account.get_info().unwrap();
    assert_eq!(info.payment_count, 1);

    account.record_payment(NOW, 50, asset2).unwrap();
    let info = account.get_info().unwrap();
    assert_eq!(info.payment_count, 2);

    assert_eq!(account.get_status(), AccountStatus::PaymentReceived);
}

#[test]
fn test_sweep_single_asset() {
    let mut account = initialized(address(1), address(2));
    let asset = address(3);
    let destination = address(4);
    account.record_payment(NOW, 100, asset).unwrap();

    let auth_sig = [0u8; 64];
    account.sweep(LEDGER, destination, &auth_sig, &allow()).unwrap();

    assert_eq!(account.get_status(), AccountStatus::Swept);
    assert_eq!(account.get_reserve_remaining(), 0);
    assert!(account.is_reserve_reclaimed());

    let reserve_event = latest_reserve_event(&account);
    assert_eq!(reserve_event.destination, destination);
    assert_eq!(reserve_event.amount, BASE_RESERVE_STROOPS);
    assert_eq!(reserve_event.remaining_reserve, 0);
    assert!(reserve_event.fully_reclaimed);
    assert_eq!(reserve_event.sweep_id, LEDGER as u64);
    assert_eq!(account.get_reserve_reclaim_event_count(), 1);
}

#[test]
fn test_duplicate_asset() {
    let mut account = initialized(address(1), address(2));
    let asset = address(3);
    account.record_payment(NOW, 100, asset).unwrap();
    assert_eq!(account.record_payment(NOW, 50, asset), Err(Error::DuplicateAsset));
}

#[test]
fn test_too_many_assets() {
    let mut account = initialized(address(1), address(2));
    for i in 0..10u8 {
        let asset = address(100 + i);
        account.record_payment(NOW, 100 + i as i128, asset).unwrap();
    }

    let asset = address(200);
    assert_eq!(account.record_payment(NOW, 200, asset), Err(Error::TooManyPayments));
}

#[test]
fn test_sweep_reclaims_base_reserve_success_lifecycle() {
    let mut account = initialized(address(1), address(2));
    let destination = address(3);
    let asset1 = address(4);
    let asset2 = address(5);
    account.record_payment(NOW, 100, asset1).unwrap();
    account.record_payment(NOW, 200, asset2).unwrap();

    let auth_sig = [0u8; 64];
    account.sweep(LEDGER, destination, &auth_sig, &allow()).unwrap();

    assert_eq!(account.get_status(), AccountStatus::Swept);
    assert_eq!(account.get_reserve_remaining(), 0);
    assert!(account.is_reserve_reclaimed());

    let reserve_event = latest_reserve_event(&account);
    assert_eq!(reserve_event.destination, destination);
    assert_eq!(reserve_event.amount, BASE_RESERVE_STROOPS);
    assert_eq!(reserve_event.remaining_reserve, 0);
    assert!(reserve_event.fully_reclaimed);
    assert_eq!(account.get_reserve_reclaim_event_count(), 1);
}

#[test]
fn test_reserve_double_claim_prevention() {
    let mut account = initialized(address(1), address(2));
    let destination = address(3);
    let asset = address(4);
    account.record_payment(NOW, 100, asset).unwrap();

    let auth_sig = [0u8; 64];
    account.sweep(LEDGER, destination, &auth_sig, &allow()).unwrap();

    assert_eq!(account.get_reserve_remaining(), 0);
    assert!(account.is_reserve_reclaimed());

    let reclaimed_again = account.reclaim_reserve().unwrap();
    assert_eq!(reclaimed_again, 0);
    assert_eq!(account.get_reserve_remaining(), 0);

    let reserve_event = latest_reserve_event(&account);
    assert_eq!(reserve_event.destination, destination);
    assert_eq!(reserve_event.amount, 0);
    assert_eq!(reserve_event.remaining_reserve, 0);
    assert!(reserve_event.fully_reclaimed);
    assert_eq!(account.get_reserve_reclaim_event_count(), 2);
}

#[test]
fn test_reserve_reclaim_insufficient_balance_lifecycle() {
    let mut account = initialized(address(1), address(2));
    let destination = address(3);
    let asset = address(4);
    account.record_payment(NOW, 100, asset).unwrap();

    let initial_available = 250_000_000i128;
    account.set_available_reserve(initial_available);

    let auth_sig = [0u8; 64];
    account.sweep(LEDGER, destination, &auth_sig, &allow()).unwrap();

    let expected_remaining = BASE_RESERVE_STROOPS - initial_available;
    assert_eq!(account.get_status(), AccountStatus::Swept);
    assert_eq!(account.get_reserve_remaining(), expected_remaining);
    assert_eq!(account.get_reserve_available(), 0);
    assert!(!account.is_reserve_reclaimed());

    let partial_event = latest_reserve_event(&account);
    assert_eq!(partial_event.destination, destination);
    assert_eq!(partial_event.amount, initial_available);
    assert_eq!(partial_event.remaining_reserve, expected_remaining);
    assert!(!partial_event.fully_reclaimed);

    let no_balance_reclaim = account.reclaim_reserve().unwrap();
    assert_eq!(no_balance_reclaim, 0);
    assert_eq!(account.get_reserve_remaining(), expected_remaining);
    assert!(!account.is_reserve_reclaimed());

    account.set_available_reserve(expected_remaining);
    let final_reclaim = account.reclaim_reserve().unwrap();
    assert_eq!(final_reclaim, expected_remaining);
    assert_eq!(account.get_reserve_remaining(), 0);
    assert!(account.is_reserve_reclaimed());

    let noop_after_full_reclaim = account.reclaim_reserve().unwrap();
    assert_eq!(noop_after_full_reclaim, 0);
    assert_eq!(account.get_reserve_remaining(), 0);
    assert_eq!(account.get_reserve_reclaim_event_count(), 4);
}

#[test]
fn test_replay_sweep_call_does_not_reclaim_twice() {
    let mut account = initialized(address(1), address(2));
    let destination = address(3);
    let asset = address(4);
    account.record_payment(NOW, 100, asset).unwrap();

    let auth_sig = [0u8; 64];
    account.sweep(LEDGER, destination, &auth_sig, &allow()).unwrap();

    let reserve_events_before = account.get_reserve_reclaim_event_count();
    let replay_attempt = account.sweep(LEDGER, destination, &auth_sig, &allow());

    assert!(replay_attempt.is_err());
    assert_eq!(account.get_status(), AccountStatus::Swept);
    assert_eq!(account.get_reserve_remaining(), 0);
    assert!(account.is_reserve_reclaimed());
    assert_eq!(account.get_reserve_reclaim_event_count(), reserve_events_before);
}

#[test]
fn sweep_emits_payments_then_reserve_record() {
    let mut account = initialized(address(1), address(2));
    let destination = address(3);
    account.record_payment(NOW, 100, address(4)).unwrap();
    account.record_payment(NOW + 5, 7, address(5)).unwrap();
    account.sweep(LEDGER + 3, destination, &[1u8; 64], &allow()).unwrap();

    let events = account.take_events();
    assert_eq!(events.len(), 5);
    match &events[0] {
        AccountEvent::AccountCreated { creator, expiry_ledger } => {
            assert_eq!(*creator, address(1));
            assert_eq!(*expiry_ledger, LEDGER + 1000);
        }
        other => panic!("unexpected event {:?}", other),
    }
    match &events[1] {
        AccountEvent::PaymentReceived { amount, asset } => {
            assert_eq!(*amount, 100);
            assert_eq!(*asset, address(4));
        }
        other => panic!("unexpected event {:?}", other),
    }
    match &events[2] {
        AccountEvent::MultiPaymentReceived { asset, amount } => {
            assert_eq!(*asset, address(5));
            assert_eq!(*amount, 7);
        }
        other => panic!("unexpected event {:?}", other),
    }
    match &events[3] {
        AccountEvent::SweepExecutedMulti { destination: d, payments } => {
            assert_eq!(*d, destination);
            assert_eq!(payments.len(), 2);
            assert_eq!(payments[1].amount, 7);
            assert_eq!(payments[1].timestamp, NOW + 5);
        }
        other => panic!("unexpected event {:?}", other),
    }
    match &events[4] {
        AccountEvent::ReserveReclaimed(record) => {
            assert_eq!(record.amount, BASE_RESERVE_STROOPS);
            assert_eq!(record.sweep_id, (LEDGER + 3) as u64);
        }
        other => panic!("unexpected event {:?}", other),
    }
    assert!(account.take_events().is_empty());
}
