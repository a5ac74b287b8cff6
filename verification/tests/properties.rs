use chain_ledger::balances;
use chain_ledger::error::StateError;
use chain_ledger::runtime::Runtime;
use chain_ledger::store::Store;
use chain_ledger::system;

struct TestConfig;

impl balances::Config for TestConfig {
    type AccountId = String;
    type Balance = u128;
}

fn alice() -> String {
    "alice".to_string()
}

fn bob() -> String {
    "bob".to_string()
}

fn charlie() -> String {
    "charlie".to_string()
}

#[test]
fn never_set_accounts_default_to_zero() {
    let rt = Runtime::new();
    assert_eq!(rt.balances.balance(&alice()), 0);
    assert_eq!(rt.balances.balance(&charlie()), 0);
    assert_eq!(rt.system.get_nonce(&alice()), 0);
    assert_eq!(rt.system.get_nonce(&bob()), 0);
    assert_eq!(rt.system.block_number(), 0);
}

#[test]
fn set_balance_then_read() {
    let mut balances = balances::Pallet::<TestConfig>::new();
    balances.set_balance(&alice(), 7);
    assert_eq!(balances.balance(&alice()), 7);
    balances.set_balance(&alice(), u128::MAX);
    assert_eq!(balances.balance(&alice()), u128::MAX);
    assert_eq!(balances.balance(&bob()), 0);
}

#[test]
fn insufficient_funds_leaves_balances_unchanged() {
    let mut balances = balances::Pallet::<TestConfig>::new();
    balances.set_balance(&alice(), 10);
    balances.set_balance(&bob(), 3);
    assert_eq!(
        balances.transfer(alice(), bob(), 11),
        Err(StateError::InsufficientFunds)
    );
    assert_eq!(balances.balance(&alice()), 10);
    assert_eq!(balances.balance(&bob()), 3);
}

#[test]
fn overflow_leaves_balances_unchanged() {
    let mut balances = balances::Pallet::<TestConfig>::new();
    balances.set_balance(&alice(), 5);
    balances.set_balance(&bob(), u128::MAX - 2);
    assert_eq!(balances.transfer(alice(), bob(), 3), Err(StateError::Overflow));
    assert_eq!(StateError::Overflow.message(), "Overflow");
    assert_eq!(balances.balance(&alice()), 5);
    assert_eq!(balances.balance(&bob()), u128::MAX - 2);
}

#[test]
fn successful_transfer_conserves_total() {
    let mut balances = balances::Pallet::<TestConfig>::new();
    balances.set_balance(&alice(), 60);
    balances.set_balance(&bob(), 40);
    assert_eq!(balances.transfer(alice(), bob(), 25), Ok(()));
    assert_eq!(balances.balance(&alice()), 35);
    assert_eq!(balances.balance(&bob()), 65);
    assert_eq!(balances.balance(&alice()) + balances.balance(&bob()), 100);
}

#[test]
fn self_transfer_leaves_balance_unchanged() {
    let mut balances = balances::Pallet::<TestConfig>::new();
    balances.set_balance(&alice(), 100);
    assert_eq!(balances.transfer(alice(), alice(), 100), Ok(()));
    assert_eq!(balances.balance(&alice()), 100);
    assert_eq!(balances.transfer(alice(), alice(), 0), Ok(()));
    assert_eq!(balances.balance(&alice()), 100);
}

#[test]
fn self_transfer_still_checks_overflow() {
    let mut balances = balances::Pallet::<TestConfig>::new();
    balances.set_balance(&alice(), u128::MAX);
    assert_eq!(
        balances.transfer(alice(), alice(), 1),
        Err(StateError::Overflow)
    );
    assert_eq!(balances.balance(&alice()), u128::MAX);
}

#[test]
fn transfer_of_zero_always_succeeds() {
    let mut balances = balances::Pallet::<TestConfig>::new();
    assert_eq!(balances.transfer(alice(), bob(), 0), Ok(()));
    assert_eq!(balances.balance(&alice()), 0);
    assert_eq!(balances.balance(&bob()), 0);
}

#[test]
fn block_number_counts_increments() {
    let mut system = system::Pallet::<u32, String, u32>::new();
    assert_eq!(system.block_number(), 0);
    for _ in 0..5 {
        system.inc_block_number().unwrap();
    }
    assert_eq!(system.block_number(), 5);
}

#[test]
fn block_number_overflow_is_recoverable() {
    let mut system = system::Pallet::<u8, String, u8>::new();
    for _ in 0..255 {
        system.inc_block_number().unwrap();
    }
    assert_eq!(system.block_number(), 255);
    assert_eq!(
        system.inc_block_number(),
        Err(StateError::BlockNumberOverflow)
    );
    assert_eq!(StateError::BlockNumberOverflow.message(), "Block number overflow");
    assert_eq!(system.block_number(), 255);
}

#[test]
fn nonce_counts_increments() {
    let mut system = system::Pallet::<u32, String, u32>::new();
    for _ in 0..3 {
        system.inc_nonce(&alice()).unwrap();
    }
    assert_eq!(system.get_nonce(&alice()), 3);
    assert_eq!(system.get_nonce(&bob()), 0);
}

#[test]
fn nonce_overflow_is_recoverable() {
    let mut system = system::Pallet::<u8, String, u8>::new();
    for _ in 0..255 {
        system.inc_nonce(&alice()).unwrap();
    }
    assert_eq!(system.get_nonce(&alice()), 255);
    assert_eq!(system.inc_nonce(&alice()), Err(StateError::NonceOverflow));
    assert_eq!(StateError::NonceOverflow.message(), "Nonce overflow");
    assert_eq!(system.get_nonce(&alice()), 255);
    assert_eq!(system.block_number(), 0);
}

#[test]
fn end_to_end_block_execution() {
    let mut rt = Runtime::new();
    rt.balances.set_balance(&alice(), 100);

    rt.system.inc_block_number().unwrap();
    assert_eq!(rt.system.block_number(), 1);

    rt.system.inc_nonce(&alice()).unwrap();
    assert_eq!(rt.system.get_nonce(&alice()), 1);
    assert_eq!(rt.balances.transfer(alice(), bob(), 30), Ok(()));
    assert_eq!(rt.balances.balance(&alice()), 70);
    assert_eq!(rt.balances.balance(&bob()), 30);

    rt.system.inc_nonce(&alice()).unwrap();
    assert_eq!(rt.system.get_nonce(&alice()), 2);
    assert_eq!(rt.balances.transfer(alice(), charlie(), 20), Ok(()));
    assert_eq!(rt.balances.balance(&alice()), 50);
    assert_eq!(rt.balances.balance(&charlie()), 20);
}

#[test]
fn end_to_end_failure_scenario() {
    let mut rt = Runtime::new();
    assert_eq!(rt.balances.balance(&alice()), 0);
    assert_eq!(
        rt.balances.transfer(alice(), bob(), 51),
        Err(StateError::InsufficientFunds)
    );

    rt.balances.set_balance(&alice(), 100);
    assert_eq!(rt.balances.transfer(alice(), bob(), 51), Ok(()));
    assert_eq!(
        rt.balances.transfer(alice(), bob(), 51),
        Err(StateError::InsufficientFunds)
    );
    assert_eq!(rt.balances.balance(&alice()), 49);
    assert_eq!(rt.balances.balance(&bob()), 51);
}

#[test]
fn nonce_advances_even_when_transfer_fails() {
    let mut rt = Runtime::new();
    assert_eq!(
        rt.execute_transaction(&alice(), &bob(), 10),
        Err(StateError::InsufficientFunds)
    );
    assert_eq!(rt.system.get_nonce(&alice()), 1);
    assert_eq!(rt.balances.balance(&alice()), 0);

    rt.balances.set_balance(&alice(), 30);
    assert_eq!(rt.execute_transaction(&alice(), &bob(), 10), Ok(()));
    assert_eq!(rt.system.get_nonce(&alice()), 2);
    assert_eq!(rt.balances.balance(&alice()), 20);
    assert_eq!(rt.balances.balance(&bob()), 10);
}

#[test]
fn store_overwrites_and_keeps_other_keys() {
    let mut store: Store<String, u64> = Store::new();
    assert_eq!(store.get(&alice()), None);
    store.insert(&alice(), 1);
    store.insert(&bob(), 2);
    store.insert(&alice(), 9);
    assert_eq!(store.get(&alice()), Some(9));
    assert_eq!(store.get(&bob()), Some(2));
    assert_eq!(store.get(&charlie()), None);
}
