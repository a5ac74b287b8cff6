use chain_ledger::balances;
use chain_ledger::error::StateError;
use chain_ledger::system;

struct TestConfig;

impl balances::Config for TestConfig {
    type AccountId = String;
    type Balance = u128;
}

#[test]
fn init_balances() {
    let mut balances = balances::Pallet::<TestConfig>::new();

    assert_eq!(balances.balance(&"alice".to_string()), 0);
    balances.set_balance(&"alice".to_string(), 100);
    assert_eq!(balances.balance(&"alice".to_string()), 100);
    assert_eq!(balances.balance(&"bob".to_string()), 0);
}

#[test]
fn transfer_balance() {
    let mut balances = balances::Pallet::<TestConfig>::new();

    assert_eq!(
        balances.transfer("alice".to_string(), "bob".to_string(), 51),
        Err(StateError::InsufficientFunds)
    );
    assert_eq!(StateError::InsufficientFunds.message(), "Not enough funds.");

    balances.set_balance(&"alice".to_string(), 100);
    assert_eq!(
        balances.transfer("alice".to_string(), "bob".to_string(), 51),
        Ok(())
    );
    assert_eq!(balances.balance(&"alice".to_string()), 49);
    assert_eq!(balances.balance(&"bob".to_string()), 51);

    assert_eq!(
        balances.transfer("alice".to_string(), "bob".to_string(), 51),
        Err(StateError::InsufficientFunds)
    );
}

#[test]
fn init_system() {
    let mut system = system::Pallet::<u32, String, u32>::new();

    system.inc_block_number().unwrap();
    system.inc_nonce(&"alice".to_string()).unwrap();

    assert_eq!(system.block_number(), 1);
    assert_eq!(system.get_nonce(&"alice".to_string()), 1);
    assert_eq!(system.get_nonce(&"bob".to_string()), 0);
}
