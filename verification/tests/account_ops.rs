use transaction_engine::{Account, AccountId, Amount};

// The account under test is built through its public operations: a deposit
// fills the available balance, a hold moves funds to the held balance, and a
// chargeback of zero locks an account without touching its balances.

fn account_with(available: u64, held: u64) -> Account {
    let mut account = Account::new(AccountId::new(0));
    account.deposit(Amount::from_num(available + held)).unwrap();
    if held > 0 {
        account.hold_back(Amount::from_num(held)).unwrap();
    }
    account
}

fn lock(account: &mut Account) {
    account.charge_back(Amount::from_num(0)).unwrap();
    assert!(account.locked());
}

#[test]
fn deposit_increases_available() {
    let mut account = Account::new(AccountId::new(0));

    assert_eq!(account.available(), Amount::from_num(0));
    assert_eq!(account.held(), Amount::from_num(0));

    account.deposit(Amount::from_num(100)).unwrap();

    assert_eq!(account.available(), Amount::from_num(100));
    assert_eq!(account.held(), Amount::from_num(0));
}

#[test]
fn deposit_on_locked_fails() {
    let mut account = Account::new(AccountId::new(0));
    lock(&mut account);

    assert_eq!(account.available(), Amount::from_num(0));
    assert_eq!(account.held(), Amount::from_num(0));

    account.deposit(Amount::from_num(100)).unwrap_err();

    assert_eq!(account.available(), Amount::from_num(0));
    assert_eq!(account.held(), Amount::from_num(0));
}

#[test]
fn withdrawal_decreases_available() {
    let mut account = account_with(100, 0);

    assert_eq!(account.available(), Amount::from_num(100));
    assert_eq!(account.held(), Amount::from_num(0));

    account.withdrawal(Amount::from_num(100)).unwrap();

    assert_eq!(account.available(), Amount::from_num(0));
    assert_eq!(account.held(), Amount::from_num(0));
}

#[test]
fn withdrawal_underflow_fails() {
    let mut account = account_with(100, 0);

    assert_eq!(account.available(), Amount::from_num(100));
    assert_eq!(account.held(), Amount::from_num(0));

    account.withdrawal(Amount::from_num(200)).unwrap_err();

    assert_eq!(account.available(), Amount::from_num(100));
    assert_eq!(account.held(), Amount::from_num(0));
}

#[test]
fn withdrawal_on_locked_fails() {
    let mut account = account_with(100, 0);
    lock(&mut account);

    assert_eq!(account.available(), Amount::from_num(100));
    assert_eq!(account.held(), Amount::from_num(0));

    account.withdrawal(Amount::from_num(100)).unwrap_err();

    assert_eq!(account.available(), Amount::from_num(100));
    assert_eq!(account.held(), Amount::from_num(0));
}

#[test]
fn hold_back_increases_held() {
    let mut account = account_with(100, 0);

    assert_eq!(account.available(), Amount::from_num(100));
    assert_eq!(account.held(), Amount::from_num(0));

    account.hold_back(Amount::from_num(50)).unwrap();

    assert_eq!(account.available(), Amount::from_num(50));
    assert_eq!(account.held(), Amount::from_num(50));
}

#[test]
fn hold_back_underflow_fails() {
    let mut account = account_with(100, 0);

    assert_eq!(account.available(), Amount::from_num(100));
    assert_eq!(account.held(), Amount::from_num(0));

    account.hold_back(Amount::from_num(200)).unwrap_err();

    assert_eq!(account.available(), Amount::from_num(100));
    assert_eq!(account.held(), Amount::from_num(0));
}

#[test]
fn hold_back_on_locked_fails() {
    let mut account = account_with(100, 0);
    lock(&mut account);

    assert_eq!(account.available(), Amount::from_num(100));
    assert_eq!(account.held(), Amount::from_num(0));

    account.hold_back(Amount::from_num(50)).unwrap_err();

    assert_eq!(account.available(), Amount::from_num(100));
    assert_eq!(account.held(), Amount::from_num(0));
}

#[test]
fn set_free_decreases_held() {
    let mut account = account_with(50, 50);

    assert_eq!(account.available(), Amount::from_num(50));
    assert_eq!(account.held(), Amount::from_num(50));

    account.set_free(Amount::from_num(50)).unwrap();

    assert_eq!(account.available(), Amount::from_num(100));
    assert_eq!(account.held(), Amount::from_num(0));
}

#[test]
fn set_free_underflow_fails() {
    let mut account = account_with(50, 50);

    assert_eq!(account.available(), Amount::from_num(50));
    assert_eq!(account.held(), Amount::from_num(50));

    account.set_free(Amount::from_num(100)).unwrap_err();

    assert_eq!(account.available(), Amount::from_num(50));
    assert_eq!(account.held(), Amount::from_num(50));
}

#[test]
fn set_free_on_locked_fails() {
    let mut account = account_with(50, 50);
    lock(&mut account);

    assert_eq!(account.available(), Amount::from_num(50));
    assert_eq!(account.held(), Amount::from_num(50));

    account.set_free(Amount::from_num(50)).unwrap_err();

    assert_eq!(account.available(), Amount::from_num(50));
    assert_eq!(account.held(), Amount::from_num(50));
}

#[test]
fn charge_back_decreases_available() {
    let mut account = account_with(50, 50);

    assert_eq!(account.available(), Amount::from_num(50));
    assert_eq!(account.held(), Amount::from_num(50));

    account.charge_back(Amount::from_num(50)).unwrap();

    assert_eq!(account.available(), Amount::from_num(50));
    assert_eq!(account.held(), Amount::from_num(0));
    assert!(account.locked());
}

#[test]
fn charge_back_underflow_fails() {
    let mut account = account_with(50, 50);

    assert_eq!(account.available(), Amount::from_num(50));
    assert_eq!(account.held(), Amount::from_num(50));

    account.charge_back(Amount::from_num(100)).unwrap_err();

    assert_eq!(account.available(), Amount::from_num(50));
    assert_eq!(account.held(), Amount::from_num(50));
    assert!(!account.locked());
}

#[test]
fn charge_back_on_locked_fails() {
    let mut account = account_with(50, 50);
    lock(&mut account);

    assert_eq!(account.available(), Amount::from_num(50));
    assert_eq!(account.held(), Amount::from_num(50));

    account.charge_back(Amount::from_num(50)).unwrap_err();

    assert_eq!(account.available(), Amount::from_num(50));
    assert_eq!(account.held(), Amount::from_num(50));
    assert!(account.locked());
}
