use account_ledger::ledger::{BankAccount, LedgerError, TransactionType};

fn account(number: &str, owner: &str, balance: i64) -> BankAccount {
    BankAccount::account_with_initial(number.to_string(), owner.to_string(), balance)
        .expect("opening balance is non-negative")
}

#[test]
fn new_account_starts_empty() {
    let a = BankAccount::new("RYD_12312".to_string(), "Riyad_Karim".to_string());
    assert_eq!(a.get_current_balance(), 0);
    assert_eq!(a.get_account_number(), "RYD_12312");
    assert_eq!(a.get_transactions().len(), 0);
    assert_eq!(a.total_deposit(), 0);
}

#[test]
fn opening_balance_is_kept() {
    let a = account("A1", "Alice", 250);
    assert_eq!(a.get_current_balance(), 250);
    assert_eq!(a.get_transactions().len(), 0);
    assert_eq!(a.total_deposit(), 0);
}

#[test]
fn negative_opening_balance_is_rejected() {
    let r = BankAccount::account_with_initial("A1".to_string(), "Alice".to_string(), -5);
    assert_eq!(r.unwrap_err(), LedgerError::NegativeOpeningBalance);
}

#[test]
fn deposit_then_withdraw_scenario() {
    let mut a = account("A1", "Alice", 0);

    assert_eq!(a.make_deposit(100, "first pay".to_string()), Ok(()));
    assert_eq!(a.get_current_balance(), 100);
    assert_eq!(a.get_transactions().len(), 1);

    assert_eq!(a.make_withdraw(40, "groceries".to_string()), Ok(()));
    assert_eq!(a.get_current_balance(), 60);
    assert_eq!(a.get_transactions().len(), 2);

    assert_eq!(
        a.make_withdraw(1000, "splurge".to_string()),
        Err(LedgerError::InsufficientFunds)
    );
    assert_eq!(a.get_current_balance(), 60);
    assert_eq!(a.get_transactions().len(), 2);
}

#[test]
fn non_positive_amounts_are_invalid() {
    let mut a = account("A1", "Alice", 80);
    let mut b = account("A2", "Bob", 10);

    assert_eq!(a.make_deposit(0, "zero".to_string()), Err(LedgerError::InvalidAmount));
    assert_eq!(a.make_deposit(-3, "minus".to_string()), Err(LedgerError::InvalidAmount));
    assert_eq!(a.make_withdraw(0, "zero".to_string()), Err(LedgerError::InvalidAmount));
    assert_eq!(a.make_withdraw(-1, "minus".to_string()), Err(LedgerError::InvalidAmount));
    assert_eq!(
        a.make_fund_transfer(&mut b, 0, "zero".to_string()),
        Err(LedgerError::InvalidAmount)
    );
    assert_eq!(
        a.make_fund_transfer(&mut b, -7, "minus".to_string()),
        Err(LedgerError::InvalidAmount)
    );

    assert_eq!(a.get_current_balance(), 80);
    assert_eq!(a.get_transactions().len(), 0);
    assert_eq!(b.get_current_balance(), 10);
    assert_eq!(b.get_transactions().len(), 0);
}

#[test]
fn insufficient_funds_change_nothing() {
    let mut a = account("A1", "Alice", 60);
    let mut b = account("A2", "Bob", 5);

    assert_eq!(
        a.make_withdraw(61, "too much".to_string()),
        Err(LedgerError::InsufficientFunds)
    );
    assert_eq!(
        a.make_fund_transfer(&mut b, 61, "too much".to_string()),
        Err(LedgerError::InsufficientFunds)
    );

    assert_eq!(a.get_current_balance(), 60);
    assert_eq!(a.get_transactions().len(), 0);
    assert_eq!(b.get_current_balance(), 5);
    assert_eq!(b.get_transactions().len(), 0);
}

#[test]
fn transfer_scenario() {
    let mut a = account("A1", "Alice", 100);
    let mut b = account("A2", "Bob", 50);

    assert_eq!(a.make_fund_transfer(&mut b, 30, "rent".to_string()), Ok(()));
    assert_eq!(a.get_current_balance(), 70);
    assert_eq!(b.get_current_balance(), 80);
    assert_eq!(a.get_transactions().len(), 1);
    assert_eq!(b.get_transactions().len(), 1);
}

#[test]
fn transfer_records_both_legs() {
    let mut a = account("A1", "Alice", 100);
    let mut b = account("A2", "Bob", 50);
    assert_eq!(a.make_deposit(20, "top-up".to_string()), Ok(()));

    assert_eq!(a.make_fund_transfer(&mut b, 30, "rent".to_string()), Ok(()));

    let debit = &a.get_transactions()[1];
    assert_eq!(debit.transaction_type(), TransactionType::Withdrawal);
    assert_eq!(debit.amount(), 30);
    assert_eq!(debit.timestamp(), 1);
    assert_eq!(debit.description(), "rent");

    let credit = &b.get_transactions()[0];
    assert_eq!(credit.transaction_type(), TransactionType::Transfer);
    assert_eq!(credit.amount(), 30);
    assert_eq!(credit.timestamp(), 0);
    assert_eq!(credit.description(), "rent");
}

#[test]
fn transfer_to_same_account_number_is_rejected() {
    let mut a = account("A1", "Alice", 100);
    let mut impostor = account("A1", "Alice again", 100);

    assert_eq!(
        a.make_fund_transfer(&mut impostor, 30, "loop".to_string()),
        Err(LedgerError::SelfTransfer)
    );
    assert_eq!(a.get_current_balance(), 100);
    assert_eq!(impostor.get_current_balance(), 100);
    assert_eq!(a.get_transactions().len(), 0);
    assert_eq!(impostor.get_transactions().len(), 0);
}

#[test]
fn total_deposit_sums_only_deposits() {
    let mut a = account("A1", "Alice", 500);
    let mut b = account("A2", "Bob", 0);

    assert_eq!(a.total_deposit(), 0);
    assert_eq!(a.make_deposit(100, "pay".to_string()), Ok(()));
    assert_eq!(a.make_deposit(40, "gift".to_string()), Ok(()));
    assert_eq!(a.make_withdraw(70, "rent".to_string()), Ok(()));
    assert_eq!(a.make_fund_transfer(&mut b, 25, "share".to_string()), Ok(()));

    assert_eq!(a.total_deposit(), 140);
    // The incoming transfer leg is not a deposit.
    assert_eq!(b.total_deposit(), 0);
    assert_eq!(b.get_current_balance(), 25);
}

#[test]
fn balance_tracks_history_net() {
    let mut a = account("A1", "Alice", 10);
    let mut b = account("A2", "Bob", 0);

    assert_eq!(a.make_deposit(100, "pay".to_string()), Ok(()));
    assert_eq!(a.make_withdraw(30, "rent".to_string()), Ok(()));
    assert_eq!(a.make_fund_transfer(&mut b, 20, "share".to_string()), Ok(()));
    assert_eq!(b.make_fund_transfer(&mut a, 5, "change".to_string()), Ok(()));

    let mut net: i64 = 10;
    for t in a.get_transactions() {
        match t.transaction_type() {
            TransactionType::Deposit => net += t.amount(),
            TransactionType::Withdrawal => net -= t.amount(),
            TransactionType::Transfer => net += t.amount(),
        }
    }
    assert_eq!(a.get_current_balance(), net);
    assert_eq!(a.get_current_balance(), 65);
    assert_eq!(b.get_current_balance(), 15);
}

#[test]
fn history_is_ordered_by_call_order() {
    let mut a = account("A1", "Alice", 0);
    assert_eq!(a.make_deposit(50, "one".to_string()), Ok(()));
    assert_eq!(a.make_deposit(60, "two".to_string()), Ok(()));
    assert_eq!(a.make_withdraw(10, "three".to_string()), Ok(()));

    let history = a.get_transactions();
    assert_eq!(history.len(), 3);
    assert_eq!(history[0].description(), "one");
    assert_eq!(history[1].description(), "two");
    assert_eq!(history[2].description(), "three");
    for (i, t) in history.iter().enumerate() {
        assert_eq!(t.timestamp(), i as u64);
    }

    // Read-only queries leave the log untouched.
    let len_before = a.get_transactions().len();
    let _ = a.get_current_balance();
    let _ = a.total_deposit();
    let _ = a.get_account_number();
    assert_eq!(a.get_transactions().len(), len_before);
    assert_eq!(a.get_transactions()[0].description(), "one");
}
